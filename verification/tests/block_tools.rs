use cast_mcp::block::{BlockSelector, BlockTag};
use cast_mcp::block_tools::{contains_text, AgeArgs, BlockArgs, BlockNumberArgs, GasPriceArgs};
use cast_mcp::dispatch::{Action, Event, Session};
use cast_mcp::envelope::{ErrorKind, ResultEnvelope, INTERNAL_ERROR, PARSE_ERROR};
use cast_mcp::provider::{Prepared, ProviderCall, ProviderValue};
use cast_mcp::quantity::Quantity;
use cast_mcp::server::Server;
use cast_mcp::value::{ArgItem, ArgValue, RawArgs};

fn raw(entries: &[(&str, ArgValue)]) -> RawArgs {
    let mut args = RawArgs::new();
    for (key, value) in entries {
        args.insert(key.to_string(), value.clone());
    }
    args
}

fn text(value: &str) -> ArgValue {
    ArgValue::Text(value.to_string())
}

fn list(values: &[&str]) -> ArgValue {
    ArgValue::List(values.iter().map(|v| ArgItem::Text(v.to_string())).collect())
}

/// Runs one call to its end against a provider that answers with `answer`.
fn run(
    server: &Server,
    name: &str,
    args: &RawArgs,
    answer: &dyn Fn(&ProviderCall) -> Event,
) -> ResultEnvelope {
    let mut step = server.dispatch(name, args);
    for _ in 0..8 {
        let event = match &step.1 {
            Action::Finish(envelope) => {
                assert_eq!(step.0, Session::Completed);
                return envelope.clone();
            }
            Action::Connect { .. } => Event::Connected,
            Action::Lookup { .. } => Event::Failed("no lookup here".to_string()),
            Action::Ask(call) => answer(call),
        };
        step = server.advance(step.0, event);
    }
    panic!("the call did not end");
}

fn one_text(result: &ResultEnvelope) -> String {
    match result {
        ResultEnvelope::Success(texts) => {
            assert_eq!(texts.len(), 1);
            texts[0].clone()
        }
        ResultEnvelope::Failure(error) => panic!("unexpected failure: {:?}", error),
    }
}

#[test]
fn test_age_args_default() {
    let args = AgeArgs::default();
    assert_eq!(args.rpc, "http://localhost:8545");
    assert_eq!(args.block, None);
}

#[test]
fn test_age_args_clone() {
    let source = AgeArgs { rpc: "https://test.com".to_string(), block: Some("latest".to_string()) };
    let cloned = source.clone();
    assert_eq!(source.rpc, cloned.rpc);
    assert_eq!(source.block, cloned.block);
}

#[test]
fn test_age_block_tags() {
    let server = Server::new();
    let block_tags = vec!["earliest", "finalized", "safe", "latest", "pending"];
    let expected = [
        BlockTag::Earliest,
        BlockTag::Finalized,
        BlockTag::Safe,
        BlockTag::Latest,
        BlockTag::Pending,
    ];
    for (tag, selector) in block_tags.into_iter().zip(expected) {
        let args = AgeArgs { rpc: "https://1rpc.io/eth".to_string(), block: Some(tag.to_string()) };
        assert_eq!(
            server.age(&args),
            Prepared::Call(ProviderCall::Age { block: BlockSelector::Tag(selector) })
        );
        let sent = raw(&[("rpc", text("https://1rpc.io/eth")), ("block", text(tag))]);
        let response = run(&server, "age", &sent, &|call| match call {
            ProviderCall::Age { block } => {
                Event::Returned(ProviderValue::Text(format!("age of {:?}", block)))
            }
            other => panic!("unexpected call: {:?}", other),
        });
        let response_text = one_text(&response);
        assert!(!response_text.is_empty(), "Age response should not be empty for tag: {}", tag);
        assert_eq!(response_text, format!("age of {:?}", BlockSelector::Tag(selector)));
    }
}

#[test]
fn test_age_response_structure() {
    let server = Server::new();
    let sent = raw(&[("rpc", text("https://1rpc.io/eth")), ("block", text("latest"))]);
    let response = run(&server, "age", &sent, &|_| {
        Event::Returned(ProviderValue::Text("1700000000".to_string()))
    });
    let response_text = one_text(&response);
    assert!(!response_text.is_empty(), "Age response text should not be empty");
    let timestamp = response_text.parse::<u64>().expect("a timestamp");
    assert!(timestamp > 0, "Timestamp should be positive");
    let failed = run(&server, "age", &sent, &|_| Event::Failed("timed out".to_string()));
    match failed {
        ResultEnvelope::Failure(error) => {
            assert!(!error.message.is_empty(), "Error message should not be empty");
            assert_eq!(error.message, "Failed to get block age");
            assert_eq!(error.kind, ErrorKind::ProviderError);
            assert_eq!(error.code, INTERNAL_ERROR);
            assert_eq!(error.data, Some("timed out".to_string()));
        }
        ResultEnvelope::Success(texts) => panic!("unexpected success: {:?}", texts),
    }
}

#[test]
fn test_concurrent_age_calls() {
    // the calls are started together and served in another order
    let server = Server::new();
    let blocks = ["latest", "finalized", "safe", "1000000"];
    let mut started: Vec<(usize, Session)> = Vec::new();
    for (i, block) in blocks.iter().enumerate() {
        let sent = raw(&[("rpc", text("http://localhost:8545")), ("block", text(block))]);
        let (session, action) = server.dispatch("age", &sent);
        assert_eq!(action, Action::Connect { rpc: "http://localhost:8545".to_string() });
        started.push((i, session));
    }
    started.reverse();
    let expected = [
        BlockSelector::Tag(BlockTag::Latest),
        BlockSelector::Tag(BlockTag::Finalized),
        BlockSelector::Tag(BlockTag::Safe),
        BlockSelector::Height(1_000_000),
    ];
    for (i, session) in started {
        let (session, action) = server.advance(session, Event::Connected);
        assert_eq!(action, Action::Ask(ProviderCall::Age { block: expected[i] }));
        let (session, action) =
            server.advance(session, Event::Returned(ProviderValue::Text(i.to_string())));
        assert_eq!(session, Session::Completed);
        assert_eq!(action, Action::Finish(ResultEnvelope::Success(vec![i.to_string()])));
    }
}

#[test]
fn test_age_args_debug_format() {
    let args = AgeArgs { rpc: "test-rpc".to_string(), block: Some("12345".to_string()) };
    let debug_output = format!("{:?}", args);
    assert!(debug_output.contains("AgeArgs"));
    assert!(debug_output.contains("test-rpc"));
    assert!(debug_output.contains("12345"));
}

#[test]
fn test_age_args_partial_default() {
    // Test that individual fields can be set while others use defaults
    let args = AgeArgs { rpc: "https://custom-rpc.com".to_string(), block: None };
    assert_eq!(args.rpc, "https://custom-rpc.com");
    assert_eq!(args.block, None);

    let args2 = AgeArgs {
        rpc: "http://localhost:8545".to_string(), // default
        block: Some("earliest".to_string()),
    };
    assert_eq!(args2.rpc, "http://localhost:8545");
    assert_eq!(args2.block, Some("earliest".to_string()));
}

#[test]
fn test_block_args_default() {
    let args = BlockArgs::default();
    assert_eq!(args.rpc, "http://localhost:8545");
    assert_eq!(args.fields, Vec::<String>::new());
    assert_eq!(args.raw, false);
    assert_eq!(args.full, false);
    assert_eq!(args.block, None);
}

#[test]
fn test_block_args_clone() {
    let source = BlockArgs {
        rpc: "https://test.com".to_string(),
        fields: vec!["number".to_string(), "hash".to_string()],
        raw: true,
        full: false,
        block: Some("latest".to_string()),
    };
    let cloned = source.clone();
    assert_eq!(source.rpc, cloned.rpc);
    assert_eq!(source.fields, cloned.fields);
    assert_eq!(source.raw, cloned.raw);
    assert_eq!(source.full, cloned.full);
    assert_eq!(source.block, cloned.block);
}

#[test]
fn test_block_args_debug_format() {
    let args = BlockArgs {
        rpc: "test-rpc".to_string(),
        fields: vec!["timestamp".to_string()],
        raw: false,
        full: true,
        block: Some("12345".to_string()),
    };
    let debug_output = format!("{:?}", args);
    assert!(debug_output.contains("BlockArgs"));
    assert!(debug_output.contains("test-rpc"));
    assert!(debug_output.contains("timestamp"));
    assert!(debug_output.contains("12345"));
}

#[test]
fn test_block_number_args_default() {
    let args = BlockNumberArgs::default();
    assert_eq!(args.rpc, "http://localhost:8545");
    assert_eq!(args.block, None);
}

#[test]
fn test_block_number_args_clone() {
    let source =
        BlockNumberArgs { rpc: "https://test.com".to_string(), block: Some("latest".to_string()) };
    let cloned = source.clone();
    assert_eq!(source.rpc, cloned.rpc);
    assert_eq!(source.block, cloned.block);
}

#[test]
fn test_block_number_args_debug_format() {
    let args = BlockNumberArgs { rpc: "test-rpc".to_string(), block: Some("latest".to_string()) };
    let debug_output = format!("{:?}", args);
    assert!(debug_output.contains("BlockNumberArgs"));
    assert!(debug_output.contains("test-rpc"));
    assert!(debug_output.contains("latest"));
}

#[test]
fn test_block_invalid_rpc() {
    let server = Server::new();
    let sent = raw(&[
        ("rpc", text("invalid-url")),
        ("fields", list(&[])),
        ("raw", ArgValue::Bool(false)),
        ("full", ArgValue::Bool(false)),
        ("block", text("latest")),
    ]);
    // the provider cannot reach the endpoint
    let result = run(&server, "block", &sent, &|_| Event::Failed("connection refused".to_string()));
    match result {
        ResultEnvelope::Failure(error) => {
            assert!(error.message.contains("Failed to get block"));
        }
        ResultEnvelope::Success(_) => panic!("Should return error for invalid RPC URL"),
    }
    // the endpoint is refused before anything is asked
    let (session, action) = server.dispatch("block", &sent);
    assert_eq!(action, Action::Connect { rpc: "invalid-url".to_string() });
    let (session, action) =
        server.advance(session, Event::EndpointRejected("relative URL without a base".to_string()));
    assert_eq!(session, Session::Completed);
    match action {
        Action::Finish(ResultEnvelope::Failure(error)) => {
            assert_eq!(error.kind, ErrorKind::ConfigError);
            assert_eq!(error.code, PARSE_ERROR);
            assert_eq!(error.message, "Invalid RPC URL");
            assert_eq!(error.data, Some("relative URL without a base".to_string()));
        }
        other => panic!("unexpected action: {:?}", other),
    }
    let (session, _) = server.dispatch("block", &sent);
    let (session, action) =
        server.advance(session, Event::ProviderUnavailable("no transport".to_string()));
    assert_eq!(session, Session::Completed);
    match action {
        Action::Finish(ResultEnvelope::Failure(error)) => {
            assert_eq!(error.kind, ErrorKind::ConfigError);
            assert_eq!(error.code, INTERNAL_ERROR);
            assert_eq!(error.message, "Failed to get provider");
        }
        other => panic!("unexpected action: {:?}", other),
    }
}

#[test]
fn test_block_with_different_options() {
    let server = Server::new();
    let test_cases = vec![
        (vec![], false, false, false),
        (vec![], true, false, true),
        (vec![], false, true, false),
        (vec!["number", "timestamp"], false, false, false),
        (vec!["raw"], false, false, true),
        (vec!["number", "raw"], false, true, true),
    ];
    for (i, (fields, raw_flag, full, raw_asked)) in test_cases.into_iter().enumerate() {
        let args = BlockArgs {
            rpc: "https://1rpc.io/eth".to_string(),
            fields: fields.iter().map(|f| f.to_string()).collect(),
            raw: raw_flag,
            full,
            block: Some("latest".to_string()),
        };
        assert_eq!(
            server.block(&args),
            Prepared::Call(ProviderCall::Block {
                block: BlockSelector::Tag(BlockTag::Latest),
                full,
                fields: fields.iter().map(|f| f.to_string()).collect(),
                raw: raw_asked,
            }),
            "test case {}",
            i
        );
    }
}

#[test]
fn test_block_block_tags() {
    let server = Server::new();
    let block_tags = vec!["earliest", "finalized", "safe", "latest", "pending"];
    for tag in block_tags {
        let sent = raw(&[
            ("rpc", text("https://1rpc.io/eth")),
            ("fields", list(&["number"])),
            ("raw", ArgValue::Bool(false)),
            ("full", ArgValue::Bool(false)),
            ("block", text(tag)),
        ]);
        let response = run(&server, "block", &sent, &|call| match call {
            ProviderCall::Block { block: BlockSelector::Tag(_), fields, .. } => {
                Event::Returned(ProviderValue::Text(fields.join(",")))
            }
            other => panic!("unexpected call: {:?}", other),
        });
        assert_eq!(one_text(&response), "number");
    }
}

#[test]
fn test_concurrent_block_calls() {
    let server = Server::new();
    let cases = [("number", "latest"), ("hash", "finalized"), ("timestamp", "safe")];
    let mut sessions = Vec::new();
    for (field, block) in cases {
        let sent = raw(&[
            ("rpc", text("https://1rpc.io/eth")),
            ("fields", list(&[field])),
            ("raw", ArgValue::Bool(false)),
            ("full", ArgValue::Bool(false)),
            ("block", text(block)),
        ]);
        let (session, _) = server.dispatch("block", &sent);
        sessions.push((field, server.advance(session, Event::Connected)));
    }
    for (field, (session, action)) in sessions.into_iter().rev() {
        match &action {
            Action::Ask(ProviderCall::Block { fields, .. }) => {
                assert_eq!(fields, &vec![field.to_string()])
            }
            other => panic!("unexpected action: {:?}", other),
        }
        let (session, action) =
            server.advance(session, Event::Returned(ProviderValue::Text(field.to_string())));
        assert_eq!(session, Session::Completed);
        assert_eq!(action, Action::Finish(ResultEnvelope::Success(vec![field.to_string()])));
    }
}

#[test]
fn test_block_number_tool() {
    let server = Server::new();
    let test_blocks = vec![
        (Some("latest"), BlockSelector::Tag(BlockTag::Latest)),
        (Some("finalized"), BlockSelector::Tag(BlockTag::Finalized)),
        (Some("safe"), BlockSelector::Tag(BlockTag::Safe)),
        (Some("1000000"), BlockSelector::Height(1_000_000)),
        (None, BlockSelector::Tag(BlockTag::Latest)),
    ];
    for (block, selector) in test_blocks {
        let args = BlockNumberArgs {
            rpc: "https://1rpc.io/eth".to_string(),
            block: block.map(|b| b.to_string()),
        };
        assert_eq!(
            server.block_number(&args),
            Prepared::Call(ProviderCall::Block {
                block: selector,
                full: false,
                fields: vec!["number".to_string()],
                raw: false,
            })
        );
        let mut sent = raw(&[("rpc", text("https://1rpc.io/eth"))]);
        if let Some(block) = block {
            sent.insert("block".to_string(), text(block));
        }
        // what the provider writes is handed on as it is
        let response = run(&server, "block_number", &sent, &|_| {
            Event::Returned(ProviderValue::Text("number 19000000".to_string()))
        });
        let response_text = one_text(&response);
        assert!(
            response_text.contains("number") || response_text.parse::<u64>().is_ok(),
            "Block number response should contain number information"
        );
        assert_eq!(response_text, "number 19000000");
    }
}

#[test]
fn test_concurrent_block_number_calls() {
    let server = Server::new();
    let blocks = ["latest", "finalized", "safe", "1000000"];
    let mut sessions = Vec::new();
    for block in blocks {
        let sent = raw(&[("block", text(block))]);
        let (session, _) = server.dispatch("block_number", &sent);
        sessions.push(server.advance(session, Event::Connected).0);
    }
    for (i, session) in sessions.into_iter().enumerate().rev() {
        let (session, action) =
            server.advance(session, Event::Returned(ProviderValue::Text(blocks[i].to_string())));
        assert_eq!(session, Session::Completed);
        assert_eq!(action, Action::Finish(ResultEnvelope::Success(vec![blocks[i].to_string()])));
    }
}

#[test]
fn test_gas_price_tool() {
    let server = Server::new();
    let rpc_urls = vec!["https://1rpc.io/eth", "https://ethereum-rpc.publicnode.com"];
    for rpc_url in rpc_urls {
        let args = GasPriceArgs { rpc: rpc_url.to_string() };
        assert_eq!(server.gas_price(&args), Prepared::Call(ProviderCall::GasPrice));
        let sent = raw(&[("rpc", text(rpc_url))]);
        let (_, action) = server.dispatch("gas_price", &sent);
        assert_eq!(action, Action::Connect { rpc: rpc_url.to_string() });
        let response = run(&server, "gas_price", &sent, &|_| {
            Event::Returned(ProviderValue::Number(Quantity::from_u128(31_000_000_000)))
        });
        let response_text = one_text(&response);
        let price = response_text.parse::<u64>().expect("a number");
        assert!(price > 0, "Gas price should be positive");
        assert_eq!(price, 31_000_000_000);
    }
}

#[test]
fn test_concurrent_gas_price_calls() {
    let server = Server::new();
    let rpc_urls = ["https://1rpc.io/eth", "https://ethereum-rpc.publicnode.com"];
    let mut sessions = Vec::new();
    for i in 0..4usize {
        let sent = raw(&[("rpc", text(rpc_urls[i % 2]))]);
        let (session, action) = server.dispatch("gas_price", &sent);
        assert_eq!(action, Action::Connect { rpc: rpc_urls[i % 2].to_string() });
        sessions.push((i, session));
    }
    for (i, session) in sessions.into_iter().rev() {
        let (session, _) = server.advance(session, Event::Connected);
        let (session, action) = server.advance(
            session,
            Event::Returned(ProviderValue::Number(Quantity::from_u64(1000 + i as u64))),
        );
        assert_eq!(session, Session::Completed);
        assert_eq!(action, Action::Finish(ResultEnvelope::Success(vec![(1000 + i).to_string()])));
    }
}

#[test]
fn raw_among_the_fields() {
    let fields = vec!["number".to_string(), "raw".to_string()];
    assert!(contains_text(&fields, "raw"));
    assert!(contains_text(&fields, "number"));
    assert!(!contains_text(&fields, "Raw"));
    assert!(!contains_text(&fields, "ra"));
    assert!(!contains_text(&Vec::new(), "raw"));
}

use cast_mcp::chain_tools::ChainArgs;
use cast_mcp::dispatch::{Action, Event, Session};
use cast_mcp::envelope::{ErrorKind, ResultEnvelope, INTERNAL_ERROR};
use cast_mcp::provider::{Prepared, ProviderCall, ProviderValue};
use cast_mcp::quantity::Quantity;
use cast_mcp::server::Server;
use cast_mcp::value::{ArgValue, RawArgs};

fn rpc_only(rpc: &str) -> RawArgs {
    let mut args = RawArgs::new();
    args.insert("rpc".to_string(), ArgValue::Text(rpc.to_string()));
    args
}

/// Runs one call to its end; the provider answers with `answer`.
fn run(server: &Server, name: &str, args: &RawArgs, answer: &dyn Fn(&ProviderCall) -> Event) -> ResultEnvelope {
    let mut step = server.dispatch(name, args);
    for _ in 0..8 {
        let event = match &step.1 {
            Action::Finish(envelope) => return envelope.clone(),
            Action::Connect { .. } => Event::Connected,
            Action::Lookup { .. } => Event::Failed("no lookup here".to_string()),
            Action::Ask(call) => answer(call),
        };
        step = server.advance(step.0, event);
    }
    panic!("the call did not end");
}

#[test]
fn test_chain_args_default() {
    let args = ChainArgs::default();
    assert_eq!(args.rpc, "http://localhost:8545");
}

#[test]
fn test_chain_args_clone() {
    let source = ChainArgs { rpc: "https://test.com".to_string() };
    let cloned = source.clone();
    assert_eq!(source.rpc, cloned.rpc);
}

#[test]
fn test_chain_tools_response_structure() {
    let server = Server::new();
    let sent = rpc_only("https://mainnet.infura.io");
    let answer = |call: &ProviderCall| match call {
        ProviderCall::ChainName => Event::Returned(ProviderValue::Text("mainnet".to_string())),
        ProviderCall::ChainId => Event::Returned(ProviderValue::Number(Quantity::from_u64(1))),
        ProviderCall::ClientVersion => {
            Event::Returned(ProviderValue::Text("Geth/v1.13.0".to_string()))
        }
        other => panic!("unexpected call: {:?}", other),
    };
    let chain = run(&server, "chain", &sent, &answer);
    assert_eq!(chain, ResultEnvelope::Success(vec!["mainnet".to_string()]));
    let chain_id = run(&server, "chain_id", &sent, &answer);
    assert_eq!(chain_id, ResultEnvelope::Success(vec!["1".to_string()]));
    let client = run(&server, "client", &sent, &answer);
    assert_eq!(client, ResultEnvelope::Success(vec!["Geth/v1.13.0".to_string()]));

    let failing = |_: &ProviderCall| Event::Failed("401 Unauthorized".to_string());
    for (name, message) in [
        ("chain", "Failed to get chain"),
        ("chain_id", "Failed to get chain"),
        ("client", "Failed to get client version"),
    ] {
        match run(&server, name, &sent, &failing) {
            ResultEnvelope::Failure(error) => {
                assert!(!error.message.is_empty(), "Error message should not be empty");
                assert_eq!(error.message, message);
                assert_eq!(error.kind, ErrorKind::ProviderError);
                assert_eq!(error.code, INTERNAL_ERROR);
                assert_eq!(error.data, Some("401 Unauthorized".to_string()));
            }
            ResultEnvelope::Success(texts) => panic!("unexpected success: {:?}", texts),
        }
    }
}

#[test]
fn test_concurrent_chain_tool_calls() {
    let server = Server::new();
    let names = ["chain", "chain_id", "client"];
    let mut sessions = Vec::new();
    for i in 0..6usize {
        let (session, _) = server.dispatch(names[i % 3], &rpc_only("https://mainnet.infura.io"));
        sessions.push((i, server.advance(session, Event::Connected)));
    }
    let expected = [ProviderCall::ChainName, ProviderCall::ChainId, ProviderCall::ClientVersion];
    for (i, (session, action)) in sessions.into_iter().rev() {
        assert_eq!(action, Action::Ask(expected[i % 3].clone()));
        let (session, action) =
            server.advance(session, Event::Returned(ProviderValue::Text(format!("call {}", i))));
        assert_eq!(session, Session::Completed);
        assert_eq!(action, Action::Finish(ResultEnvelope::Success(vec![format!("call {}", i)])));
    }
}

#[test]
fn test_chain_args_serialization() {
    let args = ChainArgs { rpc: "https://mainnet.infura.io".to_string() };

    // Test that args implements the required traits
    let _clone = args.clone();
    let debug_output = format!("{:?}", args);
    assert!(debug_output.contains("ChainArgs"));
    assert!(debug_output.contains("https://mainnet.infura.io"));
}

#[test]
fn test_chain_args_debug_format() {
    let args = ChainArgs { rpc: "test-rpc".to_string() };
    let debug_output = format!("{:?}", args);
    assert!(debug_output.contains("ChainArgs"));
    assert!(debug_output.contains("test-rpc"));
}

#[test]
fn chain_tools_ask_without_arguments() {
    let server = Server::new();
    let args = ChainArgs::default();
    assert_eq!(server.chain(&args), Prepared::Call(ProviderCall::ChainName));
    assert_eq!(server.chain_id(&args), Prepared::Call(ProviderCall::ChainId));
    assert_eq!(server.client(&args), Prepared::Call(ProviderCall::ClientVersion));
}

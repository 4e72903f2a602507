use cast_mcp::block::{BlockSelector, BlockTag};
use cast_mcp::chain_tools::ChainArgs;
use cast_mcp::dispatch::{Action, Computation, Event, Query, Request, Session};
use cast_mcp::envelope::{
    ErrorKind, ResultEnvelope, ToolError, INTERNAL_ERROR, INVALID_PARAMS, PARSE_ERROR,
};
use cast_mcp::provider::{ProviderCall, ProviderValue};
use cast_mcp::quantity::Quantity;
use cast_mcp::registry::{DuplicateName, Registry, Tool, ToolDescriptor};
use cast_mcp::schema::ArgumentSchema;
use cast_mcp::server::Server;
use cast_mcp::value::{ArgValue, RawArgs};

fn raw(entries: &[(&str, ArgValue)]) -> RawArgs {
    let mut args = RawArgs::new();
    for (key, value) in entries {
        args.insert(key.to_string(), value.clone());
    }
    args
}

fn text(value: &str) -> ArgValue {
    ArgValue::Text(value.to_string())
}

/// A provider that counts what is asked of it.
struct Counting {
    connects: usize,
    calls: usize,
}

impl Counting {
    fn serve(&mut self, server: &Server, name: &str, args: &RawArgs) -> ResultEnvelope {
        let mut step = server.dispatch(name, args);
        for _ in 0..8 {
            let event = match &step.1 {
                Action::Finish(envelope) => {
                    assert_eq!(step.0, Session::Completed);
                    return envelope.clone();
                }
                Action::Connect { .. } => {
                    self.connects += 1;
                    Event::Connected
                }
                Action::Lookup { .. } => {
                    self.calls += 1;
                    Event::Resolved([1u8; 20])
                }
                Action::Ask(_) => {
                    self.calls += 1;
                    Event::Returned(ProviderValue::Number(Quantity::from_u64(42)))
                }
            };
            step = server.advance(step.0, event);
        }
        panic!("the call did not end");
    }
}

fn failure(result: ResultEnvelope) -> ToolError {
    match result {
        ResultEnvelope::Failure(error) => error,
        ResultEnvelope::Success(texts) => panic!("unexpected success: {:?}", texts),
    }
}

#[test]
fn no_handler_runs_when_decoding_fails() {
    let server = Server::new();
    let mut provider = Counting { connects: 0, calls: 0 };
    let bad = [
        ("balance", RawArgs::new(), "missing field `who`"),
        ("balance", raw(&[("who", ArgValue::Number)]), "invalid type for field `who`: expected a string"),
        ("nonce", raw(&[("who", text("0x1")), ("rpc", ArgValue::Bool(true))]), "invalid type for field `rpc`: expected a string"),
        ("storage", raw(&[("address", text("0x1"))]), "missing field `slot`"),
        ("block", RawArgs::new(), "missing field `fields`"),
        ("age", raw(&[("block", ArgValue::Object)]), "invalid type for field `block`: expected a string or null"),
        ("chain", raw(&[("rpc", ArgValue::Null)]), "invalid type for field `rpc`: expected a string"),
        ("max_int", raw(&[("type", ArgValue::Number)]), "invalid type for field `type`: expected a string"),
    ];
    for (name, args, message) in bad {
        let error = failure(provider.serve(&server, name, &args));
        assert_eq!(error.kind, ErrorKind::DecodeError);
        assert_eq!(error.code, INVALID_PARAMS);
        assert_eq!(error.message, message);
        assert_eq!(error.data, None);
        // the very first step ends the call
        let (session, action) = server.dispatch(name, &args);
        assert_eq!(session, Session::Completed);
        assert!(matches!(action, Action::Finish(ResultEnvelope::Failure(_))));
    }
    assert_eq!(provider.connects, 0);
    assert_eq!(provider.calls, 0);
    // a call that decodes does reach the provider
    let good = raw(&[("who", text("0x1f9840a85d5af5bf1d1762f925bdaddc4201f984"))]);
    assert_eq!(provider.serve(&server, "balance", &good), ResultEnvelope::Success(vec!["42".to_string()]));
    assert_eq!(provider.connects, 1);
    assert_eq!(provider.calls, 1);
}

#[test]
fn an_unknown_tool_is_not_found() {
    let server = Server::new();
    let mut provider = Counting { connects: 0, calls: 0 };
    for name in ["", "Ping", "ping ", "balance_of", "get_block"] {
        let error = failure(provider.serve(&server, name, &RawArgs::new()));
        assert_eq!(error.kind, ErrorKind::UnknownTool);
        assert_eq!(error.code, INVALID_PARAMS);
        assert_eq!(error.message, "tool not found");
        assert_eq!(server.decode(name, &RawArgs::new()).unwrap_err().kind, ErrorKind::UnknownTool);
    }
    assert_eq!(provider.connects + provider.calls, 0);
}

#[test]
fn a_call_passes_through_its_states() {
    let server = Server::new();
    let sent = raw(&[("rpc", text("http://node:8545")), ("block", text("0x10"))]);
    let request = server.decode("age", &sent).unwrap();
    assert!(matches!(request, Request::Query(Query::Age(_))));
    let (session, action) = server.begin(request);
    assert!(matches!(session, Session::Decoded(Query::Age(_))));
    assert_eq!(action, Action::Connect { rpc: "http://node:8545".to_string() });
    let (session, action) = server.advance(session, Event::Connected);
    assert!(matches!(session, Session::Invoked(Query::Age(_))));
    // `0x10` is no hash and no decimal number: the latest block
    assert_eq!(action, Action::Ask(ProviderCall::Age { block: BlockSelector::Tag(BlockTag::Latest) }));
    let (session, action) =
        server.advance(session, Event::Returned(ProviderValue::Text("Mon Jan 1".to_string())));
    assert_eq!(session, Session::Completed);
    assert_eq!(action, Action::Finish(ResultEnvelope::Success(vec!["Mon Jan 1".to_string()])));
}

#[test]
fn a_computation_is_over_at_once() {
    let server = Server::new();
    let (session, action) = server.begin(Request::Compute(Computation::Ping));
    assert_eq!(session, Session::Completed);
    assert_eq!(action, Action::Finish(ResultEnvelope::Success(vec!["pong".to_string()])));
    assert_eq!(server.compute(&Computation::AddressZero), server.address_zero());
    assert_eq!(server.compute(&Computation::HashZero), server.hash_zero());
}

#[test]
fn an_event_out_of_turn_ends_the_call() {
    let server = Server::new();
    let query = || Query::Chain(ChainArgs::default());
    let value = || Event::Returned(ProviderValue::Text("x".to_string()));
    let cases = vec![
        (Session::Decoded(query()), value()),
        (Session::Decoded(query()), Event::Resolved([0u8; 20])),
        (Session::Decoded(query()), Event::Failed("x".to_string())),
        (Session::Resolving(query()), Event::Connected),
        (Session::Resolving(query()), value()),
        (Session::Invoked(query()), Event::Connected),
        (Session::Invoked(query()), Event::Resolved([0u8; 20])),
        (Session::Invoked(query()), Event::EndpointRejected("x".to_string())),
        (Session::Completed, Event::Connected),
        (Session::Completed, value()),
    ];
    for (session, event) in cases {
        let (session, action) = server.advance(session, event);
        assert_eq!(session, Session::Completed);
        match action {
            Action::Finish(ResultEnvelope::Failure(error)) => {
                assert_eq!(error.kind, ErrorKind::ProviderError);
                assert_eq!(error.code, INTERNAL_ERROR);
                assert_eq!(error.message, "unexpected event");
            }
            other => panic!("unexpected action: {:?}", other),
        }
    }
}

#[test]
fn every_error_kind_has_its_input() {
    let server = Server::new();
    let address = "0x1f9840a85d5af5bf1d1762f925bdaddc4201f984";
    // decode
    let (_, action) = server.dispatch("balance", &RawArgs::new());
    assert!(matches!(action, Action::Finish(ResultEnvelope::Failure(ToolError { kind: ErrorKind::DecodeError, .. }))));
    // unknown tool
    let (_, action) = server.dispatch("nothing", &RawArgs::new());
    assert!(matches!(action, Action::Finish(ResultEnvelope::Failure(ToolError { kind: ErrorKind::UnknownTool, .. }))));
    // configuration
    let (session, _) = server.dispatch("balance", &raw(&[("who", text(address))]));
    let (_, action) = server.advance(session, Event::EndpointRejected("bad".to_string()));
    assert!(matches!(action, Action::Finish(ResultEnvelope::Failure(ToolError { kind: ErrorKind::ConfigError, code: PARSE_ERROR, .. }))));
    // resolution
    let (session, _) = server.dispatch("balance", &raw(&[("who", text("nobody"))]));
    let (session, action) = server.advance(session, Event::Connected);
    assert_eq!(session, Session::Completed);
    assert!(matches!(action, Action::Finish(ResultEnvelope::Failure(ToolError { kind: ErrorKind::ResolutionError, .. }))));
    // provider
    let (session, _) = server.dispatch("balance", &raw(&[("who", text(address))]));
    let (session, _) = server.advance(session, Event::Connected);
    let (_, action) = server.advance(session, Event::Failed("deadline exceeded".to_string()));
    match action {
        Action::Finish(ResultEnvelope::Failure(error)) => {
            assert_eq!(error.kind, ErrorKind::ProviderError);
            assert_eq!(error.message, "Failed to get balance");
            assert_eq!(error.data, Some("deadline exceeded".to_string()));
        }
        other => panic!("unexpected action: {:?}", other),
    }
}

#[test]
fn failure_messages_by_tool() {
    let server = Server::new();
    let address = "0x1f9840a85d5af5bf1d1762f925bdaddc4201f984";
    let word = format!("0x{}", "0".repeat(64));
    let cases = [
        ("age", RawArgs::new(), "Failed to get block age"),
        ("block_number", RawArgs::new(), "Failed to get block information"),
        ("gas_price", RawArgs::new(), "Failed to get gas price"),
        ("nonce", raw(&[("who", text(address))]), "Failed to get nonce"),
        ("code", raw(&[("address", text(address))]), "Failed to get code"),
        ("code_size", raw(&[("address", text(address))]), "Failed to get code size"),
        ("storage", raw(&[("address", text(address)), ("slot", text(&word))]), "Failed to get storage"),
    ];
    for (name, args, message) in cases {
        let (session, _) = server.dispatch(name, &args);
        let (session, action) = server.advance(session, Event::Connected);
        assert!(matches!(action, Action::Ask(_)), "{} asks the provider", name);
        let (_, action) = server.advance(session, Event::Failed("down".to_string()));
        match action {
            Action::Finish(ResultEnvelope::Failure(error)) => assert_eq!(error.message, message),
            other => panic!("unexpected action: {:?}", other),
        }
    }
}

#[test]
fn numbers_are_written_in_decimal() {
    let query = Query::ChainId(ChainArgs::default());
    assert_eq!(query.render(ProviderValue::Number(Quantity::from_u64(1))), "1");
    assert_eq!(query.render(ProviderValue::Text("as it is".to_string())), "as it is");
    assert_eq!(query.rpc(), "http://localhost:8545");
    assert_eq!(query.failure_text(), "Failed to get chain");
}

#[test]
fn a_registry_refuses_a_name_twice() {
    let descriptor = |name: &str, tool: Tool| {
        ToolDescriptor::new(name, "a tool", ArgumentSchema { fields: vec![] }, tool)
    };
    let mut registry = Registry::new();
    assert_eq!(registry.len(), 0);
    assert_eq!(registry.register(descriptor("one", Tool::Ping)), Ok(()));
    assert_eq!(registry.register(descriptor("two", Tool::Age)), Ok(()));
    let before = registry.clone();
    assert_eq!(
        registry.register(descriptor("one", Tool::Block)),
        Err(DuplicateName { name: "one".to_string() })
    );
    assert_eq!(registry, before);
    assert_eq!(registry.lookup("one").unwrap().tool, Tool::Ping);
    assert_eq!(registry.lookup("two").unwrap().tool, Tool::Age);
    assert!(registry.lookup("three").is_none());
    assert_eq!(registry.duplicate(), registry);
}

#[test]
fn registries_compose_when_their_names_differ() {
    let descriptor = |name: &str, tool: Tool| {
        ToolDescriptor::new(name, "a tool", ArgumentSchema { fields: vec![] }, tool)
    };
    let group = |names: &[&str]| {
        let mut registry = Registry::new();
        for name in names {
            registry.register(descriptor(name, Tool::Ping)).unwrap();
        }
        registry
    };
    let names_of = |registry: &Registry| -> Vec<String> {
        (0..registry.len()).map(|i| registry.get(i).unwrap().name.clone()).collect()
    };
    let both = group(&["a", "b"]).compose(group(&["c"])).unwrap();
    assert_eq!(names_of(&both), vec!["a", "b", "c"]);
    // associative
    let left = group(&["a"]).compose(group(&["b"])).unwrap().compose(group(&["c"])).unwrap();
    let right = group(&["a"]).compose(group(&["b"]).compose(group(&["c"])).unwrap()).unwrap();
    assert_eq!(left, right);
    // commutative for lookups when the names differ
    let forth = group(&["a", "b"]).compose(group(&["c", "d"])).unwrap();
    let back = group(&["c", "d"]).compose(group(&["a", "b"])).unwrap();
    for name in ["a", "b", "c", "d", "e"] {
        assert_eq!(forth.lookup(name), back.lookup(name));
    }
    // a name in both is refused, and named
    assert_eq!(
        group(&["a", "b"]).compose(group(&["c", "b", "a"])),
        Err(DuplicateName { name: "b".to_string() })
    );
    assert_eq!(group(&[]).compose(group(&[])).unwrap().len(), 0);
    assert_eq!(names_of(&group(&["a"]).join(group(&["b"]))), vec!["a", "b"]);
}

#[test]
fn the_groups_of_the_server_compose() {
    let all = Server::utility_router()
        .compose(Server::block_router())
        .unwrap()
        .compose(Server::chain_router())
        .unwrap()
        .compose(Server::account_router())
        .unwrap();
    assert_eq!(&all, Server::new().registry());
    assert!(Server::block_router().compose(Server::block_router()).is_err());
}

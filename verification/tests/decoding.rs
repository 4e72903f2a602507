use cast_mcp::account_tools::{BalanceArgs, CodeArgs, StorageArgs};
use cast_mcp::block_tools::{AgeArgs, BlockArgs};
use cast_mcp::chain_tools::ChainArgs;
use cast_mcp::dispatch::{Computation, Query, Request};
use cast_mcp::registry::Tool;
use cast_mcp::schema::{
    read_value, ArgumentSchema, DecodeError, FieldKind, FieldSpec, FieldValue,
};
use cast_mcp::utility_tools::{MaxIntArgs, MaxUIntArgs};
use cast_mcp::value::{ArgItem, ArgValue, RawArgs};

fn raw(entries: &[(&str, ArgValue)]) -> RawArgs {
    let mut args = RawArgs::new();
    for (key, value) in entries {
        args.insert(key.to_string(), value.clone());
    }
    args
}

fn text(value: &str) -> ArgValue {
    ArgValue::Text(value.to_string())
}

fn list(values: &[&str]) -> ArgValue {
    ArgValue::List(values.iter().map(|v| ArgItem::Text(v.to_string())).collect())
}

#[test]
fn raw_arguments_are_a_map() {
    let mut args = RawArgs::new();
    assert_eq!(args.get("rpc"), None);
    assert!(!args.contains_key("rpc"));
    args.insert("rpc".to_string(), text("first"));
    args.insert("block".to_string(), ArgValue::Null);
    assert_eq!(args.get("rpc"), Some(&text("first")));
    assert_eq!(args.get("block"), Some(&ArgValue::Null));
    assert_eq!(args.get("Rpc"), None);
    // a key that is inserted again takes the new value
    args.insert("rpc".to_string(), text("second"));
    assert_eq!(args.get("rpc"), Some(&text("second")));
    assert!(args.contains_key("block"));
}

#[test]
fn a_value_is_read_by_the_type_of_its_field() {
    assert_eq!(read_value(FieldKind::Text, &text("a")), Some(FieldValue::Text("a".to_string())));
    assert_eq!(read_value(FieldKind::Flag, &ArgValue::Bool(true)), Some(FieldValue::Flag(true)));
    assert_eq!(
        read_value(FieldKind::OptionalText, &ArgValue::Null),
        Some(FieldValue::OptionalText(None))
    );
    assert_eq!(
        read_value(FieldKind::OptionalText, &text("a")),
        Some(FieldValue::OptionalText(Some("a".to_string())))
    );
    assert_eq!(
        read_value(FieldKind::TextList, &list(&["a", "b"])),
        Some(FieldValue::TextList(vec!["a".to_string(), "b".to_string()]))
    );
    assert_eq!(read_value(FieldKind::TextList, &list(&[])), Some(FieldValue::TextList(vec![])));
    let mixed = ArgValue::List(vec![ArgItem::Text("a".to_string()), ArgItem::Other]);
    assert_eq!(read_value(FieldKind::TextList, &mixed), None);
    for other in [ArgValue::Null, ArgValue::Bool(true), ArgValue::Number, ArgValue::Object, list(&[])] {
        assert_eq!(read_value(FieldKind::Text, &other), None);
    }
    for other in [ArgValue::Null, text("true"), ArgValue::Number, ArgValue::Object, list(&[])] {
        assert_eq!(read_value(FieldKind::Flag, &other), None);
    }
    for other in [ArgValue::Bool(false), ArgValue::Number, ArgValue::Object, list(&["a"])] {
        assert_eq!(read_value(FieldKind::OptionalText, &other), None);
    }
    for other in [ArgValue::Null, ArgValue::Bool(false), ArgValue::Number, ArgValue::Object, text("a")] {
        assert_eq!(read_value(FieldKind::TextList, &other), None);
    }
}

#[test]
fn balance_arguments_with_defaults() {
    let args = BalanceArgs::decode(&raw(&[("who", text("0xabc"))])).unwrap();
    assert_eq!(
        args,
        BalanceArgs {
            rpc: "http://localhost:8545".to_string(),
            block: None,
            who: "0xabc".to_string(),
            ether: false,
        }
    );
    let full = BalanceArgs::decode(&raw(&[
        ("ether", ArgValue::Bool(true)),
        ("who", text("0xabc")),
        ("block", text("safe")),
        ("rpc", text("http://node:1")),
        ("unknown", ArgValue::Object),
    ]))
    .unwrap();
    assert_eq!(
        full,
        BalanceArgs {
            rpc: "http://node:1".to_string(),
            block: Some("safe".to_string()),
            who: "0xabc".to_string(),
            ether: true,
        }
    );
}

#[test]
fn an_absent_field_equals_its_explicit_default() {
    let short = raw(&[("who", text("0xabc"))]);
    let explicit = [
        raw(&[("who", text("0xabc")), ("rpc", text("http://localhost:8545"))]),
        raw(&[("who", text("0xabc")), ("block", ArgValue::Null)]),
        raw(&[("who", text("0xabc")), ("ether", ArgValue::Bool(false))]),
        raw(&[
            ("rpc", text("http://localhost:8545")),
            ("block", ArgValue::Null),
            ("who", text("0xabc")),
            ("ether", ArgValue::Bool(false)),
        ]),
    ];
    for given in explicit {
        assert_eq!(BalanceArgs::decode(&short), BalanceArgs::decode(&given));
    }
    // and so where decoding fails
    let missing = RawArgs::new();
    let missing_explicit = raw(&[("ether", ArgValue::Bool(false))]);
    assert_eq!(BalanceArgs::decode(&missing), BalanceArgs::decode(&missing_explicit));
    assert!(BalanceArgs::decode(&missing).is_err());

    assert_eq!(
        MaxIntArgs::decode(&RawArgs::new()),
        MaxIntArgs::decode(&raw(&[("type", text("int256"))]))
    );
    assert_eq!(
        MaxUIntArgs::decode(&RawArgs::new()),
        MaxUIntArgs::decode(&raw(&[("type", text("uint256"))]))
    );
    assert_eq!(
        CodeArgs::decode(&RawArgs::new()),
        CodeArgs::decode(&raw(&[
            ("address", ArgValue::Null),
            ("name", ArgValue::Null),
            ("disassemble", ArgValue::Bool(false)),
        ]))
    );
    assert_eq!(ChainArgs::decode(&RawArgs::new()), Ok(ChainArgs::default()));
    assert_eq!(AgeArgs::decode(&RawArgs::new()), Ok(AgeArgs::default()));
}

#[test]
fn a_missing_required_field_is_named() {
    assert_eq!(
        BalanceArgs::decode(&RawArgs::new()),
        Err(DecodeError::MissingField { field: "who".to_string() })
    );
    assert_eq!(
        StorageArgs::decode(&raw(&[("address", text("0x0"))])),
        Err(DecodeError::MissingField { field: "slot".to_string() })
    );
    assert_eq!(
        BlockArgs::decode(&RawArgs::new()),
        Err(DecodeError::MissingField { field: "fields".to_string() })
    );
    assert_eq!(
        BlockArgs::decode(&raw(&[("fields", list(&[]))])),
        Err(DecodeError::MissingField { field: "raw".to_string() })
    );
    assert_eq!(
        BlockArgs::decode(&raw(&[("fields", list(&[])), ("raw", ArgValue::Bool(true))])),
        Err(DecodeError::MissingField { field: "full".to_string() })
    );
    let error = BalanceArgs::decode(&RawArgs::new()).unwrap_err();
    assert_eq!(error.message(), "missing field `who`");
}

#[test]
fn a_value_of_the_wrong_type_is_named_with_the_expected_type() {
    assert_eq!(
        BalanceArgs::decode(&raw(&[("who", text("0xabc")), ("ether", text("yes"))])),
        Err(DecodeError::TypeMismatch { field: "ether".to_string(), expected: FieldKind::Flag })
    );
    assert_eq!(
        BalanceArgs::decode(&raw(&[("who", ArgValue::Null)])),
        Err(DecodeError::TypeMismatch { field: "who".to_string(), expected: FieldKind::Text })
    );
    assert_eq!(
        BalanceArgs::decode(&raw(&[("who", text("a")), ("block", ArgValue::Number)])),
        Err(DecodeError::TypeMismatch {
            field: "block".to_string(),
            expected: FieldKind::OptionalText,
        })
    );
    let mixed = ArgValue::List(vec![ArgItem::Other]);
    assert_eq!(
        BlockArgs::decode(&raw(&[("fields", mixed)])),
        Err(DecodeError::TypeMismatch { field: "fields".to_string(), expected: FieldKind::TextList })
    );
    // a default does not stand in for a value of the wrong type
    assert_eq!(
        ChainArgs::decode(&raw(&[("rpc", ArgValue::Null)])),
        Err(DecodeError::TypeMismatch { field: "rpc".to_string(), expected: FieldKind::Text })
    );
    // the first field of the schema that fails gives the error
    assert_eq!(
        BalanceArgs::decode(&raw(&[("ether", text("yes")), ("rpc", ArgValue::Bool(true))])),
        Err(DecodeError::TypeMismatch { field: "rpc".to_string(), expected: FieldKind::Text })
    );
    assert_eq!(
        BalanceArgs::decode(&raw(&[("ether", text("yes"))])),
        Err(DecodeError::MissingField { field: "who".to_string() })
    );
    let messages = [
        (FieldKind::Text, "invalid type for field `f`: expected a string"),
        (FieldKind::Flag, "invalid type for field `f`: expected a boolean"),
        (FieldKind::OptionalText, "invalid type for field `f`: expected a string or null"),
        (FieldKind::TextList, "invalid type for field `f`: expected a list of strings"),
    ];
    for (expected, message) in messages {
        let error = DecodeError::TypeMismatch { field: "f".to_string(), expected };
        assert_eq!(error.message(), message);
    }
}

#[test]
fn block_arguments_in_full() {
    let args = BlockArgs::decode(&raw(&[
        ("fields", list(&["number", "hash"])),
        ("raw", ArgValue::Bool(false)),
        ("full", ArgValue::Bool(true)),
    ]))
    .unwrap();
    assert_eq!(
        args,
        BlockArgs {
            rpc: "http://localhost:8545".to_string(),
            fields: vec!["number".to_string(), "hash".to_string()],
            raw: false,
            full: true,
            block: None,
        }
    );
}

#[test]
fn a_schema_of_ones_own() {
    let schema = ArgumentSchema {
        fields: vec![
            FieldSpec::text("greeting", Some("hello".to_string())),
            FieldSpec::flag("loud", None),
            FieldSpec::optional_text("to"),
            FieldSpec::text_list("tags"),
        ],
    };
    assert_eq!(
        schema.decode(&raw(&[("loud", ArgValue::Bool(true)), ("tags", list(&["x"]))])),
        Ok(vec![
            FieldValue::Text("hello".to_string()),
            FieldValue::Flag(true),
            FieldValue::OptionalText(None),
            FieldValue::TextList(vec!["x".to_string()]),
        ])
    );
    assert_eq!(
        schema.decode(&raw(&[("tags", list(&["x"]))])),
        Err(DecodeError::MissingField { field: "loud".to_string() })
    );
    let empty = ArgumentSchema { fields: vec![] };
    assert_eq!(empty.decode(&raw(&[("anything", ArgValue::Number)])), Ok(vec![]));
}

#[test]
fn requests_by_tool() {
    assert_eq!(
        Request::decode(Tool::Ping, &raw(&[("ignored", ArgValue::Number)])),
        Ok(Request::Compute(Computation::Ping))
    );
    assert_eq!(
        Request::decode(Tool::MinInt, &raw(&[("type", text("int8"))])),
        Ok(Request::Compute(Computation::MinInt(MaxIntArgs { int_type: "int8".to_string() })))
    );
    assert_eq!(
        Request::decode(Tool::ChainId, &RawArgs::new()),
        Ok(Request::Query(Query::ChainId(ChainArgs::default())))
    );
    assert_eq!(
        Request::decode(Tool::Nonce, &RawArgs::new()),
        Err(DecodeError::MissingField { field: "who".to_string() })
    );
}

//! The tools that compute without a chain: a liveness probe, the bounds of
//! the integer types, and the zero constants.

use vstd::prelude::*;
use crate::common::{default_int, default_uint};
use crate::envelope::{failure_of, success_of, EnvelopeView, ErrorKind, INVALID_PARAMS, ResultEnvelope};
use crate::primitives::{zero_address_text, zero_hex, zero_word_text};
use crate::quantity::{max_text, min_text, named_int_type, IntType};
use crate::registry::{described, lemma_tool_names, DescriptorView, Registry, Tool, ToolDescriptor};
use crate::schema::{
    decode_fields,
    record_follows_schema,
    record_view,
    text_at,
    text_field,
    ArgumentSchema,
    DecodeError,
    DecodeErrorView,
    FieldSpec,
    FieldSpecView,
    FieldValueView,
};
use crate::server::Server;
use crate::value::RawArgs;

verus! {

/// The arguments of `max_int` and `min_int`.
#[derive(Clone, Debug, PartialEq, Eq)]
pub struct MaxIntArgs {
    /// A string representing the integer type. Possible values are int8, int16, int32, int64, int256.
    pub int_type: String,
}

impl MaxIntArgs {
    /// The fields of the request, in order.
    pub open spec fn fields() -> Seq<FieldSpecView> {
        seq![
            text_field("type"@, Some("int256"@)),
        ]
    }

    /// The schema of the request.
    pub fn schema() -> (s: ArgumentSchema)
        ensures
            s@ == Self::fields(),
    {
        let mut fields: Vec<FieldSpec> = Vec::new();
        fields.push(FieldSpec::text("type", Some(default_int())));
        let s = ArgumentSchema { fields };
        assert(s@ =~= Self::fields());
        s
    }

    /// The record that these arguments are decoded from.
    pub open spec fn record(&self) -> Seq<FieldValueView> {
        seq![
            FieldValueView::Text(self.int_type@),
        ]
    }

    /// Decodes the arguments from what a caller sent.
    pub fn decode(raw: &RawArgs) -> (r: Result<MaxIntArgs, DecodeError>)
        ensures
            match r {
                Ok(args) => decode_fields(Self::fields(), raw@) == Ok::<
                    Seq<FieldValueView>,
                    DecodeErrorView,
                >(args.record()),
                Err(e) => decode_fields(Self::fields(), raw@) == Err::<
                    Seq<FieldValueView>,
                    DecodeErrorView,
                >(e@),
            },
    {
        let schema = Self::schema();
        match schema.decode(raw) {
            Err(e) => Err(e),
            Ok(record) => {
                proof {
                    record_follows_schema(schema@, raw@, record@);
                }
                let args = MaxIntArgs {
                    int_type: text_at(&record, 0),
                };
                assert(args.record() =~= record_view(record@));
                Ok(args)
            },
        }
    }
}

impl Default for MaxIntArgs {
    /// Every field at its default; a required field empty.
    fn default() -> (r: MaxIntArgs)
        ensures
            r.int_type@ == "int256"@,
    {
        MaxIntArgs {
            int_type: default_int(),
        }
    }
}

/// The arguments of `max_uint`.
#[derive(Clone, Debug, PartialEq, Eq)]
pub struct MaxUIntArgs {
    /// A string representing the unsigned integer type. Possible values are uint8, uint16, uint32, uint64, uint256.
    pub int_type: String,
}

impl MaxUIntArgs {
    /// The fields of the request, in order.
    pub open spec fn fields() -> Seq<FieldSpecView> {
        seq![
            text_field("type"@, Some("uint256"@)),
        ]
    }

    /// The schema of the request.
    pub fn schema() -> (s: ArgumentSchema)
        ensures
            s@ == Self::fields(),
    {
        let mut fields: Vec<FieldSpec> = Vec::new();
        fields.push(FieldSpec::text("type", Some(default_uint())));
        let s = ArgumentSchema { fields };
        assert(s@ =~= Self::fields());
        s
    }

    /// The record that these arguments are decoded from.
    pub open spec fn record(&self) -> Seq<FieldValueView> {
        seq![
            FieldValueView::Text(self.int_type@),
        ]
    }

    /// Decodes the arguments from what a caller sent.
    pub fn decode(raw: &RawArgs) -> (r: Result<MaxUIntArgs, DecodeError>)
        ensures
            match r {
                Ok(args) => decode_fields(Self::fields(), raw@) == Ok::<
                    Seq<FieldValueView>,
                    DecodeErrorView,
                >(args.record()),
                Err(e) => decode_fields(Self::fields(), raw@) == Err::<
                    Seq<FieldValueView>,
                    DecodeErrorView,
                >(e@),
            },
    {
        let schema = Self::schema();
        match schema.decode(raw) {
            Err(e) => Err(e),
            Ok(record) => {
                proof {
                    record_follows_schema(schema@, raw@, record@);
                }
                let args = MaxUIntArgs {
                    int_type: text_at(&record, 0),
                };
                assert(args.record() =~= record_view(record@));
                Ok(args)
            },
        }
    }
}

impl Default for MaxUIntArgs {
    /// Every field at its default; a required field empty.
    fn default() -> (r: MaxUIntArgs)
        ensures
            r.int_type@ == "uint256"@,
    {
        MaxUIntArgs {
            int_type: default_uint(),
        }
    }
}


/// The schema of a tool without arguments.
pub fn no_arguments() -> (s: ArgumentSchema)
    ensures
        s@ == Seq::<FieldSpecView>::empty(),
{
    let s = ArgumentSchema { fields: Vec::new() };
    assert(s@ =~= Seq::<FieldSpecView>::empty());
    s
}

/// The utility tools as callers see them.
pub open spec fn utility_tools() -> Seq<DescriptorView> {
    seq![
        described("ping"@, "A test tool"@, Seq::empty(), Tool::Ping),
        described(
            "max_int"@,
            "Get maximum value for integer type."@,
            MaxIntArgs::fields(),
            Tool::MaxInt,
        ),
        described(
            "min_int"@,
            "Get minimum value for integer type"@,
            MaxIntArgs::fields(),
            Tool::MinInt,
        ),
        described(
            "max_uint"@,
            "Get maximum value for unsigned integer type."@,
            MaxUIntArgs::fields(),
            Tool::MaxUint,
        ),
        described("address_zero"@, "Get the zero address"@, Seq::empty(), Tool::AddressZero),
        described("hash_zero"@, "Get the zero hash"@, Seq::empty(), Tool::HashZero),
    ]
}

/// The greatest value of the type that `name` names; a failure where it
/// names none.
pub open spec fn max_of(name: Seq<char>, failure: Seq<char>) -> EnvelopeView {
    match named_int_type(name) {
        Some(ty) => success_of(max_text(ty)),
        None => failure_of(ErrorKind::DecodeError, INVALID_PARAMS, failure),
    }
}

/// The least value of the type that `name` names; a failure where it names
/// none.
pub open spec fn min_of(name: Seq<char>, failure: Seq<char>) -> EnvelopeView {
    match named_int_type(name) {
        Some(ty) => success_of(min_text(ty)),
        None => failure_of(ErrorKind::DecodeError, INVALID_PARAMS, failure),
    }
}

/// The greatest value of the named type, or the failure with `failure`.
fn greatest(name: &str, failure: &str) -> (r: ResultEnvelope)
    ensures
        r@ == max_of(name@, failure@),
{
    match IntType::parse(name) {
        Some(ty) => ResultEnvelope::text(ty.max_value()),
        None => ResultEnvelope::failure(ErrorKind::DecodeError, INVALID_PARAMS, failure),
    }
}

impl Server {
    /// The registry of the utility tools.
    pub fn utility_router() -> (r: Registry)
        ensures
            r.wf(),
            r@ == utility_tools(),
    {
        let mut r = Registry::new();
        proof {
            lemma_tool_names();
        }
        r.add(ToolDescriptor::new("ping", "A test tool", no_arguments(), Tool::Ping));
        r.add(
            ToolDescriptor::new(
                "max_int",
                "Get maximum value for integer type.",
                MaxIntArgs::schema(),
                Tool::MaxInt,
            ),
        );
        r.add(
            ToolDescriptor::new(
                "min_int",
                "Get minimum value for integer type",
                MaxIntArgs::schema(),
                Tool::MinInt,
            ),
        );
        r.add(
            ToolDescriptor::new(
                "max_uint",
                "Get maximum value for unsigned integer type.",
                MaxUIntArgs::schema(),
                Tool::MaxUint,
            ),
        );
        r.add(
            ToolDescriptor::new(
                "address_zero",
                "Get the zero address",
                no_arguments(),
                Tool::AddressZero,
            ),
        );
        r.add(ToolDescriptor::new("hash_zero", "Get the zero hash", no_arguments(), Tool::HashZero));
        assert(r@ =~= utility_tools());
        r
    }

    /// Answers a probe.
    pub fn ping(&self) -> (r: ResultEnvelope)
        ensures
            r@ == success_of("pong"@),
    {
        ResultEnvelope::text("pong".to_owned())
    }

    /// The greatest value of an integer type.
    pub fn max_int(&self, args: &MaxIntArgs) -> (r: ResultEnvelope)
        ensures
            r@ == max_of(args.int_type@, "Failed to get max int"@),
    {
        greatest(args.int_type.as_str(), "Failed to get max int")
    }

    /// The least value of an integer type.
    pub fn min_int(&self, args: &MaxIntArgs) -> (r: ResultEnvelope)
        ensures
            r@ == min_of(args.int_type@, "Failed to get min int"@),
    {
        match IntType::parse(args.int_type.as_str()) {
            Some(ty) => ResultEnvelope::text(ty.min_value()),
            None => ResultEnvelope::failure(
                ErrorKind::DecodeError,
                INVALID_PARAMS,
                "Failed to get min int",
            ),
        }
    }

    /// The greatest value of an unsigned integer type.
    pub fn max_uint(&self, args: &MaxUIntArgs) -> (r: ResultEnvelope)
        ensures
            r@ == max_of(args.int_type@, "Failed to get max unsigned int"@),
    {
        greatest(args.int_type.as_str(), "Failed to get max unsigned int")
    }

    /// The address of twenty zero bytes.
    pub fn address_zero(&self) -> (r: ResultEnvelope)
        ensures
            r@ == success_of(zero_hex(40)),
    {
        ResultEnvelope::text(zero_address_text())
    }

    /// The hash of thirty-two zero bytes.
    pub fn hash_zero(&self) -> (r: ResultEnvelope)
        ensures
            r@ == success_of(zero_hex(64)),
    {
        ResultEnvelope::text(zero_word_text())
    }
}

} // verus!

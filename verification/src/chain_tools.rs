//! The tools that ask about the chain itself: its name, its id, and the
//! version of the node.

use vstd::prelude::*;
use crate::common::default_rpc;
use crate::provider::{CallView, Prepared, PreparedView, ProviderCall};
use crate::registry::{described, lemma_tool_names, DescriptorView, Registry, Tool, ToolDescriptor};
use crate::schema::{
    decode_fields,
    record_follows_schema,
    record_view,
    text_at,
    text_field,
    ArgumentSchema,
    DecodeError,
    DecodeErrorView,
    FieldSpec,
    FieldSpecView,
    FieldValueView,
};
use crate::server::Server;
use crate::value::RawArgs;

verus! {

/// The arguments of `chain`, `chain_id` and `client`.
#[derive(Clone, Debug, PartialEq, Eq)]
pub struct ChainArgs {
    /// The RPC endpoint, default value is http://localhost:8545.
    pub rpc: String,
}

impl ChainArgs {
    /// The fields of the request, in order.
    pub open spec fn fields() -> Seq<FieldSpecView> {
        seq![
            text_field("rpc"@, Some("http://localhost:8545"@)),
        ]
    }

    /// The schema of the request.
    pub fn schema() -> (s: ArgumentSchema)
        ensures
            s@ == Self::fields(),
    {
        let mut fields: Vec<FieldSpec> = Vec::new();
        fields.push(FieldSpec::text("rpc", Some(default_rpc())));
        let s = ArgumentSchema { fields };
        assert(s@ =~= Self::fields());
        s
    }

    /// The record that these arguments are decoded from.
    pub open spec fn record(&self) -> Seq<FieldValueView> {
        seq![
            FieldValueView::Text(self.rpc@),
        ]
    }

    /// Decodes the arguments from what a caller sent.
    pub fn decode(raw: &RawArgs) -> (r: Result<ChainArgs, DecodeError>)
        ensures
            match r {
                Ok(args) => decode_fields(Self::fields(), raw@) == Ok::<
                    Seq<FieldValueView>,
                    DecodeErrorView,
                >(args.record()),
                Err(e) => decode_fields(Self::fields(), raw@) == Err::<
                    Seq<FieldValueView>,
                    DecodeErrorView,
                >(e@),
            },
    {
        let schema = Self::schema();
        match schema.decode(raw) {
            Err(e) => Err(e),
            Ok(record) => {
                proof {
                    record_follows_schema(schema@, raw@, record@);
                }
                let args = ChainArgs {
                    rpc: text_at(&record, 0),
                };
                assert(args.record() =~= record_view(record@));
                Ok(args)
            },
        }
    }
}

impl Default for ChainArgs {
    /// Every field at its default; a required field empty.
    fn default() -> (r: ChainArgs)
        ensures
            r.rpc@ == "http://localhost:8545"@,
    {
        ChainArgs {
            rpc: default_rpc(),
        }
    }
}

/// The chain tools as callers see them.
pub open spec fn chain_tools() -> Seq<DescriptorView> {
    seq![
        described(
            "chain"@,
            "\n      Get the symbolic name of the current chain\n      Parameters:\n        rpc: The RPC endpoint, default value is http://localhost:8545.\n    "@,
            ChainArgs::fields(),
            Tool::Chain,
        ),
        described(
            "chain_id"@,
            "\n      Get the chain ID of the current chain\n      Parameters:\n        rpc: The RPC endpoint, default value is http://localhost:8545.\n    "@,
            ChainArgs::fields(),
            Tool::ChainId,
        ),
        described(
            "client"@,
            "\n      Get the current client version.\n      Parameters:\n        rpc: The RPC endpoint, default value is http://localhost:8545.\n    "@,
            ChainArgs::fields(),
            Tool::Client,
        ),
    ]
}

impl Server {
    /// The registry of the chain tools.
    pub fn chain_router() -> (r: Registry)
        ensures
            r.wf(),
            r@ == chain_tools(),
    {
        let mut r = Registry::new();
        proof {
            lemma_tool_names();
        }
        r.add(
            ToolDescriptor::new(
                "chain",
                "\n      Get the symbolic name of the current chain\n      Parameters:\n        rpc: The RPC endpoint, default value is http://localhost:8545.\n    ",
                ChainArgs::schema(),
                Tool::Chain,
            ),
        );
        r.add(
            ToolDescriptor::new(
                "chain_id",
                "\n      Get the chain ID of the current chain\n      Parameters:\n        rpc: The RPC endpoint, default value is http://localhost:8545.\n    ",
                ChainArgs::schema(),
                Tool::ChainId,
            ),
        );
        r.add(
            ToolDescriptor::new(
                "client",
                "\n      Get the current client version.\n      Parameters:\n        rpc: The RPC endpoint, default value is http://localhost:8545.\n    ",
                ChainArgs::schema(),
                Tool::Client,
            ),
        );
        assert(r@ =~= chain_tools());
        r
    }

    /// What `chain` asks of the provider: the name of the chain.
    pub fn chain(&self, _args: &ChainArgs) -> (r: Prepared)
        ensures
            r@ == PreparedView::Call(CallView::ChainName),
    {
        Prepared::Call(ProviderCall::ChainName)
    }

    /// What `chain_id` asks of the provider: the id of the chain.
    pub fn chain_id(&self, _args: &ChainArgs) -> (r: Prepared)
        ensures
            r@ == PreparedView::Call(CallView::ChainId),
    {
        Prepared::Call(ProviderCall::ChainId)
    }

    /// What `client` asks of the provider: the version of the node.
    pub fn client(&self, _args: &ChainArgs) -> (r: Prepared)
        ensures
            r@ == PreparedView::Call(CallView::ClientVersion),
    {
        Prepared::Call(ProviderCall::ClientVersion)
    }
}

} // verus!

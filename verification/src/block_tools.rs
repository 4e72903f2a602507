//! The tools that ask about blocks: a block's timestamp, a block or some of
//! its fields, its number, and the price of gas.

use vstd::prelude::*;
use crate::block::{block_id_of, opt_text, resolve_block};
use crate::common::default_rpc;
use crate::provider::{CallView, Prepared, PreparedView, ProviderCall};
use crate::registry::{described, lemma_tool_names, DescriptorView, Registry, Tool, ToolDescriptor};
use crate::schema::{
    copy_texts,
    decode_fields,
    flag_at,
    flag_field,
    optional_text_at,
    optional_text_field,
    record_follows_schema,
    record_view,
    text_at,
    text_field,
    text_list_at,
    text_list_field,
    ArgumentSchema,
    DecodeError,
    DecodeErrorView,
    FieldSpec,
    FieldSpecView,
    FieldValueView,
};
use crate::server::Server;
use crate::text::same_text;
use crate::value::RawArgs;

verus! {

/// The arguments of `age`.
#[derive(Clone, Debug, PartialEq, Eq)]
pub struct AgeArgs {
    /// The RPC endpoint, default value is http://localhost:8545.
    pub rpc: String,

    /// The block height to query at. Can also be the tags earliest, finalized, safe, latest, pending or block hash.
    pub block: Option<String>,
}

impl AgeArgs {
    /// The fields of the request, in order.
    pub open spec fn fields() -> Seq<FieldSpecView> {
        seq![
            text_field("rpc"@, Some("http://localhost:8545"@)),
            optional_text_field("block"@),
        ]
    }

    /// The schema of the request.
    pub fn schema() -> (s: ArgumentSchema)
        ensures
            s@ == Self::fields(),
    {
        let mut fields: Vec<FieldSpec> = Vec::new();
        fields.push(FieldSpec::text("rpc", Some(default_rpc())));
        fields.push(FieldSpec::optional_text("block"));
        let s = ArgumentSchema { fields };
        assert(s@ =~= Self::fields());
        s
    }

    /// The record that these arguments are decoded from.
    pub open spec fn record(&self) -> Seq<FieldValueView> {
        seq![
            FieldValueView::Text(self.rpc@),
            FieldValueView::OptionalText(opt_text(self.block)),
        ]
    }

    /// Decodes the arguments from what a caller sent.
    pub fn decode(raw: &RawArgs) -> (r: Result<AgeArgs, DecodeError>)
        ensures
            match r {
                Ok(args) => decode_fields(Self::fields(), raw@) == Ok::<
                    Seq<FieldValueView>,
                    DecodeErrorView,
                >(args.record()),
                Err(e) => decode_fields(Self::fields(), raw@) == Err::<
                    Seq<FieldValueView>,
                    DecodeErrorView,
                >(e@),
            },
    {
        let schema = Self::schema();
        match schema.decode(raw) {
            Err(e) => Err(e),
            Ok(record) => {
                proof {
                    record_follows_schema(schema@, raw@, record@);
                }
                let args = AgeArgs {
                    rpc: text_at(&record, 0),
                    block: optional_text_at(&record, 1),
                };
                assert(args.record() =~= record_view(record@));
                Ok(args)
            },
        }
    }
}

impl Default for AgeArgs {
    /// Every field at its default; a required field empty.
    fn default() -> (r: AgeArgs)
        ensures
            r.rpc@ == "http://localhost:8545"@,
            r.block is None,
    {
        AgeArgs {
            rpc: default_rpc(),
            block: None,
        }
    }
}

/// The arguments of `block`.
#[derive(Clone, Debug, PartialEq, Eq)]
pub struct BlockArgs {
    /// The RPC endpoint, default value is http://localhost:8545.
    pub rpc: String,

    /// If specified, only get the given field of the block.
    pub fields: Vec<String>,

    /// Print the raw RLP encoded block header.
    pub raw: bool,

    /// If true, get all fields.
    pub full: bool,

    /// The block height to query at. Can also be the tags earliest, finalized, safe, latest, pending or block hash.
    pub block: Option<String>,
}

impl BlockArgs {
    /// The fields of the request, in order.
    pub open spec fn fields() -> Seq<FieldSpecView> {
        seq![
            text_field("rpc"@, Some("http://localhost:8545"@)),
            text_list_field("fields"@),
            flag_field("raw"@, None),
            flag_field("full"@, None),
            optional_text_field("block"@),
        ]
    }

    /// The schema of the request.
    pub fn schema() -> (s: ArgumentSchema)
        ensures
            s@ == Self::fields(),
    {
        let mut fields: Vec<FieldSpec> = Vec::new();
        fields.push(FieldSpec::text("rpc", Some(default_rpc())));
        fields.push(FieldSpec::text_list("fields"));
        fields.push(FieldSpec::flag("raw", None));
        fields.push(FieldSpec::flag("full", None));
        fields.push(FieldSpec::optional_text("block"));
        let s = ArgumentSchema { fields };
        assert(s@ =~= Self::fields());
        s
    }

    /// The record that these arguments are decoded from.
    pub open spec fn record(&self) -> Seq<FieldValueView> {
        seq![
            FieldValueView::Text(self.rpc@),
            FieldValueView::TextList(self.fields.deep_view()),
            FieldValueView::Flag(self.raw),
            FieldValueView::Flag(self.full),
            FieldValueView::OptionalText(opt_text(self.block)),
        ]
    }

    /// Decodes the arguments from what a caller sent.
    pub fn decode(raw: &RawArgs) -> (r: Result<BlockArgs, DecodeError>)
        ensures
            match r {
                Ok(args) => decode_fields(Self::fields(), raw@) == Ok::<
                    Seq<FieldValueView>,
                    DecodeErrorView,
                >(args.record()),
                Err(e) => decode_fields(Self::fields(), raw@) == Err::<
                    Seq<FieldValueView>,
                    DecodeErrorView,
                >(e@),
            },
    {
        let schema = Self::schema();
        match schema.decode(raw) {
            Err(e) => Err(e),
            Ok(record) => {
                proof {
                    record_follows_schema(schema@, raw@, record@);
                }
                let args = BlockArgs {
                    rpc: text_at(&record, 0),
                    fields: text_list_at(&record, 1),
                    raw: flag_at(&record, 2),
                    full: flag_at(&record, 3),
                    block: optional_text_at(&record, 4),
                };
                assert(args.record() =~= record_view(record@));
                Ok(args)
            },
        }
    }
}

impl Default for BlockArgs {
    /// Every field at its default; a required field empty.
    fn default() -> (r: BlockArgs)
        ensures
            r.rpc@ == "http://localhost:8545"@,
            r.fields@.len() == 0,
            !r.raw,
            !r.full,
            r.block is None,
    {
        BlockArgs {
            rpc: default_rpc(),
            fields: Vec::new(),
            raw: false,
            full: false,
            block: None,
        }
    }
}

/// The arguments of `block_number`.
#[derive(Clone, Debug, PartialEq, Eq)]
pub struct BlockNumberArgs {
    /// The RPC endpoint, default value is http://localhost:8545.
    pub rpc: String,

    /// The block height to query at. Can also be the tags earliest, finalized, safe, latest, pending or block hash.
    pub block: Option<String>,
}

impl BlockNumberArgs {
    /// The fields of the request, in order.
    pub open spec fn fields() -> Seq<FieldSpecView> {
        seq![
            text_field("rpc"@, Some("http://localhost:8545"@)),
            optional_text_field("block"@),
        ]
    }

    /// The schema of the request.
    pub fn schema() -> (s: ArgumentSchema)
        ensures
            s@ == Self::fields(),
    {
        let mut fields: Vec<FieldSpec> = Vec::new();
        fields.push(FieldSpec::text("rpc", Some(default_rpc())));
        fields.push(FieldSpec::optional_text("block"));
        let s = ArgumentSchema { fields };
        assert(s@ =~= Self::fields());
        s
    }

    /// The record that these arguments are decoded from.
    pub open spec fn record(&self) -> Seq<FieldValueView> {
        seq![
            FieldValueView::Text(self.rpc@),
            FieldValueView::OptionalText(opt_text(self.block)),
        ]
    }

    /// Decodes the arguments from what a caller sent.
    pub fn decode(raw: &RawArgs) -> (r: Result<BlockNumberArgs, DecodeError>)
        ensures
            match r {
                Ok(args) => decode_fields(Self::fields(), raw@) == Ok::<
                    Seq<FieldValueView>,
                    DecodeErrorView,
                >(args.record()),
                Err(e) => decode_fields(Self::fields(), raw@) == Err::<
                    Seq<FieldValueView>,
                    DecodeErrorView,
                >(e@),
            },
    {
        let schema = Self::schema();
        match schema.decode(raw) {
            Err(e) => Err(e),
            Ok(record) => {
                proof {
                    record_follows_schema(schema@, raw@, record@);
                }
                let args = BlockNumberArgs {
                    rpc: text_at(&record, 0),
                    block: optional_text_at(&record, 1),
                };
                assert(args.record() =~= record_view(record@));
                Ok(args)
            },
        }
    }
}

impl Default for BlockNumberArgs {
    /// Every field at its default; a required field empty.
    fn default() -> (r: BlockNumberArgs)
        ensures
            r.rpc@ == "http://localhost:8545"@,
            r.block is None,
    {
        BlockNumberArgs {
            rpc: default_rpc(),
            block: None,
        }
    }
}

/// The arguments of `gas_price`.
#[derive(Clone, Debug, PartialEq, Eq)]
pub struct GasPriceArgs {
    /// The RPC endpoint, default value is http://localhost:8545.
    pub rpc: String,
}

impl GasPriceArgs {
    /// The fields of the request, in order.
    pub open spec fn fields() -> Seq<FieldSpecView> {
        seq![
            text_field("rpc"@, Some("http://localhost:8545"@)),
        ]
    }

    /// The schema of the request.
    pub fn schema() -> (s: ArgumentSchema)
        ensures
            s@ == Self::fields(),
    {
        let mut fields: Vec<FieldSpec> = Vec::new();
        fields.push(FieldSpec::text("rpc", Some(default_rpc())));
        let s = ArgumentSchema { fields };
        assert(s@ =~= Self::fields());
        s
    }

    /// The record that these arguments are decoded from.
    pub open spec fn record(&self) -> Seq<FieldValueView> {
        seq![
            FieldValueView::Text(self.rpc@),
        ]
    }

    /// Decodes the arguments from what a caller sent.
    pub fn decode(raw: &RawArgs) -> (r: Result<GasPriceArgs, DecodeError>)
        ensures
            match r {
                Ok(args) => decode_fields(Self::fields(), raw@) == Ok::<
                    Seq<FieldValueView>,
                    DecodeErrorView,
                >(args.record()),
                Err(e) => decode_fields(Self::fields(), raw@) == Err::<
                    Seq<FieldValueView>,
                    DecodeErrorView,
                >(e@),
            },
    {
        let schema = Self::schema();
        match schema.decode(raw) {
            Err(e) => Err(e),
            Ok(record) => {
                proof {
                    record_follows_schema(schema@, raw@, record@);
                }
                let args = GasPriceArgs {
                    rpc: text_at(&record, 0),
                };
                assert(args.record() =~= record_view(record@));
                Ok(args)
            },
        }
    }
}

impl Default for GasPriceArgs {
    /// Every field at its default; a required field empty.
    fn default() -> (r: GasPriceArgs)
        ensures
            r.rpc@ == "http://localhost:8545"@,
    {
        GasPriceArgs {
            rpc: default_rpc(),
        }
    }
}

/// The block tools as callers see them.
pub open spec fn block_tools() -> Seq<DescriptorView> {
    seq![
        described("age"@, "Get the timestamp of a block. "@, AgeArgs::fields(), Tool::Age),
        described(
            "block"@,
            "Get the timestamp of a block."@,
            BlockArgs::fields(),
            Tool::Block,
        ),
        described(
            "block_number"@,
            "Get the latest block number"@,
            BlockNumberArgs::fields(),
            Tool::BlockNumber,
        ),
        described(
            "gas_price"@,
            "Get the current gas price"@,
            GasPriceArgs::fields(),
            Tool::GasPrice,
        ),
    ]
}

/// Whether one of `texts` reads `word`.
pub fn contains_text(texts: &Vec<String>, word: &str) -> (r: bool)
    ensures
        r == texts.deep_view().contains(word@),
{
    let mut i: usize = 0;
    while i < texts.len()
        invariant
            i <= texts.len(),
            forall|k: int| 0 <= k < i ==> texts.deep_view()[k] != word@,
        decreases texts.len() - i,
    {
        if same_text(texts[i].as_str(), word) {
            assert(texts.deep_view()[i as int] == word@);
            return true;
        }
        i += 1;
    }
    false
}

/// What `age` asks of the provider.
pub open spec fn age_plan(args: AgeArgs) -> PreparedView {
    PreparedView::Call(CallView::Age { block: resolve_block(opt_text(args.block)) })
}

/// What `block` asks of the provider. The raw header is asked for where the
/// flag is set or `raw` is among the fields.
pub open spec fn block_plan(args: BlockArgs) -> PreparedView {
    PreparedView::Call(
        CallView::Block {
            block: resolve_block(opt_text(args.block)),
            full: args.full,
            fields: args.fields.deep_view(),
            raw: args.raw || args.fields.deep_view().contains("raw"@),
        },
    )
}

/// What `block_number` asks of the provider: the field `number` of a block.
pub open spec fn block_number_plan(args: BlockNumberArgs) -> PreparedView {
    PreparedView::Call(
        CallView::Block {
            block: resolve_block(opt_text(args.block)),
            full: false,
            fields: seq!["number"@],
            raw: false,
        },
    )
}

impl Server {
    /// The registry of the block tools.
    pub fn block_router() -> (r: Registry)
        ensures
            r.wf(),
            r@ == block_tools(),
    {
        let mut r = Registry::new();
        proof {
            lemma_tool_names();
        }
        r.add(
            ToolDescriptor::new("age", "Get the timestamp of a block. ", AgeArgs::schema(), Tool::Age),
        );
        r.add(
            ToolDescriptor::new(
                "block",
                "Get the timestamp of a block.",
                BlockArgs::schema(),
                Tool::Block,
            ),
        );
        r.add(
            ToolDescriptor::new(
                "block_number",
                "Get the latest block number",
                BlockNumberArgs::schema(),
                Tool::BlockNumber,
            ),
        );
        r.add(
            ToolDescriptor::new(
                "gas_price",
                "Get the current gas price",
                GasPriceArgs::schema(),
                Tool::GasPrice,
            ),
        );
        assert(r@ =~= block_tools());
        r
    }

    /// What `age` asks of the provider: the timestamp of the block that the
    /// reference resolves to.
    pub fn age(&self, args: &AgeArgs) -> (r: Prepared)
        ensures
            r@ == age_plan(*args),
    {
        Prepared::Call(ProviderCall::Age { block: block_id_of(&args.block) })
    }

    /// What `block` asks of the provider.
    pub fn block(&self, args: &BlockArgs) -> (r: Prepared)
        ensures
            r@ == block_plan(*args),
    {
        let raw = args.raw || contains_text(&args.fields, "raw");
        let block = block_id_of(&args.block);
        Prepared::Call(
            ProviderCall::Block { block, full: args.full, fields: copy_texts(&args.fields), raw },
        )
    }

    /// What `block_number` asks of the provider.
    pub fn block_number(&self, args: &BlockNumberArgs) -> (r: Prepared)
        ensures
            r@ == block_number_plan(*args),
    {
        let mut fields: Vec<String> = Vec::new();
        fields.push("number".to_owned());
        assert(fields.deep_view() =~= seq!["number"@]);
        Prepared::Call(
            ProviderCall::Block { block: block_id_of(&args.block), full: false, fields, raw: false },
        )
    }

    /// What `gas_price` asks of the provider.
    pub fn gas_price(&self, _args: &GasPriceArgs) -> (r: Prepared)
        ensures
            r@ == PreparedView::Call(CallView::GasPrice),
    {
        Prepared::Call(ProviderCall::GasPrice)
    }
}

} // verus!

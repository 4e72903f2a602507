//! The tools that ask about an account: its balance, its nonce, its code and
//! the size of it, and a slot of its storage.

use vstd::prelude::*;
use crate::block::{block_id_of, opt_text, resolve_block};
use crate::common::{default_rpc, resolve, resolved};
use crate::envelope::{ErrorKind, INTERNAL_ERROR, PARSE_ERROR, ToolError, ToolErrorView};
use crate::primitives::{hex_decoded_exact, parse_address, parse_word};
use crate::provider::{CallView, Prepared, PreparedView, ProviderCall};
use crate::registry::{described, lemma_tool_names, DescriptorView, Registry, Tool, ToolDescriptor};
use crate::schema::{
    decode_fields,
    flag_at,
    flag_field,
    optional_text_at,
    optional_text_field,
    record_follows_schema,
    record_view,
    text_at,
    text_field,
    ArgumentSchema,
    DecodeError,
    DecodeErrorView,
    FieldSpec,
    FieldSpecView,
    FieldValueView,
};
use crate::server::Server;
use crate::value::RawArgs;

verus! {

/// The arguments of `balance`.
#[derive(Clone, Debug, PartialEq, Eq)]
pub struct BalanceArgs {
    /// The RPC endpoint, default value is http://localhost:8545.
    pub rpc: String,

    /// The block height to query at. Can also be the tags earliest, finalized, safe, latest, pending or block hash.
    pub block: Option<String>,

    /// The account address to query.
    pub who: String,

    /// Format the balance in ether.
    pub ether: bool,
}

impl BalanceArgs {
    /// The fields of the request, in order.
    pub open spec fn fields() -> Seq<FieldSpecView> {
        seq![
            text_field("rpc"@, Some("http://localhost:8545"@)),
            optional_text_field("block"@),
            text_field("who"@, None),
            flag_field("ether"@, Some(false)),
        ]
    }

    /// The schema of the request.
    pub fn schema() -> (s: ArgumentSchema)
        ensures
            s@ == Self::fields(),
    {
        let mut fields: Vec<FieldSpec> = Vec::new();
        fields.push(FieldSpec::text("rpc", Some(default_rpc())));
        fields.push(FieldSpec::optional_text("block"));
        fields.push(FieldSpec::text("who", None));
        fields.push(FieldSpec::flag("ether", Some(false)));
        let s = ArgumentSchema { fields };
        assert(s@ =~= Self::fields());
        s
    }

    /// The record that these arguments are decoded from.
    pub open spec fn record(&self) -> Seq<FieldValueView> {
        seq![
            FieldValueView::Text(self.rpc@),
            FieldValueView::OptionalText(opt_text(self.block)),
            FieldValueView::Text(self.who@),
            FieldValueView::Flag(self.ether),
        ]
    }

    /// Decodes the arguments from what a caller sent.
    pub fn decode(raw: &RawArgs) -> (r: Result<BalanceArgs, DecodeError>)
        ensures
            match r {
                Ok(args) => decode_fields(Self::fields(), raw@) == Ok::<
                    Seq<FieldValueView>,
                    DecodeErrorView,
                >(args.record()),
                Err(e) => decode_fields(Self::fields(), raw@) == Err::<
                    Seq<FieldValueView>,
                    DecodeErrorView,
                >(e@),
            },
    {
        let schema = Self::schema();
        match schema.decode(raw) {
            Err(e) => Err(e),
            Ok(record) => {
                proof {
                    record_follows_schema(schema@, raw@, record@);
                }
                let args = BalanceArgs {
                    rpc: text_at(&record, 0),
                    block: optional_text_at(&record, 1),
                    who: text_at(&record, 2),
                    ether: flag_at(&record, 3),
                };
                assert(args.record() =~= record_view(record@));
                Ok(args)
            },
        }
    }
}

impl Default for BalanceArgs {
    /// Every field at its default; a required field empty.
    fn default() -> (r: BalanceArgs)
        ensures
            r.rpc@ == "http://localhost:8545"@,
            r.block is None,
            r.who@ == Seq::<char>::empty(),
            !r.ether,
    {
        BalanceArgs {
            rpc: default_rpc(),
            block: None,
            who: String::new(),
            ether: false,
        }
    }
}

/// The arguments of `nonce`.
#[derive(Clone, Debug, PartialEq, Eq)]
pub struct NonceArgs {
    /// The RPC endpoint, default value is http://localhost:8545.
    pub rpc: String,

    /// The block height to query at. Can also be the tags earliest, finalized, safe, latest, pending or block hash.
    pub block: Option<String>,

    /// The account address to query.
    pub who: String,
}

impl NonceArgs {
    /// The fields of the request, in order.
    pub open spec fn fields() -> Seq<FieldSpecView> {
        seq![
            text_field("rpc"@, Some("http://localhost:8545"@)),
            optional_text_field("block"@),
            text_field("who"@, None),
        ]
    }

    /// The schema of the request.
    pub fn schema() -> (s: ArgumentSchema)
        ensures
            s@ == Self::fields(),
    {
        let mut fields: Vec<FieldSpec> = Vec::new();
        fields.push(FieldSpec::text("rpc", Some(default_rpc())));
        fields.push(FieldSpec::optional_text("block"));
        fields.push(FieldSpec::text("who", None));
        let s = ArgumentSchema { fields };
        assert(s@ =~= Self::fields());
        s
    }

    /// The record that these arguments are decoded from.
    pub open spec fn record(&self) -> Seq<FieldValueView> {
        seq![
            FieldValueView::Text(self.rpc@),
            FieldValueView::OptionalText(opt_text(self.block)),
            FieldValueView::Text(self.who@),
        ]
    }

    /// Decodes the arguments from what a caller sent.
    pub fn decode(raw: &RawArgs) -> (r: Result<NonceArgs, DecodeError>)
        ensures
            match r {
                Ok(args) => decode_fields(Self::fields(), raw@) == Ok::<
                    Seq<FieldValueView>,
                    DecodeErrorView,
                >(args.record()),
                Err(e) => decode_fields(Self::fields(), raw@) == Err::<
                    Seq<FieldValueView>,
                    DecodeErrorView,
                >(e@),
            },
    {
        let schema = Self::schema();
        match schema.decode(raw) {
            Err(e) => Err(e),
            Ok(record) => {
                proof {
                    record_follows_schema(schema@, raw@, record@);
                }
                let args = NonceArgs {
                    rpc: text_at(&record, 0),
                    block: optional_text_at(&record, 1),
                    who: text_at(&record, 2),
                };
                assert(args.record() =~= record_view(record@));
                Ok(args)
            },
        }
    }
}

impl Default for NonceArgs {
    /// Every field at its default; a required field empty.
    fn default() -> (r: NonceArgs)
        ensures
            r.rpc@ == "http://localhost:8545"@,
            r.block is None,
            r.who@ == Seq::<char>::empty(),
    {
        NonceArgs {
            rpc: default_rpc(),
            block: None,
            who: String::new(),
        }
    }
}

/// The arguments of `code`.
#[derive(Clone, Debug, PartialEq, Eq)]
pub struct CodeArgs {
    /// The RPC endpoint, default value is http://localhost:8545.
    pub rpc: String,

    /// The block height to query at. Can also be the tags earliest, finalized, safe, latest, pending or block hash.
    pub block: Option<String>,

    /// An Ethereum Address
    pub address: Option<String>,

    /// An ENS Name (format does not get checked)
    pub name: Option<String>,

    /// Disassemble bytecodes into individual opcodes.
    pub disassemble: bool,
}

impl CodeArgs {
    /// The fields of the request, in order.
    pub open spec fn fields() -> Seq<FieldSpecView> {
        seq![
            text_field("rpc"@, Some("http://localhost:8545"@)),
            optional_text_field("block"@),
            optional_text_field("address"@),
            optional_text_field("name"@),
            flag_field("disassemble"@, Some(false)),
        ]
    }

    /// The schema of the request.
    pub fn schema() -> (s: ArgumentSchema)
        ensures
            s@ == Self::fields(),
    {
        let mut fields: Vec<FieldSpec> = Vec::new();
        fields.push(FieldSpec::text("rpc", Some(default_rpc())));
        fields.push(FieldSpec::optional_text("block"));
        fields.push(FieldSpec::optional_text("address"));
        fields.push(FieldSpec::optional_text("name"));
        fields.push(FieldSpec::flag("disassemble", Some(false)));
        let s = ArgumentSchema { fields };
        assert(s@ =~= Self::fields());
        s
    }

    /// The record that these arguments are decoded from.
    pub open spec fn record(&self) -> Seq<FieldValueView> {
        seq![
            FieldValueView::Text(self.rpc@),
            FieldValueView::OptionalText(opt_text(self.block)),
            FieldValueView::OptionalText(opt_text(self.address)),
            FieldValueView::OptionalText(opt_text(self.name)),
            FieldValueView::Flag(self.disassemble),
        ]
    }

    /// Decodes the arguments from what a caller sent.
    pub fn decode(raw: &RawArgs) -> (r: Result<CodeArgs, DecodeError>)
        ensures
            match r {
                Ok(args) => decode_fields(Self::fields(), raw@) == Ok::<
                    Seq<FieldValueView>,
                    DecodeErrorView,
                >(args.record()),
                Err(e) => decode_fields(Self::fields(), raw@) == Err::<
                    Seq<FieldValueView>,
                    DecodeErrorView,
                >(e@),
            },
    {
        let schema = Self::schema();
        match schema.decode(raw) {
            Err(e) => Err(e),
            Ok(record) => {
                proof {
                    record_follows_schema(schema@, raw@, record@);
                }
                let args = CodeArgs {
                    rpc: text_at(&record, 0),
                    block: optional_text_at(&record, 1),
                    address: optional_text_at(&record, 2),
                    name: optional_text_at(&record, 3),
                    disassemble: flag_at(&record, 4),
                };
                assert(args.record() =~= record_view(record@));
                Ok(args)
            },
        }
    }
}

impl Default for CodeArgs {
    /// Every field at its default; a required field empty.
    fn default() -> (r: CodeArgs)
        ensures
            r.rpc@ == "http://localhost:8545"@,
            r.block is None,
            r.address is None,
            r.name is None,
            !r.disassemble,
    {
        CodeArgs {
            rpc: default_rpc(),
            block: None,
            address: None,
            name: None,
            disassemble: false,
        }
    }
}

/// The arguments of `storage`.
#[derive(Clone, Debug, PartialEq, Eq)]
pub struct StorageArgs {
    /// The RPC endpoint, default value is http://localhost:8545.
    pub rpc: String,

    /// The block height to query at. Can also be the tags earliest, finalized, safe, latest, pending or block hash.
    pub block: Option<String>,

    /// The contract address to query.
    pub address: String,

    /// The storage slot to query.
    pub slot: String,

    /// Return the proof for the queried storage slot.
    pub proof: bool,
}

impl StorageArgs {
    /// The fields of the request, in order.
    pub open spec fn fields() -> Seq<FieldSpecView> {
        seq![
            text_field("rpc"@, Some("http://localhost:8545"@)),
            optional_text_field("block"@),
            text_field("address"@, None),
            text_field("slot"@, None),
            flag_field("proof"@, Some(false)),
        ]
    }

    /// The schema of the request.
    pub fn schema() -> (s: ArgumentSchema)
        ensures
            s@ == Self::fields(),
    {
        let mut fields: Vec<FieldSpec> = Vec::new();
        fields.push(FieldSpec::text("rpc", Some(default_rpc())));
        fields.push(FieldSpec::optional_text("block"));
        fields.push(FieldSpec::text("address", None));
        fields.push(FieldSpec::text("slot", None));
        fields.push(FieldSpec::flag("proof", Some(false)));
        let s = ArgumentSchema { fields };
        assert(s@ =~= Self::fields());
        s
    }

    /// The record that these arguments are decoded from.
    pub open spec fn record(&self) -> Seq<FieldValueView> {
        seq![
            FieldValueView::Text(self.rpc@),
            FieldValueView::OptionalText(opt_text(self.block)),
            FieldValueView::Text(self.address@),
            FieldValueView::Text(self.slot@),
            FieldValueView::Flag(self.proof),
        ]
    }

    /// Decodes the arguments from what a caller sent.
    pub fn decode(raw: &RawArgs) -> (r: Result<StorageArgs, DecodeError>)
        ensures
            match r {
                Ok(args) => decode_fields(Self::fields(), raw@) == Ok::<
                    Seq<FieldValueView>,
                    DecodeErrorView,
                >(args.record()),
                Err(e) => decode_fields(Self::fields(), raw@) == Err::<
                    Seq<FieldValueView>,
                    DecodeErrorView,
                >(e@),
            },
    {
        let schema = Self::schema();
        match schema.decode(raw) {
            Err(e) => Err(e),
            Ok(record) => {
                proof {
                    record_follows_schema(schema@, raw@, record@);
                }
                let args = StorageArgs {
                    rpc: text_at(&record, 0),
                    block: optional_text_at(&record, 1),
                    address: text_at(&record, 2),
                    slot: text_at(&record, 3),
                    proof: flag_at(&record, 4),
                };
                assert(args.record() =~= record_view(record@));
                Ok(args)
            },
        }
    }
}

impl Default for StorageArgs {
    /// Every field at its default; a required field empty.
    fn default() -> (r: StorageArgs)
        ensures
            r.rpc@ == "http://localhost:8545"@,
            r.block is None,
            r.address@ == Seq::<char>::empty(),
            r.slot@ == Seq::<char>::empty(),
            !r.proof,
    {
        StorageArgs {
            rpc: default_rpc(),
            block: None,
            address: String::new(),
            slot: String::new(),
            proof: false,
        }
    }
}

/// The arguments of `code_size`.
#[derive(Clone, Debug, PartialEq, Eq)]
pub struct CodeSizeArgs {
    /// The RPC endpoint, default value is http://localhost:8545.
    pub rpc: String,

    /// The block height to query at. Can also be the tags earliest, finalized, safe, latest, pending or block hash.
    pub block: Option<String>,

    /// An Ethereum Address
    pub address: Option<String>,

    /// An ENS Name (format does not get checked)
    pub name: Option<String>,
}

impl CodeSizeArgs {
    /// The fields of the request, in order.
    pub open spec fn fields() -> Seq<FieldSpecView> {
        seq![
            text_field("rpc"@, Some("http://localhost:8545"@)),
            optional_text_field("block"@),
            optional_text_field("address"@),
            optional_text_field("name"@),
        ]
    }

    /// The schema of the request.
    pub fn schema() -> (s: ArgumentSchema)
        ensures
            s@ == Self::fields(),
    {
        let mut fields: Vec<FieldSpec> = Vec::new();
        fields.push(FieldSpec::text("rpc", Some(default_rpc())));
        fields.push(FieldSpec::optional_text("block"));
        fields.push(FieldSpec::optional_text("address"));
        fields.push(FieldSpec::optional_text("name"));
        let s = ArgumentSchema { fields };
        assert(s@ =~= Self::fields());
        s
    }

    /// The record that these arguments are decoded from.
    pub open spec fn record(&self) -> Seq<FieldValueView> {
        seq![
            FieldValueView::Text(self.rpc@),
            FieldValueView::OptionalText(opt_text(self.block)),
            FieldValueView::OptionalText(opt_text(self.address)),
            FieldValueView::OptionalText(opt_text(self.name)),
        ]
    }

    /// Decodes the arguments from what a caller sent.
    pub fn decode(raw: &RawArgs) -> (r: Result<CodeSizeArgs, DecodeError>)
        ensures
            match r {
                Ok(args) => decode_fields(Self::fields(), raw@) == Ok::<
                    Seq<FieldValueView>,
                    DecodeErrorView,
                >(args.record()),
                Err(e) => decode_fields(Self::fields(), raw@) == Err::<
                    Seq<FieldValueView>,
                    DecodeErrorView,
                >(e@),
            },
    {
        let schema = Self::schema();
        match schema.decode(raw) {
            Err(e) => Err(e),
            Ok(record) => {
                proof {
                    record_follows_schema(schema@, raw@, record@);
                }
                let args = CodeSizeArgs {
                    rpc: text_at(&record, 0),
                    block: optional_text_at(&record, 1),
                    address: optional_text_at(&record, 2),
                    name: optional_text_at(&record, 3),
                };
                assert(args.record() =~= record_view(record@));
                Ok(args)
            },
        }
    }
}

impl Default for CodeSizeArgs {
    /// Every field at its default; a required field empty.
    fn default() -> (r: CodeSizeArgs)
        ensures
            r.rpc@ == "http://localhost:8545"@,
            r.block is None,
            r.address is None,
            r.name is None,
    {
        CodeSizeArgs {
            rpc: default_rpc(),
            block: None,
            address: None,
            name: None,
        }
    }
}

/// The account tools as callers see them.
pub open spec fn account_tools() -> Seq<DescriptorView> {
    seq![
        described(
            "balance"@,
            "Get the balance of an account in wei or ether"@,
            BalanceArgs::fields(),
            Tool::Balance,
        ),
        described("nonce"@, "Get the nonce of an account"@, NonceArgs::fields(), Tool::Nonce),
        described("code"@, "Get the bytecode of a contract"@, CodeArgs::fields(), Tool::Code),
        described(
            "storage"@,
            "Get the storage value at a specific slot"@,
            StorageArgs::fields(),
            Tool::Storage,
        ),
        described(
            "code_size"@,
            "Get the size of contract bytecode in bytes"@,
            CodeSizeArgs::fields(),
            Tool::CodeSize,
        ),
    ]
}

/// The failure of a reference that cannot be read.
pub open spec fn unreadable(message: Seq<char>) -> PreparedView {
    PreparedView::Fail(
        ToolErrorView {
            kind: ErrorKind::ResolutionError,
            code: PARSE_ERROR,
            message,
            data: None,
        },
    )
}

/// The failure of an address that cannot be found, with the reason.
pub open spec fn no_address(reason: Seq<char>) -> PreparedView {
    PreparedView::Fail(
        ToolErrorView {
            kind: ErrorKind::ResolutionError,
            code: INTERNAL_ERROR,
            message: "Failed to get address"@,
            data: Some(reason),
        },
    )
}

/// What `balance` asks of the provider: the balance of the account at the
/// block that the reference resolves to.
pub open spec fn balance_plan(args: BalanceArgs) -> PreparedView {
    match hex_decoded_exact(args.who@, 20) {
        Some(address) => PreparedView::Call(
            CallView::Balance { address, block: resolve_block(opt_text(args.block)) },
        ),
        None => unreadable("Invalid address format"@),
    }
}

/// What `nonce` asks of the provider.
pub open spec fn nonce_plan(args: NonceArgs) -> PreparedView {
    match hex_decoded_exact(args.who@, 20) {
        Some(address) => PreparedView::Call(
            CallView::Nonce { address, block: resolve_block(opt_text(args.block)) },
        ),
        None => unreadable("Invalid address format"@),
    }
}

/// What `storage` asks of the provider. The address is read first, then the
/// slot.
pub open spec fn storage_plan(args: StorageArgs) -> PreparedView {
    match hex_decoded_exact(args.address@, 20) {
        Some(address) => match hex_decoded_exact(args.slot@, 32) {
            Some(slot) => PreparedView::Call(
                CallView::Storage { address, slot, block: resolve_block(opt_text(args.block)) },
            ),
            None => unreadable("Invalid slot format"@),
        },
        None => unreadable("Invalid address format"@),
    }
}

/// The failure of a name that the provider could not resolve, with what
/// the provider said.
pub open spec fn lookup_failed(reason: Seq<char>) -> PreparedView {
    PreparedView::Fail(
        ToolErrorView {
            kind: ErrorKind::ProviderError,
            code: INTERNAL_ERROR,
            message: "Failed to get address"@,
            data: Some(reason),
        },
    )
}

/// Where the address of a request comes from, given what the lookup of its
/// name returned, if that was made: the name is looked up first; a failed
/// lookup is the provider's failure; without a name the literal address is
/// read.
pub open spec fn address_plan(
    name: Option<String>,
    address: Option<String>,
    lookup: Option<Result<[u8; 20], String>>,
) -> Result<Seq<u8>, PreparedView> {
    match lookup {
        None => match name {
            Some(name) => Err(PreparedView::Lookup { name: name@ }),
            None => match resolved(None, address) {
                Ok(found) => Ok(found),
                Err(reason) => Err(no_address(reason)),
            },
        },
        Some(Ok(found)) => Ok(found@),
        Some(Err(reason)) => Err(lookup_failed(reason@)),
    }
}

/// What `code` does, given what the lookup of its name returned, if that
/// was made.
pub open spec fn code_plan(
    args: CodeArgs,
    lookup: Option<Result<[u8; 20], String>>,
) -> PreparedView {
    match address_plan(args.name, args.address, lookup) {
        Ok(address) => PreparedView::Call(
            CallView::Code {
                address,
                block: resolve_block(opt_text(args.block)),
                disassemble: args.disassemble,
            },
        ),
        Err(other) => other,
    }
}

/// What `code_size` does, given what the lookup of its name returned, if
/// that was made.
pub open spec fn code_size_plan(
    args: CodeSizeArgs,
    lookup: Option<Result<[u8; 20], String>>,
) -> PreparedView {
    match address_plan(args.name, args.address, lookup) {
        Ok(address) => PreparedView::Call(
            CallView::CodeSize { address, block: resolve_block(opt_text(args.block)) },
        ),
        Err(other) => other,
    }
}

/// The failure of a reference that cannot be read.
fn fail_unreadable(message: &str) -> (r: Prepared)
    ensures
        r@ == unreadable(message@),
{
    Prepared::Fail(
        ToolError {
            kind: ErrorKind::ResolutionError,
            code: PARSE_ERROR,
            message: message.to_owned(),
            data: None,
        },
    )
}

/// The failure of an address that cannot be found.
fn fail_no_address(reason: String) -> (r: Prepared)
    ensures
        r@ == no_address(reason@),
{
    Prepared::Fail(
        ToolError {
            kind: ErrorKind::ResolutionError,
            code: INTERNAL_ERROR,
            message: "Failed to get address".to_owned(),
            data: Some(reason),
        },
    )
}

/// The failure of a name that the provider could not resolve.
fn fail_lookup(reason: String) -> (r: Prepared)
    ensures
        r@ == lookup_failed(reason@),
{
    Prepared::Fail(
        ToolError {
            kind: ErrorKind::ProviderError,
            code: INTERNAL_ERROR,
            message: "Failed to get address".to_owned(),
            data: Some(reason),
        },
    )
}

/// Where the address of a request comes from.
fn plan_address(
    name: &Option<String>,
    address: &Option<String>,
    lookup: Option<Result<[u8; 20], String>>,
) -> (r: Result<[u8; 20], Prepared>)
    ensures
        match r {
            Ok(found) => address_plan(*name, *address, lookup) == Ok::<Seq<u8>, PreparedView>(
                found@,
            ),
            Err(other) => address_plan(*name, *address, lookup) == Err::<Seq<u8>, PreparedView>(
                other@,
            ),
        },
{
    match lookup {
        None => match name {
            Some(name) => Err(Prepared::Lookup { name: name.clone() }),
            None => match resolve(None, copy_optional(address)) {
                Ok(found) => Ok(found),
                Err(reason) => Err(fail_no_address(reason)),
            },
        },
        Some(Ok(found)) => Ok(found),
        Some(Err(reason)) => Err(fail_lookup(reason)),
    }
}

/// A copy of an optional text.
fn copy_optional(text: &Option<String>) -> (r: Option<String>)
    ensures
        r == *text,
{
    match text {
        Some(s) => Some(s.clone()),
        None => None,
    }
}

impl Server {
    /// The registry of the account tools.
    pub fn account_router() -> (r: Registry)
        ensures
            r.wf(),
            r@ == account_tools(),
    {
        let mut r = Registry::new();
        proof {
            lemma_tool_names();
        }
        r.add(
            ToolDescriptor::new(
                "balance",
                "Get the balance of an account in wei or ether",
                BalanceArgs::schema(),
                Tool::Balance,
            ),
        );
        r.add(
            ToolDescriptor::new(
                "nonce",
                "Get the nonce of an account",
                NonceArgs::schema(),
                Tool::Nonce,
            ),
        );
        r.add(
            ToolDescriptor::new(
                "code",
                "Get the bytecode of a contract",
                CodeArgs::schema(),
                Tool::Code,
            ),
        );
        r.add(
            ToolDescriptor::new(
                "storage",
                "Get the storage value at a specific slot",
                StorageArgs::schema(),
                Tool::Storage,
            ),
        );
        r.add(
            ToolDescriptor::new(
                "code_size",
                "Get the size of contract bytecode in bytes",
                CodeSizeArgs::schema(),
                Tool::CodeSize,
            ),
        );
        assert(r@ =~= account_tools());
        r
    }

    /// What `balance` asks of the provider, or why it cannot ask.
    pub fn balance(&self, args: &BalanceArgs) -> (r: Prepared)
        ensures
            r@ == balance_plan(*args),
    {
        match parse_address(args.who.as_str()) {
            Some(address) => Prepared::Call(
                ProviderCall::Balance { address, block: block_id_of(&args.block) },
            ),
            None => fail_unreadable("Invalid address format"),
        }
    }

    /// What `nonce` asks of the provider, or why it cannot ask.
    pub fn nonce(&self, args: &NonceArgs) -> (r: Prepared)
        ensures
            r@ == nonce_plan(*args),
    {
        match parse_address(args.who.as_str()) {
            Some(address) => Prepared::Call(
                ProviderCall::Nonce { address, block: block_id_of(&args.block) },
            ),
            None => fail_unreadable("Invalid address format"),
        }
    }

    /// What `code` does next: have the name looked up, ask for the code, or
    /// give up. `lookup` is what the lookup returned, once it was made.
    pub fn code(&self, args: &CodeArgs, lookup: Option<Result<[u8; 20], String>>) -> (r: Prepared)
        ensures
            r@ == code_plan(*args, lookup),
    {
        match plan_address(&args.name, &args.address, lookup) {
            Ok(address) => Prepared::Call(
                ProviderCall::Code {
                    address,
                    block: block_id_of(&args.block),
                    disassemble: args.disassemble,
                },
            ),
            Err(other) => other,
        }
    }

    /// What `storage` asks of the provider, or why it cannot ask.
    pub fn storage(&self, args: &StorageArgs) -> (r: Prepared)
        ensures
            r@ == storage_plan(*args),
    {
        let address = match parse_address(args.address.as_str()) {
            Some(address) => address,
            None => {
                return fail_unreadable("Invalid address format");
            },
        };
        let slot = match parse_word(args.slot.as_str()) {
            Some(slot) => slot,
            None => {
                return fail_unreadable("Invalid slot format");
            },
        };
        Prepared::Call(ProviderCall::Storage { address, slot, block: block_id_of(&args.block) })
    }

    /// What `code_size` does next: have the name looked up, ask for the
    /// size, or give up.
    pub fn code_size(&self, args: &CodeSizeArgs, lookup: Option<Result<[u8; 20], String>>) -> (r:
        Prepared)
        ensures
            r@ == code_size_plan(*args, lookup),
    {
        match plan_address(&args.name, &args.address, lookup) {
            Ok(address) => Prepared::Call(
                ProviderCall::CodeSize { address, block: block_id_of(&args.block) },
            ),
            Err(other) => other,
        }
    }
}

} // verus!

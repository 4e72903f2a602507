//! The course of one call: received, decoded, invoked, completed. The
//! library decides each step; whoever runs the call connects the endpoint,
//! asks the provider, and hands back what happened.

use vstd::prelude::*;
use crate::account_tools::{
    balance_plan,
    code_plan,
    code_size_plan,
    nonce_plan,
    storage_plan,
    BalanceArgs,
    CodeArgs,
    CodeSizeArgs,
    NonceArgs,
    StorageArgs,
};
use crate::block_tools::{
    age_plan,
    block_number_plan,
    block_plan,
    AgeArgs,
    BlockArgs,
    BlockNumberArgs,
    GasPriceArgs,
};
use crate::chain_tools::ChainArgs;
use crate::envelope::{
    failure_of,
    failure_with,
    success_of,
    EnvelopeView,
    ErrorKind,
    INTERNAL_ERROR,
    INVALID_PARAMS,
    PARSE_ERROR,
    ResultEnvelope,
    ToolError,
};
use crate::primitives::{decimal_text, zero_hex};
use crate::provider::{CallView, Prepared, PreparedView, ProviderCall, ProviderValue};
use crate::quantity::ether_text;
use crate::registry::{begins, find_tool, DescriptorView, Tool};
use crate::schema::{
    absent_field_is_its_default,
    decode_fields,
    decode_message,
    schema_wf,
    DecodeError,
    DecodeErrorView,
    FieldSpecView,
    FieldValueView,
};
use crate::server::{server_tools, Server};
use crate::utility_tools::{max_of, min_of, MaxIntArgs, MaxUIntArgs};
use crate::value::{ArgValueView, RawArgs};

verus! {

/// A decoded request that is answered without a chain.
#[derive(Clone, Debug, PartialEq, Eq)]
pub enum Computation {
    Ping,
    MaxInt(MaxIntArgs),
    MinInt(MaxIntArgs),
    MaxUint(MaxUIntArgs),
    AddressZero,
    HashZero,
}

/// A decoded request that the provider answers.
#[derive(Clone, Debug, PartialEq, Eq)]
pub enum Query {
    Age(AgeArgs),
    Block(BlockArgs),
    BlockNumber(BlockNumberArgs),
    GasPrice(GasPriceArgs),
    Chain(ChainArgs),
    ChainId(ChainArgs),
    Client(ChainArgs),
    Balance(BalanceArgs),
    Nonce(NonceArgs),
    Code(CodeArgs),
    Storage(StorageArgs),
    CodeSize(CodeSizeArgs),
}

/// A decoded request.
#[derive(Clone, Debug, PartialEq, Eq)]
pub enum Request {
    Compute(Computation),
    Query(Query),
}

/// The fields that a tool's request has.
pub open spec fn tool_fields(tool: Tool) -> Seq<FieldSpecView> {
    match tool {
        Tool::Ping => Seq::empty(),
        Tool::MaxInt => MaxIntArgs::fields(),
        Tool::MinInt => MaxIntArgs::fields(),
        Tool::MaxUint => MaxUIntArgs::fields(),
        Tool::AddressZero => Seq::empty(),
        Tool::HashZero => Seq::empty(),
        Tool::Age => AgeArgs::fields(),
        Tool::Block => BlockArgs::fields(),
        Tool::BlockNumber => BlockNumberArgs::fields(),
        Tool::GasPrice => GasPriceArgs::fields(),
        Tool::Chain => ChainArgs::fields(),
        Tool::ChainId => ChainArgs::fields(),
        Tool::Client => ChainArgs::fields(),
        Tool::Balance => BalanceArgs::fields(),
        Tool::Nonce => NonceArgs::fields(),
        Tool::Code => CodeArgs::fields(),
        Tool::Storage => StorageArgs::fields(),
        Tool::CodeSize => CodeSizeArgs::fields(),
    }
}

impl Computation {
    /// The tool that the request is for.
    pub open spec fn tool(&self) -> Tool {
        match self {
            Computation::Ping => Tool::Ping,
            Computation::MaxInt(_) => Tool::MaxInt,
            Computation::MinInt(_) => Tool::MinInt,
            Computation::MaxUint(_) => Tool::MaxUint,
            Computation::AddressZero => Tool::AddressZero,
            Computation::HashZero => Tool::HashZero,
        }
    }

    /// The record that the request was decoded from.
    pub open spec fn record(&self) -> Seq<FieldValueView> {
        match self {
            Computation::Ping => Seq::empty(),
            Computation::MaxInt(args) => args.record(),
            Computation::MinInt(args) => args.record(),
            Computation::MaxUint(args) => args.record(),
            Computation::AddressZero => Seq::empty(),
            Computation::HashZero => Seq::empty(),
        }
    }

    /// What the computation answers.
    pub open spec fn answer(&self) -> EnvelopeView {
        match self {
            Computation::Ping => success_of("pong"@),
            Computation::MaxInt(args) => max_of(args.int_type@, "Failed to get max int"@),
            Computation::MinInt(args) => min_of(args.int_type@, "Failed to get min int"@),
            Computation::MaxUint(args) => max_of(
                args.int_type@,
                "Failed to get max unsigned int"@,
            ),
            Computation::AddressZero => success_of(zero_hex(40)),
            Computation::HashZero => success_of(zero_hex(64)),
        }
    }
}

impl Query {
    /// The tool that the request is for.
    pub open spec fn tool(&self) -> Tool {
        match self {
            Query::Age(_) => Tool::Age,
            Query::Block(_) => Tool::Block,
            Query::BlockNumber(_) => Tool::BlockNumber,
            Query::GasPrice(_) => Tool::GasPrice,
            Query::Chain(_) => Tool::Chain,
            Query::ChainId(_) => Tool::ChainId,
            Query::Client(_) => Tool::Client,
            Query::Balance(_) => Tool::Balance,
            Query::Nonce(_) => Tool::Nonce,
            Query::Code(_) => Tool::Code,
            Query::Storage(_) => Tool::Storage,
            Query::CodeSize(_) => Tool::CodeSize,
        }
    }

    /// The record that the request was decoded from.
    pub open spec fn record(&self) -> Seq<FieldValueView> {
        match self {
            Query::Age(args) => args.record(),
            Query::Block(args) => args.record(),
            Query::BlockNumber(args) => args.record(),
            Query::GasPrice(args) => args.record(),
            Query::Chain(args) => args.record(),
            Query::ChainId(args) => args.record(),
            Query::Client(args) => args.record(),
            Query::Balance(args) => args.record(),
            Query::Nonce(args) => args.record(),
            Query::Code(args) => args.record(),
            Query::Storage(args) => args.record(),
            Query::CodeSize(args) => args.record(),
        }
    }

    /// The endpoint that the request is for.
    pub open spec fn endpoint(&self) -> Seq<char> {
        match self {
            Query::Age(args) => args.rpc@,
            Query::Block(args) => args.rpc@,
            Query::BlockNumber(args) => args.rpc@,
            Query::GasPrice(args) => args.rpc@,
            Query::Chain(args) => args.rpc@,
            Query::ChainId(args) => args.rpc@,
            Query::Client(args) => args.rpc@,
            Query::Balance(args) => args.rpc@,
            Query::Nonce(args) => args.rpc@,
            Query::Code(args) => args.rpc@,
            Query::Storage(args) => args.rpc@,
            Query::CodeSize(args) => args.rpc@,
        }
    }

    /// What the request does once its endpoint is connected; `lookup` is
    /// what the lookup of its name returned, once that was made.
    pub open spec fn plan(&self, lookup: Option<Result<[u8; 20], String>>) -> PreparedView {
        match self {
            Query::Age(args) => age_plan(*args),
            Query::Block(args) => block_plan(*args),
            Query::BlockNumber(args) => block_number_plan(*args),
            Query::GasPrice(_) => PreparedView::Call(CallView::GasPrice),
            Query::Chain(_) => PreparedView::Call(CallView::ChainName),
            Query::ChainId(_) => PreparedView::Call(CallView::ChainId),
            Query::Client(_) => PreparedView::Call(CallView::ClientVersion),
            Query::Balance(args) => balance_plan(*args),
            Query::Nonce(args) => nonce_plan(*args),
            Query::Code(args) => code_plan(*args, lookup),
            Query::Storage(args) => storage_plan(*args),
            Query::CodeSize(args) => code_size_plan(*args, lookup),
        }
    }

    /// The message of the failure when the provider cannot answer.
    pub open spec fn failure_message(&self) -> Seq<char> {
        match self {
            Query::Age(_) => "Failed to get block age"@,
            Query::Block(_) => "Failed to get block"@,
            Query::BlockNumber(_) => "Failed to get block information"@,
            Query::GasPrice(_) => "Failed to get gas price"@,
            Query::Chain(_) => "Failed to get chain"@,
            Query::ChainId(_) => "Failed to get chain"@,
            Query::Client(_) => "Failed to get client version"@,
            Query::Balance(_) => "Failed to get balance"@,
            Query::Nonce(_) => "Failed to get nonce"@,
            Query::Code(_) => "Failed to get code"@,
            Query::Storage(_) => "Failed to get storage"@,
            Query::CodeSize(_) => "Failed to get code size"@,
        }
    }

    /// The text of what the provider returned. A text is handed on as it
    /// is. A number is written in decimal, but for a balance asked for in
    /// ether.
    pub open spec fn rendered(&self, value: ProviderValue) -> Seq<char> {
        match value {
            ProviderValue::Text(text) => text@,
            ProviderValue::Number(number) => match self {
                Query::Balance(args) => if args.ether {
                    ether_text(number.value())
                } else {
                    decimal_text(number.value())
                },
                _ => decimal_text(number.value()),
            },
        }
    }

    /// The endpoint that the request is for.
    pub fn rpc(&self) -> (r: String)
        ensures
            r@ == self.endpoint(),
    {
        match self {
            Query::Age(args) => args.rpc.clone(),
            Query::Block(args) => args.rpc.clone(),
            Query::BlockNumber(args) => args.rpc.clone(),
            Query::GasPrice(args) => args.rpc.clone(),
            Query::Chain(args) => args.rpc.clone(),
            Query::ChainId(args) => args.rpc.clone(),
            Query::Client(args) => args.rpc.clone(),
            Query::Balance(args) => args.rpc.clone(),
            Query::Nonce(args) => args.rpc.clone(),
            Query::Code(args) => args.rpc.clone(),
            Query::Storage(args) => args.rpc.clone(),
            Query::CodeSize(args) => args.rpc.clone(),
        }
    }

    /// The message of the failure when the provider cannot answer.
    pub fn failure_text(&self) -> (r: &'static str)
        ensures
            r@ == self.failure_message(),
    {
        match self {
            Query::Age(_) => "Failed to get block age",
            Query::Block(_) => "Failed to get block",
            Query::BlockNumber(_) => "Failed to get block information",
            Query::GasPrice(_) => "Failed to get gas price",
            Query::Chain(_) => "Failed to get chain",
            Query::ChainId(_) => "Failed to get chain",
            Query::Client(_) => "Failed to get client version",
            Query::Balance(_) => "Failed to get balance",
            Query::Nonce(_) => "Failed to get nonce",
            Query::Code(_) => "Failed to get code",
            Query::Storage(_) => "Failed to get storage",
            Query::CodeSize(_) => "Failed to get code size",
        }
    }

    /// Writes out what the provider returned.
    pub fn render(&self, value: ProviderValue) -> (r: String)
        ensures
            r@ == self.rendered(value),
    {
        match value {
            ProviderValue::Text(text) => text,
            ProviderValue::Number(number) => match self {
                Query::Balance(args) => if args.ether {
                    number.to_ether()
                } else {
                    number.to_decimal()
                },
                _ => number.to_decimal(),
            },
        }
    }
}

impl Request {
    /// The tool that the request is for.
    pub open spec fn tool(&self) -> Tool {
        match self {
            Request::Compute(c) => c.tool(),
            Request::Query(q) => q.tool(),
        }
    }

    /// The record that the request was decoded from.
    pub open spec fn record(&self) -> Seq<FieldValueView> {
        match self {
            Request::Compute(c) => c.record(),
            Request::Query(q) => q.record(),
        }
    }

    /// Decodes the request of a tool from what a caller sent.
    pub fn decode(tool: Tool, raw: &RawArgs) -> (r: Result<Request, DecodeError>)
        ensures
            match r {
                Ok(request) => request.tool() == tool && decode_fields(tool_fields(tool), raw@)
                    == Ok::<Seq<FieldValueView>, DecodeErrorView>(request.record()),
                Err(e) => decode_fields(tool_fields(tool), raw@) == Err::<
                    Seq<FieldValueView>,
                    DecodeErrorView,
                >(e@),
            },
    {
        match tool {
            Tool::Ping => Ok(Request::Compute(Computation::Ping)),
            Tool::MaxInt => match MaxIntArgs::decode(raw) {
                Ok(args) => Ok(Request::Compute(Computation::MaxInt(args))),
                Err(e) => Err(e),
            },
            Tool::MinInt => match MaxIntArgs::decode(raw) {
                Ok(args) => Ok(Request::Compute(Computation::MinInt(args))),
                Err(e) => Err(e),
            },
            Tool::MaxUint => match MaxUIntArgs::decode(raw) {
                Ok(args) => Ok(Request::Compute(Computation::MaxUint(args))),
                Err(e) => Err(e),
            },
            Tool::AddressZero => Ok(Request::Compute(Computation::AddressZero)),
            Tool::HashZero => Ok(Request::Compute(Computation::HashZero)),
            Tool::Age => match AgeArgs::decode(raw) {
                Ok(args) => Ok(Request::Query(Query::Age(args))),
                Err(e) => Err(e),
            },
            Tool::Block => match BlockArgs::decode(raw) {
                Ok(args) => Ok(Request::Query(Query::Block(args))),
                Err(e) => Err(e),
            },
            Tool::BlockNumber => match BlockNumberArgs::decode(raw) {
                Ok(args) => Ok(Request::Query(Query::BlockNumber(args))),
                Err(e) => Err(e),
            },
            Tool::GasPrice => match GasPriceArgs::decode(raw) {
                Ok(args) => Ok(Request::Query(Query::GasPrice(args))),
                Err(e) => Err(e),
            },
            Tool::Chain => match ChainArgs::decode(raw) {
                Ok(args) => Ok(Request::Query(Query::Chain(args))),
                Err(e) => Err(e),
            },
            Tool::ChainId => match ChainArgs::decode(raw) {
                Ok(args) => Ok(Request::Query(Query::ChainId(args))),
                Err(e) => Err(e),
            },
            Tool::Client => match ChainArgs::decode(raw) {
                Ok(args) => Ok(Request::Query(Query::Client(args))),
                Err(e) => Err(e),
            },
            Tool::Balance => match BalanceArgs::decode(raw) {
                Ok(args) => Ok(Request::Query(Query::Balance(args))),
                Err(e) => Err(e),
            },
            Tool::Nonce => match NonceArgs::decode(raw) {
                Ok(args) => Ok(Request::Query(Query::Nonce(args))),
                Err(e) => Err(e),
            },
            Tool::Code => match CodeArgs::decode(raw) {
                Ok(args) => Ok(Request::Query(Query::Code(args))),
                Err(e) => Err(e),
            },
            Tool::Storage => match StorageArgs::decode(raw) {
                Ok(args) => Ok(Request::Query(Query::Storage(args))),
                Err(e) => Err(e),
            },
            Tool::CodeSize => match CodeSizeArgs::decode(raw) {
                Ok(args) => Ok(Request::Query(Query::CodeSize(args))),
                Err(e) => Err(e),
            },
        }
    }
}

/// Where a call stands. A call has been received when its name and raw
/// arguments are at hand; the states here are those that follow.
#[derive(Clone, Debug, PartialEq, Eq)]
pub enum Session {
    /// The arguments are decoded; the endpoint is being connected.
    Decoded(Query),
    /// The name of the request is being looked up.
    Resolving(Query),
    /// The provider has been asked.
    Invoked(Query),
    /// The call has its envelope.
    Completed,
}

/// What is to be done next for a call.
#[derive(Clone, Debug, PartialEq, Eq)]
pub enum Action {
    /// Connect the endpoint.
    Connect { rpc: String },
    /// Have the provider resolve a name to an address.
    Lookup { name: String },
    /// Ask the provider.
    Ask(ProviderCall),
    /// Hand the envelope to the caller: the call is over.
    Finish(ResultEnvelope),
}

/// What an `Action` denotes.
pub ghost enum ActionView {
    Connect { rpc: Seq<char> },
    Lookup { name: Seq<char> },
    Ask(CallView),
    Finish(EnvelopeView),
}

impl View for Action {
    type V = ActionView;

    open spec fn view(&self) -> ActionView {
        match self {
            Action::Connect { rpc } => ActionView::Connect { rpc: rpc@ },
            Action::Lookup { name } => ActionView::Lookup { name: name@ },
            Action::Ask(call) => ActionView::Ask(call@),
            Action::Finish(envelope) => ActionView::Finish(envelope@),
        }
    }
}

/// What happened when the last action was carried out.
#[derive(Clone, Debug, PartialEq, Eq)]
pub enum Event {
    /// The endpoint is connected.
    Connected,
    /// The endpoint is no valid reference; with the reason.
    EndpointRejected(String),
    /// No provider could be made for the endpoint; with the reason.
    ProviderUnavailable(String),
    /// The name was resolved to this address.
    Resolved([u8; 20]),
    /// The provider returned a value.
    Returned(ProviderValue),
    /// The provider failed, timed out or was cancelled; with what it said.
    Failed(String),
}

/// The failure of a call to a name that no tool has.
pub open spec fn unknown_tool() -> EnvelopeView {
    failure_of(ErrorKind::UnknownTool, INVALID_PARAMS, "tool not found"@)
}

/// The failure of a call whose arguments cannot be decoded.
pub open spec fn undecodable(error: DecodeErrorView) -> EnvelopeView {
    failure_of(ErrorKind::DecodeError, INVALID_PARAMS, decode_message(error))
}

/// The failure of an event that comes out of turn.
pub open spec fn out_of_turn() -> EnvelopeView {
    failure_of(ErrorKind::ProviderError, INTERNAL_ERROR, "unexpected event"@)
}

/// The first step of a decoded request: a computation is answered at once;
/// a query has its endpoint connected.
pub open spec fn begun(request: Request) -> (Session, ActionView) {
    match request {
        Request::Compute(c) => (Session::Completed, ActionView::Finish(c.answer())),
        Request::Query(q) => (Session::Decoded(q), ActionView::Connect { rpc: q.endpoint() }),
    }
}

/// The step that a plan leads to.
pub open spec fn taken(query: Query, plan: PreparedView) -> (Session, ActionView) {
    match plan {
        PreparedView::Call(call) => (Session::Invoked(query), ActionView::Ask(call)),
        PreparedView::Lookup { name } => (Session::Resolving(query), ActionView::Lookup { name }),
        PreparedView::Fail(error) => (
            Session::Completed,
            ActionView::Finish(EnvelopeView::Failure(error)),
        ),
    }
}

/// The step from one state to the next on an event. An event that the state
/// does not wait for ends the call with a failure.
pub open spec fn next(session: Session, event: Event) -> (Session, ActionView) {
    match (session, event) {
        (Session::Decoded(q), Event::Connected) => taken(q, q.plan(None)),
        (Session::Decoded(_), Event::EndpointRejected(reason)) => (
            Session::Completed,
            ActionView::Finish(
                failure_with(ErrorKind::ConfigError, PARSE_ERROR, "Invalid RPC URL"@, reason@),
            ),
        ),
        (Session::Decoded(_), Event::ProviderUnavailable(reason)) => (
            Session::Completed,
            ActionView::Finish(
                failure_with(
                    ErrorKind::ConfigError,
                    INTERNAL_ERROR,
                    "Failed to get provider"@,
                    reason@,
                ),
            ),
        ),
        (Session::Resolving(q), Event::Resolved(address)) => taken(q, q.plan(Some(Ok(address)))),
        (Session::Resolving(q), Event::Failed(reason)) => taken(q, q.plan(Some(Err(reason)))),
        (Session::Invoked(q), Event::Returned(value)) => (
            Session::Completed,
            ActionView::Finish(success_of(q.rendered(value))),
        ),
        (Session::Invoked(q), Event::Failed(reason)) => (
            Session::Completed,
            ActionView::Finish(
                failure_with(
                    ErrorKind::ProviderError,
                    INTERNAL_ERROR,
                    q.failure_message(),
                    reason@,
                ),
            ),
        ),
        _ => (Session::Completed, ActionView::Finish(out_of_turn())),
    }
}

/// The step that a prepared request leads to.
fn take(query: Query, prepared: Prepared) -> (r: (Session, Action))
    ensures
        r.0 == taken(query, prepared@).0,
        r.1@ == taken(query, prepared@).1,
{
    match prepared {
        Prepared::Call(call) => (Session::Invoked(query), Action::Ask(call)),
        Prepared::Lookup { name } => (Session::Resolving(query), Action::Lookup { name }),
        Prepared::Fail(error) => (Session::Completed, Action::Finish(ResultEnvelope::Failure(error))),
    }
}

impl Server {
    /// Answers a computation.
    pub fn compute(&self, computation: &Computation) -> (r: ResultEnvelope)
        ensures
            r@ == computation.answer(),
    {
        match computation {
            Computation::Ping => self.ping(),
            Computation::MaxInt(args) => self.max_int(args),
            Computation::MinInt(args) => self.min_int(args),
            Computation::MaxUint(args) => self.max_uint(args),
            Computation::AddressZero => self.address_zero(),
            Computation::HashZero => self.hash_zero(),
        }
    }

    /// What a query does once its endpoint is connected.
    pub fn prepare(&self, query: &Query, lookup: Option<Result<[u8; 20], String>>) -> (r: Prepared)
        ensures
            r@ == query.plan(lookup),
    {
        match query {
            Query::Age(args) => self.age(args),
            Query::Block(args) => self.block(args),
            Query::BlockNumber(args) => self.block_number(args),
            Query::GasPrice(args) => self.gas_price(args),
            Query::Chain(args) => self.chain(args),
            Query::ChainId(args) => self.chain_id(args),
            Query::Client(args) => self.client(args),
            Query::Balance(args) => self.balance(args),
            Query::Nonce(args) => self.nonce(args),
            Query::Code(args) => self.code(args, lookup),
            Query::Storage(args) => self.storage(args),
            Query::CodeSize(args) => self.code_size(args, lookup),
        }
    }

    /// Looks up the tool and decodes its arguments. The call fails here,
    /// before any handler runs, where no tool has the name or the arguments
    /// do not fit the tool's schema.
    pub fn decode(&self, name: &str, raw: &RawArgs) -> (r: Result<Request, ToolError>)
        ensures
            match find_tool(server_tools(), name@) {
                None => r matches Err(e) && EnvelopeView::Failure(e@) == unknown_tool(),
                Some(d) => match decode_fields(d.schema, raw@) {
                    Err(reason) => r matches Err(e) && EnvelopeView::Failure(e@) == undecodable(
                        reason,
                    ),
                    Ok(record) => r matches Ok(request) && request.tool() == d.tool
                        && request.record() == record,
                },
            },
    {
        let registry = self.registry();
        match registry.lookup(name) {
            None => Err(
                ToolError {
                    kind: ErrorKind::UnknownTool,
                    code: INVALID_PARAMS,
                    message: "tool not found".to_owned(),
                    data: None,
                },
            ),
            Some(descriptor) => {
                proof {
                    lemma_schemas_of_tools(name@);
                }
                match Request::decode(descriptor.tool, raw) {
                    Ok(request) => Ok(request),
                    Err(e) => Err(
                        ToolError {
                            kind: ErrorKind::DecodeError,
                            code: INVALID_PARAMS,
                            message: e.message(),
                            data: None,
                        },
                    ),
                }
            },
        }
    }

    /// The first step of a decoded request.
    pub fn begin(&self, request: Request) -> (r: (Session, Action))
        ensures
            r.0 == begun(request).0,
            r.1@ == begun(request).1,
    {
        match request {
            Request::Compute(c) => (Session::Completed, Action::Finish(self.compute(&c))),
            Request::Query(q) => {
                let rpc = q.rpc();
                (Session::Decoded(q), Action::Connect { rpc })
            },
        }
    }

    /// Receives a call: looks up the tool, decodes the arguments and takes
    /// the first step. Where decoding fails the call is over: nothing is
    /// asked of anyone.
    pub fn dispatch(&self, name: &str, raw: &RawArgs) -> (r: (Session, Action))
        ensures
            match find_tool(server_tools(), name@) {
                None => r.0 == Session::Completed && r.1@ == ActionView::Finish(unknown_tool()),
                Some(d) => match decode_fields(d.schema, raw@) {
                    Err(reason) => r.0 == Session::Completed && r.1@ == ActionView::Finish(
                        undecodable(reason),
                    ),
                    Ok(record) => exists|request: Request|
                        request.tool() == d.tool && request.record() == record && r.0 == begun(
                            request,
                        ).0 && r.1@ == (#[trigger] begun(request)).1,
                },
            },
    {
        match self.decode(name, raw) {
            Ok(request) => {
                let r = self.begin(request);
                assert(r.1@ == begun(request).1);
                r
            },
            Err(error) => (Session::Completed, Action::Finish(ResultEnvelope::Failure(error))),
        }
    }

    /// Takes the next step of a call on what happened.
    pub fn advance(&self, session: Session, event: Event) -> (r: (Session, Action))
        ensures
            r.0 == next(session, event).0,
            r.1@ == next(session, event).1,
    {
        match session {
            Session::Decoded(q) => match event {
                Event::Connected => {
                    let prepared = self.prepare(&q, None);
                    take(q, prepared)
                },
                Event::EndpointRejected(reason) => (
                    Session::Completed,
                    Action::Finish(
                        ResultEnvelope::failure_with(
                            ErrorKind::ConfigError,
                            PARSE_ERROR,
                            "Invalid RPC URL",
                            reason,
                        ),
                    ),
                ),
                Event::ProviderUnavailable(reason) => (
                    Session::Completed,
                    Action::Finish(
                        ResultEnvelope::failure_with(
                            ErrorKind::ConfigError,
                            INTERNAL_ERROR,
                            "Failed to get provider",
                            reason,
                        ),
                    ),
                ),
                _ => (Session::Completed, Action::Finish(unexpected())),
            },
            Session::Resolving(q) => match event {
                Event::Resolved(address) => {
                    let prepared = self.prepare(&q, Some(Ok(address)));
                    take(q, prepared)
                },
                Event::Failed(reason) => {
                    let prepared = self.prepare(&q, Some(Err(reason)));
                    take(q, prepared)
                },
                _ => (Session::Completed, Action::Finish(unexpected())),
            },
            Session::Invoked(q) => match event {
                Event::Returned(value) => (
                    Session::Completed,
                    Action::Finish(ResultEnvelope::text(q.render(value))),
                ),
                Event::Failed(reason) => (
                    Session::Completed,
                    Action::Finish(
                        ResultEnvelope::failure_with(
                            ErrorKind::ProviderError,
                            INTERNAL_ERROR,
                            q.failure_text(),
                            reason,
                        ),
                    ),
                ),
                _ => (Session::Completed, Action::Finish(unexpected())),
            },
            Session::Completed => (Session::Completed, Action::Finish(unexpected())),
        }
    }
}

/// The failure of an event that comes out of turn.
fn unexpected() -> (r: ResultEnvelope)
    ensures
        r@ == out_of_turn(),
{
    ResultEnvelope::failure(ErrorKind::ProviderError, INTERNAL_ERROR, "unexpected event")
}

/// Every tool of the server is registered with the schema of its request.
pub proof fn lemma_schemas_of_tools(name: Seq<char>)
    ensures
        find_tool(server_tools(), name) matches Some(d) ==> d.schema == tool_fields(d.tool),
{
    let tools = server_tools();
    assert forall|i: int| 0 <= i < tools.len() implies (#[trigger] tools[i]).schema == tool_fields(
        tools[i].tool,
    ) by {}
    lemma_found_is_member(tools, name);
}

/// The names of the fields, by their length and first two characters.
proof fn lemma_field_names()
    ensures
        begins("rpc"@, 3, 'r', 'p'),
        begins("block"@, 5, 'b', 'l'),
        begins("who"@, 3, 'w', 'h'),
        begins("ether"@, 5, 'e', 't'),
        begins("address"@, 7, 'a', 'd'),
        begins("name"@, 4, 'n', 'a'),
        begins("disassemble"@, 11, 'd', 'i'),
        begins("slot"@, 4, 's', 'l'),
        begins("proof"@, 5, 'p', 'r'),
        begins("fields"@, 6, 'f', 'i'),
        begins("raw"@, 3, 'r', 'a'),
        begins("full"@, 4, 'f', 'u'),
{
    reveal_strlit("rpc");
    reveal_strlit("block");
    reveal_strlit("who");
    reveal_strlit("ether");
    reveal_strlit("address");
    reveal_strlit("name");
    reveal_strlit("disassemble");
    reveal_strlit("slot");
    reveal_strlit("proof");
    reveal_strlit("fields");
    reveal_strlit("raw");
    reveal_strlit("full");
}

/// The schema of every tool is in order: no two of its fields share a name,
/// and every default has the type of its field.
pub proof fn tool_schema_in_order(tool: Tool)
    ensures
        schema_wf(tool_fields(tool)),
{
    lemma_field_names();
}

/// For every tool, a request that leaves out a field with a default decodes
/// to what the request decodes to that gives the field its default.
pub proof fn absent_argument_is_its_default(
    tool: Tool,
    raw: Map<Seq<char>, ArgValueView>,
    i: int,
)
    requires
        0 <= i < tool_fields(tool).len(),
        tool_fields(tool)[i].default is Some,
        !raw.contains_key(tool_fields(tool)[i].name),
    ensures
        decode_fields(tool_fields(tool), raw) == decode_fields(
            tool_fields(tool),
            raw.insert(tool_fields(tool)[i].name, tool_fields(tool)[i].default.unwrap().raw_form()),
        ),
{
    tool_schema_in_order(tool);
    absent_field_is_its_default(tool_fields(tool), raw, i);
}

/// How many events a call can still take before it is over.
pub open spec fn steps_left(session: Session) -> nat {
    match session {
        Session::Decoded(_) => 3,
        Session::Resolving(_) => 2,
        Session::Invoked(_) => 1,
        Session::Completed => 0,
    }
}

/// Every event brings a call nearer to its end, so a call is over after
/// three events at most; a call that is over stays so.
pub proof fn every_step_nears_the_end(session: Session, event: Event)
    ensures
        session is Completed ==> next(session, event).0 is Completed,
        !(session is Completed) ==> steps_left(next(session, event).0) < steps_left(session),
{
}

/// A call is over exactly when its envelope is handed out: the state is
/// `Completed` if and only if the action is `Finish`.
pub proof fn completed_when_finished(session: Session, event: Event)
    ensures
        next(session, event).0 is Completed <==> next(session, event).1 is Finish,
{
}

/// A tool that is found is one of the tools.
pub proof fn lemma_found_is_member(tools: Seq<DescriptorView>, name: Seq<char>)
    ensures
        find_tool(tools, name) matches Some(d) ==> exists|i: int|
            0 <= i < tools.len() && #[trigger] tools[i] == d,
    decreases tools.len(),
{
    if tools.len() > 0 {
        if tools[0].name == name {
            assert(tools[0] == find_tool(tools, name)->0);
        } else {
            let rest = tools.drop_first();
            lemma_found_is_member(rest, name);
            if find_tool(rest, name) is Some {
                let i = choose|i: int|
                    0 <= i < rest.len() && #[trigger] rest[i] == find_tool(rest, name)->0;
                assert(tools[i + 1] == rest[i]);
            }
        }
    }
}

} // verus!

//! The boundary to the chain: what a tool asks of the provider, and what
//! comes back. The library decides the question and reads the answer; it
//! never talks to a node itself.

use vstd::prelude::*;
use crate::block::{BlockRef, BlockSelector};
use crate::envelope::{ToolError, ToolErrorView};
use crate::quantity::Quantity;

verus! {

/// One read operation on the provider, with its arguments resolved.
#[derive(Clone, Debug, PartialEq, Eq)]
pub enum ProviderCall {
    Balance { address: [u8; 20], block: BlockSelector },
    Nonce { address: [u8; 20], block: BlockSelector },
    Code { address: [u8; 20], block: BlockSelector, disassemble: bool },
    CodeSize { address: [u8; 20], block: BlockSelector },
    Storage { address: [u8; 20], slot: [u8; 32], block: BlockSelector },
    Age { block: BlockSelector },
    Block { block: BlockSelector, full: bool, fields: Vec<String>, raw: bool },
    GasPrice,
    ChainName,
    ChainId,
    ClientVersion,
}

/// What a `ProviderCall` denotes.
pub ghost enum CallView {
    Balance { address: Seq<u8>, block: BlockRef },
    Nonce { address: Seq<u8>, block: BlockRef },
    Code { address: Seq<u8>, block: BlockRef, disassemble: bool },
    CodeSize { address: Seq<u8>, block: BlockRef },
    Storage { address: Seq<u8>, slot: Seq<u8>, block: BlockRef },
    Age { block: BlockRef },
    Block { block: BlockRef, full: bool, fields: Seq<Seq<char>>, raw: bool },
    GasPrice,
    ChainName,
    ChainId,
    ClientVersion,
}

impl View for ProviderCall {
    type V = CallView;

    open spec fn view(&self) -> CallView {
        match self {
            ProviderCall::Balance { address, block } => CallView::Balance {
                address: address@,
                block: block@,
            },
            ProviderCall::Nonce { address, block } => CallView::Nonce {
                address: address@,
                block: block@,
            },
            ProviderCall::Code { address, block, disassemble } => CallView::Code {
                address: address@,
                block: block@,
                disassemble: *disassemble,
            },
            ProviderCall::CodeSize { address, block } => CallView::CodeSize {
                address: address@,
                block: block@,
            },
            ProviderCall::Storage { address, slot, block } => CallView::Storage {
                address: address@,
                slot: slot@,
                block: block@,
            },
            ProviderCall::Age { block } => CallView::Age { block: block@ },
            ProviderCall::Block { block, full, fields, raw } => CallView::Block {
                block: block@,
                full: *full,
                fields: fields.deep_view(),
                raw: *raw,
            },
            ProviderCall::GasPrice => CallView::GasPrice,
            ProviderCall::ChainName => CallView::ChainName,
            ProviderCall::ChainId => CallView::ChainId,
            ProviderCall::ClientVersion => CallView::ClientVersion,
        }
    }
}

/// What a tool does once its endpoint is connected: ask the provider, have
/// a name looked up first, or give up.
#[derive(Clone, Debug, PartialEq, Eq)]
pub enum Prepared {
    Call(ProviderCall),
    Lookup { name: String },
    Fail(ToolError),
}

/// What a `Prepared` denotes.
pub ghost enum PreparedView {
    Call(CallView),
    Lookup { name: Seq<char> },
    Fail(ToolErrorView),
}

impl View for Prepared {
    type V = PreparedView;

    open spec fn view(&self) -> PreparedView {
        match self {
            Prepared::Call(call) => PreparedView::Call(call@),
            Prepared::Lookup { name } => PreparedView::Lookup { name: name@ },
            Prepared::Fail(error) => PreparedView::Fail(error@),
        }
    }
}

/// A value that the provider returned.
#[derive(Clone, Debug, PartialEq, Eq)]
pub enum ProviderValue {
    /// A number: a balance, a nonce, a size, a price, a chain id.
    Number(Quantity),
    /// A text that is handed on as it is.
    Text(String),
}

} // verus!

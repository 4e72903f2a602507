//! The server: the registry of all tools, and what it tells a host about
//! itself.

use vstd::prelude::*;
use crate::registry::{disjoint_names, DescriptorView, Registry};

verus! {

/// The tools capability, as a host reads it.
#[derive(Clone, Debug, PartialEq, Eq)]
pub struct ToolsCapability {
    pub list_changed: Option<bool>,
}

/// What the server can do.
#[derive(Clone, Debug, PartialEq, Eq)]
pub struct ServerCapabilities {
    pub tools: Option<ToolsCapability>,
}

/// What the server tells a host about itself.
#[derive(Clone, Debug, PartialEq, Eq)]
pub struct ServerInfo {
    pub instructions: Option<String>,
    pub capabilities: ServerCapabilities,
}

/// The server. Its registry is built once and read from then on.
#[derive(Debug)]
pub struct Server {
    tool_router: Registry,
}

/// The tools of a server, group by group.
pub open spec fn server_tools() -> Seq<DescriptorView> {
    crate::utility_tools::utility_tools() + crate::block_tools::block_tools()
        + crate::chain_tools::chain_tools() + crate::account_tools::account_tools()
}

/// No tool of one group has the name of a tool of another.
pub proof fn lemma_groups_disjoint()
    ensures
        disjoint_names(crate::utility_tools::utility_tools(), crate::block_tools::block_tools()),
        disjoint_names(
            crate::utility_tools::utility_tools() + crate::block_tools::block_tools(),
            crate::chain_tools::chain_tools(),
        ),
        disjoint_names(
            crate::utility_tools::utility_tools() + crate::block_tools::block_tools()
                + crate::chain_tools::chain_tools(),
            crate::account_tools::account_tools(),
        ),
{
    crate::registry::lemma_tool_names();
}

impl Server {
    #[verifier::type_invariant]
    spec fn tools_in_order(self) -> bool {
        self.tool_router.wf() && self.tool_router@ == server_tools()
    }

    /// A server with the tools of all four groups: utilities, blocks, chain,
    /// accounts.
    pub fn new() -> (r: Server)
        ensures
            r.tools() == server_tools(),
    {
        let utility = Server::utility_router();
        let block = Server::block_router();
        let chain = Server::chain_router();
        let account = Server::account_router();
        proof {
            lemma_groups_disjoint();
        }
        let tool_router = utility.join(block).join(chain).join(account);
        Server { tool_router }
    }

    /// The tools of this server.
    pub closed spec fn tools(&self) -> Seq<DescriptorView> {
        self.tool_router@
    }

    /// The registry of this server.
    pub fn registry(&self) -> (r: &Registry)
        ensures
            r@ == server_tools(),
            r@ == self.tools(),
            r.wf(),
    {
        proof {
            use_type_invariant(self);
        }
        &self.tool_router
    }

    /// What the server tells a host about itself: it offers tools.
    pub fn get_info(&self) -> (r: ServerInfo)
        ensures
            r.instructions matches Some(text) && text@ == "A MCP server for cast"@,
            r.capabilities.tools == Some(ToolsCapability { list_changed: None }),
    {
        ServerInfo {
            instructions: Some("A MCP server for cast".to_owned()),
            capabilities: ServerCapabilities {
                tools: Some(ToolsCapability { list_changed: None }),
            },
        }
    }
}

impl Clone for Server {
    fn clone(&self) -> (r: Server)
        ensures
            r.tools() == self.tools(),
    {
        proof {
            use_type_invariant(self);
        }
        Server { tool_router: self.tool_router.duplicate() }
    }
}

} // verus!

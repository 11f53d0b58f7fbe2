//! The configuration of the web layer.
use vstd::prelude::*;
use vstd::string::*;
use crate::text::opt_text;
use crate::updater::types::ServerConfig;

verus! {

#[derive(Debug, Clone)]
pub struct DatabaseConfig {
    pub url: String,
}

/// The configuration of the web layer.
#[derive(Debug, Clone)]
pub struct AppConfig {
    pub server: ServerConfig,
    pub database: DatabaseConfig,
    pub marketplace_url: String,
    pub installed_agents_dir: String,
    pub encryption_key: String,
    pub egress_proxy_addr: String,
    pub max_chain_depth: u32,
    pub max_tool_loop_iterations: u32,
    pub external_url: Option<String>,
    pub base_path: Option<String>,
    pub release_metadata_url: String,
    pub updater_url: String,
    pub updater_shared_secret: String,
    pub updater_request_timeout_secs: u64,
}

impl AppConfig {
    /// The configured prefix, or nothing.
    pub open spec fn prefix(&self) -> Seq<char> {
        match opt_text(self.base_path) {
            Some(p) => p,
            None => Seq::empty(),
        }
    }

    /// The configured prefix, or nothing.
    pub fn base_path(&self) -> (r: &str)
        ensures
            r@ == self.prefix(),
    {
        match &self.base_path {
            Some(p) => p.as_str(),
            None => {
                proof {
                    reveal_strlit("");
                    assert(""@ =~= Seq::<char>::empty());
                }
                ""
            },
        }
    }
}

} // verus!

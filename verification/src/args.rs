use vstd::prelude::*;
use vstd::string::*;

use crate::swarm::{node_config_file_name, node_config_path};

verus! {

/// How the node runs once it is up.
#[derive(Debug, Clone, Copy, PartialEq, Eq)]
pub enum RunMode {
    /// Start the interactive client against the node's RPC port, and exit with it.
    InteractiveClient,
    /// Keep serving until the process is interrupted (CTRL-C).
    WaitForInterrupt,
}

/// The settings a node is started with.
pub struct Args {
    /// Whether logging is enabled.
    pub enable_logging: bool,
    /// Whether to start the interactive client once the node is up.
    pub start_client: bool,
    /// Directory holding `node.toml`.
    pub config_dir: String,
    /// Path of the file the faucet account's keys are recovered from.
    pub faucet_key_path: String,
    /// Which child key of the recovered wallet the node uses.
    pub child_num: u64,
}

/// `wallet`: the configuration directory when none is given.
pub open spec fn default_config_dir() -> Seq<char> {
    seq!['w', 'a', 'l', 'l', 'e', 't']
}

/// `wallet/key`: the faucet key file when none is given.
pub open spec fn default_faucet_key_path() -> Seq<char> {
    seq!['w', 'a', 'l', 'l', 'e', 't', '/', 'k', 'e', 'y']
}

/// The run mode that the settings select.
pub open spec fn spec_run_mode(start_client: bool) -> RunMode {
    if start_client {
        RunMode::InteractiveClient
    } else {
        RunMode::WaitForInterrupt
    }
}

impl Default for Args {
    /// Logging and the client off, configuration in `wallet`, the faucet key in
    /// `wallet/key`, child key number 1.
    fn default() -> (args: Args)
        ensures
            !args.enable_logging,
            !args.start_client,
            args.config_dir@ == default_config_dir(),
            args.faucet_key_path@ == default_faucet_key_path(),
            args.child_num == 1,
    {
        let config_dir = String::from_str("wallet");
        let faucet_key_path = String::from_str("wallet/key");
        proof {
            reveal_strlit("wallet");
            reveal_strlit("wallet/key");
        }
        assert(config_dir@ == default_config_dir());
        assert(faucet_key_path@ == default_faucet_key_path());
        Args { enable_logging: false, start_client: false, config_dir, faucet_key_path, child_num: 1 }
    }
}

impl Args {
    /// The interactive client when asked to start it, else waiting for an interrupt.
    pub fn run_mode(&self) -> (mode: RunMode)
        ensures
            mode == spec_run_mode(self.start_client),
            self.start_client ==> mode == RunMode::InteractiveClient,
            !self.start_client ==> mode == RunMode::WaitForInterrupt,
    {
        if self.start_client {
            RunMode::InteractiveClient
        } else {
            RunMode::WaitForInterrupt
        }
    }

    /// Path of the node configuration file: the configuration directory followed by
    /// `/node.toml`.
    pub fn node_config_path(&self) -> (path: String)
        ensures
            path@ == self.config_dir@ + node_config_file_name(),
    {
        node_config_path(self.config_dir.as_str())
    }
}

} // verus!

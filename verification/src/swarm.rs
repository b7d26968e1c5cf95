use vstd::prelude::*;
use vstd::string::*;

verus! {

/// The name of the node configuration file inside a configuration directory.
pub open spec fn node_config_file_name() -> Seq<char> {
    seq!['/', 'n', 'o', 'd', 'e', '.', 't', 'o', 'm', 'l']
}

/// Path of the node configuration file for the given configuration directory:
/// the directory followed by `/node.toml`.
pub fn node_config_path(config_dir: &str) -> (path: String)
    ensures
        path@ == config_dir@ + node_config_file_name(),
        path@.subrange(0, config_dir@.len() as int) == config_dir@,
        path@.skip(config_dir@.len() as int) == seq!['/', 'n', 'o', 'd', 'e', '.', 't', 'o', 'm', 'l'],
{
    let path = String::from_str(config_dir).concat("/node.toml");
    proof {
        reveal_strlit("/node.toml");
    }
    assert(path@ == config_dir@ + node_config_file_name());
    assert(path@.subrange(0, config_dir@.len() as int) =~= config_dir@);
    assert(path@.skip(config_dir@.len() as int) =~= node_config_file_name());
    path
}

/// A locally launched node together with the configuration it was loaded with.
pub struct Swarm<C> {
    pub config: C,
    pub tee_logs: bool,
}

impl<C> Swarm<C> {
    /// A swarm over a loaded configuration; logs are always teed.
    pub fn new(config: C) -> (swarm: Self)
        ensures
            swarm.config == config,
            swarm.tee_logs,
    {
        Swarm { config, tee_logs: true }
    }

    /// Turns the outcome of loading the configuration into a swarm: a loaded
    /// configuration becomes a swarm over it, a load error is passed on unchanged.
    pub fn from_loaded_config<E>(loaded: Result<C, E>) -> (res: Result<Self, E>)
        ensures
            match loaded {
                Ok(config) => res matches Ok(swarm) && swarm.config == config && swarm.tee_logs,
                Err(e) => res == Err::<Self, E>(e),
            },
    {
        match loaded {
            Ok(config) => Ok(Swarm::new(config)),
            Err(e) => Err(e),
        }
    }
}

} // verus!

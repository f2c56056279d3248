use vstd::prelude::*;

verus! {

/// The path of the configuration file when none is given.
pub const DEFAULT_CONFIG_PATH: &'static str = "moss/config.json";

/// The daemon's command-line options.
#[derive(Debug)]
pub struct ArgsOptions {
    pub config_file_path: String,
}

impl Default for ArgsOptions {
    fn default() -> (r: ArgsOptions)
        ensures
            r.config_file_path@ == DEFAULT_CONFIG_PATH@,
    {
        ArgsOptions { config_file_path: DEFAULT_CONFIG_PATH.to_owned() }
    }
}

} // verus!

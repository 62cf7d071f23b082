//! The command-line flags that exclude each other.
use vstd::prelude::*;

verus! {

/// The command-line options that the consistency check reads.
pub struct Cli {
    /// The directory of the config to load.
    pub config: Option<String>,
    /// The directory of the data store.
    pub data: Option<String>,
    /// Use no config other than the preset.
    pub no_config: bool,
    /// Save no data to the database.
    pub no_data: bool,
}

impl Cli {
    /// Nothing when the options agree; otherwise the message naming the first pair of flags
    /// that exclude each other.
    pub fn is_valid(&self) -> (r: Option<String>)
        ensures
            (self.config is Some && self.no_config) ==> (r matches Some(m) && m@ == "Incompatible flags set: --config and --no-config"@),
            !(self.config is Some && self.no_config) && (self.data is Some && self.no_data) ==> (r matches Some(m)
                && m@ == "Incompatible flags set: --data and --no-data"@),
            !(self.config is Some && self.no_config) && !(self.data is Some && self.no_data) ==> r is None,
    {
        if self.config.is_some() && self.no_config {
            return Some("Incompatible flags set: --config and --no-config".to_string());
        }
        if self.data.is_some() && self.no_data {
            return Some("Incompatible flags set: --data and --no-data".to_string());
        }
        None
    }
}

} // verus!

//! The configuration.

use vstd::prelude::*;

verus! {

/// Where monthly archives go when the configuration names no place.
pub const DEFAULT_MONTHLY_DESTINATION: &'static str =
    "C:\\arkade\\Arkade Shared Global\\FOTM Backups";

/// The theme of a fresh configuration.
pub const DEFAULT_THEME: &'static str = "light";

/// What the application remembers between runs besides its jobs.
#[derive(Debug)]
pub struct Config {
    pub theme: Option<String>,
    pub monthly_archive_destination: Option<String>,
}

impl Config {
    /// Where monthly archives go: the configured place, or the default one.
    pub open spec fn spec_monthly_destination(self) -> Seq<char> {
        match self.monthly_archive_destination {
            Some(place) => place@,
            None => DEFAULT_MONTHLY_DESTINATION@,
        }
    }

    /// Where monthly archives go: the configured place, or the default one.
    pub fn monthly_destination(&self) -> (r: String)
        ensures
            r@ == self.spec_monthly_destination(),
    {
        match &self.monthly_archive_destination {
            Some(place) => place.clone(),
            None => DEFAULT_MONTHLY_DESTINATION.to_owned(),
        }
    }
}

impl Default for Config {
    fn default() -> (r: Config)
        ensures
            r.theme matches Some(theme) && theme@ == DEFAULT_THEME@,
            r.monthly_archive_destination matches Some(place) && place@
                == DEFAULT_MONTHLY_DESTINATION@,
    {
        Config {
            theme: Some(DEFAULT_THEME.to_owned()),
            monthly_archive_destination: Some(DEFAULT_MONTHLY_DESTINATION.to_owned()),
        }
    }
}

impl Clone for Config {
    fn clone(&self) -> (r: Config)
        ensures
            r == *self,
    {
        Config {
            theme: self.theme.clone(),
            monthly_archive_destination: self.monthly_archive_destination.clone(),
        }
    }
}

} // verus!

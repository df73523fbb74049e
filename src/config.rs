//! Settings kept between runs: the last search root and the enabled strategies.
use vstd::prelude::*;

verus! {

/// The persisted settings.
pub struct Config {
    pub path: String,
    pub check_guid: bool,
    pub check_short_id: bool,
    pub check_media_id: bool,
}

impl Config {
    /// The settings of a first run: empty path, only the by-ID strategy enabled.
    pub fn new() -> (r: Config)
        ensures
            r.path@ == Seq::<char>::empty(),
            r.check_guid,
            !r.check_short_id,
            !r.check_media_id,
    {
        Config {
            path: String::new(),
            check_guid: true,
            check_short_id: false,
            check_media_id: false,
        }
    }
}

/// The settings to start with: those that were loaded, or the defaults when
/// none could be loaded.
pub fn load_config(loaded: Option<Config>) -> (r: Config)
    ensures
        match loaded {
            Some(c) => r.path@ == c.path@ && r.check_guid == c.check_guid && r.check_short_id
                == c.check_short_id && r.check_media_id == c.check_media_id,
            None => r.path@ == Seq::<char>::empty() && r.check_guid && !r.check_short_id
                && !r.check_media_id,
        },
{
    match loaded {
        Some(c) => c,
        None => Config::new(),
    }
}

/// The settings to store after a search request made with these values.
pub fn save_config(path: String, check_guid: bool, check_short_id: bool, check_media_id: bool) -> (r:
    Config)
    ensures
        r.path@ == path@,
        r.check_guid == check_guid,
        r.check_short_id == check_short_id,
        r.check_media_id == check_media_id,
{
    let mut config = Config::new();
    config.path = path;
    config.check_guid = check_guid;
    config.check_short_id = check_short_id;
    config.check_media_id = check_media_id;
    config
}

} // verus!

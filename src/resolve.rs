//! The choice between the override and the default location.
use vstd::prelude::*;

use crate::home::os_home_dir;
use crate::path::{join, joined};

verus! {

/// The name of the environment variable that overrides the default location.
pub const OVERRIDE_VAR: &'static str = "LEXICON_HOME";

/// The message that goes with a failure to find the home directory.
pub const HOME_NOT_FOUND_MESSAGE: &'static str = "Could not find home directory";

/// The name of the default directory under the home directory, `.lexicon`.
pub open spec fn default_dir_name() -> Seq<u8> {
    seq![0x2eu8, 0x6cu8, 0x65u8, 0x78u8, 0x69u8, 0x63u8, 0x6fu8, 0x6eu8]
}

/// The default location under the home directory `home`.
pub open spec fn default_dir(home: Seq<u8>) -> Seq<u8> {
    joined(home, default_dir_name())
}

/// The override that an environment value gives: none where the variable is
/// unset or empty.
pub open spec fn override_of(env_value: Option<Seq<char>>) -> Option<Seq<char>> {
    match env_value {
        Some(v) => if v.len() > 0 {
            Some(v)
        } else {
            None
        },
        None => None,
    }
}

/// The bytes of a home directory, if there is one.
pub open spec fn home_bytes(home: Option<Vec<u8>>) -> Option<Seq<u8>> {
    match home {
        Some(h) => Some(h@),
        None => None,
    }
}

/// What a resolution comes to, over plain sequences.
pub enum Decision {
    /// The directory is the canonical form of this path.
    Canonicalize(Seq<char>),
    /// The directory is this path, whether or not it exists.
    Directory(Seq<u8>),
    /// No override and no home directory.
    HomeNotFound,
}

/// The outcome of a resolution for the value of the override variable and the
/// home directory that the operating system reports.
pub open spec fn resolution(env_value: Option<Seq<char>>, home: Option<Seq<u8>>) -> Decision {
    match override_of(env_value) {
        Some(d) => Decision::Canonicalize(d),
        None => match home {
            Some(h) => Decision::Directory(default_dir(h)),
            None => Decision::HomeNotFound,
        },
    }
}

/// Where the configuration directory is.
pub enum Resolution {
    /// The directory is the canonical form of this path, which the caller
    /// obtains from the filesystem; any failure there is the result.
    Canonicalize(String),
    /// The directory is this path, given as the bytes of its platform
    /// encoding; it need not exist.
    Directory(Vec<u8>),
    /// No override is set and the home directory is unknown: a not-found
    /// failure, with `HOME_NOT_FOUND_MESSAGE`.
    HomeNotFound,
}

impl View for Resolution {
    type V = Decision;

    open spec fn view(&self) -> Decision {
        match self {
            Resolution::Canonicalize(p) => Decision::Canonicalize(p@),
            Resolution::Directory(p) => Decision::Directory(p@),
            Resolution::HomeNotFound => Decision::HomeNotFound,
        }
    }
}

impl Resolution {
    /// Whether the resolution is a failure of the not-found kind.
    pub fn is_not_found(&self) -> (r: bool)
        ensures
            r == (self@ is HomeNotFound),
    {
        match self {
            Resolution::HomeNotFound => true,
            _ => false,
        }
    }
}

/// The bytes of `.lexicon`.
fn default_dir_name_bytes() -> (r: Vec<u8>)
    ensures
        r@ == default_dir_name(),
{
    let r: Vec<u8> = vec![0x2eu8, 0x6cu8, 0x65u8, 0x78u8, 0x69u8, 0x63u8, 0x6fu8, 0x6eu8];
    assert(r@ == default_dir_name());
    r
}

/// The non-empty override in `env_value`, if there is one.
pub fn override_path(env_value: Option<String>) -> (r: Option<String>)
    ensures
        r.deep_view() == override_of(env_value.deep_view()),
{
    match env_value {
        Some(v) => if v.as_str().is_empty() {
            None
        } else {
            Some(v)
        },
        None => None,
    }
}

/// The default location under `home`, or the not-found failure where there is
/// no home directory.
pub fn default_dir_from(home: Option<Vec<u8>>) -> (r: Resolution)
    ensures
        r@ == resolution(None, home_bytes(home)),
{
    match home {
        Some(h) => Resolution::Directory(join(&h, &default_dir_name_bytes())),
        None => Resolution::HomeNotFound,
    }
}

/// Resolves the configuration directory from the value of the override
/// variable (`None` where it is unset) and the home directory.
pub fn resolve_with(env_value: Option<String>, home: Option<Vec<u8>>) -> (r: Resolution)
    ensures
        r@ == resolution(env_value.deep_view(), home_bytes(home)),
{
    match override_path(env_value) {
        Some(d) => Resolution::Canonicalize(d),
        None => default_dir_from(home),
    }
}

/// Resolves the configuration directory from the value of the override
/// variable, asking the operating system for the home directory only where
/// no override is set.
pub fn find_codex_home(env_value: Option<String>) -> (r: Resolution)
    ensures
        exists|home: Option<Seq<u8>>| r@ == resolution(env_value.deep_view(), home),
        override_of(env_value.deep_view()) matches Some(d) ==> r@ == Decision::Canonicalize(d),
{
    match override_path(env_value) {
        Some(d) => {
            let r = Resolution::Canonicalize(d);
            assert(r@ == resolution(env_value.deep_view(), None));
            r
        },
        None => {
            let home = os_home_dir();
            let r = default_dir_from(home);
            assert(r@ == resolution(env_value.deep_view(), home_bytes(home)));
            r
        },
    }
}

} // verus!

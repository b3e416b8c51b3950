//! Run configuration: the remote machine, and the push and pull settings.
//!
//! Parsing the configuration file is a collaborator's job; this module owns
//! the shape of the values and their validation, in particular the rule that
//! compression levels lie in `1 ..= 9`.

use vstd::prelude::*;
use vstd::string::*;
use crate::sync::PullMode;
use crate::text::i32_string;
use crate::text::spec_decimal_int;

verus! {

/// The remote machine a run talks to.
#[derive(Clone, Debug, Default, PartialEq, Eq)]
pub struct Remote {
    pub host: String,
    pub user: Option<String>,
    pub port: Option<String>,
    pub path: Option<String>,
}

/// Settings for the one-shot push.
#[derive(Clone, Debug, PartialEq, Eq)]
pub struct Push {
    pub compression: i8,
    pub user: Option<String>,
}

impl Push {
    /// The compression level used when the configuration names none.
    pub fn default_compression() -> (r: i8)
        ensures
            r == 3,
    {
        let d = Self::default();
        d.compression
    }
}

impl Default for Push {
    fn default() -> (r: Self)
        ensures
            r.compression == 3,
            r.user is None,
    {
        Self { compression: 3, user: None }
    }
}

/// Settings for the pull leg.
#[derive(Clone, Debug, PartialEq, Eq)]
pub struct Pull {
    pub compression: i8,
    pub mode: PullMode,
    pub user: Option<String>,
}

impl Pull {
    /// The compression level used when the configuration names none.
    pub fn default_compression() -> (r: i8)
        ensures
            r == 1,
    {
        let d = Self::default();
        d.compression
    }
}

impl Default for Pull {
    fn default() -> (r: Self)
        ensures
            r.compression == 1,
            r.mode is Serial,
            r.user is None,
    {
        Self { compression: 1, mode: PullMode::Serial, user: None }
    }
}

/// A whole run configuration.
#[derive(Clone, Debug, PartialEq, Eq)]
pub struct Config {
    pub remote: Remote,
    pub push: Push,
    pub pull: Pull,
}

/// Whether a compression level is one the transfer delegate accepts.
pub open spec fn spec_valid_compression(level: int) -> bool {
    1 <= level <= 9
}

/// The diagnostic for a compression level outside the accepted range.
pub open spec fn spec_compression_error(field: Seq<char>, level: int) -> Seq<char> {
    "'"@ + field + ".compression' must be a positive integer from 1 to 9, but was "@
        + spec_decimal_int(level)
}

fn compression_error(field: &str, level: i8) -> (r: String)
    ensures
        r@ == spec_compression_error(field@, level as int),
{
    let mut r: String = "'".to_owned();
    r.append(field);
    r.append(".compression' must be a positive integer from 1 to 9, but was ");
    let digits = i32_string(level as i32);
    r.append(digits.as_str());
    proof {
        assert(r@ =~= spec_compression_error(field@, level as int));
    }
    r
}

impl Config {
    pub fn valid_pull_compression_range(&self) -> (r: bool)
        ensures
            r == spec_valid_compression(self.pull.compression as int),
    {
        1 <= self.pull.compression && self.pull.compression <= 9
    }

    pub fn valid_push_compression_range(&self) -> (r: bool)
        ensures
            r == spec_valid_compression(self.push.compression as int),
    {
        1 <= self.push.compression && self.push.compression <= 9
    }

    /// Accepts the configuration when both compression levels lie in
    /// `1 ..= 9`; otherwise reports the offending field and value, the pull
    /// level checked first.
    pub fn validate(self) -> (r: Result<Config, String>)
        ensures
            match r {
                Ok(c) => c == self && spec_valid_compression(self.pull.compression as int)
                    && spec_valid_compression(self.push.compression as int),
                Err(m) => (!spec_valid_compression(self.pull.compression as int)
                    || !spec_valid_compression(self.push.compression as int)) && m@ == (
                if !spec_valid_compression(self.pull.compression as int) {
                    spec_compression_error("pull"@, self.pull.compression as int)
                } else {
                    spec_compression_error("push"@, self.push.compression as int)
                }),
            },
    {
        let pull_ok = self.valid_pull_compression_range();
        let push_ok = self.valid_push_compression_range();
        if !pull_ok {
            let level = self.pull.compression;
            Err(compression_error("pull", level))
        } else if !push_ok {
            let level = self.push.compression;
            Err(compression_error("push", level))
        } else {
            Ok(self)
        }
    }
}

} // verus!

//! Types that generalize plugins between the supported APIs.

use vstd::prelude::*;

pub mod spiget;

verus! {

/// The type of API that a plugin is sourced from.
#[derive(Copy, Clone, PartialEq, Eq, Debug, Hash, Structural)]
pub enum PluginApiType {
    Hangar,
    Spiget,
    Jenkins,
}

/// The display name of an API type.
pub open spec fn api_type_name(t: PluginApiType) -> Seq<char> {
    match t {
        PluginApiType::Hangar => seq!['H', 'a', 'n', 'g', 'a', 'r'],
        PluginApiType::Spiget => seq!['S', 'p', 'i', 'g', 'e', 't'],
        PluginApiType::Jenkins => seq!['J', 'e', 'n', 'k', 'i', 'n', 's'],
    }
}

impl PluginApiType {
    /// The display name of this API type.
    pub fn name(&self) -> (r: String)
        ensures
            r@ == api_type_name(*self),
    {
        match self {
            PluginApiType::Hangar => {
                let s = "Hangar";
                proof {
                    reveal_strlit("Hangar");
                }
                String::from_str(s)
            },
            PluginApiType::Spiget => {
                let s = "Spiget";
                proof {
                    reveal_strlit("Spiget");
                }
                String::from_str(s)
            },
            PluginApiType::Jenkins => {
                let s = "Jenkins";
                proof {
                    reveal_strlit("Jenkins");
                }
                String::from_str(s)
            },
        }
    }
}

/// A plugin version specification: a version name, a version identifier, or the latest version.
#[derive(Debug, Clone, PartialEq, Eq, Hash)]
pub enum VersionSpec {
    /// A version name. Names are not unique: several versions may share one.
    Name(String),
    /// A version identifier, unique among the versions of one plugin.
    Identifier(String),
    /// The most recent version.
    Latest,
}

impl VersionSpec {
    /// Whether this spec describes the latest version.
    pub fn is_latest(&self) -> (r: bool)
        ensures
            r == (*self is Latest),
    {
        match self {
            VersionSpec::Latest => true,
            _ => false,
        }
    }

    /// The text of this spec: the name or identifier it holds, or `latest`.
    pub open spec fn describe_spec(&self) -> Seq<char> {
        match *self {
            VersionSpec::Name(s) => s@,
            VersionSpec::Identifier(s) => s@,
            VersionSpec::Latest => seq!['l', 'a', 't', 'e', 's', 't'],
        }
    }

    /// The text of this spec: the name or identifier it holds, or `latest`.
    pub fn describe(&self) -> (r: String)
        ensures
            r@ == self.describe_spec(),
    {
        match self {
            VersionSpec::Name(s) => s.clone(),
            VersionSpec::Identifier(s) => s.clone(),
            VersionSpec::Latest => {
                let s = "latest";
                proof {
                    reveal_strlit("latest");
                }
                String::from_str(s)
            },
        }
    }
}

} // verus!

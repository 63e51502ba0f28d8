//! The immutable configuration supplied at startup.
//!
//! The surrounding application parses command-line arguments and the TOML
//! configuration file; the values land here as plain data. One source
//! configuration maps one-to-one to one poll loop.

use vstd::prelude::*;

verus! {

/// Connection parameters of the QQ bot backend.
#[derive(Clone, Debug)]
pub struct QQBotConfig {
    /// The name of the bot.
    pub name: String,
    /// The uin (QQ number) of the bot.
    pub uin: String,
    /// The HTTP api endpoint of the bot bridge.
    pub api: String,
    /// QQ personal contacts to deliver to.
    pub dms: Vec<u64>,
    /// QQ groups to deliver to.
    pub groups: Vec<u64>,
}

/// Everything the process is configured with.
#[derive(Clone, Debug)]
pub struct Config {
    /// Config of the QQ bot.
    pub qq: QQBotConfig,
    /// The Mikan source, if configured.
    pub mikan: Option<MikanConfig>,
    /// The BYRBT source, if configured.
    pub byrbt: Option<ByrbtConfig>,
    /// The TJUPT source, if configured.
    pub tjupt: Option<TjuptConfig>,
}

/// What the command line supplies.
#[derive(Clone, Debug)]
pub struct ClapConfig {
    /// Path of the configuration file.
    pub config_file: String,
    /// Whether to detach into a daemon.
    pub daemonize: bool,
}

/// One Mikan feed endpoint.
#[derive(Clone, Debug)]
pub struct MikanConfig {
    /// The Mikan RSS link.
    pub rss: String,
    /// Poll interval, in seconds.
    pub interval: u64,
    /// Proxy address, if any.
    pub proxy: Option<String>,
}

/// A copy of a list of feed links, element for element.
pub fn clone_strings(v: &Vec<String>) -> (r: Vec<String>)
    ensures
        r@ == v@,
{
    let mut r: Vec<String> = Vec::new();
    let mut i: usize = 0;
    while i < v.len()
        invariant
            i <= v.len(),
            r@ == v@.take(i as int),
        decreases v.len() - i,
    {
        r.push(v[i].clone());
        proof {
            assert(v@.take(i + 1 as int) =~= v@.take(i as int).push(v@[i as int]));
        }
        i = i + 1;
    }
    proof {
        assert(v@.take(v@.len() as int) =~= v@);
    }
    r
}

/// A set of BYRBT feed endpoints.
#[derive(Clone, Debug)]
pub struct ByrbtConfig {
    /// The RSS links.
    pub rsses: Vec<String>,
    /// Poll interval, in seconds.
    pub interval: u64,
}

/// A set of TJUPT feed endpoints.
#[derive(Clone, Debug)]
pub struct TjuptConfig {
    /// The RSS links.
    pub rsses: Vec<String>,
    /// Poll interval, in seconds.
    pub interval: u64,
}

} // verus!

//! Application configuration: a small layered key-value store.
//!
//! The store is an explicit handle built once at startup and passed by
//! reference down the call chain.  It layers a [`KeySource`] (user-provided
//! entries) over built-in defaults; for a repeated key the entry added last
//! wins.  Reading the encrypted on-disk entries that feed a `KeySource` is
//! I/O and happens outside this crate; the store itself only holds and
//! looks up plain strings.

use vstd::prelude::*;

verus! {

/// Default browser identification sent with every request.
pub const USER_AGENT: &'static str = "Mozilla/5.0 (Macintosh; Intel Mac OS X 10_15_7) AppleWebKit/605.1.15 (KHTML, like Gecko) Version/17.1 Safari/605.1.15";

/// The value an entry list associates with `key`: the last entry with that
/// key wins, so a source layered on top of defaults overrides them.
pub open spec fn lookup(entries: Seq<(String, String)>, key: Seq<char>) -> Option<Seq<char>>
    decreases entries.len(),
{
    if entries.len() == 0 {
        None
    } else if entries.last().0@ == key {
        Some(entries.last().1@)
    } else {
        lookup(entries.drop_last(), key)
    }
}

/// A set of user-provided configuration entries, layered over the defaults
/// when a [`Config`] is built.
pub struct KeySource {
    pub inner: Vec<(String, String)>,
}

impl KeySource {
    /// The built-in source: the directory downloads are saved to.
    pub fn new() -> (ks: KeySource)
        ensures
            ks.inner@.len() == 1,
            ks.inner@[0].0@ == "save_dir"@,
            ks.inner@[0].1@ == "/Users/louis"@,
    {
        let mut inner: Vec<(String, String)> = Vec::new();
        inner.push(("save_dir".to_owned(), "/Users/louis".to_owned()));
        KeySource { inner }
    }

    /// A source holding exactly the given entries, e.g. decrypted from the
    /// configuration directory by the caller.
    pub fn from_pairs(pairs: Vec<(String, String)>) -> (ks: KeySource)
        ensures
            ks.inner@ == pairs@,
    {
        KeySource { inner: pairs }
    }

    /// Layers `kv` over this source: its entries are appended, so they win
    /// on lookup for any key they share with the existing ones.
    pub fn upgrade(&mut self, kv: KeySource)
        ensures
            final(self).inner@ == old(self).inner@ + kv.inner@,
    {
        let mut kv = kv;
        self.inner.append(&mut kv.inner);
    }

    /// The entries to persist, one `(name, plaintext)` pair per entry; the
    /// caller encrypts each and writes it to the configuration directory.
    pub fn save(&self) -> (plan: Vec<(String, String)>)
        ensures
            plan@.len() == self.inner@.len(),
            forall|i: int|
                0 <= i < plan@.len() ==> plan@[i].0@ == self.inner@[i].0@ && plan@[i].1@
                    == self.inner@[i].1@,
    {
        let mut plan: Vec<(String, String)> = Vec::new();
        let mut i: usize = 0;
        while i < self.inner.len()
            invariant
                i <= self.inner@.len(),
                plan@.len() == i,
                forall|j: int|
                    0 <= j < i ==> plan@[j].0@ == self.inner@[j].0@ && plan@[j].1@
                        == self.inner@[j].1@,
            decreases self.inner@.len() - i,
        {
            let k = self.inner[i].0.clone();
            let v = self.inner[i].1.clone();
            plan.push((k, v));
            i = i + 1;
        }
        plan
    }
}

/// The configuration handle: defaults first, then the entries of the
/// source it was built with.
pub struct Config {
    pub entries: Vec<(String, String)>,
}

/// The default entries every configuration starts from.
pub open spec fn spec_default_entries(entries: Seq<(String, String)>) -> bool {
    &&& entries.len() == 2
    &&& entries[0].0@ == "user-agent"@ && entries[0].1@ == USER_AGENT@
    &&& entries[1].0@ == "bili_cookie"@ && entries[1].1@ == ""@
}

/// Builds a configuration from the given source layered over the defaults.
pub fn config_with_source(ks: KeySource) -> (cfg: Config)
    ensures
        cfg.entries@.len() == 2 + ks.inner@.len(),
        spec_default_entries(cfg.entries@.take(2)),
        cfg.entries@.skip(2) == ks.inner@,
{
    let mut entries: Vec<(String, String)> = Vec::new();
    entries.push(("user-agent".to_owned(), USER_AGENT.to_owned()));
    entries.push(("bili_cookie".to_owned(), "".to_owned()));
    let mut ks = ks;
    entries.append(&mut ks.inner);
    proof {
        assert(entries@.take(2) =~= entries@.subrange(0, 2));
    }
    Config { entries }
}

/// Builds the startup configuration: the defaults overlaid with the
/// built-in [`KeySource::new`] source.
pub fn config_init() -> (cfg: Config)
    ensures
        cfg.entries@.len() == 3,
        spec_default_entries(cfg.entries@.take(2)),
        cfg.entries@[2].0@ == "save_dir"@ && cfg.entries@[2].1@ == "/Users/louis"@,
{
    let ks = KeySource::new();
    let cfg = config_with_source(ks);
    proof {
        assert(cfg.entries@.skip(2)[0] == cfg.entries@[2]);
    }
    cfg
}

/// Looks `key` up in the configuration; the entry added last wins.
pub fn get_config(cfg: &Config, key: &str) -> (r: Option<String>)
    ensures
        match r {
            Some(v) => lookup(cfg.entries@, key@) == Some(v@),
            None => lookup(cfg.entries@, key@) is None,
        },
{
    let key_s: String = key.to_owned();
    let mut i: usize = cfg.entries.len();
    proof {
        assert(cfg.entries@.take(i as int) =~= cfg.entries@);
    }
    while i > 0
        invariant
            i <= cfg.entries@.len(),
            key_s@ == key@,
            lookup(cfg.entries@, key@) == lookup(cfg.entries@.take(i as int), key@),
        decreases i,
    {
        i = i - 1;
        if cfg.entries[i].0 == key_s {
            proof {
                assert(cfg.entries@.take(i + 1).last() == cfg.entries@[i as int]);
            }
            return Some(cfg.entries[i].1.clone());
        }
        proof {
            assert(cfg.entries@.take(i + 1).last() == cfg.entries@[i as int]);
            assert(cfg.entries@.take(i + 1).drop_last() =~= cfg.entries@.take(i as int));
        }
    }
    proof {
        assert(cfg.entries@.take(0) =~= Seq::<(String, String)>::empty());
    }
    None
}

/// All entries of the configuration, for display.
pub fn show_config(cfg: &Config) -> (r: Vec<(String, String)>)
    ensures
        r@.len() == cfg.entries@.len(),
        forall|i: int|
            0 <= i < r@.len() ==> r@[i].0@ == cfg.entries@[i].0@ && r@[i].1@
                == cfg.entries@[i].1@,
{
    let mut r: Vec<(String, String)> = Vec::new();
    let mut i: usize = 0;
    while i < cfg.entries.len()
        invariant
            i <= cfg.entries@.len(),
            r@.len() == i,
            forall|j: int|
                0 <= j < i ==> r@[j].0@ == cfg.entries@[j].0@ && r@[j].1@ == cfg.entries@[j].1@,
        decreases cfg.entries@.len() - i,
    {
        let k = cfg.entries[i].0.clone();
        let v = cfg.entries[i].1.clone();
        r.push((k, v));
        i = i + 1;
    }
    r
}

} // verus!

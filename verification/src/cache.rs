//! The key-value cache the server opens at startup. The token engine never
//! reads or writes through it — revocation is stubbed — so the store's role
//! is exactly its connection setup and its guarded get/set operations.

use vstd::prelude::*;

verus! {

/// Connection configuration values for the cache.
pub struct RedisConfig {
    pub host: String,
    pub port: u16,
    pub db: u8,
    pub password: Option<String>,
}

/// Top-level cache configuration, as the external loader hands it over.
pub struct Config {
    pub redis: RedisConfig,
}

/// Failures of cache operations.
#[derive(Debug, Clone, Copy, PartialEq, Eq)]
pub enum CacheError {
    /// The store was used before it was initialized.
    NotInitialized,
    /// The key holds no value.
    Missing,
}

/// The value the first entry with the given key holds, scanning from the
/// front: the newest entry for a key shadows older ones.
pub open spec fn lookup(entries: Seq<(String, String)>, key: Seq<char>) -> Option<Seq<char>>
    decreases entries.len(),
{
    if entries.len() == 0 {
        None
    } else if entries[0].0@ == key {
        Some(entries[0].1@)
    } else {
        lookup(entries.drop_first(), key)
    }
}

/// The in-process key-value store standing behind the cache operations,
/// with the initialization guard that every operation runs first.
pub struct RedisInstance {
    pub config: Config,
    entries: Vec<(String, String)>,
    init: bool,
}

impl RedisInstance {
    /// The configuration the store was opened with.
    pub closed spec fn spec_config(self) -> Config {
        self.config
    }

    /// Whether the store finished initialization.
    pub closed spec fn initialized(self) -> bool {
        self.init
    }

    /// The value the store holds for a key.
    pub closed spec fn spec_get(self, key: Seq<char>) -> Option<Seq<char>> {
        lookup(self.entries@, key)
    }

    /// Opens the store for the given configuration: initialized and empty.
    pub fn new(config: Config) -> (r: RedisInstance)
        ensures
            r.initialized(),
            r.spec_config() == config,
            forall|k: Seq<char>| #[trigger] r.spec_get(k) is None,
    {
        RedisInstance { config, entries: Vec::new(), init: true }
    }

    /// The guard every operation runs first: succeeds exactly when the store
    /// finished initialization.
    fn check_init(&self) -> (r: Result<bool, CacheError>)
        ensures
            self.initialized() ==> r == Ok::<bool, CacheError>(true),
            !self.initialized() ==> r == Err::<bool, CacheError>(CacheError::NotInitialized),
    {
        if self.init {
            Ok(true)
        } else {
            Err(CacheError::NotInitialized)
        }
    }

    /// Reads the value stored for `key`: the stored value when there is one,
    /// the missing-key failure when there is none, and the uninitialized
    /// failure when the guard refuses. The store itself never changes.
    pub fn get(&mut self, key: &str) -> (r: Result<String, CacheError>)
        ensures
            *final(self) == *old(self),
            !old(self).initialized() ==> r == Err::<String, CacheError>(
                CacheError::NotInitialized,
            ),
            (old(self).initialized() ==> match old(self).spec_get(key@) {
                Some(v) => r matches Ok(s) && s@ == v,
                None => r == Err::<String, CacheError>(CacheError::Missing),
            }),
    {
        if let Err(e) = self.check_init() {
            return Err(e);
        }
        let key_owned: String = key.to_owned();
        let n: usize = self.entries.len();
        let mut i: usize = 0;
        proof {
            assert(self.entries@.skip(0) =~= self.entries@);
        }
        while i < n
            invariant
                old(self).initialized(),
                *self == *old(self),
                n == self.entries@.len(),
                i <= n,
                key_owned@ == key@,
                lookup(self.entries@.skip(i as int), key@) == lookup(self.entries@, key@),
            decreases n - i,
        {
            proof {
                assert(self.entries@.skip(i as int)[0] == self.entries@[i as int]);
                assert(self.entries@.skip(i as int).drop_first() =~= self.entries@.skip(
                    i as int + 1,
                ));
            }
            if self.entries[i].0 == key_owned {
                return Ok(self.entries[i].1.clone());
            }
            i += 1;
        }
        proof {
            assert(self.entries@.skip(n as int) =~= Seq::<(String, String)>::empty());
        }
        Err(CacheError::Missing)
    }

    /// Stores `value` under `key`: afterwards the key reads back exactly this
    /// value, every other key reads as before, and the configuration and the
    /// initialization state are untouched. Fails only when the guard refuses.
    pub fn set(&mut self, key: &str, value: &str) -> (r: Result<(), CacheError>)
        ensures
            !old(self).initialized() ==> r == Err::<(), CacheError>(CacheError::NotInitialized)
                && *final(self) == *old(self),
            old(self).initialized() ==> r == Ok::<(), CacheError>(()) && final(self).initialized()
                && final(self).spec_config() == old(self).spec_config() && final(self).spec_get(key@) == Some(
            value@) && (forall|k: Seq<char>|
                k != key@ ==> #[trigger] final(self).spec_get(k) == old(self).spec_get(k)),
    {
        if let Err(e) = self.check_init() {
            return Err(e);
        }
        let pair: (String, String) = (key.to_owned(), value.to_owned());
        self.entries.insert(0, pair);
        proof {
            assert(self.entries@[0].0@ == key@);
            assert(self.entries@.drop_first() =~= old(self).entries@);
            assert forall|k: Seq<char>| k != key@ implies #[trigger] self.spec_get(k) == old(
                self,
            ).spec_get(k) by {
                assert(self.entries@.drop_first() =~= old(self).entries@);
            }
        }
        Ok(())
    }
}

} // verus!

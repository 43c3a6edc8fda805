use vstd::prelude::*;

use crate::budget::{metered, Budget};
use crate::error::HostError;
use crate::footprint::{enforced, record_cost, recorded, AccessType, Footprint, LedgerKey};
use crate::metered_map::MeteredOrdMap;

verus! {

broadcast use vstd::laws_cmp::group_laws_cmp;

/// The durable value stored under a ledger key, in its encoded form.
pub type LedgerEntry = Vec<u8>;

/// Loaded entries by key; `None` marks a key known to be absent or deleted.
pub type StorageMap = MeteredOrdMap<LedgerKey, Option<LedgerEntry>>;

/// A stable, read-only, point-in-time view of ledger state.
pub trait SnapshotSource {
    /// The entry under `key`, or a failure if there is none.
    fn get(&self, key: &LedgerKey) -> Result<LedgerEntry, HostError>;

    /// Whether an entry exists under `key`.
    fn has(&self, key: &LedgerKey) -> Result<bool, HostError>;
}

/// Whether a [`Storage`] discovers its footprint against a snapshot, or
/// enforces one that was declared beforehand.
#[derive(Clone)]
pub enum FootprintMode<S> {
    Recording(S),
    Enforcing,
}

impl<S> Default for FootprintMode<S> {
    fn default() -> (r: Self)
        ensures
            r is Enforcing,
    {
        FootprintMode::Enforcing
    }
}

/// The bytes of a cached entry, or `None` for a deleted one.
pub open spec fn entry_view(e: Option<LedgerEntry>) -> Option<Seq<u8>> {
    match e {
        Some(v) => Some(v@),
        None => None,
    }
}

/// A cache map with each entry seen as its bytes.
pub open spec fn cache_view(m: Map<LedgerKey, Option<LedgerEntry>>) -> Map<LedgerKey, Option<Seq<u8>>> {
    m.map_values(|e: Option<LedgerEntry>| entry_view(e))
}

/// A read's result with the entry seen as its bytes.
pub open spec fn read_view(r: Result<LedgerEntry, HostError>) -> Result<Seq<u8>, HostError> {
    match r {
        Ok(v) => Ok(v@),
        Err(e) => Err(e),
    }
}

/// What a read of `key` finds in the cache.
pub open spec fn cached_read(c: Map<LedgerKey, Option<Seq<u8>>>, key: LedgerKey) -> Result<
    Seq<u8>,
    HostError,
> {
    if !c.contains_key(key) {
        Err(HostError::MissingKeyInGet)
    } else {
        match c[key] {
            None => Err(HostError::GetOnDeletedKey),
            Some(v) => Ok(v),
        }
    }
}

/// Whether the cache holds a live entry for `key`.
pub open spec fn cached_present(c: Map<LedgerKey, Option<Seq<u8>>>, key: LedgerKey) -> bool {
    c.contains_key(key) && c[key] is Some
}

/// The outcome of an enforced operation: the check's lookup is paid first,
/// then the check decides, then the operation's own lookup is paid.
pub open spec fn enforced_then<T>(b: Budget, e: Result<(), HostError>, r: Result<T, HostError>) -> Result<
    T,
    HostError,
> {
    metered(
        b,
        1,
        match e {
            Err(x) => Err(x),
            Ok(_) => metered(b, 2, r),
        },
    )
}

/// The map operations of an enforced operation whose check gave `e`.
pub open spec fn enforced_cost(e: Result<(), HostError>) -> nat {
    if e is Ok {
        2
    } else {
        1
    }
}

proof fn lemma_cache_view_insert(m: Map<LedgerKey, Option<LedgerEntry>>, key: LedgerKey, e: Option<LedgerEntry>)
    ensures
        cache_view(m.insert(key, e)) == cache_view(m).insert(key, entry_view(e)),
{
    assert(cache_view(m.insert(key, e)) =~= cache_view(m).insert(key, entry_view(e)));
}

/// A read after a write finds the written entry.
pub proof fn lemma_read_after_put(c: Map<LedgerKey, Option<Seq<u8>>>, key: LedgerKey, v: Seq<u8>)
    ensures
        cached_read(c.insert(key, Some(v)), key) == Ok::<Seq<u8>, HostError>(v),
        cached_present(c.insert(key, Some(v)), key),
{
}

/// After a deletion, a read fails with `GetOnDeletedKey` and the key is
/// reported absent.
pub proof fn lemma_read_after_del(c: Map<LedgerKey, Option<Seq<u8>>>, key: LedgerKey)
    ensures
        cached_read(c.insert(key, None), key) == Err::<Seq<u8>, HostError>(HostError::GetOnDeletedKey),
        !cached_present(c.insert(key, None), key),
{
}

/// Under enforcement, a key that is declared but was never loaded passes
/// the access check and then fails with `MissingKeyInGet`.
pub proof fn lemma_declared_but_unloaded(
    fp: Map<LedgerKey, AccessType>,
    c: Map<LedgerKey, Option<Seq<u8>>>,
    key: LedgerKey,
    b: Budget,
)
    requires
        fp.contains_key(key),
        !c.contains_key(key),
        b.can_afford(2),
    ensures
        enforced_then(b, enforced(fp, key, AccessType::ReadOnly), cached_read(c, key)) == Err::<
            Seq<u8>,
            HostError,
        >(HostError::MissingKeyInGet),
        enforced_then(b, enforced(fp, key, AccessType::ReadOnly), Ok::<bool, HostError>(cached_present(c, key)))
            == Ok::<bool, HostError>(false),
{
}

/// Under enforcement, an operation that succeeds touched a declared key,
/// and one that wrote touched a key declared read-write.
pub proof fn lemma_enforced_success_is_declared<T>(
    b: Budget,
    fp: Map<LedgerKey, AccessType>,
    key: LedgerKey,
    ty: AccessType,
    r: Result<T, HostError>,
)
    requires
        enforced_then(b, enforced(fp, key, ty), r) is Ok,
    ensures
        fp.contains_key(key),
        ty == AccessType::ReadWrite ==> fp[key] == AccessType::ReadWrite,
{
}

/// A transactional batch of reads and writes of durable ledger entries,
/// each mediated by a [`Footprint`] that is either recorded or enforced.
#[derive(Clone)]
pub struct Storage<S> {
    pub footprint: Footprint,
    pub mode: FootprintMode<S>,
    pub map: StorageMap,
}

impl<S> Storage<S> {
    /// The cached entries, each seen as its bytes.
    pub open spec fn cache(&self) -> Map<LedgerKey, Option<Seq<u8>>> {
        cache_view(self.map@)
    }

    /// In enforcing mode every live cached entry is declared in the footprint.
    pub open spec fn enforcement_consistent(&self) -> bool {
        self.mode is Enforcing ==> forall|k: LedgerKey|
            #[trigger] self.map@.contains_key(k) && self.map@[k] is Some
                ==> self.footprint@.contains_key(k)
    }
}

impl<S> Default for Storage<S> {
    fn default() -> (r: Self)
        ensures
            r.mode is Enforcing,
            r.footprint@ == Map::<LedgerKey, AccessType>::empty(),
            r.map@ == Map::<LedgerKey, Option<LedgerEntry>>::empty(),
    {
        Storage { footprint: Footprint::default(), mode: FootprintMode::Enforcing, map: MeteredOrdMap::new() }
    }
}

impl<S: SnapshotSource> Storage<S> {
    /// A storage that enforces `footprint`, over a map that holds every key
    /// the footprint declares.
    pub fn with_enforcing_footprint_and_map(footprint: Footprint, map: StorageMap) -> (r: Self)
        ensures
            r.mode is Enforcing,
            r.footprint == footprint,
            r.map == map,
    {
        Storage { mode: FootprintMode::Enforcing, footprint, map }
    }

    /// A storage that records its footprint, reading through to `src`.
    pub fn with_recording_footprint(src: S) -> (r: Self)
        ensures
            r.mode == FootprintMode::Recording(src),
            r.footprint@ == Map::<LedgerKey, AccessType>::empty(),
            r.map@ == Map::<LedgerKey, Option<LedgerEntry>>::empty(),
    {
        Storage { mode: FootprintMode::Recording(src), footprint: Footprint::default(), map: MeteredOrdMap::new() }
    }

    /// Caches what the snapshot returned for `key`, then reads it back.
    fn load_entry(&mut self, key: &LedgerKey, loaded: Result<LedgerEntry, HostError>, budget: &mut Budget) -> (r:
        Result<LedgerEntry, HostError>)
        ensures
            final(self).mode == old(self).mode,
            final(self).footprint == old(self).footprint,
            loaded is Err ==> r == loaded && final(self).map == old(self).map && *final(budget)
                == *old(budget),
            loaded is Ok ==> *final(budget) == old(budget).charged(2) && read_view(r) == metered(
                *old(budget),
                2,
                Ok(loaded.unwrap()@),
            ) && final(self).cache() == (if old(budget).can_afford(1) {
                old(self).cache().insert(*key, Some(loaded.unwrap()@))
            } else {
                old(self).cache()
            }),
    {
        let entry = loaded?;
        proof {
            lemma_cache_view_insert(self.map@, *key, Some(entry));
        }
        self.map = self.map.insert(*key, Some(entry), budget)?;
        self.lookup(key, budget)
    }

    /// Reads the entry under `key`.
    ///
    /// Recording: records a read of `key`; on the first read of a key the
    /// entry is fetched from the snapshot and cached, so later reads never
    /// fetch it again. Enforcing: the footprint must declare `key`, and the
    /// entry comes from the cache alone. Either way a key that was never
    /// loaded fails with `MissingKeyInGet`, a deleted one with
    /// `GetOnDeletedKey`.
    pub fn get(&mut self, key: &LedgerKey, budget: &mut Budget) -> (r: Result<LedgerEntry, HostError>)
        ensures
            final(self).mode == old(self).mode,
            old(self).enforcement_consistent() ==> final(self).enforcement_consistent(),
            old(self).mode is Recording ==> {
                let rc = record_cost(old(self).footprint@, *key, AccessType::ReadOnly);
                &&& final(self).footprint@ == (if old(budget).can_afford(rc) {
                    recorded(old(self).footprint@, *key, AccessType::ReadOnly)
                } else {
                    old(self).footprint@
                })
                &&& old(self).map@.contains_key(*key) ==> {
                    &&& final(self).map == old(self).map
                    &&& *final(budget) == old(budget).charged(rc + 2)
                    &&& read_view(r) == metered(*old(budget), rc + 2, cached_read(old(self).cache(), *key))
                }
                &&& !old(self).map@.contains_key(*key) ==> {
                    &&& !old(budget).can_afford(rc + 1) ==> r == Err::<LedgerEntry, HostError>(
                        HostError::BudgetExceeded,
                    ) && *final(budget) == old(budget).charged(rc + 1)
                    &&& r is Ok ==> final(self).cache() == old(self).cache().insert(*key, Some(r.unwrap()@))
                    &&& final(self).cache() == old(self).cache() || exists|v: Seq<u8>|
                        final(self).cache() == old(self).cache().insert(*key, Some(v))
                }
            },
            old(self).mode is Enforcing ==> {
                let e = enforced(old(self).footprint@, *key, AccessType::ReadOnly);
                &&& final(self).footprint == old(self).footprint
                &&& final(self).map == old(self).map
                &&& *final(budget) == old(budget).charged(enforced_cost(e))
                &&& read_view(r) == enforced_then(*old(budget), e, cached_read(old(self).cache(), *key))
            },
    {
        let ty = AccessType::ReadOnly;
        match self.mode {
            FootprintMode::Recording(ref src) => {
                self.footprint.record_access(key, ty, budget)?;
                if !self.map.contains_key(key, budget)? {
                    let loaded = src.get(key);
                    let ghost fetched = loaded;
                    let ghost before = self.cache();
                    let ghost paid = *budget;
                    let r = self.load_entry(key, loaded, budget);
                    proof {
                        if fetched is Ok && paid.can_afford(1) {
                            assert(self.cache() == before.insert(*key, Some(fetched.unwrap()@)));
                        }
                    }
                    return r;
                }
            },
            FootprintMode::Enforcing => {
                self.footprint.enforce_access(key, ty, budget)?;
            },
        }
        self.lookup(key, budget)
    }

    /// Writes `val` under `key`; `None` deletes it.
    fn put_opt(&mut self, key: &LedgerKey, val: Option<LedgerEntry>, budget: &mut Budget) -> (r: Result<(), HostError>)
        ensures
            final(self).mode == old(self).mode,
            old(self).enforcement_consistent() ==> final(self).enforcement_consistent(),
            old(self).mode is Recording ==> {
                let rc = record_cost(old(self).footprint@, *key, AccessType::ReadWrite);
                &&& final(self).footprint@ == (if old(budget).can_afford(rc) {
                    recorded(old(self).footprint@, *key, AccessType::ReadWrite)
                } else {
                    old(self).footprint@
                })
                &&& *final(budget) == old(budget).charged(rc + 1)
                &&& r == metered(*old(budget), rc + 1, Ok::<(), HostError>(()))
            },
            old(self).mode is Enforcing ==> {
                let e = enforced(old(self).footprint@, *key, AccessType::ReadWrite);
                &&& final(self).footprint == old(self).footprint
                &&& *final(budget) == old(budget).charged(enforced_cost(e))
                &&& r == enforced_then(*old(budget), e, Ok::<(), HostError>(()))
            },
            final(self).cache() == (if r is Ok {
                old(self).cache().insert(*key, entry_view(val))
            } else {
                old(self).cache()
            }),
    {
        let ty = AccessType::ReadWrite;
        match self.mode {
            FootprintMode::Recording(_) => {
                self.footprint.record_access(key, ty, budget)?;
            },
            FootprintMode::Enforcing => {
                self.footprint.enforce_access(key, ty, budget)?;
            },
        }
        proof {
            lemma_cache_view_insert(self.map@, *key, val);
        }
        self.map = self.map.insert(*key, val, budget)?;
        Ok(())
    }

    /// Writes `val` under `key`.
    ///
    /// Recording: records a write of `key`, whatever was recorded before.
    /// Enforcing: the footprint must declare `key` read-write. The cache
    /// then holds `val`; nothing is read through.
    pub fn put(&mut self, key: &LedgerKey, val: &LedgerEntry, budget: &mut Budget) -> (r: Result<(), HostError>)
        ensures
            final(self).mode == old(self).mode,
            old(self).enforcement_consistent() ==> final(self).enforcement_consistent(),
            old(self).mode is Recording ==> {
                let rc = record_cost(old(self).footprint@, *key, AccessType::ReadWrite);
                &&& final(self).footprint@ == (if old(budget).can_afford(rc) {
                    recorded(old(self).footprint@, *key, AccessType::ReadWrite)
                } else {
                    old(self).footprint@
                })
                &&& *final(budget) == old(budget).charged(rc + 1)
                &&& r == metered(*old(budget), rc + 1, Ok::<(), HostError>(()))
            },
            old(self).mode is Enforcing ==> {
                let e = enforced(old(self).footprint@, *key, AccessType::ReadWrite);
                &&& final(self).footprint == old(self).footprint
                &&& *final(budget) == old(budget).charged(enforced_cost(e))
                &&& r == enforced_then(*old(budget), e, Ok::<(), HostError>(()))
            },
            final(self).cache() == (if r is Ok {
                old(self).cache().insert(*key, Some(val@))
            } else {
                old(self).cache()
            }),
    {
        let v = val.clone();
        assert(v@ =~= val@);
        self.put_opt(key, Some(v), budget)
    }

    /// Deletes the entry under `key`, leaving a deletion mark in the cache.
    ///
    /// The footprint is consulted as for [`Storage::put`].
    pub fn del(&mut self, key: &LedgerKey, budget: &mut Budget) -> (r: Result<(), HostError>)
        ensures
            final(self).mode == old(self).mode,
            old(self).enforcement_consistent() ==> final(self).enforcement_consistent(),
            old(self).mode is Recording ==> {
                let rc = record_cost(old(self).footprint@, *key, AccessType::ReadWrite);
                &&& final(self).footprint@ == (if old(budget).can_afford(rc) {
                    recorded(old(self).footprint@, *key, AccessType::ReadWrite)
                } else {
                    old(self).footprint@
                })
                &&& *final(budget) == old(budget).charged(rc + 1)
                &&& r == metered(*old(budget), rc + 1, Ok::<(), HostError>(()))
            },
            old(self).mode is Enforcing ==> {
                let e = enforced(old(self).footprint@, *key, AccessType::ReadWrite);
                &&& final(self).footprint == old(self).footprint
                &&& *final(budget) == old(budget).charged(enforced_cost(e))
                &&& r == enforced_then(*old(budget), e, Ok::<(), HostError>(()))
            },
            final(self).cache() == (if r is Ok {
                old(self).cache().insert(*key, None)
            } else {
                old(self).cache()
            }),
    {
        self.put_opt(key, None, budget)
    }

    /// Whether an entry exists under `key`.
    ///
    /// Recording: records a read of `key` and answers from the cache; for a
    /// key never loaded it asks the snapshot, and does not cache the answer.
    /// Enforcing: the footprint must declare `key`; the answer comes from
    /// the cache alone, and a key never loaded counts as absent.
    pub fn has(&mut self, key: &LedgerKey, budget: &mut Budget) -> (r: Result<bool, HostError>)
        ensures
            final(self).mode == old(self).mode,
            final(self).map == old(self).map,
            old(self).enforcement_consistent() ==> final(self).enforcement_consistent(),
            old(self).mode is Recording ==> {
                let rc = record_cost(old(self).footprint@, *key, AccessType::ReadOnly);
                &&& final(self).footprint@ == (if old(budget).can_afford(rc) {
                    recorded(old(self).footprint@, *key, AccessType::ReadOnly)
                } else {
                    old(self).footprint@
                })
                &&& *final(budget) == old(budget).charged(rc + 1)
                &&& old(self).map@.contains_key(*key) ==> r == metered(
                    *old(budget),
                    rc + 1,
                    Ok::<bool, HostError>(cached_present(old(self).cache(), *key)),
                )
                &&& !old(budget).can_afford(rc + 1) ==> r == Err::<bool, HostError>(HostError::BudgetExceeded)
            },
            old(self).mode is Enforcing ==> {
                let e = enforced(old(self).footprint@, *key, AccessType::ReadOnly);
                &&& final(self).footprint == old(self).footprint
                &&& *final(budget) == old(budget).charged(enforced_cost(e))
                &&& r == enforced_then(*old(budget), e, Ok::<bool, HostError>(cached_present(old(self).cache(), *key)))
            },
    {
        let ty = AccessType::ReadOnly;
        match self.mode {
            FootprintMode::Recording(ref src) => {
                self.footprint.record_access(key, ty, budget)?;
                match self.map.get(key, budget)? {
                    Some(None) => Ok(false),
                    Some(Some(_)) => Ok(true),
                    None => src.has(key),
                }
            },
            FootprintMode::Enforcing => {
                self.footprint.enforce_access(key, ty, budget)?;
                match self.map.get(key, budget)? {
                    Some(None) => Ok(false),
                    Some(Some(_)) => Ok(true),
                    None => Ok(false),
                }
            },
        }
    }

    /// Reads `key` from the cache.
    fn lookup(&self, key: &LedgerKey, budget: &mut Budget) -> (r: Result<LedgerEntry, HostError>)
        ensures
            *final(budget) == old(budget).charged(1),
            read_view(r) == metered(*old(budget), 1, cached_read(self.cache(), *key)),
    {
        match self.map.get(key, budget)? {
            None => Err(HostError::MissingKeyInGet),
            Some(None) => Err(HostError::GetOnDeletedKey),
            Some(Some(val)) => {
                let v = val.clone();
                assert(v@ =~= val@);
                Ok(v)
            },
        }
    }
}

} // verus!

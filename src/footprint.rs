use vstd::prelude::*;

use crate::budget::Budget;
use crate::error::HostError;
use crate::metered_map::MeteredOrdMap;

verus! {

broadcast use vstd::laws_cmp::group_laws_cmp;

/// Identifies one slot of durable ledger state.
pub type LedgerKey = u64;

/// How a ledger key is accessed, or may be accessed, by a transaction.
/// `ReadOnly` is the weaker level: `ReadWrite` also permits reading.
#[derive(Clone, Copy, Debug, PartialEq, Eq, PartialOrd, Ord, Structural)]
pub enum AccessType {
    /// The key is only read, or may only be read.
    ReadOnly,
    /// The key is written, or may be written (and read).
    ReadWrite,
}

pub type FootprintMap = MeteredOrdMap<LedgerKey, AccessType>;

/// The level recorded for a key that held `existing` once `ty` is
/// requested: levels only ever move up, from `ReadOnly` to `ReadWrite`.
pub open spec fn upgraded(existing: Option<AccessType>, ty: AccessType) -> AccessType {
    match existing {
        None => ty,
        Some(AccessType::ReadWrite) => AccessType::ReadWrite,
        Some(AccessType::ReadOnly) => ty,
    }
}

/// The footprint after recording an access of level `ty` to `key`.
pub open spec fn recorded(fp: Map<LedgerKey, AccessType>, key: LedgerKey, ty: AccessType) -> Map<
    LedgerKey,
    AccessType,
> {
    let existing = if fp.contains_key(key) { Some(fp[key]) } else { None };
    fp.insert(key, upgraded(existing, ty))
}

/// Whether recording `ty` for `key` changes the footprint.
pub open spec fn record_changes(fp: Map<LedgerKey, AccessType>, key: LedgerKey, ty: AccessType) -> bool {
    !fp.contains_key(key) || (fp[key] == AccessType::ReadOnly && ty == AccessType::ReadWrite)
}

/// The map operations that recording performs: a lookup, then an
/// insertion only where the footprint changes.
pub open spec fn record_cost(fp: Map<LedgerKey, AccessType>, key: LedgerKey, ty: AccessType) -> nat {
    if record_changes(fp, key, ty) {
        2
    } else {
        1
    }
}

/// Whether a footprint permits an access of level `ty` to `key`, and if
/// not, why.
pub open spec fn enforced(fp: Map<LedgerKey, AccessType>, key: LedgerKey, ty: AccessType) -> Result<
    (),
    HostError,
> {
    if !fp.contains_key(key) {
        Err(HostError::AccessToUnknownEntry)
    } else if fp[key] == AccessType::ReadOnly && ty == AccessType::ReadWrite {
        Err(HostError::ReadwriteAccessToReadonlyEntry)
    } else {
        Ok(())
    }
}

/// The footprint after recording each access of `accesses` in turn.
pub open spec fn recorded_all(fp: Map<LedgerKey, AccessType>, accesses: Seq<(LedgerKey, AccessType)>) -> Map<
    LedgerKey,
    AccessType,
>
    decreases accesses.len(),
{
    if accesses.len() == 0 {
        fp
    } else {
        let (key, ty) = accesses.last();
        recorded(recorded_all(fp, accesses.drop_last()), key, ty)
    }
}

/// Recording never removes a key and never lowers a read-write key.
pub proof fn lemma_record_never_downgrades(
    fp: Map<LedgerKey, AccessType>,
    key: LedgerKey,
    ty: AccessType,
    other: LedgerKey,
)
    requires
        fp.contains_key(other),
    ensures
        recorded(fp, key, ty).contains_key(other),
        fp[other] == AccessType::ReadWrite ==> recorded(fp, key, ty)[other] == AccessType::ReadWrite,
{
}

/// Once a key is recorded read-write, it stays read-write whatever
/// accesses are recorded after, read-only ones included.
pub proof fn lemma_read_write_is_kept(
    fp: Map<LedgerKey, AccessType>,
    key: LedgerKey,
    accesses: Seq<(LedgerKey, AccessType)>,
)
    requires
        fp.contains_key(key),
        fp[key] == AccessType::ReadWrite,
    ensures
        recorded_all(fp, accesses).contains_key(key),
        recorded_all(fp, accesses)[key] == AccessType::ReadWrite,
    decreases accesses.len(),
{
    if accesses.len() > 0 {
        lemma_read_write_is_kept(fp, key, accesses.drop_last());
        let (k, ty) = accesses.last();
        lemma_record_never_downgrades(recorded_all(fp, accesses.drop_last()), k, ty, key);
    }
}

/// Recording keeps every access that a footprint already permits.
pub proof fn lemma_record_keeps_permission(
    fp: Map<LedgerKey, AccessType>,
    key: LedgerKey,
    ty: AccessType,
    other: LedgerKey,
    other_ty: AccessType,
)
    requires
        enforced(fp, other, other_ty) is Ok,
    ensures
        enforced(recorded(fp, key, ty), other, other_ty) is Ok,
{
}

/// A footprint recorded from a sequence of accesses permits, when
/// enforced, each access of that sequence.
pub proof fn lemma_recorded_footprint_permits(
    fp: Map<LedgerKey, AccessType>,
    accesses: Seq<(LedgerKey, AccessType)>,
    i: int,
)
    requires
        0 <= i < accesses.len(),
    ensures
        enforced(recorded_all(fp, accesses), accesses[i].0, accesses[i].1) is Ok,
    decreases accesses.len(),
{
    let prefix = accesses.drop_last();
    let (key, ty) = accesses.last();
    if i == accesses.len() - 1 {
        assert(accesses[i] == (key, ty));
    } else {
        lemma_recorded_footprint_permits(fp, prefix, i);
        assert(prefix[i] == accesses[i]);
        lemma_record_keeps_permission(recorded_all(fp, prefix), key, ty, accesses[i].0, accesses[i].1);
    }
}

/// Enforcing any access to a key that the footprint does not declare
/// fails with `AccessToUnknownEntry`.
pub proof fn lemma_enforce_undeclared(fp: Map<LedgerKey, AccessType>, key: LedgerKey, ty: AccessType)
    requires
        !fp.contains_key(key),
    ensures
        enforced(fp, key, ty) == Err::<(), HostError>(HostError::AccessToUnknownEntry),
{
}

/// A key declared read-only may be read, and writing it fails with
/// `ReadwriteAccessToReadonlyEntry`.
pub proof fn lemma_enforce_read_only(fp: Map<LedgerKey, AccessType>, key: LedgerKey)
    requires
        fp.contains_key(key),
        fp[key] == AccessType::ReadOnly,
    ensures
        enforced(fp, key, AccessType::ReadOnly) == Ok::<(), HostError>(()),
        enforced(fp, key, AccessType::ReadWrite) == Err::<(), HostError>(
            HostError::ReadwriteAccessToReadonlyEntry,
        ),
{
}

/// A key declared read-write may be read and written.
pub proof fn lemma_enforce_read_write(fp: Map<LedgerKey, AccessType>, key: LedgerKey)
    requires
        fp.contains_key(key),
        fp[key] == AccessType::ReadWrite,
    ensures
        enforced(fp, key, AccessType::ReadOnly) == Ok::<(), HostError>(()),
        enforced(fp, key, AccessType::ReadWrite) == Ok::<(), HostError>(()),
{
}

/// The ledger keys that a transaction accesses, each with the level of
/// access that governs it.
pub struct Footprint(pub FootprintMap);

impl View for Footprint {
    type V = Map<LedgerKey, AccessType>;

    open spec fn view(&self) -> Map<LedgerKey, AccessType> {
        self.0@
    }
}

impl Footprint {
    /// Records an access of level `ty` to `key`: an absent key is added at
    /// `ty`, a read-only key is raised to `ty`, a read-write key stays.
    pub fn record_access(&mut self, key: &LedgerKey, ty: AccessType, budget: &mut Budget) -> (r:
        Result<(), HostError>)
        ensures
            *final(budget) == old(budget).charged(record_cost(old(self)@, *key, ty)),
            old(budget).can_afford(record_cost(old(self)@, *key, ty)) ==> r == Ok::<(), HostError>(
                (),
            ) && final(self)@ == recorded(old(self)@, *key, ty),
            !old(budget).can_afford(record_cost(old(self)@, *key, ty)) ==> r == Err::<
                (),
                HostError,
            >(HostError::BudgetExceeded) && final(self)@ == old(self)@,
    {
        let existing = self.0.get(key, budget)?;
        let changes = match existing {
            None => true,
            Some(AccessType::ReadOnly) => ty == AccessType::ReadWrite,
            Some(AccessType::ReadWrite) => false,
        };
        if changes {
            self.0 = self.0.insert(*key, ty, budget)?;
        } else {
            assert(self@ == recorded(self@, *key, ty));
        }
        Ok(())
    }

    /// Checks that the footprint permits an access of level `ty` to `key`.
    pub fn enforce_access(&mut self, key: &LedgerKey, ty: AccessType, budget: &mut Budget) -> (r:
        Result<(), HostError>)
        ensures
            *final(self) == *old(self),
            *final(budget) == old(budget).charged(1),
            r == (if old(budget).can_afford(1) { enforced(old(self)@, *key, ty) } else { Err(
                HostError::BudgetExceeded,
            ) }),
    {
        match self.0.get(key, budget)? {
            None => Err(HostError::AccessToUnknownEntry),
            Some(AccessType::ReadOnly) => {
                if ty == AccessType::ReadWrite {
                    Err(HostError::ReadwriteAccessToReadonlyEntry)
                } else {
                    Ok(())
                }
            },
            Some(AccessType::ReadWrite) => Ok(()),
        }
    }
}

impl Default for Footprint {
    fn default() -> (r: Footprint)
        ensures
            r@ == Map::<LedgerKey, AccessType>::empty(),
    {
        Footprint(MeteredOrdMap::new())
    }
}

impl Clone for Footprint {
    fn clone(&self) -> (r: Footprint)
        ensures
            r@ == self@,
    {
        Footprint(self.0.clone())
    }
}

} // verus!

use vstd::prelude::*;

use crate::budget::{metered, Budget};
use crate::error::HostError;
use crate::metered_map::MeteredOrdMap;

verus! {

broadcast use vstd::laws_cmp::group_laws_cmp;

/// Identifies the contract that owns a namespace of temporary values.
pub type ContractId = u64;

/// A host value in its 64-bit encoding.
pub type RawVal = u64;

pub type TempStorageMap = MeteredOrdMap<(ContractId, RawVal), RawVal>;

/// What a read of `key` in the namespace of `contract_id` finds.
pub open spec fn temp_read(m: Map<(ContractId, RawVal), RawVal>, contract_id: ContractId, key: RawVal) -> Result<
    RawVal,
    HostError,
> {
    if m.contains_key((contract_id, key)) {
        Ok(m[(contract_id, key)])
    } else {
        Err(HostError::MissingKeyInGet)
    }
}

/// A value put under a key is read back; once the key is deleted, a read
/// fails with `MissingKeyInGet` and the key is absent.
pub proof fn lemma_temp_round_trip(
    m: Map<(ContractId, RawVal), RawVal>,
    contract_id: ContractId,
    key: RawVal,
    val: RawVal,
)
    ensures
        temp_read(m.insert((contract_id, key), val), contract_id, key) == Ok::<RawVal, HostError>(val),
        temp_read(m.insert((contract_id, key), val).remove((contract_id, key)), contract_id, key) == Err::<
            RawVal,
            HostError,
        >(HostError::MissingKeyInGet),
        !m.insert((contract_id, key), val).remove((contract_id, key)).contains_key((contract_id, key)),
{
}

/// Temporary values scoped to one host instance, kept per contract. They
/// need no footprint and are never persisted.
pub struct TempStorage {
    pub map: TempStorageMap,
}

impl View for TempStorage {
    type V = Map<(ContractId, RawVal), RawVal>;

    open spec fn view(&self) -> Map<(ContractId, RawVal), RawVal> {
        self.map@
    }
}

impl TempStorage {
    /// The value under `key` in the namespace of `contract_id`.
    pub fn get(&self, contract_id: ContractId, key: RawVal, budget: &mut Budget) -> (r: Result<RawVal, HostError>)
        ensures
            *final(budget) == old(budget).charged(1),
            r == metered(*old(budget), 1, temp_read(self@, contract_id, key)),
    {
        match self.map.get(&(contract_id, key), budget)? {
            None => Err(HostError::MissingKeyInGet),
            Some(val) => Ok(*val),
        }
    }

    /// Binds `key` to `val` in the namespace of `contract_id`.
    pub fn put(&mut self, contract_id: ContractId, key: RawVal, val: RawVal, budget: &mut Budget) -> (r: Result<
        (),
        HostError,
    >)
        ensures
            *final(budget) == old(budget).charged(1),
            r == metered(*old(budget), 1, Ok::<(), HostError>(())),
            final(self)@ == (if r is Ok {
                old(self)@.insert((contract_id, key), val)
            } else {
                old(self)@
            }),
    {
        self.map = self.map.insert((contract_id, key), val, budget)?;
        Ok(())
    }

    /// Removes `key` from the namespace of `contract_id`, if it is there.
    pub fn del(&mut self, contract_id: ContractId, key: RawVal, budget: &mut Budget) -> (r: Result<(), HostError>)
        ensures
            *final(budget) == old(budget).charged(1),
            r == metered(*old(budget), 1, Ok::<(), HostError>(())),
            final(self)@ == (if r is Ok {
                old(self)@.remove((contract_id, key))
            } else {
                old(self)@
            }),
    {
        match self.map.remove(&(contract_id, key), budget)? {
            Some((new_map, _)) => {
                self.map = new_map;
            },
            None => {
                assert(self@ =~= self@.remove((contract_id, key)));
            },
        }
        Ok(())
    }

    /// Whether `key` has a value in the namespace of `contract_id`.
    pub fn has(&mut self, contract_id: ContractId, key: RawVal, budget: &mut Budget) -> (r: Result<bool, HostError>)
        ensures
            *final(self) == *old(self),
            *final(budget) == old(budget).charged(1),
            r == metered(*old(budget), 1, Ok::<bool, HostError>(old(self)@.contains_key((contract_id, key)))),
    {
        self.map.contains_key(&(contract_id, key), budget)
    }
}

impl Default for TempStorage {
    fn default() -> (r: TempStorage)
        ensures
            r@ == Map::<(ContractId, RawVal), RawVal>::empty(),
    {
        TempStorage { map: MeteredOrdMap::new() }
    }
}

impl Clone for TempStorage {
    fn clone(&self) -> (r: TempStorage)
        ensures
            r@ == self@,
    {
        TempStorage { map: self.map.clone() }
    }
}

} // verus!

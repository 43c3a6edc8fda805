use vstd::laws_cmp::obeys_cmp;
use vstd::prelude::*;

use std::collections::BTreeMap;

use crate::budget::{metered, Budget};
use crate::error::HostError;

verus! {

/// An ordered map whose every lookup, insertion and removal is charged one
/// unit to a [`Budget`]. Insertion and removal leave `self` as it was and
/// hand back the new version of the map.
pub struct MeteredOrdMap<K, V> {
    map: BTreeMap<K, V>,
}

impl<K, V> View for MeteredOrdMap<K, V> {
    type V = Map<K, V>;

    closed spec fn view(&self) -> Map<K, V> {
        self.map@
    }
}

impl<K: Ord + Clone, V: Clone> MeteredOrdMap<K, V> {
    /// An empty map.
    pub fn new() -> (r: Self)
        ensures
            r@ == Map::<K, V>::empty(),
    {
        MeteredOrdMap { map: BTreeMap::new() }
    }

    /// Wraps an existing map, charging one unit per entry.
    pub fn from_map(map: BTreeMap<K, V>, budget: &mut Budget) -> (r: Result<Self, HostError>)
        requires
            obeys_cmp::<K>(),
        ensures
            old(budget).can_afford(map@.len()) ==> r is Ok && r.unwrap()@ == map@ && *final(budget)
                == old(budget).charged(map@.len()),
            !old(budget).can_afford(map@.len()) ==> r == Err::<Self, HostError>(
                HostError::BudgetExceeded,
            ) && *final(budget) == *old(budget),
    {
        let n = map.len() as u64;
        budget.charge(n)?;
        Ok(MeteredOrdMap { map })
    }

    /// The number of entries.
    pub fn len(&self) -> (r: usize)
        requires
            obeys_cmp::<K>(),
        ensures
            r == self@.len(),
    {
        self.map.len()
    }

    /// Looks `key` up.
    pub fn get(&self, key: &K, budget: &mut Budget) -> (r: Result<Option<&V>, HostError>)
        requires
            obeys_cmp::<K>(),
        ensures
            *final(budget) == old(budget).charged(1),
            old(budget).can_afford(1) ==> r == Ok::<Option<&V>, HostError>(
                if self@.contains_key(*key) { Some(&self@[*key]) } else { None },
            ),
            !old(budget).can_afford(1) ==> r == Err::<Option<&V>, HostError>(
                HostError::BudgetExceeded,
            ),
    {
        budget.charge_unit()?;
        Ok(self.map.get(key))
    }

    /// Whether `key` has an entry.
    pub fn contains_key(&self, key: &K, budget: &mut Budget) -> (r: Result<bool, HostError>)
        requires
            obeys_cmp::<K>(),
        ensures
            *final(budget) == old(budget).charged(1),
            r == metered(*old(budget), 1, Ok(self@.contains_key(*key))),
    {
        budget.charge_unit()?;
        Ok(self.map.contains_key(key))
    }

    /// The map with `key` bound to `val`.
    pub fn insert(&self, key: K, val: V, budget: &mut Budget) -> (r: Result<Self, HostError>)
        requires
            obeys_cmp::<K>(),
        ensures
            *final(budget) == old(budget).charged(1),
            old(budget).can_afford(1) ==> r is Ok && r.unwrap()@ == self@.insert(key, val),
            !old(budget).can_afford(1) ==> r == Err::<Self, HostError>(HostError::BudgetExceeded),
    {
        budget.charge_unit()?;
        let mut map = self.map.clone();
        map.insert(key, val);
        Ok(MeteredOrdMap { map })
    }

    /// The map without `key`, with the value it held, or `None` if `key`
    /// has no entry.
    pub fn remove(&self, key: &K, budget: &mut Budget) -> (r: Result<Option<(Self, V)>, HostError>)
        requires
            obeys_cmp::<K>(),
        ensures
            *final(budget) == old(budget).charged(1),
            old(budget).can_afford(1) && self@.contains_key(*key) ==> r is Ok && r.unwrap() is Some
                && r.unwrap().unwrap().0@ == self@.remove(*key) && r.unwrap().unwrap().1
                == self@[*key],
            old(budget).can_afford(1) && !self@.contains_key(*key) ==> r is Ok && r.unwrap() is None,
            !old(budget).can_afford(1) ==> r == Err::<Option<(Self, V)>, HostError>(
                HostError::BudgetExceeded,
            ),
    {
        budget.charge_unit()?;
        let mut map = self.map.clone();
        match map.remove(key) {
            Some(v) => Ok(Some((MeteredOrdMap { map }, v))),
            None => Ok(None),
        }
    }
}

impl<K: Ord + Clone, V: Clone> Default for MeteredOrdMap<K, V> {
    fn default() -> (r: Self)
        ensures
            r@ == Map::<K, V>::empty(),
    {
        MeteredOrdMap::new()
    }
}

impl<K: Clone, V: Clone> Clone for MeteredOrdMap<K, V> {
    fn clone(&self) -> (r: Self)
        ensures
            r@ == self@,
    {
        MeteredOrdMap { map: self.map.clone() }
    }
}

} // verus!

use std::collections::BTreeMap;

use soroban_storage::budget::Budget;
use soroban_storage::error::HostError;
use soroban_storage::footprint::{AccessType, Footprint, LedgerKey};
use soroban_storage::metered_map::MeteredOrdMap;

#[test]
fn footprint_record_access() -> Result<(), HostError> {
    let mut budget = Budget::default();
    budget.reset_unlimited();
    let mut fp = Footprint::default();
    // record when key not exist
    let key: LedgerKey = 0;
    fp.record_access(&key, AccessType::ReadOnly, &mut budget)?;
    assert_eq!(fp.0.contains_key(&key, &mut budget)?, true);
    assert_eq!(fp.0.get(&key, &mut budget)?, Some(&AccessType::ReadOnly));
    // record and change access
    fp.record_access(&key, AccessType::ReadWrite, &mut budget)?;
    assert_eq!(fp.0.get(&key, &mut budget)?, Some(&AccessType::ReadWrite));
    fp.record_access(&key, AccessType::ReadOnly, &mut budget)?;
    assert_eq!(fp.0.get(&key, &mut budget)?, Some(&AccessType::ReadWrite));
    Ok(())
}

#[test]
fn footprint_enforce_access() -> Result<(), HostError> {
    let mut budget = Budget::default();
    let key: LedgerKey = 0;
    let om: BTreeMap<LedgerKey, AccessType> = [(key, AccessType::ReadOnly)].into();
    let mom = MeteredOrdMap::from_map(om, &mut budget)?;
    let mut fp = Footprint(mom);
    fp.enforce_access(&key, AccessType::ReadOnly, &mut budget)?;
    fp.0 = fp.0.insert(key, AccessType::ReadWrite, &mut budget)?;
    fp.enforce_access(&key, AccessType::ReadOnly, &mut budget)?;
    fp.enforce_access(&key, AccessType::ReadWrite, &mut budget)?;
    Ok(())
}

#[test]
fn footprint_enforce_access_not_exist() -> Result<(), HostError> {
    let mut budget = Budget::default();
    let mut fp = Footprint::default();
    let key: LedgerKey = 0;
    let res = fp.enforce_access(&key, AccessType::ReadOnly, &mut budget);
    assert_eq!(res, Err(HostError::AccessToUnknownEntry));
    Ok(())
}

#[test]
fn footprint_attempt_to_write_readonly_entry() -> Result<(), HostError> {
    let mut budget = Budget::default();
    let key: LedgerKey = 0;
    let om: BTreeMap<LedgerKey, AccessType> = [(key, AccessType::ReadOnly)].into();
    let mom = MeteredOrdMap::from_map(om, &mut budget)?;
    let mut fp = Footprint(mom);
    let res = fp.enforce_access(&key, AccessType::ReadWrite, &mut budget);
    assert_eq!(res, Err(HostError::ReadwriteAccessToReadonlyEntry));
    Ok(())
}

#[test]
fn record_read_write_survives_many_reads() {
    let mut budget = Budget::default();
    let mut fp = Footprint::default();
    fp.record_access(&7, AccessType::ReadWrite, &mut budget).unwrap();
    for _ in 0..5 {
        fp.record_access(&7, AccessType::ReadOnly, &mut budget).unwrap();
        fp.record_access(&8, AccessType::ReadOnly, &mut budget).unwrap();
    }
    assert_eq!(fp.0.get(&7, &mut budget).unwrap(), Some(&AccessType::ReadWrite));
    assert_eq!(fp.0.get(&8, &mut budget).unwrap(), Some(&AccessType::ReadOnly));
    assert_eq!(fp.0.len(), 2);
}

#[test]
fn enforce_read_write_entry_allows_both() {
    let mut budget = Budget::default();
    let om: BTreeMap<LedgerKey, AccessType> = [(3, AccessType::ReadWrite)].into();
    let mut fp = Footprint(MeteredOrdMap::from_map(om, &mut budget).unwrap());
    assert_eq!(fp.enforce_access(&3, AccessType::ReadOnly, &mut budget), Ok(()));
    assert_eq!(fp.enforce_access(&3, AccessType::ReadWrite, &mut budget), Ok(()));
    assert_eq!(
        fp.enforce_access(&4, AccessType::ReadWrite, &mut budget),
        Err(HostError::AccessToUnknownEntry)
    );
}

#[test]
fn record_charges_lookup_and_insert() {
    let mut budget = Budget::new(10);
    let mut fp = Footprint::default();
    // absent key: a lookup and an insertion
    fp.record_access(&1, AccessType::ReadOnly, &mut budget).unwrap();
    assert_eq!(budget.consumed, 2);
    // no change: a lookup only
    fp.record_access(&1, AccessType::ReadOnly, &mut budget).unwrap();
    assert_eq!(budget.consumed, 3);
    // upgrade: a lookup and an insertion
    fp.record_access(&1, AccessType::ReadWrite, &mut budget).unwrap();
    assert_eq!(budget.consumed, 5);
    assert_eq!(budget.remaining(), 5);
}

#[test]
fn record_fails_when_budget_runs_out() {
    let mut budget = Budget::new(1);
    let mut fp = Footprint::default();
    let res = fp.record_access(&1, AccessType::ReadOnly, &mut budget);
    assert_eq!(res, Err(HostError::BudgetExceeded));
    assert_eq!(budget.consumed, 1);
    let mut unlimited = Budget::default();
    assert_eq!(fp.0.contains_key(&1, &mut unlimited), Ok(false));
}

#[test]
fn enforce_fails_on_exhausted_budget() {
    let mut budget = Budget::new(0);
    let mut fp = Footprint::default();
    let res = fp.enforce_access(&1, AccessType::ReadOnly, &mut budget);
    assert_eq!(res, Err(HostError::BudgetExceeded));
    assert_eq!(budget.consumed, 0);
}

#[test]
fn budget_charge_and_reset() {
    let mut budget = Budget::new(5);
    assert_eq!(budget.charge(3), Ok(()));
    assert_eq!(budget.charge(3), Err(HostError::BudgetExceeded));
    assert_eq!(budget.consumed, 3);
    assert_eq!(budget.charge_unit(), Ok(()));
    assert_eq!(budget.remaining(), 1);
    budget.reset_unlimited();
    assert_eq!(budget.limit, u64::MAX);
    assert_eq!(budget.consumed, 0);
}

#[test]
fn metered_map_versions_are_independent() {
    let mut budget = Budget::default();
    let m0: MeteredOrdMap<u64, u64> = MeteredOrdMap::new();
    let m1 = m0.insert(1, 10, &mut budget).unwrap();
    let m2 = m1.insert(2, 20, &mut budget).unwrap();
    assert_eq!(m0.len(), 0);
    assert_eq!(m1.len(), 1);
    assert_eq!(m2.len(), 2);
    assert_eq!(m2.get(&1, &mut budget).unwrap(), Some(&10));
    let (m3, v) = m2.remove(&1, &mut budget).unwrap().unwrap();
    assert_eq!(v, 10);
    assert_eq!(m3.get(&1, &mut budget).unwrap(), None);
    assert_eq!(m2.get(&1, &mut budget).unwrap(), Some(&10));
    assert!(m3.remove(&1, &mut budget).unwrap().is_none());
    assert_eq!(budget.consumed, 7);
}

#[test]
fn metered_map_from_map_charges_per_entry() {
    let om: BTreeMap<u64, u64> = [(1, 1), (2, 2), (3, 3)].into();
    let mut small = Budget::new(2);
    assert!(MeteredOrdMap::from_map(om.clone(), &mut small).is_err());
    assert_eq!(small.consumed, 0);
    let mut budget = Budget::new(3);
    let m = MeteredOrdMap::from_map(om, &mut budget).unwrap();
    assert_eq!(m.len(), 3);
    assert_eq!(budget.consumed, 3);
}

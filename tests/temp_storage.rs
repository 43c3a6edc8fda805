use soroban_storage::budget::Budget;
use soroban_storage::error::HostError;
use soroban_storage::temp_storage::TempStorage;

#[test]
fn temp_round_trip() {
    let mut budget = Budget::default();
    let mut ts = TempStorage::default();
    ts.put(1, 7, 70, &mut budget).unwrap();
    assert_eq!(ts.get(1, 7, &mut budget), Ok(70));
    assert_eq!(ts.has(1, 7, &mut budget), Ok(true));
    ts.del(1, 7, &mut budget).unwrap();
    assert_eq!(ts.get(1, 7, &mut budget), Err(HostError::MissingKeyInGet));
    assert_eq!(ts.has(1, 7, &mut budget), Ok(false));
}

#[test]
fn temp_namespaces_are_separate() {
    let mut budget = Budget::default();
    let mut ts = TempStorage::default();
    ts.put(1, 7, 70, &mut budget).unwrap();
    ts.put(2, 7, 80, &mut budget).unwrap();
    assert_eq!(ts.get(1, 7, &mut budget), Ok(70));
    assert_eq!(ts.get(2, 7, &mut budget), Ok(80));
    ts.put(1, 7, 71, &mut budget).unwrap();
    assert_eq!(ts.get(1, 7, &mut budget), Ok(71));
    ts.del(2, 7, &mut budget).unwrap();
    assert_eq!(ts.get(1, 7, &mut budget), Ok(71));
    assert_eq!(ts.has(2, 7, &mut budget), Ok(false));
}

#[test]
fn temp_del_of_absent_key_is_noop() {
    let mut budget = Budget::default();
    let mut ts = TempStorage::default();
    assert_eq!(ts.del(3, 3, &mut budget), Ok(()));
    assert_eq!(ts.has(3, 3, &mut budget), Ok(false));
    assert_eq!(ts.get(3, 3, &mut budget), Err(HostError::MissingKeyInGet));
}

#[test]
fn temp_operations_are_metered() {
    let mut budget = Budget::new(2);
    let mut ts = TempStorage::default();
    ts.put(1, 1, 1, &mut budget).unwrap();
    assert_eq!(ts.get(1, 1, &mut budget), Ok(1));
    assert_eq!(ts.has(1, 1, &mut budget), Err(HostError::BudgetExceeded));
    assert_eq!(ts.put(1, 2, 2, &mut budget), Err(HostError::BudgetExceeded));
    assert_eq!(budget.consumed, 2);
}

use finance_cache::cache::CacheError;
use finance_cache::finance::FinanceCache;

#[test]
fn test_it_caches_account_balance() {
    let mut cache: FinanceCache<f32> = FinanceCache::new();
    cache.set_account_balance(1, 1000.00);

    assert_eq!(Some(1000.00), cache.get_account_balance(&1))
}

#[test]
fn test_it_gets_empty_account_balance() {
    let mut cache: FinanceCache<f32> = FinanceCache::new();

    assert_eq!(None, cache.get_account_balance(&1))
}

#[test]
fn test_it_invalidates_account_balance() {
    let mut cache: FinanceCache<f32> = FinanceCache::new();
    cache.set_account_balance(1, 1000.00);

    let _ = cache.invalidate_account_balance(&1);

    assert_eq!(None, cache.get_account_balance(&1))
}

#[test]
fn test_it_errors_on_invalidation_when_incorrect_account_id() {
    let mut cache: FinanceCache<f32> = FinanceCache::new();

    let result = cache.invalidate_account_balance(&1);

    assert!(result.is_err());
    assert_eq!(result.unwrap_err(), CacheError::NotFound { key: 1 });
}

#[test]
fn test_it_caches_user_outstanding_loans() {
    let mut cache: FinanceCache<f32> = FinanceCache::new();
    cache.set_user_outstanding_loans(1, 5000.00);

    assert_eq!(Some(5000.00), cache.get_user_outstanding_loans(&1))
}

#[test]
fn test_it_gets_empty_user_outstanding_loans() {
    let mut cache: FinanceCache<f32> = FinanceCache::new();

    assert_eq!(None, cache.get_user_outstanding_loans(&1))
}

#[test]
fn test_it_invalidates_user_outstanding_loans() {
    let mut cache: FinanceCache<f32> = FinanceCache::new();
    cache.set_user_outstanding_loans(1, 5000.00);

    let _ = cache.invalidate_user_outstanding_loans(&1);

    assert_eq!(None, cache.get_user_outstanding_loans(&1))
}

#[test]
fn test_it_errors_on_invalidation_when_incorrect_user_id() {
    let mut cache: FinanceCache<f32> = FinanceCache::new();

    let result = cache.invalidate_user_outstanding_loans(&1);

    assert!(result.is_err());
    assert_eq!(result.unwrap_err(), CacheError::NotFound { key: 1 });
}

#[test]
fn test_account_balance_set_get_invalidate_cycle() {
    let mut cache: FinanceCache<f32> = FinanceCache::new();
    cache.set_account_balance(1, 1000.00);
    assert_eq!(Some(1000.00), cache.get_account_balance(&1));

    assert_eq!(Ok(()), cache.invalidate_account_balance(&1));
    assert_eq!(None, cache.get_account_balance(&1));

    assert_eq!(
        Err(CacheError::NotFound { key: 1 }),
        cache.invalidate_account_balance(&1)
    );
}

#[test]
fn test_user_loans_set_get_invalidate_cycle() {
    let mut cache: FinanceCache<f32> = FinanceCache::new();
    cache.set_user_outstanding_loans(1, 5000.00);
    assert_eq!(Some(5000.00), cache.get_user_outstanding_loans(&1));

    assert_eq!(Ok(()), cache.invalidate_user_outstanding_loans(&1));
    assert_eq!(None, cache.get_user_outstanding_loans(&1));
}

#[test]
fn test_datasets_are_independent() {
    let mut cache: FinanceCache<f32> = FinanceCache::new();
    cache.set_account_balance(1, 250.00);

    assert_eq!(None, cache.get_user_outstanding_loans(&1));
    assert_eq!(Some(250.00), cache.get_account_balance(&1));

    cache.set_user_outstanding_loans(1, 75.00);
    let _ = cache.invalidate_user_outstanding_loans(&1);
    assert_eq!(Some(250.00), cache.get_account_balance(&1));
}

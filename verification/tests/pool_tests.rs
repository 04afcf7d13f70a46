use iso_catalog::pool::Governor;
use iso_catalog::pool::PermitPool;

#[test]
fn pool_grants_up_to_capacity_and_no_further() {
    let mut pool = PermitPool::new(2);
    assert!(pool.try_acquire());
    assert!(pool.try_acquire());
    assert!(!pool.try_acquire());
    pool.release();
    assert!(pool.try_acquire());
}

#[test]
fn zero_capacity_pool_grants_nothing() {
    let mut pool = PermitPool::new(0);
    assert!(!pool.try_acquire());
}

#[test]
fn governor_enforces_global_cap() {
    let mut governor = Governor::new(2, vec![]);
    let host = "mirror.example".to_string();
    let first = governor.try_admit(&host);
    assert!(first.is_some());
    let second = governor.try_admit(&host);
    assert!(second.is_some());
    assert!(governor.try_admit(&host).is_none());
    governor.release(first.unwrap());
    assert!(governor.try_admit(&host).is_some());
}

#[test]
fn governor_enforces_per_host_override_cap() {
    let mut governor = Governor::new(10, vec![("throttled.example".to_string(), 1)]);
    let throttled = "throttled.example".to_string();
    let other = "open.example".to_string();
    let permit = governor.try_admit(&throttled);
    assert!(permit.is_some());
    // The override pool is exhausted although the global pool is not.
    assert!(governor.try_admit(&throttled).is_none());
    // Other hosts only contend for the global pool.
    assert!(governor.try_admit(&other).is_some());
    governor.release(permit.unwrap());
    assert!(governor.try_admit(&throttled).is_some());
}

#[test]
fn refused_admission_leaves_the_governor_unchanged() {
    let mut governor = Governor::new(1, vec![("busy.example".to_string(), 5)]);
    let busy = "busy.example".to_string();
    let permit = governor.try_admit(&busy);
    assert!(permit.is_some());
    // Global pool exhausted: refusal must roll the host permit back.
    assert!(governor.try_admit(&busy).is_none());
    governor.release(permit.unwrap());
    // Both pools are free again.
    let again = governor.try_admit(&busy);
    assert!(again.is_some());
}

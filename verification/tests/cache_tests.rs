use std::cell::RefCell;
use std::rc::Rc;

use rank_proxy::cache::{CachedValue, TtlCache};
use rank_proxy::dtos::AccountDto;
use rank_proxy::error::RiotApiError;

fn account(puuid: &str) -> AccountDto {
    AccountDto {
        puuid: puuid.to_string(),
        game_name: "Faker".to_string(),
        tag_line: "KR1".to_string(),
    }
}

fn key(s: &str) -> String {
    s.to_string()
}

#[test]
fn probe_serves_fresh_value() {
    let mut c = TtlCache::new();
    let k = key("account:Faker#KR1");
    c.store(&k, CachedValue::Account(account("p-1")), 10, Some(5));
    let got = c.probe(&k, 14);
    assert_eq!(got, Some(CachedValue::Account(account("p-1"))));
}

#[test]
fn probe_returns_nothing_once_ttl_elapsed() {
    let mut c = TtlCache::new();
    let k = key("account:Faker#KR1");
    c.store(&k, CachedValue::Account(account("p-1")), 10, Some(5));
    assert_eq!(c.probe(&k, 15), None);
    // the expired entry is left in place until overwritten, so an earlier
    // reading still sees it
    assert_eq!(c.probe(&k, 12), Some(CachedValue::Account(account("p-1"))));
}

#[test]
fn get_or_fetch_returns_cached_value_without_fetching() {
    let mut c = TtlCache::new();
    let k = key("account:Faker#KR1");
    let calls = Rc::new(RefCell::new(0u32));

    let c1 = Rc::clone(&calls);
    let r1 = c.get_or_fetch(&k, 1000, 0, move || {
        *c1.borrow_mut() += 1;
        Ok(CachedValue::Account(account("p-1")))
    });
    assert_eq!(r1, Ok(CachedValue::Account(account("p-1"))));
    assert_eq!(*calls.borrow(), 1);

    let c2 = Rc::clone(&calls);
    let r2 = c.get_or_fetch(&k, 1000, 999, move || {
        *c2.borrow_mut() += 1;
        Ok(CachedValue::Account(account("p-2")))
    });
    assert_eq!(r2, Ok(CachedValue::Account(account("p-1"))));
    assert_eq!(*calls.borrow(), 1);
}

#[test]
fn get_or_fetch_refetches_after_expiry() {
    let mut c = TtlCache::new();
    let k = key("league:puuid-1");
    let calls = Rc::new(RefCell::new(0u32));

    let c1 = Rc::clone(&calls);
    let _ = c.get_or_fetch(&k, 60, 0, move || {
        *c1.borrow_mut() += 1;
        Ok(CachedValue::Account(account("old")))
    });

    let c2 = Rc::clone(&calls);
    let r2 = c.get_or_fetch(&k, 60, 61, move || {
        *c2.borrow_mut() += 1;
        Ok(CachedValue::Account(account("new")))
    });
    assert_eq!(r2, Ok(CachedValue::Account(account("new"))));
    assert_eq!(*calls.borrow(), 2);

    // the refetch stamped a new insertion time, so the updated value is
    // served from the cache afterwards
    let c3 = Rc::clone(&calls);
    let r3 = c.get_or_fetch(&k, 60, 120, move || {
        *c3.borrow_mut() += 1;
        Ok(CachedValue::Account(account("newer")))
    });
    assert_eq!(r3, Ok(CachedValue::Account(account("new"))));
    assert_eq!(*calls.borrow(), 2);
}

#[test]
fn entry_without_ttl_is_never_served() {
    let mut c = TtlCache::new();
    let k = key("account:Faker#KR1");
    c.store(&k, CachedValue::Account(account("p-1")), 0, None);
    assert_eq!(c.probe(&k, 0), None);

    // the first read removed the entry, so a fetch must happen
    let calls = Rc::new(RefCell::new(0u32));
    let c1 = Rc::clone(&calls);
    let r = c.get_or_fetch(&k, 1000, 0, move || {
        *c1.borrow_mut() += 1;
        Ok(CachedValue::Account(account("p-2")))
    });
    assert_eq!(r, Ok(CachedValue::Account(account("p-2"))));
    assert_eq!(*calls.borrow(), 1);
}

#[test]
fn failed_fetch_writes_nothing() {
    let mut c = TtlCache::new();
    let k = key("account:Faker#KR1");
    let calls = Rc::new(RefCell::new(0u32));

    let c1 = Rc::clone(&calls);
    let r1 = c.get_or_fetch(&k, 1000, 0, move || {
        *c1.borrow_mut() += 1;
        Err(RiotApiError::Network)
    });
    assert_eq!(r1, Err(RiotApiError::Network));
    assert_eq!(*calls.borrow(), 1);

    // the failure was not cached: the next call fetches again
    let c2 = Rc::clone(&calls);
    let r2 = c.get_or_fetch(&k, 1000, 1, move || {
        *c2.borrow_mut() += 1;
        Ok(CachedValue::Account(account("p-1")))
    });
    assert_eq!(r2, Ok(CachedValue::Account(account("p-1"))));
    assert_eq!(*calls.borrow(), 2);
}

#[test]
fn operations_on_one_key_leave_other_keys_alone() {
    let mut c = TtlCache::new();
    let k1 = key("league:puuid-1");
    let k2 = key("league:puuid-2");
    c.store(&k1, CachedValue::Account(account("p-1")), 0, Some(60));

    // a miss, a failed fetch and an overwrite on k2, interleaved with reads
    // of k1
    assert_eq!(c.probe(&k2, 1), None);
    assert_eq!(c.probe(&k1, 1), Some(CachedValue::Account(account("p-1"))));
    let r = c.get_or_fetch(&k2, 60, 2, || Err(RiotApiError::Network));
    assert_eq!(r, Err(RiotApiError::Network));
    c.store(&k2, CachedValue::Account(account("p-2")), 3, Some(60));
    assert_eq!(c.probe(&k1, 4), Some(CachedValue::Account(account("p-1"))));
    assert_eq!(c.probe(&k2, 4), Some(CachedValue::Account(account("p-2"))));
}

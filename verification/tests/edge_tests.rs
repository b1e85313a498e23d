use rank_proxy::cache::{CachedValue, TtlCache};
use rank_proxy::dtos::AccountDto;

fn account(puuid: &str) -> AccountDto {
    AccountDto {
        puuid: puuid.to_string(),
        game_name: String::new(),
        tag_line: String::new(),
    }
}

#[test]
fn empty_key_and_empty_fields_are_ordinary_values() {
    let mut c = TtlCache::new();
    let k = String::new();
    assert_eq!(c.probe(&k, 0), None);
    c.store(&k, CachedValue::Account(account("")), 0, Some(10));
    assert_eq!(c.probe(&k, 9), Some(CachedValue::Account(account(""))));
    assert_eq!(c.probe(&k, 10), None);
}

#[test]
fn storing_the_same_key_twice_keeps_one_entry_last_writer_wins() {
    let mut c = TtlCache::new();
    let k = "k".to_string();
    c.store(&k, CachedValue::Account(account("first")), 0, Some(100));
    c.store(&k, CachedValue::Account(account("second")), 1, Some(100));
    assert_eq!(c.probe(&k, 2), Some(CachedValue::Account(account("second"))));
    // the overwrite also replaced the expiry bookkeeping: one entry, one
    // freshness window
    assert_eq!(c.probe(&k, 101), None);
}

#[test]
fn largest_timestamps_do_not_overflow() {
    let mut c = TtlCache::new();
    let k = "k".to_string();
    c.store(&k, CachedValue::Account(account("p")), u64::MAX - 1, Some(u64::MAX));
    assert_eq!(
        c.probe(&k, u64::MAX),
        Some(CachedValue::Account(account("p")))
    );

    // a reading taken before the insertion time counts as fresh
    let k2 = "k2".to_string();
    c.store(&k2, CachedValue::Account(account("q")), 100, Some(1));
    assert_eq!(c.probe(&k2, 99), Some(CachedValue::Account(account("q"))));
}

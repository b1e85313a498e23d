use std::cell::RefCell;
use std::rc::Rc;

use rank_proxy::client::RiotApi;
use rank_proxy::dtos::{AccountDto, LeagueEntryDto};
use rank_proxy::error::RiotApiError;
use rank_proxy::service::handle_get_rank;

fn faker() -> AccountDto {
    AccountDto {
        puuid: "puuid-faker".to_string(),
        game_name: "Faker".to_string(),
        tag_line: "KR1".to_string(),
    }
}

fn entry(points: i32) -> LeagueEntryDto {
    LeagueEntryDto {
        queue_type: "RANKED_SOLO_5x5".to_string(),
        tier: "CHALLENGER".to_string(),
        rank: "I".to_string(),
        league_points: points,
        wins: 700,
        losses: 300,
    }
}

#[test]
fn unrecognized_region_is_rejected_without_any_outbound_call() {
    let mut api = RiotApi::new("key".to_string(), "asia".to_string());
    let calls = Rc::new(RefCell::new(0u32));

    let ca = Rc::clone(&calls);
    let cl = Rc::clone(&calls);
    let r = handle_get_rank(
        &mut api,
        "zz9",
        "Faker",
        "KR1",
        0,
        move |_url| {
            *ca.borrow_mut() += 1;
            Ok(faker())
        },
        move |_url| {
            *cl.borrow_mut() += 1;
            Ok(vec![entry(100)])
        },
    );
    assert_eq!(r, Err((400, RiotApiError::InvalidRegion)));
    assert_eq!(*calls.borrow(), 0);
}

#[test]
fn upstream_404_maps_to_account_not_found() {
    let mut api = RiotApi::new("key".to_string(), "asia".to_string());
    let r = handle_get_rank(
        &mut api,
        "kr",
        "Nobody",
        "KR1",
        0,
        |_url| Err(RiotApiError::Status(404)),
        |_url| Ok(vec![entry(100)]),
    );
    // the account-not-found condition is distinguishable from a generic
    // status failure: it maps to 404, anything else to 400
    assert_eq!(r, Err((404, RiotApiError::Status(404))));
}

#[test]
fn other_account_failures_map_to_400() {
    let mut api = RiotApi::new("key".to_string(), "asia".to_string());
    let r = handle_get_rank(
        &mut api,
        "kr",
        "Faker",
        "KR1",
        0,
        |_url| Err(RiotApiError::Status(429)),
        |_url| Ok(vec![entry(100)]),
    );
    assert_eq!(r, Err((400, RiotApiError::Status(429))));

    let r2 = handle_get_rank(
        &mut api,
        "kr",
        "Faker",
        "KR1",
        1,
        |_url| Err(RiotApiError::Network),
        |_url| Ok(vec![entry(100)]),
    );
    assert_eq!(r2, Err((400, RiotApiError::Network)));
}

#[test]
fn league_failure_for_resolved_account_maps_to_500() {
    let mut api = RiotApi::new("key".to_string(), "asia".to_string());
    let r = handle_get_rank(
        &mut api,
        "kr",
        "Faker",
        "KR1",
        0,
        |_url| Ok(faker()),
        |_url| Err(RiotApiError::Serde),
    );
    assert_eq!(r, Err((500, RiotApiError::Serde)));
}

#[test]
fn successful_lookup_returns_entries() {
    let mut api = RiotApi::new("key".to_string(), "asia".to_string());
    let seen_league_url = Rc::new(RefCell::new(String::new()));
    let s = Rc::clone(&seen_league_url);
    let r = handle_get_rank(
        &mut api,
        "KR",
        "Faker",
        "KR1",
        0,
        |_url| Ok(faker()),
        move |url| {
            *s.borrow_mut() = url;
            Ok(vec![entry(100)])
        },
    );
    assert_eq!(r, Ok(vec![entry(100)]));
    // the region code is matched without regard to case, and the league
    // lookup goes to the platform host of the resolved account's puuid
    assert_eq!(
        *seen_league_url.borrow(),
        "https://kr.api.riotgames.com/lol/league/v4/entries/by-puuid/puuid-faker"
    );
}

#[test]
fn repeated_query_is_served_from_the_cache() {
    let mut api = RiotApi::new("key".to_string(), "asia".to_string());
    let calls = Rc::new(RefCell::new(0u32));

    for t in [0u64, 30u64] {
        let ca = Rc::clone(&calls);
        let cl = Rc::clone(&calls);
        let r = handle_get_rank(
            &mut api,
            "kr",
            "Faker",
            "KR1",
            t,
            move |_url| {
                *ca.borrow_mut() += 1;
                Ok(faker())
            },
            move |_url| {
                *cl.borrow_mut() += 1;
                Ok(vec![entry(100)])
            },
        );
        assert_eq!(r, Ok(vec![entry(100)]));
    }
    // one account fetch and one league fetch in total
    assert_eq!(*calls.borrow(), 2);
}

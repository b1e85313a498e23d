use rank_proxy::error::RiotApiError;
use rank_proxy::region::{
    platform_host, regional_host, string_to_platform, string_to_regional, PlatformRoute,
    RegionalRoute,
};

#[test]
fn recognized_platform_codes_resolve() {
    assert_eq!(string_to_platform("br1"), Some(PlatformRoute::BR1));
    assert_eq!(string_to_platform("eun1"), Some(PlatformRoute::EUN1));
    assert_eq!(string_to_platform("euw1"), Some(PlatformRoute::EUW1));
    assert_eq!(string_to_platform("jp1"), Some(PlatformRoute::JP1));
    assert_eq!(string_to_platform("kr"), Some(PlatformRoute::KR));
    assert_eq!(string_to_platform("la1"), Some(PlatformRoute::LA1));
    assert_eq!(string_to_platform("la2"), Some(PlatformRoute::LA2));
    assert_eq!(string_to_platform("na1"), Some(PlatformRoute::NA1));
    assert_eq!(string_to_platform("oc1"), Some(PlatformRoute::OC1));
    assert_eq!(string_to_platform("tr1"), Some(PlatformRoute::TR1));
    assert_eq!(string_to_platform("ru"), Some(PlatformRoute::RU));
}

#[test]
fn platform_codes_match_without_regard_to_case() {
    assert_eq!(string_to_platform("EUW1"), Some(PlatformRoute::EUW1));
    assert_eq!(string_to_platform("Kr"), Some(PlatformRoute::KR));
    assert_eq!(string_to_platform("nA1"), Some(PlatformRoute::NA1));
}

#[test]
fn unrecognized_platform_codes_are_rejected() {
    assert_eq!(string_to_platform("zz9"), None);
    assert_eq!(string_to_platform(""), None);
    assert_eq!(string_to_platform("europe"), None);
    assert_eq!(string_to_platform("kr "), None);
}

#[test]
fn platform_hosts_are_the_lowercase_codes() {
    assert_eq!(platform_host(PlatformRoute::EUW1), "euw1");
    assert_eq!(platform_host(PlatformRoute::KR), "kr");
    assert_eq!(platform_host(PlatformRoute::RU), "ru");
}

#[test]
fn regional_codes_resolve_exactly() {
    assert_eq!(string_to_regional("europe"), Some(RegionalRoute::EUROPE));
    assert_eq!(string_to_regional("americas"), Some(RegionalRoute::AMERICAS));
    assert_eq!(string_to_regional("asia"), Some(RegionalRoute::ASIA));
    assert_eq!(string_to_regional("sea"), Some(RegionalRoute::SEA));
    assert_eq!(string_to_regional("Europe"), None);
    assert_eq!(string_to_regional("emea"), None);
    assert_eq!(regional_host(RegionalRoute::EUROPE), "europe");
    assert_eq!(regional_host(RegionalRoute::SEA), "sea");
}

#[test]
fn error_kinds_have_fixed_messages() {
    assert_eq!(RiotApiError::Network.kind_message(), "network error");
    assert_eq!(RiotApiError::Serde.kind_message(), "json parse error");
    assert_eq!(
        RiotApiError::Status(503).kind_message(),
        "riot api returned non-success status"
    );
    assert_eq!(RiotApiError::InvalidRegion.kind_message(), "invalid region");
}

#[test]
fn cloned_payloads_equal_their_originals() {
    let a = rank_proxy::dtos::AccountDto {
        puuid: "p".to_string(),
        game_name: "g".to_string(),
        tag_line: "t".to_string(),
    };
    assert_eq!(a.clone(), a);

    let e = rank_proxy::dtos::LeagueEntryDto {
        queue_type: "RANKED_SOLO_5x5".to_string(),
        tier: "GOLD".to_string(),
        rank: "IV".to_string(),
        league_points: 42,
        wins: 10,
        losses: 20,
    };
    assert_eq!(e.clone(), e);
}

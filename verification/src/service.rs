//! The rank-request handler: the decision core behind the proxy's one
//! inbound route.
//!
//! Given a platform code, a game name and a tag line, the handler validates
//! the region, resolves the account through the cache, fetches the player's
//! league entries through the cache, and maps every failure onto the HTTP
//! status the route answers with: an unrecognized region or a failed account
//! resolution is the caller's fault (400), an account the upstream cannot
//! find is 404, and a failed rank lookup for a resolved account is 500.

use vstd::prelude::*;

use crate::client::{account_step, league_step, spec_account_url, spec_league_url, RiotApi};
use crate::dtos::{AccountDto, LeagueEntryDto};
use crate::error::RiotApiError;
use crate::region::{platform_host, spec_platform_host, spec_platform_of, string_to_platform};

verus! {

/// The HTTP status a failed account resolution maps to: 404 when the
/// upstream explicitly reported no matching account, 400 for every other
/// failure.
pub open spec fn spec_account_status(e: RiotApiError) -> u16 {
    if e == RiotApiError::Status(404u16) {
        404u16
    } else {
        400u16
    }
}

/// Handle one `GET /rank/{region}/{game_name}/{tag_line}` request.
///
/// `fetch_account` and `fetch_league` perform the outbound HTTP GETs; each
/// receives the request URL and returns the decoded body or a classified
/// failure. An unrecognized region is rejected before either is touched.
pub fn handle_get_rank<FA, FL>(
    api: &mut RiotApi,
    region: &str,
    game_name: &str,
    tag_line: &str,
    now: u64,
    fetch_account: FA,
    fetch_league: FL,
) -> (r: Result<Vec<LeagueEntryDto>, (u16, RiotApiError)>) where
    FA: FnOnce(String) -> Result<AccountDto, RiotApiError>,
    FL: FnOnce(String) -> Result<Vec<LeagueEntryDto>, RiotApiError>,

    requires
        old(api).cache.wf(),
        forall|u: String| call_requires(fetch_account, (u,)),
        forall|u: String| call_requires(fetch_league, (u,)),
    ensures
        final(api).cache.wf(),
        final(api).api_key == old(api).api_key,
        final(api).proxy_region == old(api).proxy_region,
        spec_platform_of(region@) is None ==> ({
            &&& r == Err::<Vec<LeagueEntryDto>, (u16, RiotApiError)>(
                (400u16, RiotApiError::InvalidRegion),
            )
            &&& forall|k: Seq<char>| final(api).cache.entry_at(k) == old(api).cache.entry_at(k)
        }),
        spec_platform_of(region@) matches Some(p) ==> exists|
            mid: crate::cache::TtlCache,
            ar: Result<AccountDto, RiotApiError>,
        |
            {
                &&& mid.wf()
                &&& #[trigger] account_step(
                    fetch_account,
                    old(api).cache,
                    mid,
                    spec_account_url(old(api).proxy_region@, game_name@, tag_line@),
                    now,
                    ar,
                )
                &&& match ar {
                    Err(e) => r == Err::<Vec<LeagueEntryDto>, (u16, RiotApiError)>(
                        (spec_account_status(e), e),
                    ) && forall|k: Seq<char>| final(api).cache.entry_at(k) == mid.entry_at(k),
                    Ok(a) => exists|lr: Result<Vec<LeagueEntryDto>, RiotApiError>|
                        {
                            &&& #[trigger] league_step(
                                fetch_league,
                                mid,
                                final(api).cache,
                                spec_league_url(spec_platform_host(p), a.puuid@),
                                now,
                                lr,
                            )
                            &&& match lr {
                                Ok(es) => r == Ok::<Vec<LeagueEntryDto>, (u16, RiotApiError)>(es),
                                Err(e) => r == Err::<Vec<LeagueEntryDto>, (u16, RiotApiError)>(
                                    (500u16, e),
                                ),
                            }
                        },
                }
            },
{
    let platform = match string_to_platform(region) {
        Some(p) => p,
        None => {
            return Err((400, RiotApiError::InvalidRegion));
        },
    };
    let ar = api.get_account(game_name, tag_line, now, fetch_account);
    let ghost mid = api.cache;
    match ar {
        Err(e) => {
            let status: u16 = match e {
                RiotApiError::Status(404u16) => 404,
                _ => 400,
            };
            Err((status, e))
        },
        Ok(a) => {
            let host = platform_host(platform);
            let lr = api.get_league(host, a.puuid.as_str(), now, fetch_league);
            match lr {
                Ok(es) => Ok(es),
                Err(e) => Err((500, e)),
            }
        },
    }
}

} // verus!

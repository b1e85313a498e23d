//! The upstream client state: credential, proxy region, and the TTL cache.
//!
//! Each operation builds a deterministic request URL from its inputs, serves
//! a fresh cached response when one exists, and otherwise hands the URL to a
//! caller-supplied fetch function — the only place where network I/O happens.
//! A successful fetch is stored under the URL with the operation's TTL; a
//! failure is propagated unchanged and never cached.

use vstd::prelude::*;

use crate::cache::{spec_after_probe, CachedValue, CachedValueV, EntryV, TtlCache};
use crate::dtos::{AccountDto, LeagueEntryDto, MatchDto};
use crate::error::RiotApiError;

verus! {

/// Account resolutions are effectively static: cached for ~1000 s.
pub const ACCOUNT_TTL_SECS: u64 = 1000;

/// League entries change after every game: cached for 60 s.
pub const LEAGUE_TTL_SECS: u64 = 60;

/// Match records are immutable but bulky: cached for 600 s.
pub const MATCH_TTL_SECS: u64 = 600;

/// The request URL of an account resolution.
pub open spec fn spec_account_url(region: Seq<char>, name: Seq<char>, tag: Seq<char>) -> Seq<
    char,
> {
    "https://"@ + region + ".api.riotgames.com/riot/account/v1/accounts/by-riot-id/"@ + name + "/"@
        + tag
}

/// The request URL of a league-entries lookup.
pub open spec fn spec_league_url(host: Seq<char>, puuid: Seq<char>) -> Seq<char> {
    "https://"@ + host + ".api.riotgames.com/lol/league/v4/entries/by-puuid/"@ + puuid
}

/// The request URL of a match lookup.
pub open spec fn spec_match_url(host: Seq<char>, match_id: Seq<char>) -> Seq<char> {
    "https://"@ + host + ".api.riotgames.com/lol/match/v5/matches/"@ + match_id
}

/// The URL of a league-entries lookup on a platform host.
pub fn league_url(game_region: &str, puuid: &str) -> (r: String)
    ensures
        r@ == spec_league_url(game_region@, puuid@),
{
    let mut u = String::new();
    u.append("https://");
    u.append(game_region);
    u.append(".api.riotgames.com/lol/league/v4/entries/by-puuid/");
    u.append(puuid);
    proof {
        assert(u@ =~= spec_league_url(game_region@, puuid@));
    }
    u
}

/// The URL of a match lookup on a platform host.
pub fn match_url(game_region: &str, match_id: &str) -> (r: String)
    ensures
        r@ == spec_match_url(game_region@, match_id@),
{
    let mut u = String::new();
    u.append("https://");
    u.append(game_region);
    u.append(".api.riotgames.com/lol/match/v5/matches/");
    u.append(match_id);
    proof {
        assert(u@ =~= spec_match_url(game_region@, match_id@));
    }
    u
}

/// How one account lookup relates the cache before and after, the fetch
/// function, and the returned result: a fresh cached account is served
/// as-is; anything else invokes the fetch on the account URL, stores a
/// success under that URL for [`ACCOUNT_TTL_SECS`], and propagates a failure
/// without writing.
pub open spec fn account_step<F: FnOnce(String) -> Result<AccountDto, RiotApiError>>(
    f: F,
    pre: TtlCache,
    post: TtlCache,
    k: Seq<char>,
    now: u64,
    r: Result<AccountDto, RiotApiError>,
) -> bool {
    match pre.serves(k, now) {
        Some(CachedValueV::Account(a)) => {
            &&& r matches Ok(ra) && ra.deep_view() == a
            &&& forall|k2: Seq<char>| post.entry_at(k2) == pre.entry_at(k2)
        },
        _ => exists|u: String, fr: Result<AccountDto, RiotApiError>|
            {
                &&& u@ == k
                &&& #[trigger] call_ensures(f, (u,), fr)
                &&& match fr {
                    Ok(a) => r matches Ok(ra) && ra.deep_view() == a.deep_view()
                        && post.entry_at(k) == Some(
                        EntryV {
                            value: CachedValueV::Account(a.deep_view()),
                            inserted_at: now,
                            ttl: Some(ACCOUNT_TTL_SECS),
                        },
                    ),
                    Err(e) => r == Err::<AccountDto, RiotApiError>(e) && post.entry_at(k)
                        == spec_after_probe(pre.entry_at(k)),
                }
                &&& forall|k2: Seq<char>| k2 != k ==> post.entry_at(k2) == pre.entry_at(k2)
            },
    }
}

/// Like [`account_step`], for league entries under [`LEAGUE_TTL_SECS`].
pub open spec fn league_step<F: FnOnce(String) -> Result<Vec<LeagueEntryDto>, RiotApiError>>(
    f: F,
    pre: TtlCache,
    post: TtlCache,
    k: Seq<char>,
    now: u64,
    r: Result<Vec<LeagueEntryDto>, RiotApiError>,
) -> bool {
    match pre.serves(k, now) {
        Some(CachedValueV::League(es)) => {
            &&& r matches Ok(re) && re.deep_view() == es
            &&& forall|k2: Seq<char>| post.entry_at(k2) == pre.entry_at(k2)
        },
        _ => exists|u: String, fr: Result<Vec<LeagueEntryDto>, RiotApiError>|
            {
                &&& u@ == k
                &&& #[trigger] call_ensures(f, (u,), fr)
                &&& match fr {
                    Ok(es) => r matches Ok(re) && re.deep_view() == es.deep_view()
                        && post.entry_at(k) == Some(
                        EntryV {
                            value: CachedValueV::League(es.deep_view()),
                            inserted_at: now,
                            ttl: Some(LEAGUE_TTL_SECS),
                        },
                    ),
                    Err(e) => r == Err::<Vec<LeagueEntryDto>, RiotApiError>(e) && post.entry_at(k)
                        == spec_after_probe(pre.entry_at(k)),
                }
                &&& forall|k2: Seq<char>| k2 != k ==> post.entry_at(k2) == pre.entry_at(k2)
            },
    }
}

/// Like [`account_step`], for match records under [`MATCH_TTL_SECS`].
pub open spec fn match_step<F: FnOnce(String) -> Result<MatchDto, RiotApiError>>(
    f: F,
    pre: TtlCache,
    post: TtlCache,
    k: Seq<char>,
    now: u64,
    r: Result<MatchDto, RiotApiError>,
) -> bool {
    match pre.serves(k, now) {
        Some(CachedValueV::Match(m)) => {
            &&& r matches Ok(rm) && rm.deep_view() == m
            &&& forall|k2: Seq<char>| post.entry_at(k2) == pre.entry_at(k2)
        },
        _ => exists|u: String, fr: Result<MatchDto, RiotApiError>|
            {
                &&& u@ == k
                &&& #[trigger] call_ensures(f, (u,), fr)
                &&& match fr {
                    Ok(m) => r matches Ok(rm) && rm.deep_view() == m.deep_view()
                        && post.entry_at(k) == Some(
                        EntryV {
                            value: CachedValueV::Match(m.deep_view()),
                            inserted_at: now,
                            ttl: Some(MATCH_TTL_SECS),
                        },
                    ),
                    Err(e) => r == Err::<MatchDto, RiotApiError>(e) && post.entry_at(k)
                        == spec_after_probe(pre.entry_at(k)),
                }
                &&& forall|k2: Seq<char>| k2 != k ==> post.entry_at(k2) == pre.entry_at(k2)
            },
    }
}

/// The client state: a static credential, the regional host used for account
/// resolution, and the response cache.
pub struct RiotApi {
    pub api_key: String,
    pub proxy_region: String,
    pub cache: TtlCache,
}

impl RiotApi {
    /// A fresh client with an empty cache.
    pub fn new(api_key: String, proxy_region: String) -> (r: Self)
        ensures
            r.api_key == api_key,
            r.proxy_region == proxy_region,
            r.cache.wf(),
            forall|k: Seq<char>| r.cache.entry_at(k) is None,
    {
        RiotApi { api_key, proxy_region, cache: TtlCache::new() }
    }

    /// The URL of an account resolution through this client's proxy region.
    pub fn account_url(&self, game_name: &str, tag_line: &str) -> (r: String)
        ensures
            r@ == spec_account_url(self.proxy_region@, game_name@, tag_line@),
    {
        let mut u = String::new();
        u.append("https://");
        u.append(self.proxy_region.as_str());
        u.append(".api.riotgames.com/riot/account/v1/accounts/by-riot-id/");
        u.append(game_name);
        u.append("/");
        u.append(tag_line);
        proof {
            assert(u@ =~= spec_account_url(self.proxy_region@, game_name@, tag_line@));
        }
        u
    }

    /// Resolve an account by riot id, through the cache.
    pub fn get_account<F: FnOnce(String) -> Result<AccountDto, RiotApiError>>(
        &mut self,
        game_name: &str,
        tag_line: &str,
        now: u64,
        fetch: F,
    ) -> (r: Result<AccountDto, RiotApiError>)
        requires
            old(self).cache.wf(),
            forall|u: String| call_requires(fetch, (u,)),
        ensures
            final(self).cache.wf(),
            final(self).api_key == old(self).api_key,
            final(self).proxy_region == old(self).proxy_region,
            account_step(
                fetch,
                old(self).cache,
                final(self).cache,
                spec_account_url(old(self).proxy_region@, game_name@, tag_line@),
                now,
                r,
            ),
    {
        let url = self.account_url(game_name, tag_line);
        let ghost pre = self.cache;
        let ghost k = url@;
        let probed = self.cache.probe(&url, now);
        match probed {
            Some(CachedValue::Account(a)) => {
                proof {
                    assert forall|k2: Seq<char>| self.cache.entry_at(k2) == pre.entry_at(k2) by {
                        if k2 == k {
                            assert(pre.entry_at(k) matches Some(e) && e.ttl is Some);
                        }
                    }
                }
                Ok(a)
            },
            _ => {
                let arg = url.clone();
                let ghost gu = arg;
                let fr = fetch(arg);
                match fr {
                    Ok(a) => {
                        let ra = a.clone();
                        self.cache.store(
                            &url,
                            CachedValue::Account(a),
                            now,
                            Some(ACCOUNT_TTL_SECS),
                        );
                        proof {
                            let gfr = Ok::<AccountDto, RiotApiError>(a);
                            assert(gu@ == k && call_ensures(fetch, (gu,), gfr));
                        }
                        Ok(ra)
                    },
                    Err(e) => {
                        proof {
                            let gfr = Err::<AccountDto, RiotApiError>(e);
                            assert(gu@ == k && call_ensures(fetch, (gu,), gfr));
                        }
                        Err(e)
                    },
                }
            },
        }
    }

    /// Fetch the league entries of a player, through the cache.
    pub fn get_league<F: FnOnce(String) -> Result<Vec<LeagueEntryDto>, RiotApiError>>(
        &mut self,
        game_region: &str,
        puuid: &str,
        now: u64,
        fetch: F,
    ) -> (r: Result<Vec<LeagueEntryDto>, RiotApiError>)
        requires
            old(self).cache.wf(),
            forall|u: String| call_requires(fetch, (u,)),
        ensures
            final(self).cache.wf(),
            final(self).api_key == old(self).api_key,
            final(self).proxy_region == old(self).proxy_region,
            league_step(
                fetch,
                old(self).cache,
                final(self).cache,
                spec_league_url(game_region@, puuid@),
                now,
                r,
            ),
    {
        let url = league_url(game_region, puuid);
        let ghost pre = self.cache;
        let ghost k = url@;
        let probed = self.cache.probe(&url, now);
        match probed {
            Some(CachedValue::League(es)) => {
                proof {
                    assert forall|k2: Seq<char>| self.cache.entry_at(k2) == pre.entry_at(k2) by {
                        if k2 == k {
                            assert(pre.entry_at(k) matches Some(e) && e.ttl is Some);
                        }
                    }
                }
                Ok(es)
            },
            _ => {
                let arg = url.clone();
                let ghost gu = arg;
                let fr = fetch(arg);
                match fr {
                    Ok(es) => {
                        let re = es.clone();
                        proof {
                            assert(re.deep_view() =~= es.deep_view());
                        }
                        self.cache.store(&url, CachedValue::League(es), now, Some(LEAGUE_TTL_SECS));
                        proof {
                            let gfr = Ok::<Vec<LeagueEntryDto>, RiotApiError>(es);
                            assert(gu@ == k && call_ensures(fetch, (gu,), gfr));
                        }
                        Ok(re)
                    },
                    Err(e) => {
                        proof {
                            let gfr = Err::<Vec<LeagueEntryDto>, RiotApiError>(e);
                            assert(gu@ == k && call_ensures(fetch, (gu,), gfr));
                        }
                        Err(e)
                    },
                }
            },
        }
    }

    /// Fetch a match record, through the cache.
    pub fn get_match<F: FnOnce(String) -> Result<MatchDto, RiotApiError>>(
        &mut self,
        game_region: &str,
        match_id: &str,
        now: u64,
        fetch: F,
    ) -> (r: Result<MatchDto, RiotApiError>)
        requires
            old(self).cache.wf(),
            forall|u: String| call_requires(fetch, (u,)),
        ensures
            final(self).cache.wf(),
            final(self).api_key == old(self).api_key,
            final(self).proxy_region == old(self).proxy_region,
            match_step(
                fetch,
                old(self).cache,
                final(self).cache,
                spec_match_url(game_region@, match_id@),
                now,
                r,
            ),
    {
        let url = match_url(game_region, match_id);
        let ghost pre = self.cache;
        let ghost k = url@;
        let probed = self.cache.probe(&url, now);
        match probed {
            Some(CachedValue::Match(m)) => {
                proof {
                    assert forall|k2: Seq<char>| self.cache.entry_at(k2) == pre.entry_at(k2) by {
                        if k2 == k {
                            assert(pre.entry_at(k) matches Some(e) && e.ttl is Some);
                        }
                    }
                }
                Ok(m)
            },
            _ => {
                let arg = url.clone();
                let ghost gu = arg;
                let fr = fetch(arg);
                match fr {
                    Ok(m) => {
                        let rm = m.clone();
                        self.cache.store(&url, CachedValue::Match(m), now, Some(MATCH_TTL_SECS));
                        proof {
                            let gfr = Ok::<MatchDto, RiotApiError>(m);
                            assert(gu@ == k && call_ensures(fetch, (gu,), gfr));
                        }
                        Ok(rm)
                    },
                    Err(e) => {
                        proof {
                            let gfr = Err::<MatchDto, RiotApiError>(e);
                            assert(gu@ == k && call_ensures(fetch, (gu,), gfr));
                        }
                        Err(e)
                    },
                }
            },
        }
    }
}

} // verus!

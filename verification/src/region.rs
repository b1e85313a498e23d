//! Routing-region validation.
//!
//! The upstream partitions its API geographically: account resolution goes to
//! a coarse regional host, rank lookups to a finer platform host. A
//! caller-supplied platform code is matched case-insensitively against the
//! recognized enumeration; an unrecognized code is rejected before any
//! upstream call.

use vstd::prelude::*;

verus! {

/// The platform routes recognized for rank lookups.
#[derive(Clone, Copy, Debug, PartialEq, Eq, Structural)]
pub enum PlatformRoute {
    BR1,
    EUN1,
    EUW1,
    JP1,
    KR,
    LA1,
    LA2,
    NA1,
    OC1,
    TR1,
    RU,
}

/// The regional routes recognized for account resolution.
#[derive(Clone, Copy, Debug, PartialEq, Eq, Structural)]
pub enum RegionalRoute {
    EUROPE,
    AMERICAS,
    ASIA,
    SEA,
}

/// ASCII lowering of one character: `'A'..'Z'` map to `'a'..'z'`, everything
/// else stays.
pub open spec fn lower_char(c: char) -> char {
    if 65 <= c as u32 && c as u32 <= 90 {
        ((c as u32 + 32) as u8) as char
    } else {
        c
    }
}

/// ASCII lowering of a whole string.
pub open spec fn lower_chars(s: Seq<char>) -> Seq<char> {
    s.map_values(|c: char| lower_char(c))
}

fn lower_char_x(c: char) -> (r: char)
    ensures
        r == lower_char(c),
{
    let u = c as u32;
    if 65 <= u && u <= 90 {
        let b: u8 = (u + 32) as u8;
        b as char
    } else {
        c
    }
}

/// Whether `s`, lowered, spells exactly `t`.
fn eq_lowered(s: &str, t: &str) -> (r: bool)
    ensures
        r == (lower_chars(s@) == t@),
{
    let n = s.unicode_len();
    let m = t.unicode_len();
    if n != m {
        proof {
            assert(lower_chars(s@).len() == s@.len());
        }
        return false;
    }
    let mut i: usize = 0;
    while i < n
        invariant
            i <= n,
            n == s@.len(),
            n == t@.len(),
            forall|j: int| 0 <= j < i ==> lower_char(s@[j]) == t@[j],
        decreases n - i,
    {
        let c = lower_char_x(s.get_char(i));
        let d = t.get_char(i);
        if c != d {
            proof {
                assert(lower_chars(s@)[i as int] == lower_char(s@[i as int]));
            }
            return false;
        }
        i += 1;
    }
    proof {
        assert(lower_chars(s@) =~= t@);
    }
    true
}

/// What platform a caller-supplied code names, compared without regard to
/// ASCII case.
pub open spec fn spec_platform_of(s: Seq<char>) -> Option<PlatformRoute> {
    let l = lower_chars(s);
    if l == "br1"@ {
        Some(PlatformRoute::BR1)
    } else if l == "eun1"@ {
        Some(PlatformRoute::EUN1)
    } else if l == "euw1"@ {
        Some(PlatformRoute::EUW1)
    } else if l == "jp1"@ {
        Some(PlatformRoute::JP1)
    } else if l == "kr"@ {
        Some(PlatformRoute::KR)
    } else if l == "la1"@ {
        Some(PlatformRoute::LA1)
    } else if l == "la2"@ {
        Some(PlatformRoute::LA2)
    } else if l == "na1"@ {
        Some(PlatformRoute::NA1)
    } else if l == "oc1"@ {
        Some(PlatformRoute::OC1)
    } else if l == "tr1"@ {
        Some(PlatformRoute::TR1)
    } else if l == "ru"@ {
        Some(PlatformRoute::RU)
    } else {
        None
    }
}

/// Resolve a platform code, ignoring ASCII case; `None` for anything outside
/// the recognized enumeration.
pub fn string_to_platform(platform: &str) -> (r: Option<PlatformRoute>)
    ensures
        r == spec_platform_of(platform@),
{
    if eq_lowered(platform, "br1") {
        Some(PlatformRoute::BR1)
    } else if eq_lowered(platform, "eun1") {
        Some(PlatformRoute::EUN1)
    } else if eq_lowered(platform, "euw1") {
        Some(PlatformRoute::EUW1)
    } else if eq_lowered(platform, "jp1") {
        Some(PlatformRoute::JP1)
    } else if eq_lowered(platform, "kr") {
        Some(PlatformRoute::KR)
    } else if eq_lowered(platform, "la1") {
        Some(PlatformRoute::LA1)
    } else if eq_lowered(platform, "la2") {
        Some(PlatformRoute::LA2)
    } else if eq_lowered(platform, "na1") {
        Some(PlatformRoute::NA1)
    } else if eq_lowered(platform, "oc1") {
        Some(PlatformRoute::OC1)
    } else if eq_lowered(platform, "tr1") {
        Some(PlatformRoute::TR1)
    } else if eq_lowered(platform, "ru") {
        Some(PlatformRoute::RU)
    } else {
        None
    }
}

/// The host label of a platform route, as it appears in upstream URLs.
pub open spec fn spec_platform_host(p: PlatformRoute) -> Seq<char> {
    match p {
        PlatformRoute::BR1 => "br1"@,
        PlatformRoute::EUN1 => "eun1"@,
        PlatformRoute::EUW1 => "euw1"@,
        PlatformRoute::JP1 => "jp1"@,
        PlatformRoute::KR => "kr"@,
        PlatformRoute::LA1 => "la1"@,
        PlatformRoute::LA2 => "la2"@,
        PlatformRoute::NA1 => "na1"@,
        PlatformRoute::OC1 => "oc1"@,
        PlatformRoute::TR1 => "tr1"@,
        PlatformRoute::RU => "ru"@,
    }
}

/// The host label of a platform route.
pub fn platform_host(p: PlatformRoute) -> (r: &'static str)
    ensures
        r@ == spec_platform_host(p),
{
    match p {
        PlatformRoute::BR1 => "br1",
        PlatformRoute::EUN1 => "eun1",
        PlatformRoute::EUW1 => "euw1",
        PlatformRoute::JP1 => "jp1",
        PlatformRoute::KR => "kr",
        PlatformRoute::LA1 => "la1",
        PlatformRoute::LA2 => "la2",
        PlatformRoute::NA1 => "na1",
        PlatformRoute::OC1 => "oc1",
        PlatformRoute::TR1 => "tr1",
        PlatformRoute::RU => "ru",
    }
}

/// What regional route a configuration value names. The comparison is exact:
/// the configuration surface demands the lower-case codes.
pub open spec fn spec_regional_of(s: Seq<char>) -> Option<RegionalRoute> {
    if s == "europe"@ {
        Some(RegionalRoute::EUROPE)
    } else if s == "americas"@ {
        Some(RegionalRoute::AMERICAS)
    } else if s == "asia"@ {
        Some(RegionalRoute::ASIA)
    } else if s == "sea"@ {
        Some(RegionalRoute::SEA)
    } else {
        None
    }
}

fn str_eq(s: &str, t: &str) -> (r: bool)
    ensures
        r == (s@ == t@),
{
    let n = s.unicode_len();
    let m = t.unicode_len();
    if n != m {
        return false;
    }
    let mut i: usize = 0;
    while i < n
        invariant
            i <= n,
            n == s@.len(),
            n == t@.len(),
            forall|j: int| 0 <= j < i ==> s@[j] == t@[j],
        decreases n - i,
    {
        if s.get_char(i) != t.get_char(i) {
            return false;
        }
        i += 1;
    }
    proof {
        assert(s@ =~= t@);
    }
    true
}

/// Resolve a configured proxy region; `None` is a fatal configuration error
/// for the caller, not a runtime condition.
pub fn string_to_regional(region: &str) -> (r: Option<RegionalRoute>)
    ensures
        r == spec_regional_of(region@),
{
    if str_eq(region, "europe") {
        Some(RegionalRoute::EUROPE)
    } else if str_eq(region, "americas") {
        Some(RegionalRoute::AMERICAS)
    } else if str_eq(region, "asia") {
        Some(RegionalRoute::ASIA)
    } else if str_eq(region, "sea") {
        Some(RegionalRoute::SEA)
    } else {
        None
    }
}

/// The host label of a regional route, as it appears in upstream URLs.
pub open spec fn spec_regional_host(p: RegionalRoute) -> Seq<char> {
    match p {
        RegionalRoute::EUROPE => "europe"@,
        RegionalRoute::AMERICAS => "americas"@,
        RegionalRoute::ASIA => "asia"@,
        RegionalRoute::SEA => "sea"@,
    }
}

/// The host label of a regional route.
pub fn regional_host(p: RegionalRoute) -> (r: &'static str)
    ensures
        r@ == spec_regional_host(p),
{
    match p {
        RegionalRoute::EUROPE => "europe",
        RegionalRoute::AMERICAS => "americas",
        RegionalRoute::ASIA => "asia",
        RegionalRoute::SEA => "sea",
    }
}

} // verus!

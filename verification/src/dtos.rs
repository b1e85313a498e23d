//! Typed payloads of the upstream responses.
//!
//! Each type carries only plain values. A mirror spec type gives every payload
//! a mathematical value (`deep_view`), and each `Clone` is written by hand
//! with a contract over that value, so the cache can prove that a served copy
//! equals the stored value.

use vstd::prelude::*;

verus! {

/// Identity of a player, resolved from a riot id (game name and tag line).
#[derive(Debug, PartialEq, Eq)]
pub struct AccountDto {
    pub puuid: String,
    pub game_name: String,
    pub tag_line: String,
}

/// Mathematical value of an [`AccountDto`].
pub struct AccountV {
    pub puuid: Seq<char>,
    pub game_name: Seq<char>,
    pub tag_line: Seq<char>,
}

impl DeepView for AccountDto {
    type V = AccountV;

    open spec fn deep_view(&self) -> AccountV {
        AccountV { puuid: self.puuid@, game_name: self.game_name@, tag_line: self.tag_line@ }
    }
}

impl Clone for AccountDto {
    fn clone(&self) -> (r: Self)
        ensures
            r.deep_view() == self.deep_view(),
    {
        AccountDto {
            puuid: self.puuid.clone(),
            game_name: self.game_name.clone(),
            tag_line: self.tag_line.clone(),
        }
    }
}

/// One competitive queue a player is ranked in.
#[derive(Debug, PartialEq, Eq)]
pub struct LeagueEntryDto {
    pub queue_type: String,
    pub tier: String,
    pub rank: String,
    pub league_points: i32,
    pub wins: i32,
    pub losses: i32,
}

/// Mathematical value of a [`LeagueEntryDto`].
pub struct LeagueEntryV {
    pub queue_type: Seq<char>,
    pub tier: Seq<char>,
    pub rank: Seq<char>,
    pub league_points: i32,
    pub wins: i32,
    pub losses: i32,
}

impl DeepView for LeagueEntryDto {
    type V = LeagueEntryV;

    open spec fn deep_view(&self) -> LeagueEntryV {
        LeagueEntryV {
            queue_type: self.queue_type@,
            tier: self.tier@,
            rank: self.rank@,
            league_points: self.league_points,
            wins: self.wins,
            losses: self.losses,
        }
    }
}

impl Clone for LeagueEntryDto {
    fn clone(&self) -> (r: Self)
        ensures
            r.deep_view() == self.deep_view(),
    {
        LeagueEntryDto {
            queue_type: self.queue_type.clone(),
            tier: self.tier.clone(),
            rank: self.rank.clone(),
            league_points: self.league_points,
            wins: self.wins,
            losses: self.losses,
        }
    }
}

/// Match-level metadata.
#[derive(Debug, PartialEq, Eq)]
pub struct MetadataDto {
    pub data_version: String,
    pub match_id: String,
    pub participants: Vec<String>,
}

/// Mathematical value of a [`MetadataDto`].
pub struct MetadataV {
    pub data_version: Seq<char>,
    pub match_id: Seq<char>,
    pub participants: Seq<Seq<char>>,
}

impl DeepView for MetadataDto {
    type V = MetadataV;

    open spec fn deep_view(&self) -> MetadataV {
        MetadataV {
            data_version: self.data_version@,
            match_id: self.match_id@,
            participants: self.participants.deep_view(),
        }
    }
}

impl Clone for MetadataDto {
    fn clone(&self) -> (r: Self)
        ensures
            r.deep_view() == self.deep_view(),
    {
        let participants = self.participants.clone();
        proof {
            assert(participants.deep_view() =~= self.participants.deep_view());
        }
        MetadataDto {
            data_version: self.data_version.clone(),
            match_id: self.match_id.clone(),
            participants,
        }
    }
}

/// One player's line in a match.
#[derive(Debug, PartialEq, Eq)]
pub struct ParticipantDto {
    pub kills: i64,
    pub assists: i64,
    pub deaths: i64,
    pub champion_id: i64,
    pub champion_name: String,
    pub participant_id: i64,
    pub puuid: String,
    pub riot_id_game_name: String,
    pub riot_id_tagline: String,
    pub win: bool,
}

/// Mathematical value of a [`ParticipantDto`].
pub struct ParticipantV {
    pub kills: i64,
    pub assists: i64,
    pub deaths: i64,
    pub champion_id: i64,
    pub champion_name: Seq<char>,
    pub participant_id: i64,
    pub puuid: Seq<char>,
    pub riot_id_game_name: Seq<char>,
    pub riot_id_tagline: Seq<char>,
    pub win: bool,
}

impl DeepView for ParticipantDto {
    type V = ParticipantV;

    open spec fn deep_view(&self) -> ParticipantV {
        ParticipantV {
            kills: self.kills,
            assists: self.assists,
            deaths: self.deaths,
            champion_id: self.champion_id,
            champion_name: self.champion_name@,
            participant_id: self.participant_id,
            puuid: self.puuid@,
            riot_id_game_name: self.riot_id_game_name@,
            riot_id_tagline: self.riot_id_tagline@,
            win: self.win,
        }
    }
}

impl Clone for ParticipantDto {
    fn clone(&self) -> (r: Self)
        ensures
            r.deep_view() == self.deep_view(),
    {
        ParticipantDto {
            kills: self.kills,
            assists: self.assists,
            deaths: self.deaths,
            champion_id: self.champion_id,
            champion_name: self.champion_name.clone(),
            participant_id: self.participant_id,
            puuid: self.puuid.clone(),
            riot_id_game_name: self.riot_id_game_name.clone(),
            riot_id_tagline: self.riot_id_tagline.clone(),
            win: self.win,
        }
    }
}

/// One side of a match.
#[derive(Debug, PartialEq, Eq, Clone, Copy)]
pub struct TeamDto {
    pub team_id: i64,
    pub win: bool,
}

/// Mathematical value of a [`TeamDto`].
pub struct TeamV {
    pub team_id: i64,
    pub win: bool,
}

impl DeepView for TeamDto {
    type V = TeamV;

    open spec fn deep_view(&self) -> TeamV {
        TeamV { team_id: self.team_id, win: self.win }
    }
}

/// The game-level record of a match.
#[derive(Debug, PartialEq, Eq)]
pub struct InfoDto {
    pub end_of_game_result: String,
    pub game_start_timestamp: i64,
    pub game_end_timestamp: i64,
    pub game_creation: i64,
    pub game_duration: i64,
    pub game_id: i64,
    pub game_mode: String,
    pub game_name: String,
    pub game_type: String,
    pub game_version: String,
    pub map_id: i64,
    pub participants: Vec<ParticipantDto>,
    pub platform_id: String,
    pub queue_id: i64,
    pub teams: Vec<TeamDto>,
}

/// Mathematical value of an [`InfoDto`].
pub struct InfoV {
    pub end_of_game_result: Seq<char>,
    pub game_start_timestamp: i64,
    pub game_end_timestamp: i64,
    pub game_creation: i64,
    pub game_duration: i64,
    pub game_id: i64,
    pub game_mode: Seq<char>,
    pub game_name: Seq<char>,
    pub game_type: Seq<char>,
    pub game_version: Seq<char>,
    pub map_id: i64,
    pub participants: Seq<ParticipantV>,
    pub platform_id: Seq<char>,
    pub queue_id: i64,
    pub teams: Seq<TeamV>,
}

impl DeepView for InfoDto {
    type V = InfoV;

    open spec fn deep_view(&self) -> InfoV {
        InfoV {
            end_of_game_result: self.end_of_game_result@,
            game_start_timestamp: self.game_start_timestamp,
            game_end_timestamp: self.game_end_timestamp,
            game_creation: self.game_creation,
            game_duration: self.game_duration,
            game_id: self.game_id,
            game_mode: self.game_mode@,
            game_name: self.game_name@,
            game_type: self.game_type@,
            game_version: self.game_version@,
            map_id: self.map_id,
            participants: self.participants.deep_view(),
            platform_id: self.platform_id@,
            queue_id: self.queue_id,
            teams: self.teams.deep_view(),
        }
    }
}

impl Clone for InfoDto {
    fn clone(&self) -> (r: Self)
        ensures
            r.deep_view() == self.deep_view(),
    {
        let participants = self.participants.clone();
        let teams = self.teams.clone();
        proof {
            assert(participants.deep_view() =~= self.participants.deep_view());
            assert(teams.deep_view() =~= self.teams.deep_view());
        }
        InfoDto {
            end_of_game_result: self.end_of_game_result.clone(),
            game_start_timestamp: self.game_start_timestamp,
            game_end_timestamp: self.game_end_timestamp,
            game_creation: self.game_creation,
            game_duration: self.game_duration,
            game_id: self.game_id,
            game_mode: self.game_mode.clone(),
            game_name: self.game_name.clone(),
            game_type: self.game_type.clone(),
            game_version: self.game_version.clone(),
            map_id: self.map_id,
            participants,
            platform_id: self.platform_id.clone(),
            queue_id: self.queue_id,
            teams,
        }
    }
}

/// A full match record: metadata plus game info.
#[derive(Debug, PartialEq, Eq)]
pub struct MatchDto {
    pub metadata: MetadataDto,
    pub info: InfoDto,
}

/// Mathematical value of a [`MatchDto`].
pub struct MatchV {
    pub metadata: MetadataV,
    pub info: InfoV,
}

impl DeepView for MatchDto {
    type V = MatchV;

    open spec fn deep_view(&self) -> MatchV {
        MatchV { metadata: self.metadata.deep_view(), info: self.info.deep_view() }
    }
}

impl Clone for MatchDto {
    fn clone(&self) -> (r: Self)
        ensures
            r.deep_view() == self.deep_view(),
    {
        MatchDto { metadata: self.metadata.clone(), info: self.info.clone() }
    }
}

} // verus!

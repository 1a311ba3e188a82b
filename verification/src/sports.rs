//! The data of a sporting event, as the data provider reports it.

use crate::text::same_text;
use vstd::prelude::*;

verus! {

/// The summary of a sporting event: the event and how it stands.
#[derive(Debug)]
pub struct MatchResult {
    pub generated_at: String,
    pub sport_event: SportEvent,
    pub sport_event_status: SportEventStatus,
}

/// A sporting event: when it starts, where it belongs, and who competes.
#[derive(Debug)]
pub struct SportEvent {
    pub id: String,
    pub start_time: String,
    pub start_time_confirmed: bool,
    pub sport_event_context: SportEventContext,
    pub coverage: Coverage,
    pub competitors: Vec<Competitor>,
    pub sport_event_conditions: Option<SportEventConditions>,
}

/// The sport, competition, season and stage that an event belongs to.
#[derive(Debug)]
pub struct SportEventContext {
    pub sport: NamedEntity,
    pub category: Category,
    pub competition: Competition,
    pub season: Season,
    pub stage: Stage,
    pub round: Option<Round>,
    pub groups: Vec<Group>,
}

/// Something known by an identifier and a name.
#[derive(Debug)]
pub struct NamedEntity {
    pub id: String,
    pub name: String,
}

/// The category of a competition, most often a country.
#[derive(Debug)]
pub struct Category {
    pub id: String,
    pub name: String,
    pub country_code: String,
}

/// A competition.
#[derive(Debug)]
pub struct Competition {
    pub id: String,
    pub name: String,
    pub gender: String,
}

/// One season of a competition.
#[derive(Debug)]
pub struct Season {
    pub id: String,
    pub name: String,
    pub start_date: String,
    pub end_date: String,
    pub year: String,
    pub competition_id: String,
}

/// One stage of a season.
#[derive(Debug)]
pub struct Stage {
    pub order: u32,
    pub stage_type: String,
    pub phase: String,
    pub start_date: String,
    pub end_date: String,
    pub year: String,
}

/// The round of a stage.
#[derive(Debug)]
pub struct Round {
    pub number: u32,
}

/// A group of competitors within a stage.
#[derive(Debug)]
pub struct Group {
    pub id: String,
    pub name: String,
    pub group_name: String,
}

/// What the data provider covers of an event.
#[derive(Debug)]
pub struct Coverage {
    pub coverage_type: String,
    pub sport_event_properties: CoverageProperties,
}

/// The kinds of data that are covered.
#[derive(Debug)]
pub struct CoverageProperties {
    pub lineups: bool,
    pub formations: bool,
    pub venue: bool,
    pub extended_player_stats: bool,
    pub extended_team_stats: bool,
    pub ballspotting: bool,
    pub commentary: bool,
    pub fun_facts: bool,
    pub goal_scorers: bool,
    pub goal_scorers_live: bool,
    pub scores: String,
    pub game_clock: bool,
    pub deeper_play_by_play: bool,
    pub deeper_player_stats: bool,
    pub deeper_team_stats: bool,
    pub basic_play_by_play: bool,
    pub basic_player_stats: bool,
    pub basic_team_stats: bool,
}

/// One side of an event. The qualifier tells the home side from the away side.
#[derive(Debug)]
pub struct Competitor {
    pub id: String,
    pub name: String,
    pub country: String,
    pub country_code: String,
    pub abbreviation: String,
    pub qualifier: String,
    pub gender: String,
}

/// The conditions under which an event is played.
#[derive(Debug)]
pub struct SportEventConditions {
    pub weather: Option<Weather>,
    pub ground: Option<Ground>,
}

/// The weather at an event.
#[derive(Debug)]
pub struct Weather {
    pub pitch_conditions: String,
    pub overall_conditions: String,
}

/// The ground of an event.
#[derive(Debug)]
pub struct Ground {
    pub neutral: bool,
}

/// How an event stands: its status and score.
#[derive(Debug)]
pub struct SportEventStatus {
    pub status: String,
    pub match_status: String,
    pub home_score: i32,
    pub away_score: i32,
    pub winner_id: Option<String>,
    pub period_scores: Vec<PeriodScore>,
}

/// The score of one period.
#[derive(Debug)]
pub struct PeriodScore {
    pub home_score: i32,
    pub away_score: i32,
    pub period_type: String,
    pub number: u8,
}

/// The first of `competitors` whose qualifier is `role`.
pub open spec fn team(competitors: Seq<Competitor>, role: Seq<char>) -> Option<Competitor>
    decreases competitors.len(),
{
    if competitors.len() == 0 {
        None
    } else if competitors[0].qualifier@ == role {
        Some(competitors[0])
    } else {
        team(competitors.drop_first(), role)
    }
}

/// The team found for a role is one of the competitors, has that role, and
/// no competitor before it has.
pub proof fn lemma_team_is_first(competitors: Seq<Competitor>, role: Seq<char>)
    ensures
        match team(competitors, role) {
            Some(c) => exists|i: int|
                0 <= i < competitors.len() && #[trigger] competitors[i] == c
                    && c.qualifier@ == role && forall|j: int|
                    0 <= j < i ==> (#[trigger] competitors[j]).qualifier@ != role,
            None => forall|j: int|
                0 <= j < competitors.len() ==> (#[trigger] competitors[j]).qualifier@ != role,
        },
    decreases competitors.len(),
{
    if competitors.len() == 0 {
    } else if competitors[0].qualifier@ == role {
        assert(competitors[0] == competitors[0]);
    } else {
        let rest = competitors.drop_first();
        lemma_team_is_first(rest, role);
        match team(rest, role) {
            Some(c) => {
                let i = choose|i: int|
                    0 <= i < rest.len() && #[trigger] rest[i] == c && c.qualifier@ == role
                        && forall|j: int| 0 <= j < i ==> (#[trigger] rest[j]).qualifier@ != role;
                assert(competitors[i + 1] == c);
                assert forall|j: int| 0 <= j < i + 1 implies (
                #[trigger] competitors[j]).qualifier@ != role by {
                    if j > 0 {
                        assert(rest[j - 1] == competitors[j]);
                    }
                }
            },
            None => {
                assert forall|j: int| 0 <= j < competitors.len() implies (
                #[trigger] competitors[j]).qualifier@ != role by {
                    if j > 0 {
                        assert(rest[j - 1] == competitors[j]);
                    }
                }
            },
        }
    }
}

impl SportEvent {
    /// The first competitor whose qualifier is `role`, if there is one.
    pub fn team_by_qualifier(&self, role: &str) -> (found: Option<&Competitor>)
        ensures
            match found {
                Some(c) => team(self.competitors@, role@) == Some(*c),
                None => team(self.competitors@, role@) is None,
            },
    {
        let mut i: usize = 0;
        assert(self.competitors@.skip(0) =~= self.competitors@);
        while i < self.competitors.len()
            invariant
                i <= self.competitors.len(),
                team(self.competitors@, role@) == team(self.competitors@.skip(i as int), role@),
            decreases self.competitors.len() - i,
        {
            let c = &self.competitors[i];
            proof {
                let rest = self.competitors@.skip(i as int);
                assert(rest[0] == *c);
                assert(rest.drop_first() =~= self.competitors@.skip(i + 1));
            }
            if same_text(c.qualifier.as_str(), role) {
                return Some(c);
            }
            i += 1;
        }
        None
    }
}

} // verus!

//! The variables that a rule script sees: a flat projection of the data of
//! a sporting event.
//!
//! The scope is built once per evaluation. A variable whose source is
//! absent from the data is left out; it is never bound to a null value.

use crate::sports::{
    team, Competitor, Ground, Group, MatchResult, Round, SportEventConditions, SportEventContext,
    Weather,
};
use rhai::Scope;
use vstd::prelude::*;

verus! {

/// A value that a variable is bound to.
#[derive(Debug)]
pub enum ScopeValue {
    Int(i32),
    Count(u32),
    Text(String),
    Flag(bool),
}

/// What a [`ScopeValue`] holds, as a mathematical value.
pub enum Bound {
    Int(i32),
    Count(u32),
    Text(Seq<char>),
    Flag(bool),
}

impl View for ScopeValue {
    type V = Bound;

    open spec fn view(&self) -> Bound {
        match self {
            ScopeValue::Int(v) => Bound::Int(*v),
            ScopeValue::Count(v) => Bound::Count(*v),
            ScopeValue::Text(v) => Bound::Text(v@),
            ScopeValue::Flag(v) => Bound::Flag(*v),
        }
    }
}

/// A variable's name and the value that it is bound to.
pub type Binding = (Seq<char>, Bound);

/// `rhai::Scope`, held as it is: only its variables are spoken of, through
/// [`scope_entries`].
#[verifier::external_type_specification]
#[verifier::external_body]
pub struct ExScope<'a>(Scope<'a>);

/// The variables of a scope and their values, in the order in which they
/// were added.
pub uninterp spec fn scope_entries(scope: Scope<'static>) -> Seq<Binding>;

/// `rhai::Scope::new`: the scope that it makes has no variable.
#[verifier::external_body]
fn scope_new() -> (scope: Scope<'static>)
    ensures
        scope_entries(scope) == Seq::<Binding>::empty(),
{
    Scope::new()
}

/// `rhai::Scope::push`: the variable is added behind those that the scope
/// holds, under the given name and with the given value, as a value of the
/// type that the variant carries. The variables held before stay as they
/// were.
#[verifier::external_body]
fn scope_push(scope: &mut Scope<'static>, name: &str, value: ScopeValue)
    ensures
        scope_entries(*final(scope)) == scope_entries(*old(scope)).push((name@, value@)),
{
    match value {
        ScopeValue::Int(v) => scope.push(name, v),
        ScopeValue::Count(v) => scope.push(name, v),
        ScopeValue::Text(v) => scope.push(name, v),
        ScopeValue::Flag(v) => scope.push(name, v),
    };
}

/// A variable bound to a text.
pub open spec fn text(name: Seq<char>, value: String) -> Binding {
    (name, Bound::Text(value@))
}

/// The winner, where the data names one.
pub open spec fn winner_bindings(winner_id: Option<String>) -> Seq<Binding> {
    match winner_id {
        Some(id) => seq![text("winner_id"@, id)],
        None => Seq::<Binding>::empty(),
    }
}

/// The score and the status of the event, with the winner between them
/// where the data names one.
pub open spec fn status_bindings(data: MatchResult) -> Seq<Binding> {
    let status = data.sport_event_status;
    seq![
        ("home_score"@, Bound::Int(status.home_score)),
        ("away_score"@, Bound::Int(status.away_score)),
    ] + winner_bindings(status.winner_id) + seq![
        text("match_status"@, status.match_status),
        text("status"@, status.status),
    ]
}

/// The name and the identifier of the first competitor whose qualifier is
/// `role`, under the two given variable names; nothing where no competitor
/// has that qualifier.
pub open spec fn team_bindings(
    competitors: Seq<Competitor>,
    role: Seq<char>,
    name_key: Seq<char>,
    id_key: Seq<char>,
) -> Seq<Binding> {
    match team(competitors, role) {
        Some(c) => seq![text(name_key, c.name), text(id_key, c.id)],
        None => Seq::<Binding>::empty(),
    }
}

/// The start and the identity of the event.
pub open spec fn event_bindings(data: MatchResult) -> Seq<Binding> {
    let event = data.sport_event;
    seq![
        text("start_time"@, event.start_time),
        text("match_id"@, event.id),
        ("confirmed"@, Bound::Flag(event.start_time_confirmed)),
    ]
}

/// The number of the round, where the event has one.
pub open spec fn round_bindings(round: Option<Round>) -> Seq<Binding> {
    match round {
        Some(r) => seq![("round_number"@, Bound::Count(r.number))],
        None => Seq::<Binding>::empty(),
    }
}

/// The name of the first group, where the event has any.
pub open spec fn group_bindings(groups: Seq<Group>) -> Seq<Binding> {
    if groups.len() > 0 {
        seq![text("group"@, groups[0].group_name)]
    } else {
        Seq::<Binding>::empty()
    }
}

/// The competition, season, stage and category of the event, then its
/// round and its first group.
pub open spec fn context_bindings(context: SportEventContext) -> Seq<Binding> {
    seq![
        text("competition"@, context.competition.name),
        text("competition_id"@, context.competition.id),
        text("season"@, context.season.name),
        text("stage"@, context.stage.phase),
        text("category"@, context.category.name),
        text("country_code"@, context.category.country_code),
    ] + round_bindings(context.round) + group_bindings(context.groups@)
}

/// The state of the pitch and of the weather, where the data has them.
pub open spec fn weather_bindings(weather: Option<Weather>) -> Seq<Binding> {
    match weather {
        Some(w) => seq![
            text("pitch_conditions"@, w.pitch_conditions),
            text("overall_conditions"@, w.overall_conditions),
        ],
        None => Seq::<Binding>::empty(),
    }
}

/// Whether the ground is neutral, where the data says so.
pub open spec fn ground_bindings(ground: Option<Ground>) -> Seq<Binding> {
    match ground {
        Some(g) => seq![("neutral_ground"@, Bound::Flag(g.neutral))],
        None => Seq::<Binding>::empty(),
    }
}

/// The weather and the ground of the event, each where the data has it.
pub open spec fn conditions_bindings(conditions: Option<SportEventConditions>) -> Seq<Binding> {
    match conditions {
        Some(c) => weather_bindings(c.weather) + ground_bindings(c.ground),
        None => Seq::<Binding>::empty(),
    }
}

/// The variables that a rule script sees for the event `data`, in order.
pub open spec fn bindings(data: MatchResult) -> Seq<Binding> {
    let event = data.sport_event;
    status_bindings(data) + team_bindings(
        event.competitors@,
        "home"@,
        "home_team"@,
        "home_team_id"@,
    ) + team_bindings(event.competitors@, "away"@, "away_team"@, "away_team_id"@)
        + event_bindings(data) + context_bindings(event.sport_event_context)
        + conditions_bindings(event.sport_event_conditions)
}

fn push_text(scope: &mut Scope<'static>, name: &str, value: &String)
    ensures
        scope_entries(*final(scope)) == scope_entries(*old(scope)).push(text(name@, *value)),
{
    scope_push(scope, name, ScopeValue::Text(value.clone()));
}

fn push_status(scope: &mut Scope<'static>, data: &MatchResult)
    ensures
        scope_entries(*final(scope)) == scope_entries(*old(scope)) + status_bindings(*data),
{
    let status = &data.sport_event_status;
    scope_push(scope, "home_score", ScopeValue::Int(status.home_score));
    scope_push(scope, "away_score", ScopeValue::Int(status.away_score));
    if let Some(winner_id) = &status.winner_id {
        push_text(scope, "winner_id", winner_id);
    }
    push_text(scope, "match_status", &status.match_status);
    push_text(scope, "status", &status.status);
    assert(scope_entries(*scope) =~= scope_entries(*old(scope)) + status_bindings(*data));
}

fn push_team(
    scope: &mut Scope<'static>,
    data: &MatchResult,
    role: &str,
    name_key: &str,
    id_key: &str,
)
    ensures
        scope_entries(*final(scope)) == scope_entries(*old(scope)) + team_bindings(
            data.sport_event.competitors@,
            role@,
            name_key@,
            id_key@,
        ),
{
    if let Some(c) = data.sport_event.team_by_qualifier(role) {
        push_text(scope, name_key, &c.name);
        push_text(scope, id_key, &c.id);
    }
    assert(scope_entries(*scope) =~= scope_entries(*old(scope)) + team_bindings(
        data.sport_event.competitors@,
        role@,
        name_key@,
        id_key@,
    ));
}

fn push_event(scope: &mut Scope<'static>, data: &MatchResult)
    ensures
        scope_entries(*final(scope)) == scope_entries(*old(scope)) + event_bindings(*data),
{
    let event = &data.sport_event;
    push_text(scope, "start_time", &event.start_time);
    push_text(scope, "match_id", &event.id);
    scope_push(scope, "confirmed", ScopeValue::Flag(event.start_time_confirmed));
    assert(scope_entries(*scope) =~= scope_entries(*old(scope)) + event_bindings(*data));
}

fn push_context(scope: &mut Scope<'static>, context: &SportEventContext)
    ensures
        scope_entries(*final(scope)) == scope_entries(*old(scope)) + context_bindings(*context),
{
    push_text(scope, "competition", &context.competition.name);
    push_text(scope, "competition_id", &context.competition.id);
    push_text(scope, "season", &context.season.name);
    push_text(scope, "stage", &context.stage.phase);
    push_text(scope, "category", &context.category.name);
    push_text(scope, "country_code", &context.category.country_code);
    if let Some(round) = &context.round {
        scope_push(scope, "round_number", ScopeValue::Count(round.number));
    }
    if context.groups.len() > 0 {
        push_text(scope, "group", &context.groups[0].group_name);
    }
    assert(scope_entries(*scope) =~= scope_entries(*old(scope)) + context_bindings(*context));
}

fn push_conditions(scope: &mut Scope<'static>, conditions: &Option<SportEventConditions>)
    ensures
        scope_entries(*final(scope)) == scope_entries(*old(scope)) + conditions_bindings(
            *conditions,
        ),
{
    if let Some(c) = conditions {
        if let Some(weather) = &c.weather {
            push_text(scope, "pitch_conditions", &weather.pitch_conditions);
            push_text(scope, "overall_conditions", &weather.overall_conditions);
        }
        if let Some(ground) = &c.ground {
            scope_push(scope, "neutral_ground", ScopeValue::Flag(ground.neutral));
        }
    }
    assert(scope_entries(*scope) =~= scope_entries(*old(scope)) + conditions_bindings(
        *conditions,
    ));
}

/// Builds the scope of a rule script from the event `data`: the variables
/// of [`bindings`], and no other.
pub fn build_rhai_scope(data: &MatchResult) -> (scope: Scope<'static>)
    ensures
        scope_entries(scope) == bindings(*data),
{
    let mut scope = scope_new();
    push_status(&mut scope, data);
    push_team(&mut scope, data, "home", "home_team", "home_team_id");
    push_team(&mut scope, data, "away", "away_team", "away_team_id");
    push_event(&mut scope, data);
    push_context(&mut scope, &data.sport_event.sport_event_context);
    push_conditions(&mut scope, &data.sport_event.sport_event_conditions);
    assert(scope_entries(scope) =~= bindings(*data));
    scope
}

/// The names of a list of bindings, in order.
pub open spec fn names(entries: Seq<Binding>) -> Seq<Seq<char>> {
    entries.map_values(|entry: Binding| entry.0)
}

/// Every variable that a scope can hold, in the order in which the scope
/// binds them.
pub open spec fn variable_names() -> Seq<Seq<char>> {
    seq![
        "home_score"@,
        "away_score"@,
        "winner_id"@,
        "match_status"@,
        "status"@,
        "home_team"@,
        "home_team_id"@,
        "away_team"@,
        "away_team_id"@,
        "start_time"@,
        "match_id"@,
        "confirmed"@,
        "competition"@,
        "competition_id"@,
        "season"@,
        "stage"@,
        "category"@,
        "country_code"@,
        "round_number"@,
        "group"@,
        "pitch_conditions"@,
        "overall_conditions"@,
        "neutral_ground"@,
    ]
}

/// The part of the scope that the variable `name` belongs to: 1 for the
/// status, 2 and 3 for the two sides, 4 for the event, 5 for its context,
/// 6 for its conditions, and 0 for a name that is no variable.
spec fn part(name: Seq<char>) -> int {
    if name == "home_score"@ || name == "away_score"@ || name == "winner_id"@
        || name == "match_status"@ || name == "status"@ {
        1
    } else if name == "home_team"@ || name == "home_team_id"@ {
        2
    } else if name == "away_team"@ || name == "away_team_id"@ {
        3
    } else if name == "start_time"@ || name == "match_id"@ || name == "confirmed"@ {
        4
    } else if name == "competition"@ || name == "competition_id"@ || name == "season"@
        || name == "stage"@ || name == "category"@ || name == "country_code"@
        || name == "round_number"@ || name == "group"@ {
        5
    } else if name == "pitch_conditions"@ || name == "overall_conditions"@
        || name == "neutral_ground"@ {
        6
    } else {
        0
    }
}

/// No two of `entries` have the same name, and all their names belong to
/// the part `k` of the scope.
spec fn within_part(entries: Seq<Binding>, k: int) -> bool {
    &&& names(entries).no_duplicates()
    &&& forall|i: int| 0 <= i < entries.len() ==> part(#[trigger] entries[i].0) == k
}

/// No two of `entries` have the same name, and all their names belong to
/// the parts 1 to `k` of the scope.
spec fn within_parts(entries: Seq<Binding>, k: int) -> bool {
    &&& names(entries).no_duplicates()
    &&& forall|i: int| 0 <= i < entries.len() ==> 1 <= part(#[trigger] entries[i].0) <= k
}

/// `name` has the length `len` and starts with `first` and `second`: what
/// tells each variable's name from every other.
spec fn marked(name: Seq<char>, len: nat, first: char, second: char) -> bool {
    name.len() == len && name[0] == first && name[1] == second
}

/// What tells the names of the variables apart, and that each of them is
/// one of the [`variable_names`].
proof fn lemma_reveal_names()
    ensures
        variable_names().len() == 23,
        forall|name: Seq<char>| part(name) > 0 ==> variable_names().contains(name),
        marked("home_score"@, 10, 'h', 'o'),
        marked("away_score"@, 10, 'a', 'w'),
        marked("winner_id"@, 9, 'w', 'i'),
        marked("match_status"@, 12, 'm', 'a'),
        marked("status"@, 6, 's', 't'),
        marked("home_team"@, 9, 'h', 'o'),
        marked("home_team_id"@, 12, 'h', 'o'),
        marked("away_team"@, 9, 'a', 'w'),
        marked("away_team_id"@, 12, 'a', 'w'),
        marked("start_time"@, 10, 's', 't'),
        marked("match_id"@, 8, 'm', 'a'),
        marked("confirmed"@, 9, 'c', 'o'),
        marked("competition"@, 11, 'c', 'o'),
        marked("competition_id"@, 14, 'c', 'o'),
        marked("season"@, 6, 's', 'e'),
        marked("stage"@, 5, 's', 't'),
        marked("category"@, 8, 'c', 'a'),
        marked("country_code"@, 12, 'c', 'o'),
        marked("round_number"@, 12, 'r', 'o'),
        marked("group"@, 5, 'g', 'r'),
        marked("pitch_conditions"@, 16, 'p', 'i'),
        marked("overall_conditions"@, 18, 'o', 'v'),
        marked("neutral_ground"@, 14, 'n', 'e'),
{
    reveal_strlit("home_score");
    reveal_strlit("away_score");
    reveal_strlit("winner_id");
    reveal_strlit("match_status");
    reveal_strlit("status");
    reveal_strlit("home_team");
    reveal_strlit("home_team_id");
    reveal_strlit("away_team");
    reveal_strlit("away_team_id");
    reveal_strlit("start_time");
    reveal_strlit("match_id");
    reveal_strlit("confirmed");
    reveal_strlit("competition");
    reveal_strlit("competition_id");
    reveal_strlit("season");
    reveal_strlit("stage");
    reveal_strlit("category");
    reveal_strlit("country_code");
    reveal_strlit("round_number");
    reveal_strlit("group");
    reveal_strlit("pitch_conditions");
    reveal_strlit("overall_conditions");
    reveal_strlit("neutral_ground");
    let v = variable_names();
    assert forall|name: Seq<char>| part(name) > 0 implies v.contains(name) by {
        if name == "home_score"@ {
            assert(v[0] == name);
        }
        if name == "away_score"@ {
            assert(v[1] == name);
        }
        if name == "winner_id"@ {
            assert(v[2] == name);
        }
        if name == "match_status"@ {
            assert(v[3] == name);
        }
        if name == "status"@ {
            assert(v[4] == name);
        }
        if name == "home_team"@ {
            assert(v[5] == name);
        }
        if name == "home_team_id"@ {
            assert(v[6] == name);
        }
        if name == "away_team"@ {
            assert(v[7] == name);
        }
        if name == "away_team_id"@ {
            assert(v[8] == name);
        }
        if name == "start_time"@ {
            assert(v[9] == name);
        }
        if name == "match_id"@ {
            assert(v[10] == name);
        }
        if name == "confirmed"@ {
            assert(v[11] == name);
        }
        if name == "competition"@ {
            assert(v[12] == name);
        }
        if name == "competition_id"@ {
            assert(v[13] == name);
        }
        if name == "season"@ {
            assert(v[14] == name);
        }
        if name == "stage"@ {
            assert(v[15] == name);
        }
        if name == "category"@ {
            assert(v[16] == name);
        }
        if name == "country_code"@ {
            assert(v[17] == name);
        }
        if name == "round_number"@ {
            assert(v[18] == name);
        }
        if name == "group"@ {
            assert(v[19] == name);
        }
        if name == "pitch_conditions"@ {
            assert(v[20] == name);
        }
        if name == "overall_conditions"@ {
            assert(v[21] == name);
        }
        if name == "neutral_ground"@ {
            assert(v[22] == name);
        }
    }
}

proof fn lemma_next_part(seen: Seq<Binding>, next: Seq<Binding>, k: int)
    requires
        within_parts(seen, k - 1),
        within_part(next, k),
        1 <= k,
    ensures
        within_parts(seen + next, k),
{
    let all = seen + next;
    assert forall|i: int, j: int| 0 <= i < j < names(all).len() implies names(all)[i] != names(
        all,
    )[j] by {
        if j < seen.len() {
            assert(names(seen)[i] == all[i].0 && names(seen)[j] == all[j].0);
        } else if i >= seen.len() {
            assert(names(next)[i - seen.len()] == all[i].0);
            assert(names(next)[j - seen.len()] == all[j].0);
        } else {
            assert(part(seen[i].0) < k);
            assert(part(next[j - seen.len()].0) == k);
        }
    }
    assert forall|i: int| 0 <= i < all.len() implies 1 <= part(#[trigger] all[i].0) <= k by {
        if i < seen.len() {
            assert(all[i] == seen[i]);
        } else {
            assert(all[i] == next[i - seen.len()]);
        }
    }
}

proof fn lemma_status_part(data: MatchResult)
    ensures
        within_parts(status_bindings(data), 1),
{
    lemma_reveal_names();
    let b = status_bindings(data);
    let n = names(b);
    assert forall|i: int| 0 <= i < b.len() implies part(#[trigger] b[i].0) == 1 by {}
    assert forall|i: int, j: int| 0 <= i < j < n.len() implies n[i] != n[j] by {}
}

proof fn lemma_team_part(
    competitors: Seq<Competitor>,
    role: Seq<char>,
    name_key: Seq<char>,
    id_key: Seq<char>,
    k: int,
)
    requires
        part(name_key) == k,
        part(id_key) == k,
        name_key.len() != id_key.len(),
    ensures
        within_part(team_bindings(competitors, role, name_key, id_key), k),
{
    let b = team_bindings(competitors, role, name_key, id_key);
    let n = names(b);
    assert forall|i: int, j: int| 0 <= i < j < n.len() implies n[i] != n[j] by {}
}

proof fn lemma_event_part(data: MatchResult)
    ensures
        within_part(event_bindings(data), 4),
{
    lemma_reveal_names();
    let b = event_bindings(data);
    let n = names(b);
    assert forall|i: int| 0 <= i < b.len() implies part(#[trigger] b[i].0) == 4 by {}
    assert forall|i: int, j: int| 0 <= i < j < n.len() implies n[i] != n[j] by {}
}

proof fn lemma_context_part(context: SportEventContext)
    ensures
        within_part(context_bindings(context), 5),
{
    lemma_reveal_names();
    let b = context_bindings(context);
    let n = names(b);
    assert forall|i: int| 0 <= i < b.len() implies part(#[trigger] b[i].0) == 5 by {}
    assert forall|i: int, j: int| 0 <= i < j < n.len() implies n[i] != n[j] by {}
}

proof fn lemma_conditions_part(conditions: Option<SportEventConditions>)
    ensures
        within_part(conditions_bindings(conditions), 6),
{
    lemma_reveal_names();
    let b = conditions_bindings(conditions);
    let n = names(b);
    assert forall|i: int| 0 <= i < b.len() implies part(#[trigger] b[i].0) == 6 by {}
    assert forall|i: int, j: int| 0 <= i < j < n.len() implies n[i] != n[j] by {}
}

/// A scope binds no variable twice, and every variable that it binds is one
/// of the [`variable_names`]: a script finds one value under each name, and
/// no name beyond the list.
pub proof fn lemma_scope_is_deterministic(data: MatchResult)
    ensures
        names(bindings(data)).no_duplicates(),
        forall|i: int|
            0 <= i < bindings(data).len() ==> variable_names().contains(
                #[trigger] names(bindings(data))[i],
            ),
{
    lemma_reveal_names();
    let event = data.sport_event;
    let status = status_bindings(data);
    let home = team_bindings(event.competitors@, "home"@, "home_team"@, "home_team_id"@);
    let away = team_bindings(event.competitors@, "away"@, "away_team"@, "away_team_id"@);
    let started = event_bindings(data);
    let context = context_bindings(event.sport_event_context);
    let conditions = conditions_bindings(event.sport_event_conditions);
    lemma_status_part(data);
    lemma_team_part(event.competitors@, "home"@, "home_team"@, "home_team_id"@, 2);
    lemma_team_part(event.competitors@, "away"@, "away_team"@, "away_team_id"@, 3);
    lemma_event_part(data);
    lemma_context_part(event.sport_event_context);
    lemma_conditions_part(event.sport_event_conditions);
    lemma_next_part(status, home, 2);
    lemma_next_part(status + home, away, 3);
    lemma_next_part(status + home + away, started, 4);
    lemma_next_part(status + home + away + started, context, 5);
    lemma_next_part(status + home + away + started + context, conditions, 6);
    let all = bindings(data);
    assert(all == status + home + away + started + context + conditions);
    assert forall|i: int| 0 <= i < all.len() implies variable_names().contains(
        #[trigger] names(all)[i],
    ) by {
        assert(part(all[i].0) > 0);
    }
}

} // verus!

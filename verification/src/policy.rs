//! The steering policies, one per level, and the table that picks one.
//!
//! Every policy looks at the current snapshot only. Each aircraft gets at
//! most one command per tick, chosen by the first phase whose condition holds.
//! Positions are in thousandths of a coordinate unit, so the line at 40
//! units reads `40000` here.

use vstd::prelude::*;
use vstd::string::StringExecFns;
use crate::command::{command_views, headings_valid, one_per_aircraft, Command, CommandView};
use crate::guarantees::{lemma_headings_valid, lemma_one_command_per_aircraft};
use crate::heading::{
    approach, lower_to, lowered_to, normalize_heading, raise_to, raised_to, step_toward, turn_by,
    wrap_degrees, MAX_TURN,
};
use crate::model::{Aircraft, AircraftView, Airport, GameState, GameStateView};

verus! {

/// The heading chosen for an aircraft, as an integer, if one was chosen.
pub open spec fn chosen(choice: Option<i32>) -> Option<int> {
    match choice {
        Some(h) => Some(h as int),
        None => None,
    }
}

/// The commands that a choice for one aircraft amounts to: one or none.
pub open spec fn choice_commands(id: Seq<char>, choice: Option<int>) -> Seq<CommandView> {
    match choice {
        Some(h) => seq![CommandView { aircraft_id: id, heading: h }],
        None => Seq::empty(),
    }
}

/// Turn-to-align: come down to 45 degrees first; near the airport's
/// approach line, come down to the airport's heading.
pub open spec fn turning_choice(a: AircraftView, p: Airport) -> Option<int> {
    if a.direction > 50 {
        Some(wrap_degrees(approach(a.direction as int, 45, MAX_TURN as int)))
    } else if a.position.y >= p.position.y - 8000 && a.direction != p.direction {
        Some(lowered_to(a.direction as int, p.direction as int))
    } else {
        None
    }
}

/// Loop-around: turn in up to 198 degrees, then straighten to 180, then
/// come down to the airport's heading.
pub open spec fn loop_around_choice(a: AircraftView, p: Airport) -> Option<int> {
    if a.position.x >= 40000 && a.direction < 198 {
        Some(wrap_degrees(approach(a.direction as int, 198, MAX_TURN as int)))
    } else if a.position.x <= 20000 && a.position.x >= 8000 && a.direction != 180 {
        Some(180)
    } else if a.position.x <= p.position.x + 5000 && a.direction != p.direction {
        Some(lowered_to(a.direction as int, p.direction as int))
    } else {
        None
    }
}

/// Parallel turn: turn in up to 20 degrees, then go up to the airport's
/// heading once close to it.
pub open spec fn multiplane_choice(a: AircraftView, p: Airport) -> Option<int> {
    if a.position.x >= -50000 && a.direction < 20 {
        Some(wrap_degrees(approach(a.direction as int, 20, MAX_TURN as int)))
    } else if a.position.x >= p.position.x - 15000 && a.direction != p.direction {
        Some(raised_to(a.direction as int, p.direction as int))
    } else {
        None
    }
}

/// Crossing paths: the first aircraft turns left by 10, later right by 20
/// while it is below the second aircraft, and at the end comes down to the
/// heading of the second airport.
pub open spec fn criss_cross_choice(a: AircraftView, other: AircraftView, p: Airport) -> Option<
    int,
> {
    if a.position.x <= -110000 && a.direction >= 315 {
        Some(wrap_degrees(a.direction - 10))
    } else if a.position.y < other.position.y && a.position.x < 50000 && a.direction < 325 {
        Some(wrap_degrees(a.direction + MAX_TURN))
    } else if a.position.x >= 90000 && a.direction != p.direction {
        Some(lowered_to(a.direction as int, p.direction as int))
    } else {
        None
    }
}

/// Wrong way: go up to 85 degrees at the start; later come down toward the
/// airport's heading, taking it at once when it is within one step.
pub open spec fn wrong_way_choice(a: AircraftView, p: Airport) -> Option<int> {
    if a.position.y < 10000 && a.position.x < 5000 {
        Some(raised_to(a.direction as int, 85))
    } else if (a.position.y >= 29000 || a.direction > 180) && a.direction != p.direction {
        if -20 <= p.direction - a.direction <= 20 {
            Some(wrap_degrees(p.direction as int))
        } else {
            Some(wrap_degrees(a.direction - MAX_TURN))
        }
    } else {
        None
    }
}

/// Collision avoidance, last aircraft: up to 310 degrees, back down to 220,
/// then up to the heading of the first airport.
pub open spec fn dont_crash_last_choice(a: AircraftView, p: Airport) -> Option<int> {
    if a.position.y >= 75000 && a.direction != 310 {
        Some(raised_to(a.direction as int, 310))
    } else if -11000 <= a.position.y <= 55000 && a.direction != 220 {
        Some(lowered_to(a.direction as int, 220))
    } else if a.position.y <= -25000 && a.direction != p.direction {
        Some(raised_to(a.direction as int, p.direction as int))
    } else {
        None
    }
}

/// Collision avoidance, one of the first two aircraft: up to 280 degrees,
/// then down to its own airport's heading once level with it.
pub open spec fn dont_crash_pair_choice(a: AircraftView, p: Airport) -> Option<int> {
    if a.position.y >= 75000 && a.direction != 280 {
        Some(raised_to(a.direction as int, 280))
    } else if -10000 < p.position.y - a.position.y < 10000 && p.direction != a.direction {
        Some(lowered_to(a.direction as int, p.direction as int))
    } else {
        None
    }
}

/// The commands of turn-to-align.
pub open spec fn turning_commands(s: GameStateView) -> Seq<CommandView> {
    if s.is_vacant() {
        Seq::empty()
    } else {
        choice_commands(s.aircrafts[0].id, turning_choice(s.aircrafts[0], s.airports[0]))
    }
}

/// The commands of loop-around.
pub open spec fn loop_around_commands(s: GameStateView) -> Seq<CommandView> {
    if s.is_vacant() {
        Seq::empty()
    } else {
        choice_commands(s.aircrafts[0].id, loop_around_choice(s.aircrafts[0], s.airports[0]))
    }
}

/// The commands of the parallel turn for the first `n` aircraft, in the
/// order of the aircraft.
pub open spec fn multiplane_prefix(s: GameStateView, n: nat) -> Seq<CommandView>
    recommends
        n <= s.aircrafts.len(),
        s.airports.len() > 0,
    decreases n,
{
    if n == 0 {
        Seq::empty()
    } else {
        multiplane_prefix(s, (n - 1) as nat) + choice_commands(
            s.aircrafts[n - 1].id,
            multiplane_choice(s.aircrafts[n - 1], s.airports[0]),
        )
    }
}

/// The commands of the parallel turn.
pub open spec fn multiplane_commands(s: GameStateView) -> Seq<CommandView> {
    if s.is_vacant() {
        Seq::empty()
    } else {
        multiplane_prefix(s, s.aircrafts.len())
    }
}

/// The commands of crossing paths: none unless two aircraft and two
/// airports are there.
pub open spec fn criss_cross_commands(s: GameStateView) -> Seq<CommandView> {
    if s.aircrafts.len() < 2 || s.airports.len() < 2 {
        Seq::empty()
    } else {
        choice_commands(
            s.aircrafts[0].id,
            criss_cross_choice(s.aircrafts[0], s.aircrafts[1], s.airports[1]),
        )
    }
}

/// The commands of wrong-way correction.
pub open spec fn wrong_way_commands(s: GameStateView) -> Seq<CommandView> {
    if s.is_vacant() {
        Seq::empty()
    } else {
        choice_commands(s.aircrafts[0].id, wrong_way_choice(s.aircrafts[0], s.airports[0]))
    }
}

/// The commands of collision avoidance for aircraft `i` of the first two,
/// which lands at airport `i + 1`; none where that airport is missing.
pub open spec fn dont_crash_pair_commands(s: GameStateView, i: int) -> Seq<CommandView>
    recommends
        0 <= i < s.aircrafts.len(),
{
    if i + 1 < s.airports.len() {
        choice_commands(s.aircrafts[i].id, dont_crash_pair_choice(s.aircrafts[i], s.airports[i + 1]))
    } else {
        Seq::empty()
    }
}

/// The commands of collision avoidance: the last aircraft first; with three
/// or more aircraft, then the first and the second.
pub open spec fn dont_crash_commands(s: GameStateView) -> Seq<CommandView> {
    if s.is_vacant() {
        Seq::empty()
    } else {
        let last = s.aircrafts[s.aircrafts.len() - 1];
        let lone = choice_commands(last.id, dont_crash_last_choice(last, s.airports[0]));
        if s.aircrafts.len() < 3 {
            lone
        } else {
            lone + dont_crash_pair_commands(s, 0) + dont_crash_pair_commands(s, 1)
        }
    }
}

/// The policies of the table, and what an unknown level selects.
#[derive(Clone, Copy, Debug, PartialEq, Eq, Structural)]
pub enum Policy {
    FirstSteps,
    Turning,
    LoopAround,
    Multiplane,
    CrissCross,
    WrongWay,
    DontCrash,
    Unrecognized,
}

/// The policy that a level identifier selects.
pub open spec fn policy_for(level_id: Seq<char>) -> Policy {
    if level_id == "01GH1E14E88DT3BYWHNYW85ZRV"@ {
        Policy::FirstSteps
    } else if level_id == "01GH1E14EDA3AK5MQRNP811WME"@ {
        Policy::Turning
    } else if level_id == "01GH1E14EDD4FRTAGA4P0S80SB"@ {
        Policy::LoopAround
    } else if level_id == "01GH1E14EEPNDCXVZXAZ6ZKJEC"@ {
        Policy::Multiplane
    } else if level_id == "01GH1E14EFSJTVQXP0P49FSZA7"@ {
        Policy::CrissCross
    } else if level_id == "01GH1E14EFSVXHWHRRSEAJRZ6R"@ {
        Policy::WrongWay
    } else if level_id == "01GH1E14EGT9EGBZ1MEWWB4S7M"@ {
        Policy::DontCrash
    } else {
        Policy::Unrecognized
    }
}

/// The commands that a policy gives for a snapshot.
pub open spec fn policy_commands(policy: Policy, s: GameStateView) -> Seq<CommandView> {
    if s.is_vacant() {
        Seq::empty()
    } else {
        match policy {
            Policy::FirstSteps => Seq::empty(),
            Policy::Turning => turning_commands(s),
            Policy::LoopAround => loop_around_commands(s),
            Policy::Multiplane => multiplane_commands(s),
            Policy::CrissCross => criss_cross_commands(s),
            Policy::WrongWay => wrong_way_commands(s),
            Policy::DontCrash => dont_crash_commands(s),
            Policy::Unrecognized => Seq::empty(),
        }
    }
}

/// Whether two texts are the same.
fn same_text(a: &str, b: &str) -> (r: bool)
    ensures
        r == (a@ == b@),
{
    let left = String::from_str(a);
    let right = String::from_str(b);
    left == right
}

/// Adds the command, if any, that a choice for `aircraft` amounts to.
fn push_choice(commands: &mut Vec<Command>, aircraft: &Aircraft, choice: Option<i32>)
    ensures
        command_views(final(commands)@) == command_views(old(commands)@) + choice_commands(
            aircraft@.id,
            chosen(choice),
        ),
{
    match choice {
        Some(h) => {
            commands.push(Command::new(&aircraft.id, h));
        },
        None => {},
    }
    assert(command_views(commands@) =~= command_views(old(commands)@) + choice_commands(
        aircraft@.id,
        chosen(choice),
    ));
}

/// A fresh, empty list of commands.
fn no_commands() -> (commands: Vec<Command>)
    ensures
        commands@.len() == 0,
        command_views(commands@) == Seq::<CommandView>::empty(),
{
    let commands: Vec<Command> = Vec::new();
    assert(command_views(commands@) =~= Seq::<CommandView>::empty());
    commands
}

/// Chooses the heading of turn-to-align for one aircraft.
fn choose_turning(a: &Aircraft, p: &Airport) -> (choice: Option<i32>)
    ensures
        chosen(choice) == turning_choice(a@, *p),
{
    if a.direction > 50 {
        Some(step_toward(a.direction, 45, MAX_TURN))
    } else if a.position.y as i128 >= p.position.y as i128 - 8000 && a.direction != p.direction {
        Some(lower_to(a.direction, p.direction))
    } else {
        None
    }
}

/// Chooses the heading of loop-around for one aircraft.
fn choose_loop_around(a: &Aircraft, p: &Airport) -> (choice: Option<i32>)
    ensures
        chosen(choice) == loop_around_choice(a@, *p),
{
    if a.position.x >= 40000 && a.direction < 198 {
        Some(step_toward(a.direction, 198, MAX_TURN))
    } else if a.position.x <= 20000 && a.position.x >= 8000 && a.direction != 180 {
        Some(normalize_heading(180))
    } else if a.position.x as i128 <= p.position.x as i128 + 5000 && a.direction != p.direction {
        Some(lower_to(a.direction, p.direction))
    } else {
        None
    }
}

/// Chooses the heading of the parallel turn for one aircraft.
fn choose_multiplane(a: &Aircraft, p: &Airport) -> (choice: Option<i32>)
    ensures
        chosen(choice) == multiplane_choice(a@, *p),
{
    if a.position.x >= -50000 && a.direction < 20 {
        Some(step_toward(a.direction, 20, MAX_TURN))
    } else if a.position.x as i128 >= p.position.x as i128 - 15000 && a.direction != p.direction {
        Some(raise_to(a.direction, p.direction))
    } else {
        None
    }
}

/// Chooses the heading of crossing paths for the first aircraft, given the
/// second.
fn choose_criss_cross(a: &Aircraft, other: &Aircraft, p: &Airport) -> (choice: Option<i32>)
    ensures
        chosen(choice) == criss_cross_choice(a@, other@, *p),
{
    if a.position.x <= -110000 && a.direction >= 315 {
        Some(turn_by(a.direction, -10))
    } else if a.position.y < other.position.y && a.position.x < 50000 && a.direction < 325 {
        Some(turn_by(a.direction, 20))
    } else if a.position.x >= 90000 && a.direction != p.direction {
        Some(lower_to(a.direction, p.direction))
    } else {
        None
    }
}

/// Chooses the heading of wrong-way correction for one aircraft.
fn choose_wrong_way(a: &Aircraft, p: &Airport) -> (choice: Option<i32>)
    ensures
        chosen(choice) == wrong_way_choice(a@, *p),
{
    if a.position.y < 10000 && a.position.x < 5000 {
        Some(raise_to(a.direction, 85))
    } else if (a.position.y >= 29000 || a.direction > 180) && a.direction != p.direction {
        let diff: i64 = p.direction as i64 - a.direction as i64;
        if -20 <= diff && diff <= 20 {
            Some(normalize_heading(p.direction))
        } else {
            Some(turn_by(a.direction, -20))
        }
    } else {
        None
    }
}

/// Chooses the heading of collision avoidance for the last aircraft.
fn choose_dont_crash_last(a: &Aircraft, p: &Airport) -> (choice: Option<i32>)
    ensures
        chosen(choice) == dont_crash_last_choice(a@, *p),
{
    if a.position.y >= 75000 && a.direction != 310 {
        Some(raise_to(a.direction, 310))
    } else if -11000 <= a.position.y && a.position.y <= 55000 && a.direction != 220 {
        Some(lower_to(a.direction, 220))
    } else if a.position.y <= -25000 && a.direction != p.direction {
        Some(raise_to(a.direction, p.direction))
    } else {
        None
    }
}

/// Chooses the heading of collision avoidance for one of the first two
/// aircraft.
fn choose_dont_crash_pair(a: &Aircraft, p: &Airport) -> (choice: Option<i32>)
    ensures
        chosen(choice) == dont_crash_pair_choice(a@, *p),
{
    let apart: i128 = p.position.y as i128 - a.position.y as i128;
    if a.position.y >= 75000 && a.direction != 280 {
        Some(raise_to(a.direction, 280))
    } else if -10000 < apart && apart < 10000 && p.direction != a.direction {
        Some(lower_to(a.direction, p.direction))
    } else {
        None
    }
}

/// The first level needs no steering: always the empty list.
pub fn first_steps(_game_state: &GameState) -> (commands: Vec<Command>)
    ensures
        command_views(commands@) == Seq::<CommandView>::empty(),
{
    no_commands()
}

/// Turn-to-align for the first aircraft and the first airport. An empty
/// list on a snapshot without aircraft or airports.
pub fn turning(game_state: &GameState) -> (commands: Vec<Command>)
    ensures
        command_views(commands@) == turning_commands(game_state@),
{
    let mut commands = no_commands();
    if game_state.is_vacant() {
        return commands;
    }
    let aircraft = game_state.first_aircraft();
    let airport = game_state.airport_at(0);
    push_choice(&mut commands, aircraft, choose_turning(aircraft, &airport));
    commands
}

/// Loop-around for the first aircraft and the first airport. An empty list
/// on a snapshot without aircraft or airports.
pub fn loop_around(game_state: &GameState) -> (commands: Vec<Command>)
    ensures
        command_views(commands@) == loop_around_commands(game_state@),
{
    let mut commands = no_commands();
    if game_state.is_vacant() {
        return commands;
    }
    let aircraft = game_state.first_aircraft();
    let airport = game_state.airport_at(0);
    push_choice(&mut commands, aircraft, choose_loop_around(aircraft, &airport));
    commands
}

/// The parallel turn: every aircraft is steered by the same two phases
/// toward the first airport. An empty list on a snapshot without aircraft
/// or airports.
pub fn multiplane(game_state: &GameState) -> (commands: Vec<Command>)
    ensures
        command_views(commands@) == multiplane_commands(game_state@),
{
    let mut commands = no_commands();
    if game_state.is_vacant() {
        return commands;
    }
    let airport = game_state.airport_at(0);
    let count: usize = game_state.aircrafts.len();
    let mut i: usize = 0;
    while i < count
        invariant
            i <= count,
            count == game_state@.aircrafts.len(),
            game_state@.airports.len() > 0,
            airport == game_state@.airports[0],
            command_views(commands@) == multiplane_prefix(game_state@, i as nat),
        decreases count - i,
    {
        let aircraft = game_state.aircraft_at(i);
        push_choice(&mut commands, aircraft, choose_multiplane(aircraft, &airport));
        i += 1;
    }
    commands
}

/// Crossing paths: steers the first aircraft only; the second is read for
/// its position. An empty list with fewer than two aircraft or fewer than
/// two airports.
pub fn criss_cross(game_state: &GameState) -> (commands: Vec<Command>)
    ensures
        command_views(commands@) == criss_cross_commands(game_state@),
{
    let mut commands = no_commands();
    if game_state.aircrafts.len() < 2 || game_state.airports.len() < 2 {
        return commands;
    }
    let airport = game_state.airport_at(1);
    let aircraft = game_state.first_aircraft();
    let other = game_state.aircraft_at(1);
    push_choice(&mut commands, aircraft, choose_criss_cross(aircraft, other, &airport));
    commands
}

/// Wrong-way correction for the first aircraft and the first airport. An
/// empty list on a snapshot without aircraft or airports.
pub fn wrong_way(game_state: &GameState) -> (commands: Vec<Command>)
    ensures
        command_views(commands@) == wrong_way_commands(game_state@),
{
    let mut commands = no_commands();
    if game_state.is_vacant() {
        return commands;
    }
    let aircraft = game_state.first_aircraft();
    let airport = game_state.airport_at(0);
    push_choice(&mut commands, aircraft, choose_wrong_way(aircraft, &airport));
    commands
}

/// Collision avoidance: the last aircraft runs its three phases against the
/// first airport; with fewer than three aircraft that is all. Otherwise the
/// first and the second aircraft each run two phases against the airport
/// one place further down the list. An empty list on a snapshot without
/// aircraft or airports.
pub fn dont_crash(game_state: &GameState) -> (commands: Vec<Command>)
    ensures
        command_views(commands@) == dont_crash_commands(game_state@),
{
    let mut commands = no_commands();
    if game_state.is_vacant() {
        return commands;
    }
    let last = game_state.last_aircraft();
    let first_airport = game_state.airport_at(0);
    push_choice(&mut commands, last, choose_dont_crash_last(last, &first_airport));
    if game_state.aircrafts.len() < 3 {
        return commands;
    }
    let mut i: usize = 0;
    while i < 2
        invariant
            i <= 2,
            game_state@.aircrafts.len() >= 3,
            !game_state@.is_vacant(),
            command_views(commands@) == choice_commands(
                game_state@.aircrafts[game_state@.aircrafts.len() - 1].id,
                dont_crash_last_choice(
                    game_state@.aircrafts[game_state@.aircrafts.len() - 1],
                    game_state@.airports[0],
                ),
            ) + (if i >= 1 {
                dont_crash_pair_commands(game_state@, 0)
            } else {
                Seq::empty()
            }) + (if i >= 2 {
                dont_crash_pair_commands(game_state@, 1)
            } else {
                Seq::empty()
            }),
        decreases 2 - i,
    {
        let ghost before = command_views(commands@);
        if i + 1 < game_state.airports.len() {
            let aircraft = game_state.aircraft_at(i);
            let airport = game_state.airport_at(i + 1);
            push_choice(&mut commands, aircraft, choose_dont_crash_pair(aircraft, &airport));
        }
        assert(command_views(commands@) =~= before + dont_crash_pair_commands(
            game_state@,
            i as int,
        ));
        i += 1;
    }
    commands
}

impl Policy {
    /// Looks a level identifier up in the table.
    pub fn for_level(level_id: &str) -> (policy: Policy)
        ensures
            policy == policy_for(level_id@),
    {
        if same_text(level_id, "01GH1E14E88DT3BYWHNYW85ZRV") {
            Policy::FirstSteps
        } else if same_text(level_id, "01GH1E14EDA3AK5MQRNP811WME") {
            Policy::Turning
        } else if same_text(level_id, "01GH1E14EDD4FRTAGA4P0S80SB") {
            Policy::LoopAround
        } else if same_text(level_id, "01GH1E14EEPNDCXVZXAZ6ZKJEC") {
            Policy::Multiplane
        } else if same_text(level_id, "01GH1E14EFSJTVQXP0P49FSZA7") {
            Policy::CrissCross
        } else if same_text(level_id, "01GH1E14EFSVXHWHRRSEAJRZ6R") {
            Policy::WrongWay
        } else if same_text(level_id, "01GH1E14EGT9EGBZ1MEWWB4S7M") {
            Policy::DontCrash
        } else {
            Policy::Unrecognized
        }
    }

    /// Runs the policy on a snapshot. A snapshot without aircraft or
    /// airports gives the empty list, whatever the policy.
    pub fn run(self, game_state: &GameState) -> (commands: Vec<Command>)
        ensures
            command_views(commands@) == policy_commands(self, game_state@),
            headings_valid(command_views(commands@)),
            commands@.len() <= game_state@.aircrafts.len(),
            game_state@.distinct_ids() ==> one_per_aircraft(command_views(commands@)),
    {
        proof {
            lemma_headings_valid(self, game_state@);
            lemma_one_command_per_aircraft(self, game_state@);
        }
        if game_state.is_vacant() {
            return no_commands();
        }
        match self {
            Policy::FirstSteps => first_steps(game_state),
            Policy::Turning => turning(game_state),
            Policy::LoopAround => loop_around(game_state),
            Policy::Multiplane => multiplane(game_state),
            Policy::CrissCross => criss_cross(game_state),
            Policy::WrongWay => wrong_way(game_state),
            Policy::DontCrash => dont_crash(game_state),
            Policy::Unrecognized => no_commands(),
        }
    }
}

/// The commands to send for this tick: those of the policy that the level
/// selects; none for a level that the table does not know, and none for a
/// snapshot without aircraft or airports.
pub fn generate_commands(level_id: &str, game_state: &GameState) -> (commands: Vec<Command>)
    ensures
        command_views(commands@) == policy_commands(policy_for(level_id@), game_state@),
        headings_valid(command_views(commands@)),
        commands@.len() <= game_state@.aircrafts.len(),
        game_state@.distinct_ids() ==> one_per_aircraft(command_views(commands@)),
{
    proof {
        lemma_headings_valid(policy_for(level_id@), game_state@);
        lemma_one_command_per_aircraft(policy_for(level_id@), game_state@);
    }
    if game_state.is_vacant() {
        return no_commands();
    }
    Policy::for_level(level_id).run(game_state)
}

} // verus!

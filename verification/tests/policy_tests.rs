use flight_control::command::{encode_commands, Command};
use flight_control::model::{Aircraft, Airport, GameState, Position};
use flight_control::policy::{
    criss_cross, dont_crash, first_steps, generate_commands, loop_around, multiplane, turning,
    wrong_way, Policy,
};

const FIRST_STEPS: &str = "01GH1E14E88DT3BYWHNYW85ZRV";
const TURNING: &str = "01GH1E14EDA3AK5MQRNP811WME";
const LOOP_AROUND: &str = "01GH1E14EDD4FRTAGA4P0S80SB";
const MULTIPLANE: &str = "01GH1E14EEPNDCXVZXAZ6ZKJEC";
const CRISS_CROSS: &str = "01GH1E14EFSJTVQXP0P49FSZA7";
const WRONG_WAY: &str = "01GH1E14EFSVXHWHRRSEAJRZ6R";
const DONT_CRASH: &str = "01GH1E14EGT9EGBZ1MEWWB4S7M";

fn levels() -> Vec<&'static str> {
    vec![FIRST_STEPS, TURNING, LOOP_AROUND, MULTIPLANE, CRISS_CROSS, WRONG_WAY, DONT_CRASH, "unknown", ""]
}

fn at(x: i64, y: i64) -> Position {
    Position { x: x * 1000, y: y * 1000 }
}

fn plane(id: &str, x: i64, y: i64, direction: i32) -> Aircraft {
    Aircraft { id: id.to_string(), position: at(x, y), direction }
}

fn port(x: i64, y: i64, direction: i32) -> Airport {
    Airport { position: at(x, y), direction }
}

fn world(aircrafts: Vec<Aircraft>, airports: Vec<Airport>) -> GameState {
    GameState { aircrafts, airports }
}

fn lines(commands: &Vec<Command>) -> Vec<String> {
    encode_commands(commands)
}

#[test]
fn turning_first_phase_steps_down_to_45() {
    let state = world(vec![plane("a1", 0, 50, 60)], vec![port(0, 100, 0)]);
    assert_eq!(lines(&turning(&state)), vec!["HEAD a1 45".to_string()]);
    assert_eq!(lines(&generate_commands(TURNING, &state)), vec!["HEAD a1 45".to_string()]);
}

#[test]
fn turning_first_phase_is_bounded_by_the_step() {
    let state = world(vec![plane("a1", 0, 50, 90)], vec![port(0, 100, 0)]);
    assert_eq!(lines(&turning(&state)), vec!["HEAD a1 70".to_string()]);
    let state = world(vec![plane("a1", 0, 50, 51)], vec![port(0, 100, 0)]);
    assert_eq!(lines(&turning(&state)), vec!["HEAD a1 45".to_string()]);
}

#[test]
fn turning_waits_before_the_approach_line() {
    let state = world(vec![plane("a1", 0, 50, 45)], vec![port(0, 100, 0)]);
    assert!(turning(&state).is_empty());
    let state = world(vec![plane("a1", 0, 91, 45)], vec![port(0, 100, 0)]);
    assert!(turning(&state).is_empty());
}

#[test]
fn turning_final_alignment_at_the_approach_line() {
    let state = world(vec![plane("a1", 0, 92, 45)], vec![port(0, 100, 0)]);
    assert_eq!(lines(&turning(&state)), vec!["HEAD a1 25".to_string()]);
    let state = world(vec![plane("a1", 0, 95, 15)], vec![port(0, 100, 0)]);
    assert_eq!(lines(&turning(&state)), vec!["HEAD a1 0".to_string()]);
    let state = world(vec![plane("a1", 0, 95, 0)], vec![port(0, 100, 0)]);
    assert!(turning(&state).is_empty());
}

#[test]
fn turning_approach_line_is_exact_to_the_thousandth() {
    let airport = Airport { position: Position { x: 0, y: 100_000 }, direction: 0 };
    let below = Aircraft { id: "a".to_string(), position: Position { x: 0, y: 91_999 }, direction: 40 };
    let on = Aircraft { id: "a".to_string(), position: Position { x: 0, y: 92_000 }, direction: 40 };
    assert!(turning(&world(vec![below], vec![airport])).is_empty());
    assert_eq!(lines(&turning(&world(vec![on], vec![airport]))), vec!["HEAD a 20".to_string()]);
}

#[test]
fn turning_final_alignment_only_ever_lowers() {
    // The airport's heading is above the aircraft's: the heading is set to
    // it in one go, whatever the distance.
    let state = world(vec![plane("a1", 0, 95, 30)], vec![port(0, 100, 90)]);
    assert_eq!(lines(&turning(&state)), vec!["HEAD a1 90".to_string()]);
    let state = world(vec![plane("a1", 0, 95, 10)], vec![port(0, 100, 350)]);
    assert_eq!(lines(&turning(&state)), vec!["HEAD a1 350".to_string()]);
}

#[test]
fn turning_survives_extreme_coordinates() {
    let airport = Airport { position: Position { x: 0, y: i64::MIN }, direction: 0 };
    let aircraft = Aircraft { id: "a".to_string(), position: Position { x: 0, y: i64::MIN }, direction: 40 };
    assert_eq!(lines(&turning(&world(vec![aircraft], vec![airport]))), vec!["HEAD a 20".to_string()]);
}

#[test]
fn loop_around_phases_in_order() {
    let airports = vec![port(0, 0, 170)];
    let state = world(vec![plane("p", 50, 0, 100)], airports.clone());
    assert_eq!(lines(&loop_around(&state)), vec!["HEAD p 120".to_string()]);
    let state = world(vec![plane("p", 40, 0, 190)], airports.clone());
    assert_eq!(lines(&loop_around(&state)), vec!["HEAD p 198".to_string()]);
    let state = world(vec![plane("p", 50, 0, 198)], airports.clone());
    assert!(loop_around(&state).is_empty());
    let state = world(vec![plane("p", 10, 0, 198)], airports.clone());
    assert_eq!(lines(&loop_around(&state)), vec!["HEAD p 180".to_string()]);
    let state = world(vec![plane("p", 20, 0, 180)], airports.clone());
    assert!(loop_around(&state).is_empty());
    let state = world(vec![plane("p", 5, 0, 180)], airports.clone());
    assert_eq!(lines(&loop_around(&state)), vec!["HEAD p 170".to_string()]);
    let state = world(vec![plane("p", 5, 0, 200)], airports.clone());
    assert_eq!(lines(&loop_around(&state)), vec!["HEAD p 180".to_string()]);
    let state = world(vec![plane("p", 6, 0, 180)], airports.clone());
    assert!(loop_around(&state).is_empty());
    let state = world(vec![plane("p", 5, 0, 170)], airports);
    assert!(loop_around(&state).is_empty());
}

#[test]
fn multiplane_steers_every_aircraft_against_the_first_airport() {
    let state = world(
        vec![plane("a", -40, 0, 0), plane("b", -60, 0, 0), plane("c", 90, 0, 20), plane("d", 90, 0, 90)],
        vec![port(100, 0, 90), port(0, 0, 0)],
    );
    assert_eq!(
        lines(&multiplane(&state)),
        vec!["HEAD a 20".to_string(), "HEAD c 40".to_string()]
    );
    let state = world(vec![plane("a", 85, 0, 80), plane("b", 85, 0, 100)], vec![port(100, 0, 90)]);
    assert_eq!(
        lines(&multiplane(&state)),
        vec!["HEAD a 90".to_string(), "HEAD b 90".to_string()]
    );
}

#[test]
fn criss_cross_with_one_aircraft_is_empty() {
    for direction in [0, 100, 315, 320, 359] {
        for x in [-200, -110, 0, 60, 90, 200] {
            let state = world(vec![plane("a", x, 0, direction)], vec![port(0, 0, 0), port(10, 10, 90)]);
            assert!(criss_cross(&state).is_empty());
            assert!(generate_commands(CRISS_CROSS, &state).is_empty());
        }
    }
}

#[test]
fn criss_cross_with_one_airport_is_empty() {
    let state = world(vec![plane("a", -120, 0, 320), plane("b", 0, 50, 0)], vec![port(0, 0, 0)]);
    assert!(criss_cross(&state).is_empty());
}

#[test]
fn criss_cross_steers_the_first_aircraft_only() {
    let airports = vec![port(0, 0, 0), port(100, 0, 270)];
    let state = world(vec![plane("a", -120, 0, 320), plane("b", 0, 50, 0)], airports.clone());
    assert_eq!(lines(&criss_cross(&state)), vec!["HEAD a 310".to_string()]);
    let state = world(vec![plane("a", 0, 0, 310), plane("b", 0, 50, 0)], airports.clone());
    assert_eq!(lines(&criss_cross(&state)), vec!["HEAD a 330".to_string()]);
    let state = world(vec![plane("a", 0, 0, 350), plane("b", 0, 50, 0)], airports.clone());
    assert!(criss_cross(&state).is_empty());
    let state = world(vec![plane("a", 0, 60, 310), plane("b", 0, 50, 0)], airports.clone());
    assert!(criss_cross(&state).is_empty());
    let state = world(vec![plane("a", 95, 60, 330), plane("b", 0, 50, 0)], airports.clone());
    assert_eq!(lines(&criss_cross(&state)), vec!["HEAD a 310".to_string()]);
    let state = world(vec![plane("a", 95, 60, 280), plane("b", 0, 50, 0)], airports.clone());
    assert_eq!(lines(&criss_cross(&state)), vec!["HEAD a 270".to_string()]);
    let state = world(vec![plane("a", 95, 60, 270), plane("b", 0, 50, 0)], airports);
    assert!(criss_cross(&state).is_empty());
}

#[test]
fn wrong_way_phases() {
    let airports = vec![port(0, 0, 270)];
    let state = world(vec![plane("w", 0, 0, 70)], airports.clone());
    assert_eq!(lines(&wrong_way(&state)), vec!["HEAD w 85".to_string()]);
    let state = world(vec![plane("w", 0, 0, 10)], airports.clone());
    assert_eq!(lines(&wrong_way(&state)), vec!["HEAD w 30".to_string()]);
    let state = world(vec![plane("w", 0, 20, 85)], airports.clone());
    assert!(wrong_way(&state).is_empty());
    let state = world(vec![plane("w", 0, 29, 85)], airports.clone());
    assert_eq!(lines(&wrong_way(&state)), vec!["HEAD w 65".to_string()]);
    let state = world(vec![plane("w", 0, 29, 10)], airports.clone());
    assert_eq!(lines(&wrong_way(&state)), vec!["HEAD w 350".to_string()]);
    let state = world(vec![plane("w", 0, 20, 350)], airports.clone());
    assert_eq!(lines(&wrong_way(&state)), vec!["HEAD w 330".to_string()]);
    let state = world(vec![plane("w", 0, 20, 290)], airports.clone());
    assert_eq!(lines(&wrong_way(&state)), vec!["HEAD w 270".to_string()]);
    let state = world(vec![plane("w", 0, 20, 291)], airports.clone());
    assert_eq!(lines(&wrong_way(&state)), vec!["HEAD w 271".to_string()]);
    let state = world(vec![plane("w", 0, 30, 250)], airports.clone());
    assert_eq!(lines(&wrong_way(&state)), vec!["HEAD w 270".to_string()]);
    let state = world(vec![plane("w", 0, 30, 270)], airports);
    assert!(wrong_way(&state).is_empty());
}

#[test]
fn dont_crash_with_two_aircraft_steers_the_last_only() {
    let airports = vec![port(0, -50, 180), port(0, 80, 90), port(0, 80, 90)];
    let state = world(vec![plane("a", 0, 80, 0), plane("b", 0, 80, 270)], airports.clone());
    assert_eq!(lines(&dont_crash(&state)), vec!["HEAD b 290".to_string()]);
    assert_eq!(lines(&generate_commands(DONT_CRASH, &state)), vec!["HEAD b 290".to_string()]);
    let state = world(vec![plane("a", 0, 80, 0), plane("b", 0, 80, 310)], airports.clone());
    assert!(dont_crash(&state).is_empty());
    let state = world(vec![plane("only", 0, 80, 300)], airports);
    assert_eq!(lines(&dont_crash(&state)), vec!["HEAD only 310".to_string()]);
}

#[test]
fn dont_crash_last_aircraft_phases() {
    let airports = vec![port(0, -50, 250)];
    let state = world(vec![plane("z", 0, 75, 270)], airports.clone());
    assert_eq!(lines(&dont_crash(&state)), vec!["HEAD z 290".to_string()]);
    let state = world(vec![plane("z", 0, 60, 310)], airports.clone());
    assert!(dont_crash(&state).is_empty());
    let state = world(vec![plane("z", 0, 55, 310)], airports.clone());
    assert_eq!(lines(&dont_crash(&state)), vec!["HEAD z 290".to_string()]);
    let state = world(vec![plane("z", 0, -11, 230)], airports.clone());
    assert_eq!(lines(&dont_crash(&state)), vec!["HEAD z 220".to_string()]);
    let state = world(vec![plane("z", 0, -20, 220)], airports.clone());
    assert!(dont_crash(&state).is_empty());
    let state = world(vec![plane("z", 0, -25, 220)], airports.clone());
    assert_eq!(lines(&dont_crash(&state)), vec!["HEAD z 240".to_string()]);
    let state = world(vec![plane("z", 0, -25, 240)], airports.clone());
    assert_eq!(lines(&dont_crash(&state)), vec!["HEAD z 250".to_string()]);
    let state = world(vec![plane("z", 0, -25, 250)], airports);
    assert!(dont_crash(&state).is_empty());
}

#[test]
fn dont_crash_with_three_aircraft_steers_last_then_first_then_second() {
    let airports = vec![port(0, -50, 180), port(0, 20, 90), port(0, 40, 100)];
    let state = world(
        vec![plane("a", 0, 80, 270), plane("b", 0, 45, 130), plane("c", 0, 80, 300)],
        airports.clone(),
    );
    assert_eq!(
        lines(&dont_crash(&state)),
        vec!["HEAD c 310".to_string(), "HEAD a 280".to_string(), "HEAD b 110".to_string()]
    );
    let state = world(
        vec![plane("a", 0, 80, 280), plane("b", 0, 50, 130), plane("c", 0, 80, 310)],
        airports,
    );
    assert!(dont_crash(&state).is_empty());
}

#[test]
fn dont_crash_skips_an_aircraft_whose_airport_is_missing() {
    let state = world(
        vec![plane("a", 0, 80, 270), plane("b", 0, 80, 270), plane("c", 0, 80, 300)],
        vec![port(0, -50, 180), port(0, 20, 90)],
    );
    assert_eq!(
        lines(&dont_crash(&state)),
        vec!["HEAD c 310".to_string(), "HEAD a 280".to_string()]
    );
    let state = world(
        vec![plane("a", 0, 80, 270), plane("b", 0, 80, 270), plane("c", 0, 80, 300)],
        vec![port(0, -50, 180)],
    );
    assert_eq!(lines(&dont_crash(&state)), vec!["HEAD c 310".to_string()]);
}

#[test]
fn first_steps_is_always_empty() {
    let state = world(vec![plane("a", 0, 0, 300)], vec![port(0, 0, 0)]);
    assert!(first_steps(&state).is_empty());
    assert!(generate_commands(FIRST_STEPS, &state).is_empty());
}

#[test]
fn unknown_level_gives_no_commands() {
    let state = world(vec![plane("a", 0, 50, 60)], vec![port(0, 100, 0)]);
    assert!(generate_commands("unknown", &state).is_empty());
    assert!(generate_commands("", &state).is_empty());
    assert!(generate_commands("01GPZZRWH74XDWK98SNJFZV5FV", &state).is_empty());
    assert_eq!(Policy::for_level("unknown"), Policy::Unrecognized);
}

#[test]
fn levels_select_their_policies() {
    assert_eq!(Policy::for_level(FIRST_STEPS), Policy::FirstSteps);
    assert_eq!(Policy::for_level(TURNING), Policy::Turning);
    assert_eq!(Policy::for_level(LOOP_AROUND), Policy::LoopAround);
    assert_eq!(Policy::for_level(MULTIPLANE), Policy::Multiplane);
    assert_eq!(Policy::for_level(CRISS_CROSS), Policy::CrissCross);
    assert_eq!(Policy::for_level(WRONG_WAY), Policy::WrongWay);
    assert_eq!(Policy::for_level(DONT_CRASH), Policy::DontCrash);
}

#[test]
fn snapshot_without_aircraft_or_airports_gives_no_commands() {
    let no_aircraft = world(vec![], vec![port(0, 0, 0), port(1, 1, 1), port(2, 2, 2)]);
    let no_airports = world(vec![plane("a", 0, 80, 60), plane("b", 0, 80, 60), plane("c", 0, 80, 60)], vec![]);
    let nothing = world(vec![], vec![]);
    for state in [&no_aircraft, &no_airports, &nothing] {
        for level in levels() {
            assert!(generate_commands(level, state).is_empty());
            assert!(Policy::for_level(level).run(state).is_empty());
        }
        assert!(first_steps(state).is_empty());
        assert!(turning(state).is_empty());
        assert!(loop_around(state).is_empty());
        assert!(multiplane(state).is_empty());
        assert!(criss_cross(state).is_empty());
        assert!(wrong_way(state).is_empty());
        assert!(dont_crash(state).is_empty());
    }
}

#[test]
fn same_snapshot_gives_the_same_commands_one_per_aircraft() {
    let state = world(
        vec![plane("a", 0, 80, 10), plane("b", 95, 80, 300), plane("c", -120, 80, 320)],
        vec![port(0, 75, 90), port(0, 78, 100), port(0, 80, 110)],
    );
    let copy = state.clone();
    for level in levels() {
        let first = generate_commands(level, &state);
        let second = generate_commands(level, &state);
        let third = generate_commands(level, &copy);
        assert_eq!(first, second);
        assert_eq!(first, third);
        assert!(first.len() <= state.aircrafts.len());
        for i in 0..first.len() {
            assert!((0..=359).contains(&first[i].heading));
            for j in (i + 1)..first.len() {
                assert_ne!(first[i].aircraft_id, first[j].aircraft_id);
            }
        }
    }
}

#[test]
fn every_heading_stays_valid_for_wild_inputs() {
    let state = world(
        vec![
            Aircraft { id: "a".to_string(), position: Position { x: i64::MAX, y: i64::MIN }, direction: i32::MIN },
            Aircraft { id: "b".to_string(), position: Position { x: i64::MIN, y: i64::MAX }, direction: i32::MAX },
            Aircraft { id: "c".to_string(), position: Position { x: 0, y: 0 }, direction: -1 },
        ],
        vec![
            Airport { position: Position { x: i64::MIN, y: i64::MAX }, direction: i32::MAX },
            Airport { position: Position { x: i64::MAX, y: i64::MIN }, direction: i32::MIN },
            Airport { position: Position { x: 0, y: 0 }, direction: 725 },
        ],
    );
    for level in levels() {
        for command in generate_commands(level, &state) {
            assert!((0..=359).contains(&command.heading));
        }
    }
}

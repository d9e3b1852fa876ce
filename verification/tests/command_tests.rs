use flight_control::command::{append_decimal, encode_commands, Command};
use flight_control::endpoints::{create_game_url, game_page_url, socket_url};

#[test]
fn command_text_is_verb_id_heading() {
    let id = "01GH".to_string();
    assert_eq!(Command::new(&id, 45).encode(), "HEAD 01GH 45");
    assert_eq!(Command::new(&id, 0).encode(), "HEAD 01GH 0");
    assert_eq!(Command::new(&id, 359).encode(), "HEAD 01GH 359");
    assert_eq!(Command::new(&id, 100).encode(), "HEAD 01GH 100");
    assert_eq!(Command::new(&id, 7).encode(), "HEAD 01GH 7");
}

#[test]
fn command_text_matches_std_formatting_for_any_heading() {
    for heading in [i32::MIN, -360, -5, -1, 0, 9, 10, 99, 101, 1_000_000, i32::MAX] {
        let command = Command { aircraft_id: "x y".to_string(), heading };
        assert_eq!(command.encode(), format!("HEAD {} {}", "x y", heading));
    }
}

#[test]
fn command_new_keeps_its_parts() {
    let id = "plane".to_string();
    let command = Command::new(&id, 12);
    assert_eq!(command.aircraft_id, "plane");
    assert_eq!(command.heading, 12);
}

#[test]
fn append_decimal_appends_digits() {
    let mut out = "n=".to_string();
    append_decimal(&mut out, 0);
    append_decimal(&mut out, 305);
    append_decimal(&mut out, u32::MAX);
    assert_eq!(out, "n=03054294967295");
}

#[test]
fn encode_commands_keeps_order() {
    let commands = vec![
        Command { aircraft_id: "b".to_string(), heading: 20 },
        Command { aircraft_id: "a".to_string(), heading: 180 },
    ];
    assert_eq!(encode_commands(&commands), vec!["HEAD b 20".to_string(), "HEAD a 180".to_string()]);
    assert!(encode_commands(&Vec::new()).is_empty());
}

#[test]
fn addresses_of_the_service() {
    assert_eq!(game_page_url("g1"), "https://noflight.monad.fi/?id=g1");
    assert_eq!(create_game_url("L7"), "https://noflight.monad.fi/backend/api/levels/L7");
    assert_eq!(socket_url("tok"), "wss://noflight.monad.fi/backend/tok/");
    assert_eq!(socket_url(""), "wss://noflight.monad.fi/backend//");
}

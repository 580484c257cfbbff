use vx220::command::{
    handle_command, is_whitespace, parse_command, split_words, Command, CommandError,
};
use vx220::esp32::Publication;
use vx220::racebox::parser::parse_packet;
use vx220::telemetry::{ColorScheme, DriveMode, ESP32Data, TelemetryError, TelemetryState};
use vx220::text::{chars_of, contains, matches_at, starts_with};
use vx220::theme::preset_file;

fn engine(rpm: u16) -> ESP32Data {
    ESP32Data { rpm: Some(rpm), ..ESP32Data::default() }
}

fn position(latitude_e7: i32) -> vx220::racebox::parser::RaceBoxData {
    let mut payload = vec![0u8; 80];
    payload[..4].copy_from_slice(&[0xB5, 0x62, 0xFF, 0x01]);
    payload[28..32].copy_from_slice(&latitude_e7.to_le_bytes());
    parse_packet(&payload).unwrap()
}

fn words(line: &str) -> Vec<String> {
    split_words(line)
}

#[test]
fn new_snapshot_is_empty() {
    let state = TelemetryState::new();
    assert_eq!(state.latest_racebox_data, None);
    assert_eq!(state.latest_esp32_data, ESP32Data::default());
    assert_eq!(state.racebox_error, None);
    assert_eq!(state.esp32_error, None);
    assert_eq!(state.drive_mode, DriveMode::Road);
    assert_eq!(state.color_scheme, ColorScheme::Light);
    assert_eq!(state.get_drive_mode(), DriveMode::Road);
    assert_eq!(state.get_color_scheme(), ColorScheme::Light);
}

#[test]
fn samples_replace_each_other_whole() {
    let mut state = TelemetryState::new();
    let full = ESP32Data { fuel_level: Some(1), rpm: Some(2), ..ESP32Data::default() };
    state.set_latest_esp32_data(full);
    assert_eq!(state.latest_esp32_data, full);
    // The next sample lacks the fuel level: nothing of the old one is kept.
    state.set_latest_esp32_data(engine(3));
    assert_eq!(state.latest_esp32_data, engine(3));
    assert_eq!(state.latest_esp32_data.fuel_level, None);
    state.set_latest_racebox_data(position(1));
    state.set_latest_racebox_data(position(2));
    assert_eq!(state.latest_racebox_data, Some(position(2)));
    assert_eq!(state.latest_esp32_data, engine(3));
}

#[test]
fn publications_of_either_kind_are_written() {
    let mut state = TelemetryState::new();
    state.publish(Publication::Fresh(engine(1)));
    assert_eq!(state.latest_esp32_data, engine(1));
    state.publish(Publication::Retained(engine(2)));
    assert_eq!(state.latest_esp32_data, engine(2));
    assert_eq!(state.latest_racebox_data, None);
}

#[test]
fn two_writers_in_any_order_leave_whole_samples() {
    let engine_writes = [engine(1), engine(2), engine(3)];
    let position_writes = [position(10), position(20), position(30)];
    // Every way of taking turns: bit i of `turns` says who writes next.
    for turns in 0..64u32 {
        let mut state = TelemetryState::new();
        let (mut e, mut p) = (0, 0);
        for turn in 0..6 {
            let engine_next = (turns >> turn) & 1 == 1;
            if (engine_next && e < 3) || p >= 3 {
                state.set_latest_esp32_data(engine_writes[e]);
                e += 1;
            } else {
                state.set_latest_racebox_data(position_writes[p]);
                p += 1;
            }
            // What a reader sees is the last whole write of each writer.
            let seen_engine = if e == 0 { ESP32Data::default() } else { engine_writes[e - 1] };
            let seen_position = if p == 0 { None } else { Some(position_writes[p - 1]) };
            assert_eq!(state.latest_esp32_data, seen_engine);
            assert_eq!(state.latest_racebox_data, seen_position);
        }
        assert_eq!(state.latest_esp32_data, engine(3));
        assert_eq!(state.latest_racebox_data, Some(position(30)));
    }
}

#[test]
fn errors_are_kept_per_feed_with_their_time() {
    let mut state = TelemetryState::new();
    state.set_racebox_error("no adapter".to_string(), 1234);
    assert_eq!(
        state.racebox_error,
        Some((TelemetryError::BLE("no adapter".to_string()), 1234))
    );
    assert_eq!(state.esp32_error, None);
    state.set_esp32_error("device closed".to_string(), 5678);
    assert_eq!(
        state.esp32_error,
        Some((TelemetryError::ESP32("device closed".to_string()), 5678))
    );
    state.set_esp32_error("device closed again".to_string(), 6000);
    assert_eq!(
        state.esp32_error,
        Some((TelemetryError::ESP32("device closed again".to_string()), 6000))
    );
    state.clear_racebox_error();
    assert_eq!(state.racebox_error, None);
    assert!(state.esp32_error.is_some());
    state.clear_esp32_error();
    assert_eq!(state.esp32_error, None);
    state.clear_esp32_error();
    assert_eq!(state.esp32_error, None);
}

#[test]
fn errors_leave_the_samples_alone() {
    let mut state = TelemetryState::new();
    state.set_latest_esp32_data(engine(9));
    state.set_latest_racebox_data(position(9));
    state.set_esp32_error("x".to_string(), 1);
    state.set_racebox_error("y".to_string(), 2);
    state.clear_esp32_error();
    assert_eq!(state.latest_esp32_data, engine(9));
    assert_eq!(state.latest_racebox_data, Some(position(9)));
}

#[test]
fn selectors_are_set_and_read() {
    let mut state = TelemetryState::new();
    state.set_drive_mode(DriveMode::Track);
    assert_eq!(state.get_drive_mode(), DriveMode::Track);
    assert_eq!(state.get_color_scheme(), ColorScheme::Light);
    state.set_color_scheme(ColorScheme::Dark);
    assert_eq!(state.get_color_scheme(), ColorScheme::Dark);
    assert_eq!(state.get_drive_mode(), DriveMode::Track);
    state.set_drive_mode(DriveMode::Road);
    state.set_color_scheme(ColorScheme::Light);
    assert_eq!(state.get_drive_mode(), DriveMode::Road);
    assert_eq!(state.get_color_scheme(), ColorScheme::Light);
}

#[test]
fn requests_that_are_understood() {
    let mut state = TelemetryState::new();
    assert_eq!(handle_command(&mut state, "set_mode Track"), "OK\n");
    assert_eq!(state.get_drive_mode(), DriveMode::Track);
    assert_eq!(handle_command(&mut state, "set_scheme Dark"), "OK\n");
    assert_eq!(state.get_color_scheme(), ColorScheme::Dark);
    assert_eq!(handle_command(&mut state, "set_mode Road"), "OK\n");
    assert_eq!(state.get_drive_mode(), DriveMode::Road);
    assert_eq!(handle_command(&mut state, "set_scheme Light"), "OK\n");
    assert_eq!(state.get_color_scheme(), ColorScheme::Light);
}

#[test]
fn white_space_around_a_request_does_not_matter() {
    let mut state = TelemetryState::new();
    assert_eq!(handle_command(&mut state, "  set_mode \t Track \r"), "OK\n");
    assert_eq!(state.get_drive_mode(), DriveMode::Track);
    assert_eq!(handle_command(&mut state, "\u{3000}set_scheme\u{a0}Dark\u{2028}"), "OK\n");
    assert_eq!(state.get_color_scheme(), ColorScheme::Dark);
}

#[test]
fn requests_that_are_not_understood() {
    let mut state = TelemetryState::new();
    assert_eq!(handle_command(&mut state, "set_mode Sport"), "ERR invalid mode: Sport\n");
    assert_eq!(handle_command(&mut state, "set_mode road"), "ERR invalid mode: road\n");
    assert_eq!(handle_command(&mut state, "set_scheme Blue"), "ERR invalid scheme: Blue\n");
    assert_eq!(handle_command(&mut state, "set_scheme  Track"), "ERR invalid scheme: Track\n");
    assert_eq!(handle_command(&mut state, ""), "ERR unknown command\n");
    assert_eq!(handle_command(&mut state, "   "), "ERR unknown command\n");
    assert_eq!(handle_command(&mut state, "set_mode"), "ERR unknown command\n");
    assert_eq!(handle_command(&mut state, "set_mode Track now"), "ERR unknown command\n");
    assert_eq!(handle_command(&mut state, "SET_MODE Track"), "ERR unknown command\n");
    assert_eq!(handle_command(&mut state, "get_mode Track"), "ERR unknown command\n");
    assert_eq!(handle_command(&mut state, "set_modeTrack"), "ERR unknown command\n");
    assert_eq!(state.get_drive_mode(), DriveMode::Road);
    assert_eq!(state.get_color_scheme(), ColorScheme::Light);
}

#[test]
fn requests_leave_the_samples_alone() {
    let mut state = TelemetryState::new();
    state.set_latest_esp32_data(engine(7));
    state.set_esp32_error("x".to_string(), 3);
    handle_command(&mut state, "set_mode Track");
    handle_command(&mut state, "nonsense");
    assert_eq!(state.latest_esp32_data, engine(7));
    assert_eq!(state.esp32_error, Some((TelemetryError::ESP32("x".to_string()), 3)));
}

#[test]
fn lines_are_split_at_white_space() {
    assert_eq!(words("set_mode Road"), vec!["set_mode", "Road"]);
    assert_eq!(words("  a  bb\tccc\n"), vec!["a", "bb", "ccc"]);
    assert_eq!(words("one"), vec!["one"]);
    assert_eq!(words(""), Vec::<String>::new());
    assert_eq!(words(" \t\r\n"), Vec::<String>::new());
    assert_eq!(words("x\u{2003}y"), vec!["x", "y"]);
    assert_eq!(words("gr\u{fc}n bl\u{e4}u"), vec!["gr\u{fc}n", "bl\u{e4}u"]);
}

#[test]
fn splitting_agrees_with_the_standard_one() {
    let lines = [
        "set_mode Road",
        " lead",
        "trail ",
        "a\u{b}b\u{c}c\u{85}d\u{1680}e\u{2000}f\u{200a}g\u{2029}h\u{202f}i\u{205f}j",
        "zero\u{200b}width is no space",
        "\u{feff}bom",
    ];
    for line in lines {
        let expected: Vec<String> = line.split_whitespace().map(|w| w.to_string()).collect();
        assert_eq!(words(line), expected);
    }
}

#[test]
fn white_space_characters() {
    for code in 0..0x11_0000u32 {
        if let Some(c) = char::from_u32(code) {
            assert_eq!(is_whitespace(c), c.is_whitespace(), "U+{:04X}", code);
        }
    }
}

#[test]
fn words_are_read_as_commands() {
    let read = |line: &str| parse_command(&words(line));
    assert_eq!(read("set_mode Road"), Ok(Command::SetMode(DriveMode::Road)));
    assert_eq!(read("set_mode Track"), Ok(Command::SetMode(DriveMode::Track)));
    assert_eq!(read("set_scheme Light"), Ok(Command::SetScheme(ColorScheme::Light)));
    assert_eq!(read("set_scheme Dark"), Ok(Command::SetScheme(ColorScheme::Dark)));
    assert_eq!(read("set_mode Dark"), Err(CommandError::InvalidMode));
    assert_eq!(read("set_scheme Road"), Err(CommandError::InvalidScheme));
    assert_eq!(read("set_scheme"), Err(CommandError::UnknownCommand));
    assert_eq!(read("Road set_mode"), Err(CommandError::UnknownCommand));
}

#[test]
fn text_is_searched_by_characters() {
    assert!(contains("hello world", "lo wo"));
    assert!(contains("hello", ""));
    assert!(contains("", ""));
    assert!(contains("hello", "hello"));
    assert!(contains("hello", "o"));
    assert!(!contains("hello", "hello!"));
    assert!(!contains("", "x"));
    assert!(!contains("hello", "L"));
    assert!(contains("gr\u{fc}n", "\u{fc}n"));
    assert!(starts_with("hello", "he"));
    assert!(starts_with("hello", ""));
    assert!(!starts_with("hello", "el"));
    assert!(!starts_with("he", "hello"));
    assert_eq!(chars_of("a\u{fc}\u{1F3CE}"), vec!['a', '\u{fc}', '\u{1F3CE}']);
    let hay = chars_of("abcabc");
    let needle = chars_of("bc");
    assert!(matches_at(&hay, &needle, 1));
    assert!(matches_at(&hay, &needle, 4));
    assert!(!matches_at(&hay, &needle, 0));
    assert!(!matches_at(&hay, &needle, 5));
    assert!(!matches_at(&hay, &needle, usize::MAX));
}

#[test]
fn theme_file_of_each_preset() {
    assert_eq!(preset_file(DriveMode::Road, ColorScheme::Light), "light_road.yml");
    assert_eq!(preset_file(DriveMode::Road, ColorScheme::Dark), "dark_road.yml");
    assert_eq!(preset_file(DriveMode::Track, ColorScheme::Light), "light_race.yml");
    assert_eq!(preset_file(DriveMode::Track, ColorScheme::Dark), "dark_race.yml");
}

use chat_plays_chess::command::Command;
use chat_plays_chess::command::GameMode;
use chat_plays_chess::command::Setting;
use chat_plays_chess::settings::SettingsVotes;
use chat_plays_chess::text::ascii_lowercase;
use chat_plays_chess::text::u64_to_string;

#[test]
fn game_command_parses_action() {
    let cmd = Command::from_str("!game e2e4").expect("command");
    match cmd {
        Command::VoteGame { action } => assert_eq!(action, "e2e4"),
        _ => panic!("wrong variant"),
    }
}

#[test]
fn game_command_found_anywhere_in_line() {
    let cmd = Command::from_str("hello there !game resign thanks").expect("command");
    match cmd {
        Command::VoteGame { action } => assert_eq!(action, "resign"),
        _ => panic!("wrong variant"),
    }
}

#[test]
fn setting_command_reads_switch() {
    let cmd = Command::from_str("!bullet on").expect("command");
    match cmd {
        Command::VoteSetting { setting: Setting::GameMode(GameMode::Bullet), on } => {
            assert!(on)
        },
        _ => panic!("wrong variant"),
    }
    let cmd = Command::from_str("!classical off").expect("command");
    match cmd {
        Command::VoteSetting { setting: Setting::GameMode(GameMode::Classical), on } => {
            assert!(!on)
        },
        _ => panic!("wrong variant"),
    }
    // Any other argument counts as off.
    let cmd = Command::from_str("!rapid maybe").expect("command");
    match cmd {
        Command::VoteSetting { setting: Setting::GameMode(GameMode::Rapid), on } => {
            assert!(!on)
        },
        _ => panic!("wrong variant"),
    }
}

#[test]
fn non_commands_are_rejected() {
    assert!(Command::from_str("just chatting").is_err());
    assert!(Command::from_str("!game").is_err());
    assert!(Command::from_str("!gamer e2e4").is_err());
    assert!(Command::from_str("!game    ").is_err());
}

#[test]
fn whitespace_run_is_skipped() {
    let cmd = Command::from_str("!game   delay").expect("command");
    match cmd {
        Command::VoteGame { action } => assert_eq!(action, "delay"),
        _ => panic!("wrong variant"),
    }
}

#[test]
fn command_to_string_round() {
    let cmd = Command::from_str("!bullet on").expect("command");
    assert_eq!(cmd.to_string(), "bullet on");
}

#[test]
fn lowercase_folds_ascii_only() {
    assert_eq!(ascii_lowercase("DeLaY"), "delay");
    assert_eq!(ascii_lowercase("E2E4"), "e2e4");
    assert_eq!(ascii_lowercase("abc_9"), "abc_9");
}

#[test]
fn decimal_rendering() {
    assert_eq!(u64_to_string(0), "0");
    assert_eq!(u64_to_string(7), "7");
    assert_eq!(u64_to_string(12034), "12034");
    assert_eq!(u64_to_string(u64::MAX), "18446744073709551615");
}

#[test]
fn settings_denominator_is_the_union() {
    let mut votes = SettingsVotes::new();
    votes.add_game_mode_vote("alice".to_string(), GameMode::Bullet, true);
    votes.add_game_mode_vote("alice".to_string(), GameMode::Rapid, true);
    votes.add_game_mode_vote("bob".to_string(), GameMode::Rapid, true);
    votes.add_game_mode_vote("carol".to_string(), GameMode::Classical, true);
    let settings = votes.get_settings();
    assert_eq!(settings.total, 3);
    assert_eq!(settings.bullet, 1);
    assert_eq!(settings.rapid, 2);
    assert_eq!(settings.classical, 1);
    assert!(!settings.game_modes.bullet);
    assert!(settings.game_modes.rapid);
    assert!(!settings.game_modes.classical);
}

#[test]
fn settings_half_is_enough() {
    let mut votes = SettingsVotes::new();
    votes.add_game_mode_vote("a".to_string(), GameMode::Bullet, true);
    votes.add_game_mode_vote("b".to_string(), GameMode::Rapid, true);
    let settings = votes.get_settings();
    assert_eq!(settings.total, 2);
    assert!(settings.game_modes.bullet);
    assert!(settings.game_modes.rapid);
    assert!(!settings.game_modes.classical);
}

#[test]
fn settings_empty_means_all_off() {
    let votes = SettingsVotes::new();
    let settings = votes.get_settings();
    assert_eq!(settings.total, 0);
    assert!(!settings.game_modes.bullet);
    assert!(!settings.game_modes.rapid);
    assert!(!settings.game_modes.classical);
}

#[test]
fn settings_vote_off_removes_and_remove_user_clears() {
    let mut votes = SettingsVotes::new();
    votes.add_game_mode_vote("a".to_string(), GameMode::Bullet, true);
    votes.add_game_mode_vote("a".to_string(), GameMode::Bullet, false);
    assert_eq!(votes.get_settings().bullet, 0);

    votes.add_game_mode_vote("b".to_string(), GameMode::Bullet, true);
    votes.add_game_mode_vote("b".to_string(), GameMode::Rapid, true);
    votes.remove_user(&"b".to_string());
    let settings = votes.get_settings();
    assert_eq!(settings.total, 0);
}

#[test]
fn settings_lines_show_percentages() {
    let mut votes = SettingsVotes::new();
    votes.add_game_mode_vote("a".to_string(), GameMode::Bullet, true);
    votes.add_game_mode_vote("b".to_string(), GameMode::Rapid, true);
    votes.add_game_mode_vote("c".to_string(), GameMode::Rapid, true);
    let settings = votes.get_settings();
    let lines = settings.lines();
    assert_eq!(lines.len(), 4);
    assert_eq!(lines[0], "Bullet: off (33.333%)");
    assert_eq!(lines[1], "Blitz: always on");
    assert_eq!(lines[2], "Rapid: on (66.667%)");
    assert_eq!(lines[3], "Classical: off: no votes");
}

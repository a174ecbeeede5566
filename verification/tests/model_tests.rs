use chat_plays_chess::model::Clip;
use chat_plays_chess::model::Model;
use chat_plays_chess::model::Delays;
use chat_plays_chess::model::GameVotes;
use chat_plays_chess::model::Speed;
use chat_plays_chess::model::Timer;
use chat_plays_chess::model::VoteStats;
use chat_plays_chess::model::vote_parameters;
use chat_plays_chess::collections::StrMap;

#[test]
fn timer_new_splits_minutes_and_seconds() {
    let t = Timer::new(90_500);
    assert_eq!(t.minutes, 1);
    assert_eq!(t.seconds, 30);
}

#[test]
fn timer_elapse_subtracts() {
    let mut t = Timer::new(120_000);
    t.elapse(30_000);
    assert_eq!(t.minutes, 1);
    assert_eq!(t.seconds, 30);
}

#[test]
fn timer_elapse_saturates_at_zero() {
    let mut t = Timer::new(5_000);
    t.elapse(10_000);
    assert_eq!(t.minutes, 0);
    assert_eq!(t.seconds, 0);
    t.elapse(1);
    assert_eq!(t.minutes, 0);
    assert_eq!(t.seconds, 0);
}

#[test]
fn timer_elapse_is_monotone() {
    let mut t = Timer::new(61_000);
    let before = t.minutes * 60 + t.seconds;
    t.elapse(1_000);
    let after = t.minutes * 60 + t.seconds;
    assert!(after <= before);
}

#[test]
fn timer_to_string_pads_seconds() {
    let t = Timer::new(65_000);
    assert_eq!(t.to_string(), "1:05");
    let t2 = Timer::new(600_000);
    assert_eq!(t2.to_string(), "10:00");
    let t3 = Timer::new(59_000);
    assert_eq!(t3.to_string(), "0:59");
}

#[test]
fn delays_add_caps_at_max() {
    let mut d = Delays::new(2);
    assert!(d.can_delay());
    d.add_delay();
    d.add_delay();
    assert_eq!(d.current, 2);
    assert!(!d.can_delay());
    d.add_delay();
    assert_eq!(d.current, 2);
}

#[test]
fn delays_to_string_shows_budget() {
    let mut d = Delays::new(6);
    d.add_delay();
    assert_eq!(d.to_string(), "Delays (1/6)");
}

#[test]
fn vote_stats_update_changes_is_difference() {
    let prev = VoteStats { vote_changes: 0, total_votes: 3 };
    let mut new = VoteStats { vote_changes: 0, total_votes: 5 };
    VoteStats::update_changes(&prev, &mut new);
    assert_eq!(new.vote_changes, 2);
    assert_eq!(new.total_votes, 5);

    let mut down = VoteStats { vote_changes: 0, total_votes: 1 };
    VoteStats::update_changes(&prev, &mut down);
    assert_eq!(down.vote_changes, -2);
}

#[test]
fn vote_stats_to_string_marks_changes() {
    let up = VoteStats { vote_changes: 2, total_votes: 5 };
    assert_eq!(up.to_string(), "5 (+2)");
    let down = VoteStats { vote_changes: -1, total_votes: 4 };
    assert_eq!(down.to_string(), "4 (-1)");
    let flat = VoteStats { vote_changes: 0, total_votes: 4 };
    assert_eq!(flat.to_string(), "4 ");
}

#[test]
fn vote_parameters_follow_speed_table() {
    assert_eq!(vote_parameters(&Speed::UltraBullet), (3, 2));
    assert_eq!(vote_parameters(&Speed::Bullet), (5, 5));
    assert_eq!(vote_parameters(&Speed::Blitz), (6, 12));
    assert_eq!(vote_parameters(&Speed::Rapid), (8, 36));
    assert_eq!(vote_parameters(&Speed::Classical), (10, 72));
    assert_eq!(vote_parameters(&Speed::Correspondence), (1, 1));
}

#[test]
fn clip_file_path_names_the_asset() {
    assert_eq!(Clip::Capture.file_path(), "assets/audio/capture.mp3");
    assert_eq!(Clip::Win.to_string(), "win");
}

#[test]
fn game_votes_lines_sort_by_total() {
    let mut votes: StrMap<VoteStats> = StrMap::new();
    votes.insert(
        "e2e4".to_string(),
        VoteStats { vote_changes: 0, total_votes: 1 },
    );
    votes.insert(
        "d2d4".to_string(),
        VoteStats { vote_changes: 0, total_votes: 3 },
    );
    let gv = GameVotes { seconds_remaining: 7, votes, delays: Delays::new(6) };
    let lines = gv.lines();
    assert_eq!(lines.len(), 5);
    assert_eq!(lines[0], "Delays (0/6)");
    assert_eq!(lines[1], "");
    assert_eq!(lines[2], "Votes (7 seconds left):");
    assert_eq!(lines[3], "d2d4: 3 ");
    assert_eq!(lines[4], "e2e4: 1 ");
}

#[test]
fn model_default_is_the_idle_snapshot() {
    let m = Model::default();
    assert_eq!(m.us.name, "Twitch");
    assert_eq!(m.opponent.name, "Unknown");
    assert!(m.chat_commands.is_empty());
    assert_eq!(m.game_votes.seconds_remaining, 30);
    assert_eq!(m.game_votes.delays.max, 6);
    assert!(m.settings.game_modes.bullet);
    assert_eq!(m.board, chat_plays_chess::board::startpos_fen());
}

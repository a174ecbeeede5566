use chat_plays_chess::board::board_from_moves;
use chat_plays_chess::board::startpos_fen;
use chat_plays_chess::events::EventQueue;
use chat_plays_chess::game::Game;
use chat_plays_chess::game::GameClock;
use chat_plays_chess::game::GameFullInfo;
use chat_plays_chess::game::GameManager;
use chat_plays_chess::game::GamePlayer;
use chat_plays_chess::game::GameStartInfo;
use chat_plays_chess::game::GameStateInfo;
use chat_plays_chess::model::Color;
use chat_plays_chess::model::Speed;

fn start_info(game_id: &str) -> GameStartInfo {
    GameStartInfo {
        game_id: game_id.to_string(),
        fen: startpos_fen(),
        color: Color::White,
        speed: Speed::Blitz,
        seconds_left: Some(300),
        opponent_id: Some("opp".to_string()),
        opponent_username: "Opponent".to_string(),
        opponent_rating: Some(1500),
        is_my_turn: true,
        last_move: "".to_string(),
    }
}

fn state_info(moves: &str, status: &str, winner: Option<&str>) -> GameStateInfo {
    GameStateInfo {
        moves: moves.to_string(),
        wtime: 300_000,
        btime: 290_000,
        winc: 3_000,
        binc: 3_000,
        status: status.to_string(),
        winner: winner.map(|w| w.to_string()),
    }
}

#[test]
fn from_game_start_reads_the_event() {
    let g = Game::from_game_start(&start_info("g1"), 7);
    assert_eq!(g.game_id, "g1");
    assert_eq!(g.timestamp, 7);
    assert_eq!(g.board, startpos_fen());
    assert!(g.is_our_turn);
    assert_eq!(g.us.name, "Twitch");
    assert_eq!(g.opponent.name, "opp");
    assert_eq!(g.opponent.rating, Some(1500));
    assert_eq!(g.clock_settings.unwrap().limit, 5);
    assert!(!g.finished);
    assert_eq!(g.us.timer.minutes, 5);
}

#[test]
fn board_follows_the_replayed_move_list() {
    let mut g = Game::from_game_start(&start_info("g1"), 0);
    g.process_game_state(&state_info("e2e4 e7e5", "started", None));
    let expected = board_from_moves(&vec!["e2e4".to_string(), "e7e5".to_string()]).unwrap();
    assert_eq!(g.board, expected);
    assert_eq!(g.move_history, vec!["e2e4".to_string(), "e7e5".to_string()]);
    assert_eq!(g.last_move, Some("e7e5".to_string()));
    assert!(g.is_our_turn);
    assert!(g.timers_started);
    assert!(!g.finished);
    assert_eq!(g.us.timer.minutes, 5);
    assert_eq!(g.opponent.timer.minutes, 4);
}

#[test]
fn terminal_status_marks_the_game_finished() {
    let mut g = Game::from_game_start(&start_info("g1"), 0);
    g.process_game_state(&state_info("f2f3 e7e5 g2g4 d8h4", "mate", Some("black")));
    assert!(g.finished);
}

#[test]
fn from_game_full_fixes_our_color_by_id() {
    let full = GameFullInfo {
        id: "g2".to_string(),
        speed: Speed::Rapid,
        initial_fen: Some("startpos".to_string()),
        clock: Some(GameClock { initial: 600_000, increment: 10_000 }),
        white: GamePlayer { id: "other".to_string(), name: "Other".to_string(), rating: Some(1800) },
        black: GamePlayer { id: "us".to_string(), name: "Us".to_string(), rating: Some(1700) },
        state: Some(state_info("e2e4", "started", None)),
    };
    let g = Game::from_game_full("us", &full, 3).expect("we play black");
    assert!(matches!(g.us.color, Color::Black));
    assert_eq!(g.us.rating, Some(1700));
    assert_eq!(g.opponent.name, "Other");
    assert!(g.is_our_turn);
    assert_eq!(g.clock_settings.unwrap().limit, 10);
    assert_eq!(g.clock_settings.unwrap().increment, 10);

    let stranger = Game::from_game_full("nobody", &full, 3);
    assert!(stranger.is_none());
}

#[test]
fn elapse_time_only_runs_started_clocks() {
    let mut g = Game::from_game_start(&start_info("g1"), 0);
    g.elapse_time(60_000);
    assert_eq!(g.us.timer.minutes, 5);
    g.process_game_state(&state_info("e2e4 e7e5", "started", None));
    g.elapse_time(60_000);
    assert_eq!(g.us.timer.minutes, 4);
    assert_eq!(g.opponent.timer.minutes, 4);
}

#[test]
fn manager_elects_and_archives_the_current_game() {
    let mut m = GameManager::new("us".to_string());
    let mut q = EventQueue::new();
    m.process_game_start(&start_info("g1"), 1, &mut q);
    assert!(m.current_game().is_none());
    m.switch_game("g1", &mut q);
    assert_eq!(m.current_game().unwrap().game_id, "g1");

    m.process_game_update("g1", &state_info("f2f3 e7e5 g2g4 d8h4", "mate", Some("black")), &mut q);
    assert!(m.current_game().is_none());
    assert_eq!(m.last_game().unwrap().game_id, "g1");
}

#[test]
fn manager_ignores_updates_for_unknown_games() {
    let mut m = GameManager::new("us".to_string());
    let mut q = EventQueue::new();
    m.process_game_update("nope", &state_info("e2e4", "started", None), &mut q);
    assert!(q.is_empty());
}

#[test]
fn convert_move_rejects_illegal_text() {
    let mut m = GameManager::new("us".to_string());
    let mut q = EventQueue::new();
    m.process_game_start(&start_info("g1"), 1, &mut q);
    m.switch_game("g1", &mut q);
    assert_eq!(m.convert_move("e2e4"), Some("e2e4".to_string()));
    assert_eq!(m.convert_move("e7e5"), None);
    assert_eq!(m.convert_move("nonsense"), None);
}

#[test]
fn oldest_game_wins_the_election() {
    let mut m = GameManager::new("us".to_string());
    let mut q = EventQueue::new();
    m.process_game_start(&start_info("g1"), 5, &mut q);
    m.process_game_start(&start_info("g2"), 2, &mut q);
    assert_eq!(m.oldest_game_id(), Some("g2".to_string()));
}

#[test]
fn finish_marks_but_does_not_remove() {
    let mut m = GameManager::new("us".to_string());
    let mut q = EventQueue::new();
    m.process_game_start(&start_info("g1"), 1, &mut q);
    m.process_game_finish(&start_info("g1"));
    assert!(m.game("g1").unwrap().finished);
    // Switching to a finished game drops it and asks for a new one.
    m.switch_game("g1", &mut q);
    assert!(m.game("g1").is_none());
}

#[test]
fn switching_never_preempts_a_live_game() {
    let mut m = GameManager::new("us".to_string());
    let mut q = EventQueue::new();
    m.process_game_start(&start_info("g1"), 1, &mut q);
    m.switch_game("g1", &mut q);
    assert_eq!(m.current_game().unwrap().game_id, "g1");
    // A second unfinished game arrives; switching to it is a no-op while
    // the current game runs.
    m.current_game_id = None;
    m.process_game_start(&start_info("g2"), 2, &mut q);
    m.switch_game("g1", &mut q);
    m.switch_game("g2", &mut q);
    assert_eq!(m.current_game_id, Some("g1".to_string()));
    assert!(m.game("g2").is_some());
}

#[test]
fn a_duplicate_game_start_is_dropped() {
    let mut m = GameManager::new("us".to_string());
    let mut q = EventQueue::new();
    m.process_game_start(&start_info("g1"), 1, &mut q);
    // The same id arrives again: the stored game keeps its first timestamp.
    m.process_game_start(&start_info("g1"), 9, &mut q);
    assert_eq!(m.game("g1").unwrap().timestamp, 1);
    // Only the first start was announced.
    let mut started = 0;
    while let Some(e) = q.next() {
        if matches!(
            e,
            chat_plays_chess::events::Event::Notification(
                chat_plays_chess::events::Notification::Game(
                    chat_plays_chess::events::GameNotification::GameStarted { .. }
                )
            )
        ) {
            started += 1;
        }
    }
    assert_eq!(started, 1);
}

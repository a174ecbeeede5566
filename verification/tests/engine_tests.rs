use chat_plays_chess::board::startpos_fen;
use chat_plays_chess::challenge::ChallengeInfo;
use chat_plays_chess::challenge::ChallengeManager;
use chat_plays_chess::challenge::ChallengeStatus;
use chat_plays_chess::effects::Effect;
use chat_plays_chess::effects::RemoteCall;
use chat_plays_chess::engine::Bot;
use chat_plays_chess::engine::BotPerf;
use chat_plays_chess::engine::Engine;
use chat_plays_chess::events::Action;
use chat_plays_chess::events::EventQueue;
use chat_plays_chess::events::Event;
use chat_plays_chess::events::GameAction;
use chat_plays_chess::events::GameNotification;
use chat_plays_chess::events::LichessAction;
use chat_plays_chess::events::Notification;
use chat_plays_chess::game::GameStateInfo;
use chat_plays_chess::model::Clip;
use chat_plays_chess::external::AccountEvent;
use chat_plays_chess::external::LichessEvent;
use chat_plays_chess::game::GameStartInfo;
use chat_plays_chess::model::Color;
use chat_plays_chess::model::Speed;
use chat_plays_chess::votes::Vote;
use chat_plays_chess::votes::VoteTracker;

fn start_info(game_id: &str) -> GameStartInfo {
    GameStartInfo {
        game_id: game_id.to_string(),
        fen: startpos_fen(),
        color: Color::White,
        speed: Speed::Bullet,
        seconds_left: Some(120),
        opponent_id: Some("opp".to_string()),
        opponent_username: "Opponent".to_string(),
        opponent_rating: Some(1500),
        is_my_turn: true,
        last_move: "".to_string(),
    }
}

fn challenge(id: &str, challenger: &str, status: ChallengeStatus) -> ChallengeInfo {
    ChallengeInfo {
        id: id.to_string(),
        status,
        challenger_id: challenger.to_string(),
        variant: "standard".to_string(),
    }
}

#[test]
fn bullet_votes_elect_the_majority_move() {
    let mut tracker = VoteTracker::new(&Speed::Bullet);
    tracker.enable();
    assert!(tracker.add_vote("a".to_string(), Vote::Move("e2e4".to_string())));
    assert!(tracker.add_vote("b".to_string(), Vote::Move("e2e4".to_string())));
    assert!(tracker.add_vote("c".to_string(), Vote::Move("d2d4".to_string())));
    assert_eq!(tracker.get_top_vote(), Some(Vote::Move("e2e4".to_string())));
}

#[test]
fn resubmission_replaces_the_earlier_vote() {
    let mut tracker = VoteTracker::new(&Speed::Bullet);
    tracker.enable();
    assert!(tracker.add_vote("a".to_string(), Vote::Move("e2e4".to_string())));
    assert!(tracker.add_vote("a".to_string(), Vote::Move("d2d4".to_string())));
    assert!(tracker.add_vote("b".to_string(), Vote::Resign));
    assert!(tracker.add_vote("b".to_string(), Vote::Resign));
    // One ballot each: two entries, no move has a majority over the other.
    assert_eq!(tracker.votes.len(), 2);
    assert_eq!(tracker.get_top_vote(), Some(Vote::Move("d2d4".to_string())));
}

#[test]
fn disabled_tracker_admits_nothing() {
    let mut tracker = VoteTracker::new(&Speed::Bullet);
    assert!(!tracker.add_vote("a".to_string(), Vote::Draw));
    assert_eq!(tracker.votes.len(), 0);
}

#[test]
fn delay_budget_caps_delay_votes() {
    let mut tracker = VoteTracker::new(&Speed::Blitz);
    tracker.enable();
    // Six delay wins across six turns spend the whole budget.
    for _ in 0..6 {
        assert!(tracker.add_vote("a".to_string(), Vote::Delay));
        tracker.add_delay();
        tracker.reset_voting();
    }
    assert_eq!(tracker.delays.current, 6);
    // On the seventh turn delay votes are ignored.
    assert!(!tracker.add_vote("a".to_string(), Vote::Delay));
    assert!(!tracker.add_vote("b".to_string(), Vote::Delay));
    assert_eq!(tracker.votes.len(), 0);
}

#[test]
fn window_close_orders_voting_finished_before_the_move() {
    let mut engine = Engine::new("us".to_string());
    let _ = engine.next_internal_event();
    engine.process_vote_window_closed("g1".to_string());
    let first = engine.next_internal_event().unwrap();
    assert!(matches!(first, Event::Notification(Notification::VotingFinished)));
    let second = engine.next_internal_event().unwrap();
    assert!(matches!(
        second,
        Event::Action(Action::Lichess(LichessAction::Game { action: GameAction::Move, .. }))
    ));
}

#[test]
fn successful_commit_resets_votes_and_delays() {
    let mut engine = Engine::new("us".to_string());
    engine.game_votes.enable();
    engine.game_votes.add_vote("a".to_string(), Vote::Draw);
    engine.game_votes.add_delay();
    engine.process_commit_outcome(true);
    assert_eq!(engine.game_votes.votes.len(), 0);
    assert_eq!(engine.game_votes.delays.current, 0);
}

#[test]
fn failed_commit_keeps_the_votes() {
    let mut engine = Engine::new("us".to_string());
    engine.game_votes.enable();
    engine.game_votes.add_vote("a".to_string(), Vote::Draw);
    engine.process_commit_outcome(false);
    assert_eq!(engine.game_votes.votes.len(), 1);
}

#[test]
fn outbound_challenge_times_out_and_triggers_a_new_search() {
    let mut manager = ChallengeManager::new("us".to_string());
    let mut queue = EventQueue::new();
    let mut effects: Vec<Effect> = Vec::new();

    manager.process_challenge(challenge("c1", "us", ChallengeStatus::Created), 0, &mut queue, &mut effects);
    assert!(manager.outbound().is_some());
    assert!(matches!(
        effects.last().unwrap(),
        Effect::ScheduleChallengeCancel { seconds: 20, .. }
    ));

    // The remote cancellation arrives: the outbound slot clears and the
    // nullification is announced.
    manager.process_challenge(challenge("c1", "us", ChallengeStatus::Canceled), 1, &mut queue, &mut effects);
    assert!(manager.outbound().is_none());
    assert!(matches!(effects.last().unwrap(), Effect::CancelChallengeTimer));
    let mut engine = Engine::new("us".to_string());
    let _ = engine.next_internal_event();
    match queue.next().unwrap() {
        Event::Notification(n) => {
            assert!(matches!(n, Notification::OutboundChallengeNullified));
            engine.process_notification(n);
        },
        _ => panic!("expected a notification"),
    }
    // With no current game, the nullification arranges a new search.
    assert!(matches!(
        engine.next_internal_event().unwrap(),
        Event::Action(Action::FindNewGame)
    ));
}

#[test]
fn someone_elses_challenge_is_not_recorded() {
    let mut manager = ChallengeManager::new("us".to_string());
    let mut queue = EventQueue::new();
    let mut effects: Vec<Effect> = Vec::new();
    manager.process_challenge(challenge("c9", "them", ChallengeStatus::Created), 0, &mut queue, &mut effects);
    assert!(manager.outbound().is_none());
    assert!(effects.is_empty());
}

#[test]
fn unrequested_game_start_is_adopted_and_marked_abortable() {
    let mut engine = Engine::new("us".to_string());
    let _ = engine.next_internal_event();

    let event = LichessEvent::AccountEvent {
        event: AccountEvent::GameStart { game: start_info("g7") },
    };
    engine.process_lichess_event(event, 0);
    let effects = engine.take_effects();
    assert!(matches!(effects.last().unwrap(), Effect::OpenGameStream { .. }));

    // The started notification walks out of the queue and is handled.
    match engine.next_internal_event().unwrap() {
        Event::Notification(n) => {
            assert!(matches!(
                n,
                Notification::Game(GameNotification::GameStarted { .. })
            ));
            engine.process_notification(n);
        },
        _ => panic!("expected the started notification"),
    }
    let effects = engine.take_effects();
    assert!(effects.iter().any(|e| matches!(
        e,
        Effect::ScheduleGameAbortable { seconds: 30, .. }
    )));
    match engine.next_internal_event().unwrap() {
        Event::Action(a) => {
            assert!(matches!(a, Action::SwitchGame(ref id) if id == "g7"));
            engine.process_action(a);
        },
        _ => panic!("expected the switch action"),
    }
    assert_eq!(engine.game_manager.current_game().unwrap().game_id, "g7");

    // The abortable notification turns into an abort action.
    engine.process_notification(Notification::Game(GameNotification::GameAbortable {
        game_id: "g7".to_string(),
    }));
    let mut saw_abort = false;
    while let Some(e) = engine.next_internal_event() {
        if let Event::Action(Action::Lichess(LichessAction::Game { action: GameAction::Abort, .. })) = e {
            saw_abort = true;
        }
    }
    assert!(saw_abort);
}

#[test]
fn find_new_game_is_idempotent_with_a_current_game() {
    let mut engine = Engine::new("us".to_string());
    let _ = engine.next_internal_event();
    let event = LichessEvent::AccountEvent {
        event: AccountEvent::GameStart { game: start_info("g1") },
    };
    engine.process_lichess_event(event, 0);
    engine.game_manager.switch_game("g1", &mut EventQueue::new());
    let _ = engine.take_effects();
    let games_before = engine.game_manager.games.len();

    engine.find_new_game();

    assert_eq!(engine.game_manager.games.len(), games_before);
    assert_eq!(engine.game_manager.current_game_id, Some("g1".to_string()));
    assert!(engine.game_manager.current_game().is_some());
    assert!(engine.challenge_manager.outbound().is_none());
    assert!(engine.take_effects().is_empty());
}

#[test]
fn illegal_chat_move_is_not_admitted() {
    let mut engine = Engine::new("us".to_string());
    let _ = engine.next_internal_event();
    let event = LichessEvent::AccountEvent {
        event: AccountEvent::GameStart { game: start_info("g1") },
    };
    engine.process_lichess_event(event, 0);
    engine.game_manager.switch_game("g1", &mut EventQueue::new());
    engine.game_votes.enable();

    engine.process_game_vote("alice".to_string(), "e7e5".to_string());
    assert_eq!(engine.game_votes.votes.len(), 0);

    engine.process_game_vote("alice".to_string(), "E2E4".to_string());
    assert_eq!(engine.game_votes.votes.len(), 1);
    assert_eq!(engine.game_votes.get_top_vote(), Some(Vote::Move("e2e4".to_string())));
}

fn bot(id: &str, blitz: Option<BotPerf>, disabled: bool) -> Bot {
    Bot {
        id: id.to_string(),
        username: id.to_string(),
        tos_violation: Some(false),
        disabled: Some(disabled),
        bullet: None,
        blitz,
        rapid: None,
        classical: None,
    }
}

#[test]
fn a_random_bot_challenge_picks_an_eligible_bot() {
    let mut engine = Engine::new("us".to_string());
    let _ = engine.next_internal_event();
    let bots = vec![
        bot("banned", Some(BotPerf { rating: 1200, games: 50, prov: None }), true),
        bot("good", Some(BotPerf { rating: 1500, games: 50, prov: None }), false),
        bot("nogames", Some(BotPerf { rating: 1500, games: 0, prov: None }), false),
    ];
    engine.challenge_random_bot(Some(bots));
    let effects = engine.take_effects();
    match effects.last().unwrap() {
        Effect::Remote(RemoteCall::CreateChallenge { username, limit, increment, bot_id, rating }) => {
            assert_eq!(username, "good");
            assert_eq!(bot_id, "good");
            assert_eq!(*rating, 1500);
            // With no settings votes only the blitz clock is offered.
            assert_eq!((*limit, *increment), (300, 3));
        },
        other => panic!("unexpected effect {:?}", other),
    }
}

#[test]
fn a_failed_bot_fetch_retries() {
    let mut engine = Engine::new("us".to_string());
    let _ = engine.next_internal_event();
    engine.challenge_random_bot(None);
    assert!(matches!(
        engine.next_internal_event().unwrap(),
        Event::Action(Action::Lichess(LichessAction::Account(
            chat_plays_chess::events::AccountAction::ChallengeRandomBot
        )))
    ));
}

#[test]
fn an_empty_eligible_list_retries() {
    let mut engine = Engine::new("us".to_string());
    let _ = engine.next_internal_event();
    let bots = vec![bot("banned", Some(BotPerf { rating: 1200, games: 50, prov: None }), true)];
    engine.challenge_random_bot(Some(bots));
    assert!(matches!(
        engine.next_internal_event().unwrap(),
        Event::Action(Action::Lichess(LichessAction::Account(
            chat_plays_chess::events::AccountAction::ChallengeRandomBot
        )))
    ));
}

#[test]
fn voting_finished_disables_unless_delay_wins() {
    let mut engine = Engine::new("us".to_string());
    engine.game_votes.enable();
    engine.game_votes.add_vote("a".to_string(), Vote::Resign);
    engine.process_notification(Notification::VotingFinished);
    assert!(!engine.game_votes.enabled);
    // A disabled tracker admits nothing further for the closed turn.
    assert!(!engine.game_votes.add_vote("b".to_string(), Vote::Draw));

    let mut engine2 = Engine::new("us".to_string());
    engine2.game_votes.enable();
    engine2.game_votes.add_vote("a".to_string(), Vote::Delay);
    engine2.process_notification(Notification::VotingFinished);
    assert!(engine2.game_votes.enabled);
}

#[test]
fn capture_updates_play_the_capture_clip() {
    let mut engine = Engine::new("us".to_string());
    let _ = engine.next_internal_event();
    let event = LichessEvent::AccountEvent {
        event: AccountEvent::GameStart { game: start_info("g1") },
    };
    engine.process_lichess_event(event, 0);
    engine.game_manager.switch_game("g1", &mut EventQueue::new());

    let st = |moves: &str| GameStateInfo {
        moves: moves.to_string(),
        wtime: 100_000,
        btime: 100_000,
        winc: 1_000,
        binc: 1_000,
        status: "started".to_string(),
        winner: None,
    };
    let mut queue = EventQueue::new();
    engine.game_manager.process_game_update("g1", &st("e2e4 d7d5"), &mut queue);
    engine.game_manager.process_game_update("g1", &st("e2e4 d7d5 e4d5"), &mut queue);
    let mut clips: Vec<Clip> = Vec::new();
    while let Some(e) = queue.next() {
        if let Event::Action(Action::PlayClip(clip)) = e {
            clips.push(clip);
        }
    }
    assert!(clips.contains(&Clip::Move));
    assert!(clips.contains(&Clip::Capture));
}

#[test]
fn a_losing_delay_ballot_does_not_keep_the_window_open() {
    let mut engine = Engine::new("us".to_string());
    engine.game_votes.enable();
    engine.game_votes.add_vote("a".to_string(), Vote::Delay);
    engine.game_votes.add_vote("b".to_string(), Vote::Resign);
    engine.game_votes.add_vote("c".to_string(), Vote::Resign);
    engine.process_notification(Notification::VotingFinished);
    assert!(!engine.game_votes.enabled);
}

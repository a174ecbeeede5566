use chat_plays_chess::board::board_from_moves;
use chat_plays_chess::board::convert_uci_fen;
use chat_plays_chess::board::fen_canonical;
use chat_plays_chess::board::fen_is_ongoing;
use chat_plays_chess::board::random_legal_uci;
use chat_plays_chess::board::side_to_move;
use chat_plays_chess::board::split_spaces;
use chat_plays_chess::board::square_occupied;
use chat_plays_chess::board::startpos_fen;
use chat_plays_chess::board::uci_dest;
use chat_plays_chess::board::valid_uci;
use chat_plays_chess::model::Color;

#[test]
fn startpos_is_canonical() {
    let s = startpos_fen();
    assert_eq!(fen_canonical(&s).expect("parses"), s);
}

#[test]
fn canonicalisation_rewrites_counters() {
    let c = fen_canonical("rnbqkbnr/pppppppp/8/8/8/8/PPPPPPPP/RNBQKBNR w KQkq - 7 42")
        .expect("parses");
    assert_eq!(c, startpos_fen());
    assert!(fen_canonical("this is no board").is_none());
}

#[test]
fn side_to_move_reads_the_fen() {
    assert_eq!(side_to_move(&startpos_fen()), Some(Color::White));
    let after = board_from_moves(&vec!["e2e4".to_string()]).expect("legal");
    assert_eq!(side_to_move(&after), Some(Color::Black));
    assert_eq!(side_to_move("no space here"), None);
}

#[test]
fn replay_moves_pieces() {
    let fen = board_from_moves(&vec!["e2e4".to_string(), "e7e5".to_string()]).expect("legal");
    // e4 and e5 hold pawns now; e2 and e7 are empty.
    assert!(square_occupied(&fen, 4, 3));
    assert!(square_occupied(&fen, 4, 4));
    assert!(!square_occupied(&fen, 4, 1));
    assert!(!square_occupied(&fen, 4, 6));
}

#[test]
fn replay_skips_empty_and_unplayable_entries() {
    let with_noise =
        board_from_moves(&vec!["".to_string(), "e2e4".to_string(), "zzzz".to_string()])
            .expect("legal");
    let plain = board_from_moves(&vec!["e2e4".to_string()]).expect("legal");
    assert_eq!(with_noise, plain);
}

#[test]
fn replay_fails_past_the_end_of_a_game() {
    // Fool's mate; any move after it finds the game over.
    let mated = vec![
        "f2f3".to_string(),
        "e7e5".to_string(),
        "g2g4".to_string(),
        "d8h4".to_string(),
    ];
    let fen = board_from_moves(&mated).expect("mate is reached");
    assert!(!fen_is_ongoing(&fen));
    let mut after = mated.clone();
    after.push("a2a3".to_string());
    assert!(board_from_moves(&after).is_none());
}

#[test]
fn convert_rejects_illegal_moves() {
    let start = startpos_fen();
    assert_eq!(convert_uci_fen(&start, "e2e4"), Some("e2e4".to_string()));
    assert_eq!(convert_uci_fen(&start, "e7e5"), None);
    assert_eq!(convert_uci_fen(&start, "delay"), None);
}

#[test]
fn random_move_is_legal() {
    let start = startpos_fen();
    let m = random_legal_uci(&start).expect("start position has moves");
    assert_eq!(convert_uci_fen(&start, &m), Some(m.clone()));
}

#[test]
fn uci_shape_and_destination() {
    assert!(valid_uci("e2e4"));
    assert!(valid_uci("e7e8q"));
    assert!(!valid_uci("e2e"));
    assert!(!valid_uci("i2i4"));
    assert!(!valid_uci("e7e8k"));
    assert_eq!(uci_dest("e2e4"), (4, 3));
    assert_eq!(uci_dest("a7a8q"), (0, 7));
}

#[test]
fn split_spaces_keeps_empty_entries() {
    let parts = split_spaces("a  b");
    assert_eq!(parts, vec!["a".to_string(), "".to_string(), "b".to_string()]);
    let empty = split_spaces("");
    assert_eq!(empty, vec!["".to_string()]);
}

//! Boards as FEN text. The chess rules themselves (move legality, board
//! update) are the chess crate's business and sit behind trusted wrappers;
//! everything readable from the FEN text itself — side to move, square
//! occupancy, the replay loop over a move list — is verified here.

use vstd::prelude::*;

use crate::model::Color;
use rand::seq::IteratorRandom;

verus! {

/// The FEN of the starting position, as the chess crate prints it.
pub open spec fn spec_startpos() -> Seq<char> {
    "rnbqkbnr/pppppppp/8/8/8/8/PPPPPPPP/RNBQKBNR w KQkq - 0 1"@
}

pub fn startpos_fen() -> (r: String)
    ensures
        r@ == spec_startpos(),
{
    String::from_str("rnbqkbnr/pppppppp/8/8/8/8/PPPPPPPP/RNBQKBNR w KQkq - 0 1")
}

/// Whether the position written `fen` is still ongoing (not mate, not
/// stalemate); false where the text is no board at all.
pub uninterp spec fn fen_ongoing(fen: Seq<char>) -> bool;

/// The position after playing `uci` on the board written `fen`: its FEN as
/// the chess crate prints it, or nothing when the text does not parse or
/// the move is not playable there.
pub uninterp spec fn applied_fen(fen: Seq<char>, uci: Seq<char>) -> Option<Seq<char>>;

/// The canonical UCI text of `text` read as a move on the board written
/// `fen`: present exactly when the move parses and is legal there.
pub uninterp spec fn uci_of(fen: Seq<char>, text: Seq<char>) -> Option<Seq<char>>;

/// The FEN the chess crate prints for the board it reads from `fen`;
/// nothing when the text does not parse.
pub uninterp spec fn canon_of(fen: Seq<char>) -> Option<Seq<char>>;

/// Whether the board written `fen` parses and has at least one legal
/// move: a function of the text alone.
pub uninterp spec fn has_legal(fen: Seq<char>) -> bool;

/// Relies on chess's Board::from_str and Board::status: a parsed board
/// reports whether the game is still ongoing.
#[verifier::external_body]
pub fn fen_is_ongoing(fen: &str) -> (r: bool)
    ensures
        r == fen_ongoing(fen@),
{
    match <chess::Board as std::str::FromStr>::from_str(fen) {
        Ok(board) => board.status() == chess::BoardStatus::Ongoing,
        Err(_) => false,
    }
}

/// Relies on chess's Board::from_str, ChessMove::from_str, Board::legal and
/// Board::make_move_new: plays one legal move and prints the new board.
/// The legality check keeps make_move_new inside its supported inputs.
#[verifier::external_body]
pub fn apply_move_fen(fen: &str, uci: &str) -> (r: Option<String>)
    ensures
        r matches Some(f) ==> applied_fen(fen@, uci@) == Some(f@),
        r is None ==> applied_fen(fen@, uci@) is None,
{
    let board = <chess::Board as std::str::FromStr>::from_str(fen).ok()?;
    let m = <chess::ChessMove as std::str::FromStr>::from_str(uci).ok()?;
    if board.legal(m) {
        Some(board.make_move_new(m).to_string())
    } else {
        None
    }
}

/// Relies on chess's ChessMove::from_str, Board::legal and ChessMove's
/// Display: reads `text` as a move, checks it against the board written
/// `fen`, and hands back its canonical UCI text.
#[verifier::external_body]
pub fn convert_uci_fen(fen: &str, text: &str) -> (r: Option<String>)
    ensures
        r matches Some(m) ==> uci_of(fen@, text@) == Some(m@),
        r is None ==> uci_of(fen@, text@) is None,
{
    let board = <chess::Board as std::str::FromStr>::from_str(fen).ok()?;
    let m = <chess::ChessMove as std::str::FromStr>::from_str(text).ok()?;
    if board.legal(m) {
        Some(m.to_string())
    } else {
        None
    }
}

/// Relies on chess's MoveGen::new_legal: every move it yields is legal on
/// the given board, and its Display text reads back as itself, so the text
/// handed back converts to itself. Which legal move comes back is random,
/// but whether one comes back is not: the draw is empty exactly when the
/// generator is, which depends on the board alone.
#[verifier::external_body]
pub fn random_legal_uci(fen: &str) -> (r: Option<String>)
    ensures
        r is Some <==> has_legal(fen@),
        r matches Some(m) ==> uci_of(fen@, m@) == Some(m@),
{
    let board = <chess::Board as std::str::FromStr>::from_str(fen).ok()?;
    let generator = chess::MoveGen::new_legal(&board);
    let m = generator.choose(&mut rand::rng())?;
    Some(m.to_string())
}

/// Relies on chess's Board::from_str and Board's Display: parse a FEN and
/// print it back in the crate's canonical form.
#[verifier::external_body]
pub fn fen_canonical(fen: &str) -> (r: Option<String>)
    ensures
        r matches Some(f) ==> canon_of(fen@) == Some(f@),
        r is None ==> canon_of(fen@) is None,
{
    match <chess::Board as std::str::FromStr>::from_str(fen) {
        Ok(board) => Some(board.to_string()),
        Err(_) => None,
    }
}

/// The first index at or past `i` holding a space, or the length.
pub open spec fn first_space(s: Seq<char>, i: int) -> int
    decreases s.len() - i,
{
    if i < 0 || i >= s.len() {
        s.len() as int
    } else if s[i] == ' ' {
        i
    } else {
        first_space(s, i + 1)
    }
}

/// The side to move written in `fen`: the character after the first space.
pub open spec fn spec_side_to_move(fen: Seq<char>) -> Option<Color> {
    let i = first_space(fen, 0);
    if i + 1 < fen.len() {
        if fen[i + 1] == 'w' {
            Some(Color::White)
        } else if fen[i + 1] == 'b' {
            Some(Color::Black)
        } else {
            None
        }
    } else {
        None
    }
}

/// Read the side to move out of `fen`.
pub fn side_to_move(fen: &str) -> (r: Option<Color>)
    ensures
        r == spec_side_to_move(fen@),
{
    let len = fen.unicode_len();
    let mut i: usize = 0;
    while i < len && fen.get_char(i) != ' '
        invariant
            len == fen@.len(),
            i <= len,
            first_space(fen@, 0) == first_space(fen@, i as int),
        decreases len - i,
    {
        i = i + 1;
    }
    if i < len && i + 1 < len {
        let c = fen.get_char(i + 1);
        if c == 'w' {
            Some(Color::White)
        } else if c == 'b' {
            Some(Color::Black)
        } else {
            None
        }
    } else {
        None
    }
}

pub open spec fn is_fen_digit(c: char) -> bool {
    '1' <= c && c <= '8'
}

/// Walk the board field of a FEN. `cur_rank`/`cur_file` is the cell the
/// walk stands on (rank 7 = the first written rank, the eighth of the
/// board); the result is the piece character on (`file`, `rank`), or
/// nothing when that cell is empty or never reached. The counters saturate
/// (the rank at -1, the file at 100) once past any cell of the board, which
/// changes nothing findable: `file` is below 8 and `rank` at least 0.
pub open spec fn piece_walk(
    s: Seq<char>,
    i: int,
    cur_rank: int,
    cur_file: int,
    file: int,
    rank: int,
) -> Option<char>
    decreases s.len() - i,
{
    if i < 0 || i >= s.len() {
        None
    } else {
        let c = s[i];
        if c == ' ' {
            None
        } else if c == '/' {
            piece_walk(s, i + 1, if cur_rank <= -1 { -1 } else { cur_rank - 1 }, 0, file, rank)
        } else if is_fen_digit(c) {
            let d = c as int - '0' as int;
            if cur_rank == rank && cur_file <= file < cur_file + d {
                None
            } else {
                piece_walk(
                    s,
                    i + 1,
                    cur_rank,
                    if cur_file + d >= 100 {
                        100
                    } else {
                        cur_file + d
                    },
                    file,
                    rank,
                )
            }
        } else {
            if cur_rank == rank && cur_file == file {
                Some(c)
            } else {
                piece_walk(
                    s,
                    i + 1,
                    cur_rank,
                    if cur_file + 1 >= 100 {
                        100
                    } else {
                        cur_file + 1
                    },
                    file,
                    rank,
                )
            }
        }
    }
}

/// The piece character on (`file`, `rank`) of the board written `fen`.
pub open spec fn spec_piece_on(fen: Seq<char>, file: int, rank: int) -> Option<char> {
    piece_walk(fen, 0, 7, 0, file, rank)
}


/// Whether (`file`, `rank`) of the board written `fen` holds a piece.
pub fn square_occupied(fen: &str, file: u8, rank: u8) -> (r: bool)
    requires
        file < 8,
        rank < 8,
    ensures
        r == (spec_piece_on(fen@, file as int, rank as int) is Some),
{
    let len = fen.unicode_len();
    let mut i: usize = 0;
    let mut cur_rank: i8 = 7;
    let mut cur_file: i8 = 0;
    while i < len
        invariant
            len == fen@.len(),
            i <= len,
            file < 8,
            rank < 8,
            spec_piece_on(fen@, file as int, rank as int) == piece_walk(
                fen@,
                i as int,
                cur_rank as int,
                cur_file as int,
                file as int,
                rank as int,
            ),
            -1 <= cur_rank <= 7,
            0 <= cur_file <= 100,
        decreases len - i,
    {
        let c = fen.get_char(i);
        if c == ' ' {
            return false;
        } else if c == '/' {
            if cur_rank > -1 {
                cur_rank = cur_rank - 1;
            }
            cur_file = 0;
        } else if '1' <= c && c <= '8' {
            let d = ((c as u32) - ('0' as u32)) as i8;
            if cur_rank == rank as i8 && cur_file <= file as i8 && (file as i8) < cur_file + d {
                return false;
            }
            if cur_file + d >= 100 {
                cur_file = 100;
            } else {
                cur_file = cur_file + d;
            }
        } else {
            if cur_rank == rank as i8 && cur_file == file as i8 {
                return true;
            }
            if cur_file >= 99 {
                cur_file = 100;
            } else {
                cur_file = cur_file + 1;
            }
        }
        i = i + 1;
    }
    false
}

/// The shape of a UCI move: two squares, with an optional promotion piece.
pub open spec fn spec_valid_uci(s: Seq<char>) -> bool {
    &&& s.len() == 4 || s.len() == 5
    &&& 'a' <= s[0] && s[0] <= 'h'
    &&& '1' <= s[1] && s[1] <= '8'
    &&& 'a' <= s[2] && s[2] <= 'h'
    &&& '1' <= s[3] && s[3] <= '8'
    &&& (s.len() == 5 ==> (s[4] == 'q' || s[4] == 'r' || s[4] == 'n' || s[4] == 'b'))
}

pub fn valid_uci(s: &str) -> (r: bool)
    ensures
        r == spec_valid_uci(s@),
{
    let len = s.unicode_len();
    if len != 4 && len != 5 {
        return false;
    }
    let c0 = s.get_char(0);
    let c1 = s.get_char(1);
    let c2 = s.get_char(2);
    let c3 = s.get_char(3);
    let squares_ok = 'a' <= c0 && c0 <= 'h' && '1' <= c1 && c1 <= '8' && 'a' <= c2 && c2 <= 'h'
        && '1' <= c3 && c3 <= '8';
    if !squares_ok {
        return false;
    }
    if len == 5 {
        let c4 = s.get_char(4);
        c4 == 'q' || c4 == 'r' || c4 == 'n' || c4 == 'b'
    } else {
        true
    }
}

/// The destination square of a shapely UCI move, as (file, rank), each in
/// 0..8.
pub open spec fn spec_uci_dest(s: Seq<char>) -> (int, int) {
    (s[2] as int - 'a' as int, s[3] as int - '1' as int)
}

pub fn uci_dest(s: &str) -> (r: (u8, u8))
    requires
        spec_valid_uci(s@),
    ensures
        r.0 == spec_uci_dest(s@).0,
        r.1 == spec_uci_dest(s@).1,
        r.0 < 8,
        r.1 < 8,
{
    let c2 = s.get_char(2);
    let c3 = s.get_char(3);
    (((c2 as u32) - ('a' as u32)) as u8, ((c3 as u32) - ('1' as u32)) as u8)
}

/// The replay of `moves` from position `fen` onward, move by move: empty
/// entries are skipped; a move reached on a board no longer ongoing fails
/// the whole replay; a move the board cannot play is skipped.
pub open spec fn spec_replay_from(moves: Seq<Seq<char>>, i: int, fen: Seq<char>) -> Option<
    Seq<char>,
>
    decreases moves.len() - i,
{
    if i < 0 || i >= moves.len() {
        Some(fen)
    } else if moves[i].len() == 0 {
        spec_replay_from(moves, i + 1, fen)
    } else if !fen_ongoing(fen) {
        None
    } else {
        match applied_fen(fen, moves[i]) {
            Some(f2) => spec_replay_from(moves, i + 1, f2),
            None => spec_replay_from(moves, i + 1, fen),
        }
    }
}

/// The replay of `moves` from the starting position.
pub open spec fn spec_replay(moves: Seq<Seq<char>>) -> Option<Seq<char>> {
    spec_replay_from(moves, 0, spec_startpos())
}

/// The views of a vector of strings.
pub open spec fn views(moves: Seq<String>) -> Seq<Seq<char>> {
    moves.map_values(|s: String| s@)
}

/// Replay a move list from the starting position.
pub fn board_from_moves(moves: &Vec<String>) -> (r: Option<String>)
    ensures
        match r {
            Some(f) => spec_replay(views(moves@)) == Some(f@),
            None => spec_replay(views(moves@)) is None,
        },
{
    let mut fen = startpos_fen();
    let n = moves.len();
    let mut i: usize = 0;
    while i < n
        invariant
            n == moves@.len(),
            i <= n,
            spec_replay(views(moves@)) == spec_replay_from(views(moves@), i as int, fen@),
        decreases n - i,
    {
        let m = &moves[i];
        if m.as_str().unicode_len() > 0 {
            if !fen_is_ongoing(fen.as_str()) {
                return None;
            }
            match apply_move_fen(fen.as_str(), m.as_str()) {
                Some(f2) => {
                    fen = f2;
                },
                None => {},
            }
        }
        i = i + 1;
    }
    Some(fen)
}

/// Split on single spaces, as str::split(" ") does: "a  b" has an empty
/// entry in the middle, and the empty text is one empty entry.
pub open spec fn spec_split_spaces(s: Seq<char>) -> Seq<Seq<char>>
    decreases s.len(),
{
    let i = first_space(s, 0);
    if 0 <= i < s.len() {
        seq![s.subrange(0, i)] + spec_split_spaces(s.subrange(i + 1, s.len() as int))
    } else {
        seq![s]
    }
}

/// Split `s` on single spaces.
pub fn split_spaces(s: &str) -> (r: Vec<String>)
    ensures
        views(r@) == spec_split_spaces(s@),
    decreases s@.len(),
{
    let len = s.unicode_len();
    let mut i: usize = 0;
    while i < len && s.get_char(i) != ' '
        invariant
            len == s@.len(),
            i <= len,
            first_space(s@, 0) == first_space(s@, i as int),
        decreases len - i,
    {
        i = i + 1;
    }
    proof {
        assert(first_space(s@, 0) == i);
    }
    if i == len {
        let mut r: Vec<String> = Vec::new();
        r.push(String::from_str(s));
        proof {
            assert(views(r@) =~= spec_split_spaces(s@));
        }
        r
    } else {
        let head = String::from_str(s.substring_char(0, i));
        let tail = s.substring_char(i + 1, len);
        let mut r = split_spaces(tail);
        r.insert(0, head);
        proof {
            assert(views(r@) =~= seq![s@.subrange(0, i as int)] + spec_split_spaces(
                s@.subrange(i + 1, len as int),
            ));
        }
        r
    }
}

} // verus!

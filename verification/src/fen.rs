//! Decoding of FEN text into a position.
//!
//! The grammar is matched by the `regex` crate; what the match captured is
//! then read, checked again and turned into a position by verified code.

use vstd::prelude::*;
use crate::color::Color;
use crate::piece::PieceType;
use crate::position::{grid_of, opt_square_of, Cell, Position, PositionView, Square};

verus! {

/// Why a FEN text was not decoded.
#[derive(Clone, Copy, Debug, PartialEq, Eq, Structural)]
pub enum FenError {
    /// The text does not have the shape of a FEN record.
    Grammar,
    /// A rank holds an unknown letter or does not cover exactly eight files.
    Rank,
    /// The halfmove clock is too large to be held.
    Clock,
}

/// The grammar of a FEN record as a regular expression, anchored at both
/// ends: eight ranks, the side to move, the castling rights, the en-passant
/// target, the halfmove clock and the move number.
pub const FEN_PATTERN: &'static str =
    "^([PpNnBbRrQqKk1-8]+)/([PpNnBbRrQqKk1-8]+)/([PpNnBbRrQqKk1-8]+)/([PpNnBbRrQqKk1-8]+)/([PpNnBbRrQqKk1-8]+)/([PpNnBbRrQqKk1-8]+)/([PpNnBbRrQqKk1-8]+)/([PpNnBbRrQqKk1-8]+) (?P<side_to_move>[wb]) (?P<castling>[KQkq]+|-) (?P<en_passant>[a-h][1-8]|-) (?P<halfmove_clock>[0-9]+) (?P<move_number>[0-9]+)$";

/// The number of capture groups that a match of the grammar yields: the
/// whole match and thirteen fields.
pub const FEN_GROUPS: usize = 14;

/// What the `regex` crate captures when it searches `text` for `pattern`:
/// none where the pattern does not compile or matches nowhere; else the
/// groups of the leftmost match in their order, the whole match first, each
/// with the text it matched or none where it took no part in the match.
pub uninterp spec fn regex_groups(pattern: Seq<char>, text: Seq<char>) -> Option<Seq<Option<Seq<char>>>>;

/// Compiles `pattern` with `regex::Regex::new`, searches `text` with
/// `Regex::captures` and hands out the groups of the match, walked with
/// `Captures::iter` and read with `Match::as_str`. Nothing is proved of the
/// matching: the contract only gives its result a name.
#[verifier::external_body]
fn capture_groups(pattern: &str, text: &str) -> (r: Option<Vec<Option<Vec<char>>>>)
    ensures
        r.deep_view() == regex_groups(pattern@, text@),
{
    let re = match regex::Regex::new(pattern) {
        Ok(re) => re,
        Err(_) => return None,
    };
    let caps = re.captures(text)?;
    Some(caps.iter().map(|m| m.map(|m| m.as_str().chars().collect())).collect())
}

/// The piece that a letter of a rank stands for: upper case is White, lower
/// case is Black.
pub open spec fn piece_of_letter(ch: char) -> Option<Cell> {
    match ch {
        'P' => Some(Cell::Piece(PieceType::Pawn, Color::White)),
        'p' => Some(Cell::Piece(PieceType::Pawn, Color::Black)),
        'N' => Some(Cell::Piece(PieceType::Knight, Color::White)),
        'n' => Some(Cell::Piece(PieceType::Knight, Color::Black)),
        'B' => Some(Cell::Piece(PieceType::Bishop, Color::White)),
        'b' => Some(Cell::Piece(PieceType::Bishop, Color::Black)),
        'R' => Some(Cell::Piece(PieceType::Rook, Color::White)),
        'r' => Some(Cell::Piece(PieceType::Rook, Color::Black)),
        'Q' => Some(Cell::Piece(PieceType::Queen, Color::White)),
        'q' => Some(Cell::Piece(PieceType::Queen, Color::Black)),
        'K' => Some(Cell::Piece(PieceType::King, Color::White)),
        'k' => Some(Cell::Piece(PieceType::King, Color::Black)),
        _ => None,
    }
}

/// The number of empty squares that a digit of a rank stands for.
pub open spec fn run_of_digit(ch: char) -> Option<nat> {
    if '1' <= ch <= '8' {
        Some((ch as u32 - '0' as u32) as nat)
    } else {
        None
    }
}

/// The cells that a rank description spells out, however many they are;
/// none where it holds a character that is neither piece letter nor digit
/// from 1 to 8.
pub open spec fn rank_cells(s: Seq<char>) -> Option<Seq<Cell>>
    decreases s.len(),
{
    if s.len() == 0 {
        Some(Seq::empty())
    } else {
        match rank_cells(s.drop_last()) {
            None => None,
            Some(cells) => match piece_of_letter(s.last()) {
                Some(cell) => Some(cells.push(cell)),
                None => match run_of_digit(s.last()) {
                    Some(n) => Some(cells + Seq::new(n, |i: int| Cell::Empty)),
                    None => None,
                },
            },
        }
    }
}

/// The row that a rank description stands for: its cells, where they are
/// exactly eight.
pub open spec fn rank_row(s: Seq<char>) -> Option<Seq<Cell>> {
    match rank_cells(s) {
        Some(cells) if cells.len() == 8 => Some(cells),
        _ => None,
    }
}

/// The side that the side-to-move field names.
pub open spec fn side_of(s: Seq<char>) -> Option<Color> {
    if s =~= seq!['w'] {
        Some(Color::White)
    } else if s =~= seq!['b'] {
        Some(Color::Black)
    } else {
        None
    }
}

/// The square that a file letter from a to h and a rank digit from 1 to 8
/// name: file a is column 0, rank 1 is row 7.
pub open spec fn square_named(file: char, rank: char) -> Option<Square> {
    if 'a' <= file <= 'h' && '1' <= rank <= '8' {
        Some((7 - (rank as u32 - '1' as u32) as int, (file as u32 - 'a' as u32) as int))
    } else {
        None
    }
}

/// The square that two characters in algebraic notation name.
pub open spec fn coords_of(s: Seq<char>) -> Option<Square> {
    if s.len() == 2 {
        square_named(s[0], s[1])
    } else {
        None
    }
}

/// What the en-passant field says: no target for `-`, a target for a
/// square; none where it is neither.
pub open spec fn target_of(s: Seq<char>) -> Option<Option<Square>> {
    if s =~= seq!['-'] {
        Some(None)
    } else {
        match coords_of(s) {
            Some(sq) => Some(Some(sq)),
            None => None,
        }
    }
}

/// A castling letter: K and Q for White, k and q for Black.
pub open spec fn is_castling_letter(ch: char) -> bool {
    ch == 'K' || ch == 'Q' || ch == 'k' || ch == 'q'
}

/// A castling field: `-` for no rights, or castling letters in any number
/// and order.
pub open spec fn is_castling(s: Seq<char>) -> bool {
    s =~= seq!['-'] || (s.len() > 0 && forall|i: int|
        0 <= i < s.len() ==> is_castling_letter(#[trigger] s[i]))
}

/// A non-empty run of decimal digits.
pub open spec fn is_number(s: Seq<char>) -> bool {
    s.len() > 0 && forall|i: int| 0 <= i < s.len() ==> '0' <= #[trigger] s[i] <= '9'
}

/// The value of a run of decimal digits.
pub open spec fn number_value(s: Seq<char>) -> nat
    decreases s.len(),
{
    if s.len() == 0 {
        0
    } else {
        number_value(s.drop_last()) * 10 + (s.last() as u32 - '0' as u32) as nat
    }
}

/// All thirteen fields of a record took part in the match.
pub open spec fn has_fields(g: Seq<Option<Seq<char>>>) -> bool {
    g.len() == FEN_GROUPS && forall|i: int| 1 <= i < FEN_GROUPS ==> (#[trigger] g[i]) is Some
}

/// Every one of the eight rank fields stands for a row.
pub open spec fn has_board(g: Seq<Option<Seq<char>>>) -> bool {
    forall|i: int| 1 <= i <= 8 ==> rank_row((#[trigger] g[i])->0) is Some
}

/// The position that the captured fields describe. Fields 1 to 8 are the
/// ranks from the eighth down, 9 is the side to move, 10 the castling
/// rights, 11 the en-passant target, 12 the halfmove clock and 13 the move
/// number, which is checked and dropped.
pub open spec fn decode_fields(g: Seq<Option<Seq<char>>>) -> Result<PositionView, FenError> {
    if !has_fields(g) {
        Err(FenError::Grammar)
    } else if side_of(g[9]->0) is None || !is_castling(g[10]->0) || target_of(g[11]->0) is None
        || !is_number(g[12]->0) || !is_number(g[13]->0) {
        Err(FenError::Grammar)
    } else if !has_board(g) {
        Err(FenError::Rank)
    } else if number_value(g[12]->0) > u32::MAX {
        Err(FenError::Clock)
    } else {
        Ok(
            PositionView {
                cells: Seq::new(8, |r: int| rank_row(g[r + 1]->0)->0),
                side_to_move: side_of(g[9]->0)->0,
                halfmove_clock: number_value(g[12]->0),
                white_can_castle_kingside: g[10]->0.contains('K'),
                white_can_castle_queenside: g[10]->0.contains('Q'),
                black_can_castle_kingside: g[10]->0.contains('k'),
                black_can_castle_queenside: g[10]->0.contains('q'),
                en_passant: target_of(g[11]->0)->0,
            },
        )
    }
}

/// The position that the outcome of a search for the grammar describes.
pub open spec fn decode_groups(m: Option<Seq<Option<Seq<char>>>>) -> Result<PositionView, FenError> {
    match m {
        None => Err(FenError::Grammar),
        Some(g) => decode_fields(g),
    }
}

/// `r` is the outcome `expected`: the same error, or a position with that
/// value.
pub open spec fn decodes_to(r: Result<Position, FenError>, expected: Result<PositionView, FenError>) -> bool {
    match expected {
        Ok(v) => r is Ok && r->Ok_0@ == v,
        Err(e) => r == Err::<Position, FenError>(e),
    }
}

/// Every prefix of a rank description that spells out cells spells out
/// cells too, and no more of them.
proof fn lemma_rank_cells_prefix(s: Seq<char>, i: int)
    requires
        0 <= i <= s.len(),
        rank_cells(s) is Some,
    ensures
        rank_cells(s.take(i)) is Some,
        rank_cells(s.take(i))->0.len() <= rank_cells(s)->0.len(),
    decreases s.len(),
{
    if i == s.len() {
        assert(s.take(i) =~= s);
    } else {
        assert(s.drop_last().take(i) =~= s.take(i));
        lemma_rank_cells_prefix(s.drop_last(), i);
    }
}

/// The value of a prefix of a run of digits is at most the value of the run.
proof fn lemma_number_value_prefix(s: Seq<char>, i: int)
    requires
        0 <= i <= s.len(),
    ensures
        number_value(s.take(i)) <= number_value(s),
    decreases s.len(),
{
    if i == s.len() {
        assert(s.take(i) =~= s);
    } else {
        assert(s.drop_last().take(i) =~= s.take(i));
        lemma_number_value_prefix(s.drop_last(), i);
    }
}

/// The cell that a piece letter stands for.
fn piece_for(ch: char) -> (r: Option<Cell>)
    ensures
        r == piece_of_letter(ch),
{
    match ch {
        'P' => Some(Cell::Piece(PieceType::Pawn, Color::White)),
        'p' => Some(Cell::Piece(PieceType::Pawn, Color::Black)),
        'N' => Some(Cell::Piece(PieceType::Knight, Color::White)),
        'n' => Some(Cell::Piece(PieceType::Knight, Color::Black)),
        'B' => Some(Cell::Piece(PieceType::Bishop, Color::White)),
        'b' => Some(Cell::Piece(PieceType::Bishop, Color::Black)),
        'R' => Some(Cell::Piece(PieceType::Rook, Color::White)),
        'r' => Some(Cell::Piece(PieceType::Rook, Color::Black)),
        'Q' => Some(Cell::Piece(PieceType::Queen, Color::White)),
        'q' => Some(Cell::Piece(PieceType::Queen, Color::Black)),
        'K' => Some(Cell::Piece(PieceType::King, Color::White)),
        'k' => Some(Cell::Piece(PieceType::King, Color::Black)),
        _ => None,
    }
}

/// Reads one rank description into a row of eight cells.
pub fn read_rank(rank: &Vec<char>) -> (r: Option<[Cell; 8]>)
    ensures
        match r {
            Some(row) => rank_row(rank@) == Some(row@),
            None => rank_row(rank@) is None,
        },
{
    let mut row = [Cell::Empty; 8];
    let mut col: usize = 0;
    let mut i: usize = 0;
    while i < rank.len()
        invariant
            i <= rank.len(),
            col <= 8,
            rank_cells(rank@.take(i as int)) == Some(row@.take(col as int)),
            forall|j: int| col <= j < 8 ==> row@[j] == Cell::Empty,
        decreases rank.len() - i,
    {
        let ch = rank[i];
        proof {
            assert(rank@.take(i + 1).drop_last() =~= rank@.take(i as int));
            assert(rank@.take(i + 1).last() == ch);
            if rank_cells(rank@) is Some {
                lemma_rank_cells_prefix(rank@, i + 1);
            }
        }
        let ghost before = row@.take(col as int);
        match piece_for(ch) {
            Some(cell) => {
                if col >= 8 {
                    return None;
                }
                row[col] = cell;
                col = col + 1;
                assert(row@.take(col as int) =~= before.push(cell));
            },
            None => {
                if ch < '1' || ch > '8' {
                    return None;
                }
                let run = (ch as u32 - '0' as u32) as usize;
                if run > 8 - col {
                    return None;
                }
                col = col + run;
                assert(row@.take(col as int) =~= before + Seq::new(run as nat, |k: int| Cell::Empty));
            },
        }
        i = i + 1;
    }
    assert(rank@.take(i as int) =~= rank@);
    if col == 8 {
        assert(row@.take(8) =~= row@);
        Some(row)
    } else {
        None
    }
}

/// Reads the eight rank fields into the grid.
fn read_board_data(groups: &Vec<Option<Vec<char>>>) -> (r: Option<[[Cell; 8]; 8]>)
    requires
        has_fields(groups.deep_view()),
    ensures
        match r {
            Some(cells) => has_board(groups.deep_view()) && grid_of(cells) == Seq::new(
                8,
                |r: int| rank_row(groups.deep_view()[r + 1]->0)->0,
            ),
            None => !has_board(groups.deep_view()),
        },
{
    let ghost g = groups.deep_view();
    let mut cells: [[Cell; 8]; 8] = [[Cell::Empty; 8]; 8];
    let mut row: usize = 0;
    while row < 8
        invariant
            row <= 8,
            g == groups.deep_view(),
            has_fields(g),
            forall|i: int| 1 <= i <= row ==> rank_row((#[trigger] g[i])->0) == Some(cells@[i - 1]@),
        decreases 8 - row,
    {
        let field = text_of(groups, row + 1);
        match read_rank(field) {
            Some(cells_of_row) => {
                cells[row] = cells_of_row;
            },
            None => {
                assert(rank_row(g[row + 1]->0) is None);
                return None;
            },
        }
        row = row + 1;
    }
    assert(grid_of(cells) =~= Seq::new(8, |r: int| rank_row(g[r + 1]->0)->0));
    Some(cells)
}

/// The text of field `i`.
fn text_of(groups: &Vec<Option<Vec<char>>>, i: usize) -> (r: &Vec<char>)
    requires
        has_fields(groups.deep_view()),
        1 <= i < FEN_GROUPS,
    ensures
        r@ == groups.deep_view()[i as int]->0,
{
    assert(groups.deep_view()[i as int] is Some);
    match &groups[i] {
        Some(text) => {
            assert(text.deep_view() =~= text@);
            text
        },
        None => vstd::pervasive::unreached(),
    }
}

/// Whether all thirteen fields are there.
fn fields_present(groups: &Vec<Option<Vec<char>>>) -> (r: bool)
    ensures
        r == has_fields(groups.deep_view()),
{
    if groups.len() != FEN_GROUPS {
        return false;
    }
    let mut i: usize = 1;
    while i < FEN_GROUPS
        invariant
            1 <= i <= FEN_GROUPS,
            groups.len() == FEN_GROUPS,
            forall|j: int| 1 <= j < i ==> (#[trigger] groups.deep_view()[j]) is Some,
        decreases FEN_GROUPS - i,
    {
        if groups[i].is_none() {
            assert(groups.deep_view()[i as int] is None);
            return false;
        }
        assert(groups.deep_view()[i as int] is Some);
        i = i + 1;
    }
    true
}

/// Reads the side-to-move field.
fn read_side(text: &Vec<char>) -> (r: Option<Color>)
    ensures
        r == side_of(text@),
{
    if text.len() != 1 {
        None
    } else if text[0] == 'w' {
        Some(Color::White)
    } else if text[0] == 'b' {
        Some(Color::Black)
    } else {
        None
    }
}

/// The square that a file letter and a rank digit name.
fn square_for(file: char, rank: char) -> (r: Option<(usize, usize)>)
    ensures
        opt_square_of(r) == square_named(file, rank),
{
    if file < 'a' || file > 'h' || rank < '1' || rank > '8' {
        None
    } else {
        Some(((7 - (rank as u32 - '1' as u32)) as usize, (file as u32 - 'a' as u32) as usize))
    }
}

/// Reads a square in algebraic notation, such as `e3`: the file letter
/// gives the column, the rank digit the row, rank 1 being row 7.
pub fn parse_algebraic_coords(coords: &str) -> (r: Option<(usize, usize)>)
    ensures
        opt_square_of(r) == coords_of(coords@),
{
    if coords.unicode_len() != 2 {
        None
    } else {
        square_for(coords.get_char(0), coords.get_char(1))
    }
}

/// Reads the en-passant field.
fn read_target(text: &Vec<char>) -> (r: Option<Option<(usize, usize)>>)
    ensures
        match r {
            Some(sq) => target_of(text@) == Some(opt_square_of(sq)),
            None => target_of(text@) is None,
        },
{
    if text.len() == 1 && text[0] == '-' {
        assert(text@ =~= seq!['-']);
        Some(None)
    } else if text.len() == 2 {
        match square_for(text[0], text[1]) {
            Some(sq) => Some(Some(sq)),
            None => None,
        }
    } else {
        None
    }
}

/// Whether the text is a castling field.
fn castling_well_formed(text: &Vec<char>) -> (r: bool)
    ensures
        r == is_castling(text@),
{
    if text.len() == 0 {
        return false;
    }
    if text.len() == 1 && text[0] == '-' {
        assert(text@ =~= seq!['-']);
        return true;
    }
    let mut i: usize = 0;
    while i < text.len()
        invariant
            i <= text.len(),
            text@.len() > 0,
            text@.len() != 1 || text@[0] != '-',
            forall|j: int| 0 <= j < i ==> is_castling_letter(#[trigger] text@[j]),
        decreases text.len() - i,
    {
        let ch = text[i];
        if !(ch == 'K' || ch == 'Q' || ch == 'k' || ch == 'q') {
            assert(seq!['-'].len() == 1 && seq!['-'][0] == '-');
            assert(!is_castling_letter(text@[i as int]));
            return false;
        }
        i = i + 1;
    }
    true
}

/// Whether the text is a non-empty run of decimal digits.
fn all_digits(text: &Vec<char>) -> (r: bool)
    ensures
        r == is_number(text@),
{
    if text.len() == 0 {
        return false;
    }
    let mut i: usize = 0;
    while i < text.len()
        invariant
            i <= text.len(),
            forall|j: int| 0 <= j < i ==> '0' <= #[trigger] text@[j] <= '9',
        decreases text.len() - i,
    {
        if text[i] < '0' || text[i] > '9' {
            return false;
        }
        i = i + 1;
    }
    true
}

/// The value of a run of decimal digits, where 32 bits hold it.
fn read_clock(text: &Vec<char>) -> (r: Option<u32>)
    requires
        is_number(text@),
    ensures
        match r {
            Some(n) => n == number_value(text@),
            None => number_value(text@) > u32::MAX,
        },
{
    let mut value: u32 = 0;
    let mut i: usize = 0;
    while i < text.len()
        invariant
            i <= text.len(),
            is_number(text@),
            value == number_value(text@.take(i as int)),
        decreases text.len() - i,
    {
        let digit = text[i] as u32 - '0' as u32;
        proof {
            assert(text@.take(i + 1).drop_last() =~= text@.take(i as int));
            assert(text@.take(i + 1).last() == text@[i as int]);
            lemma_number_value_prefix(text@, i + 1);
        }
        if value > (u32::MAX - digit) / 10 {
            return None;
        }
        value = value * 10 + digit;
        i = i + 1;
    }
    assert(text@.take(i as int) =~= text@);
    Some(value)
}

/// Whether `ch` occurs in the text.
fn has_char(text: &Vec<char>, ch: char) -> (r: bool)
    ensures
        r == text@.contains(ch),
{
    let mut i: usize = 0;
    while i < text.len()
        invariant
            i <= text.len(),
            forall|j: int| 0 <= j < i ==> text@[j] != ch,
        decreases text.len() - i,
    {
        if text[i] == ch {
            return true;
        }
        i = i + 1;
    }
    false
}

/// Builds the position that the outcome of a search for the grammar
/// describes, checking every field on the way: the grammar is not taken on
/// trust here.
pub fn decode_captures(groups: &Option<Vec<Option<Vec<char>>>>) -> (r: Result<Position, FenError>)
    ensures
        decodes_to(r, decode_groups(groups.deep_view())),
        r matches Ok(p) ==> p@.wf(),
{
    let groups = match groups {
        Some(groups) => groups,
        None => {
            return Err(FenError::Grammar);
        },
    };
    if !fields_present(groups) {
        return Err(FenError::Grammar);
    }
    let side = read_side(text_of(groups, 9));
    let target = read_target(text_of(groups, 11));
    let castling = text_of(groups, 10);
    let clock_text = text_of(groups, 12);
    if side.is_none() || !castling_well_formed(castling) || target.is_none() || !all_digits(
        clock_text,
    ) || !all_digits(text_of(groups, 13)) {
        return Err(FenError::Grammar);
    }
    let cells = match read_board_data(groups) {
        Some(cells) => cells,
        None => {
            return Err(FenError::Rank);
        },
    };
    let clock = match read_clock(clock_text) {
        Some(clock) => clock,
        None => {
            return Err(FenError::Clock);
        },
    };
    let rights = (
        has_char(castling, 'K'),
        has_char(castling, 'Q'),
        has_char(castling, 'k'),
        has_char(castling, 'q'),
    );
    Ok(Position::from_parts(cells, side.unwrap(), clock, rights, target.unwrap()))
}

impl Position {
    /// Decodes a FEN record. The text must match the grammar from end to
    /// end; every rank must cover exactly eight files; the halfmove clock
    /// must fit 32 bits. The move number is checked and dropped.
    pub fn from_fen(fen: &str) -> (r: Result<Position, FenError>)
        ensures
            decodes_to(r, decode_groups(regex_groups(FEN_PATTERN@, fen@))),
            r matches Ok(p) ==> p@.wf(),
    {
        let groups = capture_groups(FEN_PATTERN, fen);
        decode_captures(&groups)
    }
}

} // verus!

//! The position: an 8x8 grid of cells with the bookkeeping that a move changes.

use vstd::prelude::*;
use crate::color::{Color, opposite, opposite_color};
use crate::piece::PieceType;

verus! {

/// What a square holds.
#[derive(Clone, Copy, Debug, PartialEq, Eq, Structural)]
pub enum Cell {
    Empty,
    Piece(PieceType, Color),
}

/// Whether a piece of `my_color` may land on a square holding `cell`: the
/// square is empty or holds an enemy piece.
pub open spec fn may_enter(cell: Cell, my_color: Color) -> bool {
    match cell {
        Cell::Empty => true,
        Cell::Piece(_, c) => c == opposite(my_color),
    }
}

/// Tells a move generator whether a piece of `my_color` may move onto `cell`.
pub fn can_piece_move_into_cell(cell: Cell, my_color: Color) -> (r: bool)
    ensures
        r == may_enter(cell, my_color),
{
    match cell {
        Cell::Empty => true,
        Cell::Piece(_, c) => c == opposite_color(my_color),
    }
}

/// How a caller broke the contract of move application.
#[derive(Clone, Copy, Debug, PartialEq, Eq, Structural)]
pub enum MoveError {
    /// A square is not on the board.
    OffBoard,
    /// The source square is empty.
    EmptySource,
    /// A pawn reaches the back rank and no promotion type was given.
    MissingPromotion,
    /// The halfmove clock cannot count one more ply.
    ClockFull,
}

/// A square, as (row, column): row 0 is rank 8 and row 7 is rank 1; column 0
/// is file a and column 7 is file h.
pub type Square = (int, int);

/// Whether a square lies on the board.
pub open spec fn on_board(sq: Square) -> bool {
    0 <= sq.0 < 8 && 0 <= sq.1 < 8
}

/// The mathematical value of a position.
pub struct PositionView {
    /// Eight rows of eight cells, indexed `[row][column]`.
    pub cells: Seq<Seq<Cell>>,
    pub side_to_move: Color,
    /// Plies since the last capture or pawn move.
    pub halfmove_clock: nat,
    pub white_can_castle_kingside: bool,
    pub white_can_castle_queenside: bool,
    pub black_can_castle_kingside: bool,
    pub black_can_castle_queenside: bool,
    /// The square a pawn could capture into on this ply.
    pub en_passant: Option<Square>,
}

impl PositionView {
    /// The grid has eight rows of eight cells.
    pub open spec fn has_grid(self) -> bool {
        &&& self.cells.len() == 8
        &&& forall|r: int| 0 <= r < 8 ==> (#[trigger] self.cells[r]).len() == 8
    }

    /// The grid is 8x8 and the en-passant target, if any, is on the board.
    pub open spec fn wf(self) -> bool {
        &&& self.has_grid()
        &&& match self.en_passant {
            Some(sq) => on_board(sq),
            None => true,
        }
    }

    /// What stands on `sq`.
    pub open spec fn cell(self, sq: Square) -> Cell {
        self.cells[sq.0][sq.1]
    }

    /// The piece on `src` is a pawn.
    pub open spec fn moves_pawn(self, src: Square) -> bool {
        self.cell(src) matches Cell::Piece(PieceType::Pawn, _)
    }

    /// The piece on `src` is a rook.
    pub open spec fn moves_rook(self, src: Square) -> bool {
        self.cell(src) matches Cell::Piece(PieceType::Rook, _)
    }

    /// The piece on `src` is the king of `color`.
    pub open spec fn moves_king(self, src: Square, color: Color) -> bool {
        self.cell(src) == Cell::Piece(PieceType::King, color)
    }

    /// The move lands on an occupied square other than its own source.
    pub open spec fn captures(self, src: Square, dst: Square) -> bool {
        src != dst && self.cell(dst) != Cell::Empty
    }

    /// A pawn moves onto the recorded en-passant target.
    pub open spec fn captures_en_passant(self, src: Square, dst: Square) -> bool {
        self.moves_pawn(src) && self.en_passant == Some(dst)
    }

    /// A pawn reaches the first or the eighth rank.
    pub open spec fn promotes(self, src: Square, dst: Square) -> bool {
        self.moves_pawn(src) && (dst.0 == 0 || dst.0 == 7)
    }

    /// A king goes from the e-file to the g-file.
    pub open spec fn castles_kingside(self, src: Square, dst: Square) -> bool {
        self.cell(src) matches Cell::Piece(PieceType::King, _) && src.1 == 4 && dst.1 == 6
    }

    /// A king goes from the e-file to the c-file.
    pub open spec fn castles_queenside(self, src: Square, dst: Square) -> bool {
        self.cell(src) matches Cell::Piece(PieceType::King, _) && src.1 == 4 && dst.1 == 2
    }

    /// A white pawn goes from rank 2 to rank 4, or a black pawn from rank 7
    /// to rank 5.
    pub open spec fn advances_two(self, src: Square, dst: Square) -> bool {
        ||| self.cell(src) == Cell::Piece(PieceType::Pawn, Color::White) && src.0 == 6 && dst.0 == 4
        ||| self.cell(src) == Cell::Piece(PieceType::Pawn, Color::Black) && src.0 == 1 && dst.0 == 3
    }

    /// What a caller of move application owes: both squares are on the
    /// board, the source holds a piece, and a pawn that reaches the back rank
    /// comes with a promotion type.
    pub open spec fn admits_move(self, src: Square, dst: Square, promotion: Option<PieceType>) -> bool {
        &&& on_board(src)
        &&& on_board(dst)
        &&& self.cell(src) != Cell::Empty
        &&& self.promotes(src, dst) ==> promotion is Some
    }

    /// What is wrong with a call of move application, if anything. A caller
    /// that hands over such a move has broken its side of the contract; this
    /// is no fault of the text it was given.
    pub open spec fn move_fault(
        self,
        src: Square,
        dst: Square,
        promotion: Option<PieceType>,
    ) -> Option<MoveError> {
        if !on_board(src) || !on_board(dst) {
            Some(MoveError::OffBoard)
        } else if self.cell(src) == Cell::Empty {
            Some(MoveError::EmptySource)
        } else if self.promotes(src, dst) && promotion is None {
            Some(MoveError::MissingPromotion)
        } else if self.clock_after(src, dst) > u32::MAX {
            Some(MoveError::ClockFull)
        } else {
            None
        }
    }

    /// The cell on (`row`, `col`) once the move from `src` to `dst` is made.
    pub open spec fn cell_after(
        self,
        src: Square,
        dst: Square,
        promotion: Option<PieceType>,
        row: int,
        col: int,
    ) -> Cell {
        if (row, col) == dst {
            if self.promotes(src, dst) {
                match self.cell(src) {
                    Cell::Piece(_, color) => Cell::Piece(promotion->0, color),
                    Cell::Empty => Cell::Empty,
                }
            } else if self.captures_en_passant(src, dst) && src.0 == dst.0 {
                Cell::Empty
            } else {
                self.cell(src)
            }
        } else if (row, col) == src {
            Cell::Empty
        } else if self.captures_en_passant(src, dst) && (row, col) == (src.0, dst.1) {
            Cell::Empty
        } else if self.castles_kingside(src, dst) && (row, col) == (src.0, 7int) {
            Cell::Empty
        } else if self.castles_kingside(src, dst) && (row, col) == (src.0, 5int) {
            self.cells[src.0][7]
        } else if self.castles_queenside(src, dst) && (row, col) == (src.0, 0int) {
            Cell::Empty
        } else if self.castles_queenside(src, dst) && (row, col) == (src.0, 3int) {
            self.cells[src.0][0]
        } else {
            self.cells[row][col]
        }
    }

    /// The halfmove clock once the move is made: zero after a pawn move or a
    /// capture, one more otherwise.
    pub open spec fn clock_after(self, src: Square, dst: Square) -> nat {
        if self.moves_pawn(src) || self.captures(src, dst) {
            0
        } else {
            self.halfmove_clock + 1
        }
    }

    /// The en-passant target once the move is made: the square behind the
    /// destination of a two-square pawn advance, and none otherwise.
    pub open spec fn en_passant_after(self, src: Square, dst: Square) -> Option<Square> {
        if self.cell(src) == Cell::Piece(PieceType::Pawn, Color::White) && src.0 == 6 && dst.0 == 4 {
            Some((dst.0 + 1, dst.1))
        } else if self.cell(src) == Cell::Piece(PieceType::Pawn, Color::Black) && src.0 == 1 && dst.0 == 3 {
            Some((dst.0 - 1, dst.1))
        } else {
            None
        }
    }

    /// The position once the move from `src` to `dst` is made.
    pub open spec fn after_move(self, src: Square, dst: Square, promotion: Option<PieceType>) -> PositionView {
        PositionView {
            cells: Seq::new(
                8,
                |r: int| Seq::new(8, |c: int| self.cell_after(src, dst, promotion, r, c)),
            ),
            side_to_move: opposite(self.side_to_move),
            halfmove_clock: self.clock_after(src, dst),
            white_can_castle_kingside: self.white_can_castle_kingside
                && !self.moves_king(src, Color::White)
                && !(self.moves_rook(src) && src == (7int, 7int)),
            white_can_castle_queenside: self.white_can_castle_queenside
                && !self.moves_king(src, Color::White)
                && !(self.moves_rook(src) && src == (7int, 0int)),
            black_can_castle_kingside: self.black_can_castle_kingside
                && !self.moves_king(src, Color::Black)
                && !(self.moves_rook(src) && src == (0int, 7int)),
            black_can_castle_queenside: self.black_can_castle_queenside
                && !self.moves_king(src, Color::Black)
                && !(self.moves_rook(src) && src == (0int, 0int)),
            en_passant: self.en_passant_after(src, dst),
        }
    }
}

/// A back rank of the starting position, for the side `color`.
pub open spec fn start_back_rank(color: Color) -> Seq<Cell> {
    seq![
        Cell::Piece(PieceType::Rook, color),
        Cell::Piece(PieceType::Knight, color),
        Cell::Piece(PieceType::Bishop, color),
        Cell::Piece(PieceType::Queen, color),
        Cell::Piece(PieceType::King, color),
        Cell::Piece(PieceType::Bishop, color),
        Cell::Piece(PieceType::Knight, color),
        Cell::Piece(PieceType::Rook, color),
    ]
}

/// The standard starting position: White to move, all castling rights, no
/// en-passant target, clock at zero.
pub open spec fn start_position() -> PositionView {
    PositionView {
        cells: seq![
            start_back_rank(Color::Black),
            Seq::new(8, |c: int| Cell::Piece(PieceType::Pawn, Color::Black)),
            Seq::new(8, |c: int| Cell::Empty),
            Seq::new(8, |c: int| Cell::Empty),
            Seq::new(8, |c: int| Cell::Empty),
            Seq::new(8, |c: int| Cell::Empty),
            Seq::new(8, |c: int| Cell::Piece(PieceType::Pawn, Color::White)),
            start_back_rank(Color::White),
        ],
        side_to_move: Color::White,
        halfmove_clock: 0,
        white_can_castle_kingside: true,
        white_can_castle_queenside: true,
        black_can_castle_kingside: true,
        black_can_castle_queenside: true,
        en_passant: None,
    }
}

/// The board state of a game: the grid, the side to move, the halfmove
/// clock, the four castling rights and the en-passant target.
#[derive(Debug, PartialEq)]
pub struct Position {
    cells: [[Cell; 8]; 8],
    side_to_move: Color,
    halfmove_clock: u32,
    white_can_castle_kingside: bool,
    white_can_castle_queenside: bool,
    black_can_castle_kingside: bool,
    black_can_castle_queenside: bool,
    en_passant: Option<(usize, usize)>,
}

/// A square given by machine indices, as a mathematical square.
pub open spec fn square_of(sq: (usize, usize)) -> Square {
    (sq.0 as int, sq.1 as int)
}

/// An optional square given by machine indices, as a mathematical one.
pub open spec fn opt_square_of(sq: Option<(usize, usize)>) -> Option<Square> {
    match sq {
        Some(s) => Some(square_of(s)),
        None => None,
    }
}

/// The grid of a cell array, as rows of cells.
pub open spec fn grid_of(cells: [[Cell; 8]; 8]) -> Seq<Seq<Cell>> {
    Seq::new(8, |r: int| cells@[r]@)
}

/// `now` is `prev` with `cell` on `sq` and nothing else changed.
spec fn differs_at(now: PositionView, prev: PositionView, sq: Square, cell: Cell) -> bool {
    &&& now.has_grid()
    &&& forall|r: int, c: int|
        0 <= r < 8 && 0 <= c < 8 ==> #[trigger] now.cells[r][c] == (if (r, c) == sq {
            cell
        } else {
            prev.cells[r][c]
        })
    &&& now == (PositionView { cells: now.cells, ..prev })
}

/// `now` is `prev` with the piece of `src` lifted and put down on `dst`.
spec fn moved_from(now: PositionView, prev: PositionView, src: Square, dst: Square) -> bool {
    &&& now.has_grid()
    &&& forall|r: int, c: int|
        0 <= r < 8 && 0 <= c < 8 ==> #[trigger] now.cells[r][c] == (if (r, c) == dst {
            prev.cell(src)
        } else if (r, c) == src {
            Cell::Empty
        } else {
            prev.cells[r][c]
        })
    &&& now == (PositionView { cells: now.cells, ..prev })
}

impl View for Position {
    type V = PositionView;

    closed spec fn view(&self) -> PositionView {
        PositionView {
            cells: grid_of(self.cells),
            side_to_move: self.side_to_move,
            halfmove_clock: self.halfmove_clock as nat,
            white_can_castle_kingside: self.white_can_castle_kingside,
            white_can_castle_queenside: self.white_can_castle_queenside,
            black_can_castle_kingside: self.black_can_castle_kingside,
            black_can_castle_queenside: self.black_can_castle_queenside,
            en_passant: opt_square_of(self.en_passant),
        }
    }
}

impl Position {
    /// The en-passant target, where there is one, is on the board.
    #[verifier::type_invariant]
    spec fn target_on_board(self) -> bool {
        match self.en_passant {
            Some(sq) => sq.0 < 8 && sq.1 < 8,
            None => true,
        }
    }

    /// The standard starting position.
    pub fn new() -> (r: Position)
        ensures
            r@ == start_position(),
            r@.wf(),
    {
        let empty = [Cell::Empty; 8];
        let r = Position {
            cells: [
                back_rank(Color::Black),
                [Cell::Piece(PieceType::Pawn, Color::Black); 8],
                empty,
                empty,
                empty,
                empty,
                [Cell::Piece(PieceType::Pawn, Color::White); 8],
                back_rank(Color::White),
            ],
            side_to_move: Color::White,
            halfmove_clock: 0,
            white_can_castle_kingside: true,
            white_can_castle_queenside: true,
            black_can_castle_kingside: true,
            black_can_castle_queenside: true,
            en_passant: None,
        };
        assert(r@.cells =~~= start_position().cells);
        r
    }

    /// Builds a position from its parts.
    pub(crate) fn from_parts(
        cells: [[Cell; 8]; 8],
        side_to_move: Color,
        halfmove_clock: u32,
        castling: (bool, bool, bool, bool),
        en_passant: Option<(usize, usize)>,
    ) -> (r: Position)
        requires
            en_passant matches Some(sq) ==> sq.0 < 8 && sq.1 < 8,
        ensures
            r@ == (PositionView {
                cells: grid_of(cells),
                side_to_move,
                halfmove_clock: halfmove_clock as nat,
                white_can_castle_kingside: castling.0,
                white_can_castle_queenside: castling.1,
                black_can_castle_kingside: castling.2,
                black_can_castle_queenside: castling.3,
                en_passant: opt_square_of(en_passant),
            }),
    {
        Position {
            cells,
            side_to_move,
            halfmove_clock,
            white_can_castle_kingside: castling.0,
            white_can_castle_queenside: castling.1,
            black_can_castle_kingside: castling.2,
            black_can_castle_queenside: castling.3,
            en_passant,
        }
    }

    /// The cell on (`row`, `col`).
    pub fn cell(&self, row: usize, col: usize) -> (r: Cell)
        requires
            row < 8,
            col < 8,
        ensures
            r == self@.cells[row as int][col as int],
    {
        self.cells[row][col]
    }

    /// The side whose turn it is.
    pub fn side_to_move(&self) -> (r: Color)
        ensures
            r == self@.side_to_move,
    {
        self.side_to_move
    }

    /// Plies since the last capture or pawn move.
    pub fn halfmove_clock(&self) -> (r: u32)
        ensures
            r == self@.halfmove_clock,
    {
        self.halfmove_clock
    }

    /// The en-passant target, if the last move was a two-square pawn advance.
    pub fn en_passant(&self) -> (r: Option<(usize, usize)>)
        ensures
            opt_square_of(r) == self@.en_passant,
            self@.wf(),
    {
        proof {
            use_type_invariant(self);
        }
        self.en_passant
    }

    /// Whether `color` still has the right to castle kingside.
    pub fn can_castle_kingside(&self, color: Color) -> (r: bool)
        ensures
            r == match color {
                Color::White => self@.white_can_castle_kingside,
                Color::Black => self@.black_can_castle_kingside,
            },
    {
        match color {
            Color::White => self.white_can_castle_kingside,
            Color::Black => self.black_can_castle_kingside,
        }
    }

    /// Whether `color` still has the right to castle queenside.
    pub fn can_castle_queenside(&self, color: Color) -> (r: bool)
        ensures
            r == match color {
                Color::White => self@.white_can_castle_queenside,
                Color::Black => self@.black_can_castle_queenside,
            },
    {
        match color {
            Color::White => self.white_can_castle_queenside,
            Color::Black => self.black_can_castle_queenside,
        }
    }

    /// Tells whether `make_move` may be called with these arguments, and
    /// if not, what the caller got wrong.
    pub fn check_move(
        &self,
        src: (usize, usize),
        dst: (usize, usize),
        promotion_type: Option<PieceType>,
    ) -> (r: Result<(), MoveError>)
        ensures
            r == match self@.move_fault(square_of(src), square_of(dst), promotion_type) {
                Some(fault) => Err::<(), MoveError>(fault),
                None => Ok(()),
            },
    {
        if src.0 >= 8 || src.1 >= 8 || dst.0 >= 8 || dst.1 >= 8 {
            return Err(MoveError::OffBoard);
        }
        match self.cell(src.0, src.1) {
            Cell::Empty => Err(MoveError::EmptySource),
            Cell::Piece(PieceType::Pawn, _) => {
                if (dst.0 == 0 || dst.0 == 7) && promotion_type.is_none() {
                    Err(MoveError::MissingPromotion)
                } else {
                    Ok(())
                }
            },
            Cell::Piece(_, _) => {
                let lands_on_piece = (src.0 != dst.0 || src.1 != dst.1) && self.cell(dst.0, dst.1)
                    != Cell::Empty;
                if lands_on_piece || self.halfmove_clock < u32::MAX {
                    Ok(())
                } else {
                    Err(MoveError::ClockFull)
                }
            },
        }
    }

    /// Applies the move where `check_move` finds no fault, and leaves the
    /// position as it is where it finds one.
    pub fn try_make_move(
        &mut self,
        src: (usize, usize),
        dst: (usize, usize),
        promotion_type: Option<PieceType>,
    ) -> (r: Result<(), MoveError>)
        ensures
            match old(self)@.move_fault(square_of(src), square_of(dst), promotion_type) {
                Some(fault) => r == Err::<(), MoveError>(fault) && final(self)@ == old(self)@,
                None => r == Ok::<(), MoveError>(()) && final(self)@ == old(self)@.after_move(
                    square_of(src),
                    square_of(dst),
                    promotion_type,
                ),
            },
    {
        match self.check_move(src, dst, promotion_type) {
            Ok(()) => {
                self.make_move(src, dst, promotion_type);
                Ok(())
            },
            Err(fault) => Err(fault),
        }
    }

    /// Applies the move from `src` to `dst` without checking its legality.
    ///
    /// The piece leaves `src` and lands on `dst`. An en-passant capture also
    /// removes the pawn on (source row, destination column); a pawn on the
    /// back rank becomes `promotion_type`; a king that goes from the e-file
    /// to the g- or c-file takes the rook of that corner along. The clock,
    /// the castling rights, the en-passant target and the side to move are
    /// brought up to date.
    pub fn make_move(
        &mut self,
        src: (usize, usize),
        dst: (usize, usize),
        promotion_type: Option<PieceType>,
    )
        requires
            old(self)@.admits_move(square_of(src), square_of(dst), promotion_type),
            old(self)@.clock_after(square_of(src), square_of(dst)) <= u32::MAX,
        ensures
            final(self)@ == old(self)@.after_move(square_of(src), square_of(dst), promotion_type),
            final(self)@.wf(),
    {
        let ghost before = self@;
        assert(before.has_grid());
        let src_cell = self.cell(src.0, src.1);
        self.set(src.0, src.1, Cell::Empty);
        let lands_on_piece = self.cell(dst.0, dst.1) != Cell::Empty;
        self.set(dst.0, dst.1, src_cell);
        match src_cell {
            Cell::Empty => {},
            Cell::Piece(piece_type, color) => {
                match piece_type {
                    PieceType::Pawn => {
                        self.finish_pawn_move(src, dst, color, promotion_type, Ghost(before));
                    },
                    PieceType::King => {
                        self.finish_king_move(
                            src,
                            dst,
                            color,
                            lands_on_piece,
                            Ghost(before),
                            Ghost(promotion_type),
                        );
                    },
                    _ => {
                        self.finish_plain_move(
                            src,
                            dst,
                            piece_type,
                            lands_on_piece,
                            Ghost(before),
                            Ghost(promotion_type),
                        );
                    },
                }
            },
        }
    }

    /// Puts `cell` on (`row`, `col`).
    fn set(&mut self, row: usize, col: usize, cell: Cell)
        requires
            row < 8,
            col < 8,
        ensures
            differs_at(final(self)@, old(self)@, (row as int, col as int), cell),
    {
        proof {
            use_type_invariant(&*self);
        }
        self.cells[row][col] = cell;
    }

    /// Lifts what stands on (`row`, `from`) and puts it down on (`row`, `to`).
    fn bring_rook_along(&mut self, row: usize, from: usize, to: usize)
        requires
            row < 8,
            from < 8,
            to < 8,
            from != to,
        ensures
            moved_from(final(self)@, old(self)@, (row as int, from as int), (row as int, to as int)),
    {
        let rook = self.cell(row, from);
        self.set(row, from, Cell::Empty);
        self.set(row, to, rook);
    }

    /// Sets the clock after a move that is no pawn move, and hands the turn
    /// over with no en-passant target.
    fn end_turn(&mut self, lands_on_piece: bool)
        requires
            !lands_on_piece ==> old(self).halfmove_clock < u32::MAX,
        ensures
            final(self)@ == (PositionView {
                halfmove_clock: if lands_on_piece {
                    0
                } else {
                    old(self)@.halfmove_clock + 1
                },
                en_passant: None,
                side_to_move: opposite(old(self)@.side_to_move),
                ..old(self)@
            }),
    {
        proof {
            use_type_invariant(&*self);
        }
        if lands_on_piece {
            self.halfmove_clock = 0;
        } else {
            self.halfmove_clock = self.halfmove_clock + 1;
        }
        self.en_passant = None;
        self.side_to_move = opposite_color(self.side_to_move);
    }

    /// What a pawn move does once the pawn stands on `dst`: the en-passant
    /// capture, the promotion, the new en-passant target, the clock and the
    /// turn.
    fn finish_pawn_move(
        &mut self,
        src: (usize, usize),
        dst: (usize, usize),
        color: Color,
        promotion_type: Option<PieceType>,
        Ghost(before): Ghost<PositionView>,
    )
        requires
            before.has_grid(),
            before.admits_move(square_of(src), square_of(dst), promotion_type),
            before.cell(square_of(src)) == Cell::Piece(PieceType::Pawn, color),
            moved_from(old(self)@, before, square_of(src), square_of(dst)),
        ensures
            final(self)@ == before.after_move(square_of(src), square_of(dst), promotion_type),
    {
        proof {
            use_type_invariant(&*self);
        }
        if let Some((ep_row, ep_col)) = self.en_passant {
            if dst.0 == ep_row && dst.1 == ep_col {
                self.set(src.0, dst.1, Cell::Empty);
            }
        }
        if dst.0 == 0 || dst.0 == 7 {
            if let Some(promoted) = promotion_type {
                self.set(dst.0, dst.1, Cell::Piece(promoted, color));
            }
        }
        self.halfmove_clock = 0;
        self.en_passant = if color == Color::White && src.0 == 6 && dst.0 == 4 {
            Some((dst.0 + 1, dst.1))
        } else if color == Color::Black && src.0 == 1 && dst.0 == 3 {
            Some((dst.0 - 1, dst.1))
        } else {
            None
        };
        self.side_to_move = opposite_color(self.side_to_move);
        assert forall|r: int, c: int| 0 <= r < 8 && 0 <= c < 8 implies #[trigger] self@.cells[r][c]
            == before.cell_after(square_of(src), square_of(dst), promotion_type, r, c) by {}
        assert(self@.cells =~~= before.after_move(square_of(src), square_of(dst), promotion_type).cells);
    }

    /// What a king move does once the king stands on `dst`: both castling
    /// rights of its color go, the rook of a castling move comes along, and
    /// the clock and the turn move on.
    fn finish_king_move(
        &mut self,
        src: (usize, usize),
        dst: (usize, usize),
        color: Color,
        lands_on_piece: bool,
        Ghost(before): Ghost<PositionView>,
        Ghost(promotion): Ghost<Option<PieceType>>,
    )
        requires
            before.has_grid(),
            before.admits_move(square_of(src), square_of(dst), promotion),
            before.clock_after(square_of(src), square_of(dst)) <= u32::MAX,
            before.cell(square_of(src)) == Cell::Piece(PieceType::King, color),
            lands_on_piece == before.captures(square_of(src), square_of(dst)),
            moved_from(old(self)@, before, square_of(src), square_of(dst)),
        ensures
            final(self)@ == before.after_move(square_of(src), square_of(dst), promotion),
    {
        proof {
            use_type_invariant(&*self);
        }
        match color {
            Color::White => {
                self.white_can_castle_kingside = false;
                self.white_can_castle_queenside = false;
            },
            Color::Black => {
                self.black_can_castle_kingside = false;
                self.black_can_castle_queenside = false;
            },
        }
        if src.1 == 4 {
            if dst.1 == 6 {
                self.bring_rook_along(src.0, 7, 5);
            } else if dst.1 == 2 {
                self.bring_rook_along(src.0, 0, 3);
            }
        }
        self.end_turn(lands_on_piece);
        assert forall|r: int, c: int| 0 <= r < 8 && 0 <= c < 8 implies #[trigger] self@.cells[r][c]
            == before.cell_after(square_of(src), square_of(dst), promotion, r, c) by {}
        assert(self@.cells =~~= before.after_move(square_of(src), square_of(dst), promotion).cells);
    }

    /// What the move of a piece other than pawn and king does once the piece
    /// stands on `dst`: a rook that left a corner takes that corner's
    /// castling right away, and the clock and the turn move on.
    fn finish_plain_move(
        &mut self,
        src: (usize, usize),
        dst: (usize, usize),
        piece_type: PieceType,
        lands_on_piece: bool,
        Ghost(before): Ghost<PositionView>,
        Ghost(promotion): Ghost<Option<PieceType>>,
    )
        requires
            before.has_grid(),
            before.admits_move(square_of(src), square_of(dst), promotion),
            before.clock_after(square_of(src), square_of(dst)) <= u32::MAX,
            before.cell(square_of(src)) matches Cell::Piece(t, _) && t == piece_type,
            piece_type != PieceType::Pawn,
            piece_type != PieceType::King,
            lands_on_piece == before.captures(square_of(src), square_of(dst)),
            moved_from(old(self)@, before, square_of(src), square_of(dst)),
        ensures
            final(self)@ == before.after_move(square_of(src), square_of(dst), promotion),
    {
        proof {
            use_type_invariant(&*self);
        }
        if piece_type == PieceType::Rook {
            if src.0 == 7 {
                if src.1 == 0 {
                    self.white_can_castle_queenside = false;
                } else if src.1 == 7 {
                    self.white_can_castle_kingside = false;
                }
            } else if src.0 == 0 {
                if src.1 == 0 {
                    self.black_can_castle_queenside = false;
                } else if src.1 == 7 {
                    self.black_can_castle_kingside = false;
                }
            }
        }
        self.end_turn(lands_on_piece);
        assert forall|r: int, c: int| 0 <= r < 8 && 0 <= c < 8 implies #[trigger] self@.cells[r][c]
            == before.cell_after(square_of(src), square_of(dst), promotion, r, c) by {}
        assert(self@.cells =~~= before.after_move(square_of(src), square_of(dst), promotion).cells);
    }
}

/// The eight pieces of a back rank in their starting order.
fn back_rank(color: Color) -> (r: [Cell; 8])
    ensures
        r@ == start_back_rank(color),
{
    let r = [
        Cell::Piece(PieceType::Rook, color),
        Cell::Piece(PieceType::Knight, color),
        Cell::Piece(PieceType::Bishop, color),
        Cell::Piece(PieceType::Queen, color),
        Cell::Piece(PieceType::King, color),
        Cell::Piece(PieceType::Bishop, color),
        Cell::Piece(PieceType::Knight, color),
        Cell::Piece(PieceType::Rook, color),
    ];
    assert(r@ =~= start_back_rank(color));
    r
}

} // verus!

//! What holds of every move, stated over the mathematical position.

use vstd::prelude::*;
use crate::color::Color;
use crate::piece::PieceType;
use crate::fen::{
    decode_fields, is_castling, is_number, number_value, piece_of_letter, rank_cells, rank_row,
    run_of_digit, side_of, target_of,
};
use crate::position::{start_position, Cell, PositionView, Square};

verus! {

/// The fields of the record of the standard starting position, behind
/// whatever stands for the whole match.
pub open spec fn start_fields(whole: Option<Seq<char>>) -> Seq<Option<Seq<char>>> {
    seq![
        whole,
        Some(seq!['r', 'n', 'b', 'q', 'k', 'b', 'n', 'r']),
        Some(seq!['p', 'p', 'p', 'p', 'p', 'p', 'p', 'p']),
        Some(seq!['8']),
        Some(seq!['8']),
        Some(seq!['8']),
        Some(seq!['8']),
        Some(seq!['P', 'P', 'P', 'P', 'P', 'P', 'P', 'P']),
        Some(seq!['R', 'N', 'B', 'Q', 'K', 'B', 'N', 'R']),
        Some(seq!['w']),
        Some(seq!['K', 'Q', 'k', 'q']),
        Some(seq!['-']),
        Some(seq!['0']),
        Some(seq!['1']),
    ]
}

/// A rank description made of piece letters alone spells out the pieces of
/// its letters, one for one.
pub proof fn lemma_rank_of_letters(letters: Seq<char>, cells: Seq<Cell>)
    requires
        letters.len() == cells.len(),
        forall|i: int| 0 <= i < letters.len() ==> piece_of_letter(#[trigger] letters[i]) == Some(cells[i]),
    ensures
        rank_cells(letters) == Some(cells),
    decreases letters.len(),
{
    if letters.len() == 0 {
        assert(cells =~= Seq::empty());
    } else {
        lemma_rank_of_letters(letters.drop_last(), cells.drop_last());
        assert(cells =~= cells.drop_last().push(cells.last()));
    }
}

/// A rank description that spells out cells is made of piece letters and
/// of digits from 1 to 8 alone.
pub proof fn lemma_rank_alphabet(s: Seq<char>)
    requires
        rank_cells(s) is Some,
    ensures
        forall|i: int|
            0 <= i < s.len() ==> piece_of_letter(#[trigger] s[i]) is Some || run_of_digit(s[i])
                is Some,
    decreases s.len(),
{
    if s.len() > 0 {
        lemma_rank_alphabet(s.drop_last());
        assert forall|i: int| 0 <= i < s.len() implies piece_of_letter(#[trigger] s[i]) is Some
            || run_of_digit(s[i]) is Some by {
            if i < s.len() - 1 {
                assert(s.drop_last()[i] == s[i]);
            }
        }
    }
}

/// Whatever was captured, a position that the fields decode to is well
/// formed: eight rows of eight cells, and an en-passant target on the board.
pub proof fn lemma_decoded_position_is_well_formed(g: Seq<Option<Seq<char>>>)
    requires
        decode_fields(g) is Ok,
    ensures
        decode_fields(g)->Ok_0.wf(),
        decode_fields(g)->Ok_0.halfmove_clock <= u32::MAX,
{
    assert forall|r: int| 0 <= r < 8 implies (#[trigger] decode_fields(g)->Ok_0.cells[r]).len()
        == 8 by {
        assert(rank_row(g[r + 1]->0) is Some);
    }
}

/// A rank description that is the digit 8 alone stands for an empty row.
pub proof fn lemma_rank_of_eight()
    ensures
        rank_row(seq!['8']) == Some(Seq::new(8, |c: int| Cell::Empty)),
{
    let s = seq!['8'];
    assert(s.drop_last() =~= Seq::<char>::empty());
    assert(rank_cells(s.drop_last()) == Some(Seq::<Cell>::empty()));
    assert(s.last() == '8');
    assert(rank_cells(s)->0 =~= Seq::new(8, |c: int| Cell::Empty));
}

/// The fields of the record of the standard starting position decode to the
/// position that the parameterless constructor builds.
pub proof fn lemma_start_fields_decode(whole: Option<Seq<char>>)
    ensures
        decode_fields(start_fields(whole)) == Ok::<PositionView, crate::fen::FenError>(
            start_position(),
        ),
{
    let g = start_fields(whole);
    let start = start_position();
    lemma_rank_of_letters(g[1]->0, start.cells[0]);
    lemma_rank_of_letters(g[2]->0, start.cells[1]);
    lemma_rank_of_eight();
    lemma_rank_of_letters(g[7]->0, start.cells[6]);
    lemma_rank_of_letters(g[8]->0, start.cells[7]);
    assert(side_of(g[9]->0) == Some(Color::White));
    assert(target_of(g[11]->0) == Some(None::<Square>));
    assert(is_number(g[12]->0) && number_value(g[12]->0) == 0) by {
        assert(g[12]->0.drop_last() =~= Seq::<char>::empty());
        assert(number_value(g[12]->0.drop_last()) == 0);
    }
    assert(is_number(g[13]->0));
    assert(g[10]->0[0] == 'K' && g[10]->0[1] == 'Q' && g[10]->0[2] == 'k' && g[10]->0[3] == 'q');
    assert(is_castling(g[10]->0));
    let cells = Seq::new(8, |r: int| rank_row(g[r + 1]->0)->0);
    assert(cells =~= start.cells);
}

/// A two-square pawn advance sets the en-passant target to the square the
/// pawn skipped: the row between source and destination, in the column of the
/// destination.
pub proof fn lemma_two_square_advance_sets_target(
    p: PositionView,
    src: Square,
    dst: Square,
    promotion: Option<PieceType>,
)
    requires
        p.wf(),
        p.admits_move(src, dst, promotion),
        p.advances_two(src, dst),
    ensures
        p.after_move(src, dst, promotion).en_passant == Some(((src.0 + dst.0) / 2, dst.1)),
        src.0 < (src.0 + dst.0) / 2 < dst.0 || dst.0 < (src.0 + dst.0) / 2 < src.0,
{
}

/// The en-passant target after a move depends on that move alone: it is set
/// exactly when the move is a two-square pawn advance, whatever the target
/// was before.
pub proof fn lemma_target_set_only_by_two_square_advance(
    p: PositionView,
    src: Square,
    dst: Square,
    promotion: Option<PieceType>,
)
    requires
        p.wf(),
        p.admits_move(src, dst, promotion),
    ensures
        p.after_move(src, dst, promotion).en_passant is Some <==> p.advances_two(src, dst),
        p.after_move(src, dst, promotion).wf(),
{
}

/// The target that a move sets is gone after the next move, used or not,
/// unless that next move is a two-square advance itself, which sets its own.
pub proof fn lemma_target_lasts_one_move(
    p: PositionView,
    first: (Square, Square, Option<PieceType>),
    second: (Square, Square, Option<PieceType>),
)
    requires
        p.wf(),
        p.admits_move(first.0, first.1, first.2),
        p.after_move(first.0, first.1, first.2).admits_move(second.0, second.1, second.2),
    ensures
        ({
            let q = p.after_move(first.0, first.1, first.2);
            let r = q.after_move(second.0, second.1, second.2);
            &&& !q.advances_two(second.0, second.1) ==> r.en_passant is None
            &&& q.advances_two(second.0, second.1) ==> r.en_passant == Some(
                ((second.0.0 + second.1.0) / 2, second.1.1),
            )
        }),
{
}

/// A pawn that moves onto the en-passant target from another row empties
/// the square in its own source row and the destination column, and stands
/// on the destination itself (promoted, if that is a back rank).
pub proof fn lemma_en_passant_removes_passed_pawn(
    p: PositionView,
    src: Square,
    dst: Square,
    promotion: Option<PieceType>,
    color: Color,
)
    requires
        p.wf(),
        p.admits_move(src, dst, promotion),
        p.cell(src) == Cell::Piece(PieceType::Pawn, color),
        p.en_passant == Some(dst),
        src.0 != dst.0,
    ensures
        p.after_move(src, dst, promotion).cell((src.0, dst.1)) == Cell::Empty,
        p.after_move(src, dst, promotion).cell(dst) == (if dst.0 == 0 || dst.0 == 7 {
            Cell::Piece(promotion->0, color)
        } else {
            Cell::Piece(PieceType::Pawn, color)
        }),
        p.after_move(src, dst, promotion).halfmove_clock == 0,
{
}

/// A pawn move that does not land on the en-passant target removes nothing
/// but what stood on the destination.
pub proof fn lemma_other_pawn_moves_remove_nothing(
    p: PositionView,
    src: Square,
    dst: Square,
    promotion: Option<PieceType>,
    sq: Square,
)
    requires
        p.wf(),
        p.admits_move(src, dst, promotion),
        p.moves_pawn(src),
        p.en_passant != Some(dst),
        crate::position::on_board(sq),
        sq != src,
        sq != dst,
    ensures
        p.after_move(src, dst, promotion).cell(sq) == p.cell(sq),
{
}

/// Kingside castling: a king that goes from the e-file to the g-file stands
/// on the destination, the rook of the h-file of the source row stands on
/// the f-file, both squares they left are empty, and both castling rights of
/// the king's color are gone.
pub proof fn lemma_castling_kingside(
    p: PositionView,
    src: Square,
    dst: Square,
    promotion: Option<PieceType>,
    color: Color,
)
    requires
        p.wf(),
        p.admits_move(src, dst, promotion),
        p.cell(src) == Cell::Piece(PieceType::King, color),
        src.1 == 4,
        dst.1 == 6,
    ensures
        ({
            let q = p.after_move(src, dst, promotion);
            &&& q.cell(dst) == Cell::Piece(PieceType::King, color)
            &&& q.cell(src) == Cell::Empty
            &&& q.cell((src.0, 5)) == p.cell((src.0, 7))
            &&& q.cell((src.0, 7)) == Cell::Empty
            &&& color == Color::White ==> !q.white_can_castle_kingside
                && !q.white_can_castle_queenside
            &&& color == Color::Black ==> !q.black_can_castle_kingside
                && !q.black_can_castle_queenside
        }),
{
}

/// Queenside castling: a king that goes from the e-file to the c-file stands
/// on the destination, the rook of the a-file of the source row stands on
/// the d-file, both squares they left are empty, and both castling rights of
/// the king's color are gone.
pub proof fn lemma_castling_queenside(
    p: PositionView,
    src: Square,
    dst: Square,
    promotion: Option<PieceType>,
    color: Color,
)
    requires
        p.wf(),
        p.admits_move(src, dst, promotion),
        p.cell(src) == Cell::Piece(PieceType::King, color),
        src.1 == 4,
        dst.1 == 2,
    ensures
        ({
            let q = p.after_move(src, dst, promotion);
            &&& q.cell(dst) == Cell::Piece(PieceType::King, color)
            &&& q.cell(src) == Cell::Empty
            &&& q.cell((src.0, 3)) == p.cell((src.0, 0))
            &&& q.cell((src.0, 0)) == Cell::Empty
            &&& color == Color::White ==> !q.white_can_castle_kingside
                && !q.white_can_castle_queenside
            &&& color == Color::Black ==> !q.black_can_castle_kingside
                && !q.black_can_castle_queenside
        }),
{
}

/// Only the moving piece decides the castling rights: a move of a piece that
/// is neither king nor rook leaves all four as they were, also where it
/// captures a rook that stands on its home square.
pub proof fn lemma_rights_survive_capture_of_rook(
    p: PositionView,
    src: Square,
    dst: Square,
    promotion: Option<PieceType>,
)
    requires
        p.wf(),
        p.admits_move(src, dst, promotion),
        !p.moves_rook(src),
        !p.moves_king(src, Color::White),
        !p.moves_king(src, Color::Black),
    ensures
        ({
            let q = p.after_move(src, dst, promotion);
            &&& q.white_can_castle_kingside == p.white_can_castle_kingside
            &&& q.white_can_castle_queenside == p.white_can_castle_queenside
            &&& q.black_can_castle_kingside == p.black_can_castle_kingside
            &&& q.black_can_castle_queenside == p.black_can_castle_queenside
        }),
{
}

/// A castling right that is gone never comes back.
pub proof fn lemma_rights_never_return(
    p: PositionView,
    src: Square,
    dst: Square,
    promotion: Option<PieceType>,
)
    requires
        p.wf(),
        p.admits_move(src, dst, promotion),
    ensures
        ({
            let q = p.after_move(src, dst, promotion);
            &&& q.white_can_castle_kingside ==> p.white_can_castle_kingside
            &&& q.white_can_castle_queenside ==> p.white_can_castle_queenside
            &&& q.black_can_castle_kingside ==> p.black_can_castle_kingside
            &&& q.black_can_castle_queenside ==> p.black_can_castle_queenside
        }),
{
}

/// The halfmove clock goes up by one on a move that neither captures nor
/// moves a pawn, and back to zero on every capture and every pawn move.
pub proof fn lemma_halfmove_clock(
    p: PositionView,
    src: Square,
    dst: Square,
    promotion: Option<PieceType>,
)
    requires
        p.wf(),
        p.admits_move(src, dst, promotion),
    ensures
        ({
            let q = p.after_move(src, dst, promotion);
            let occupied = src != dst && p.cell(dst) != Cell::Empty;
            &&& p.moves_pawn(src) ==> q.halfmove_clock == 0
            &&& occupied ==> q.halfmove_clock == 0
            &&& !p.moves_pawn(src) && !occupied ==> q.halfmove_clock == p.halfmove_clock + 1
        }),
{
}

/// A pawn that reaches the first or the eighth rank is replaced on the
/// destination by a piece of the requested type and of the pawn's color.
pub proof fn lemma_promotion(
    p: PositionView,
    src: Square,
    dst: Square,
    piece_type: PieceType,
    color: Color,
)
    requires
        p.wf(),
        p.admits_move(src, dst, Some(piece_type)),
        p.cell(src) == Cell::Piece(PieceType::Pawn, color),
        dst.0 == 0 || dst.0 == 7,
    ensures
        p.after_move(src, dst, Some(piece_type)).cell(dst) == Cell::Piece(piece_type, color),
{
}

/// A move has no fault exactly when it meets what move application asks of
/// its caller.
pub proof fn lemma_faultless_moves_are_admitted(
    p: PositionView,
    src: Square,
    dst: Square,
    promotion: Option<PieceType>,
)
    ensures
        p.move_fault(src, dst, promotion) is None <==> p.admits_move(src, dst, promotion)
            && p.clock_after(src, dst) <= u32::MAX,
{
}

/// A move hands the turn to the other side, and two moves hand it back.
pub proof fn lemma_turn_alternates(
    p: PositionView,
    first: (Square, Square, Option<PieceType>),
    second: (Square, Square, Option<PieceType>),
)
    ensures
        p.after_move(first.0, first.1, first.2).side_to_move != p.side_to_move,
        p.after_move(first.0, first.1, first.2).after_move(
            second.0,
            second.1,
            second.2,
        ).side_to_move == p.side_to_move,
{
}

} // verus!

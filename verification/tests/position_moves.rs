use farce::piece::PieceType;
use farce::position::Position;

const STARTPOS_FEN: &str = "rnbqkbnr/pppppppp/8/8/8/8/PPPPPPPP/RNBQKBNR w KQkq - 0 1";

const ROW_1: usize = 7;
const ROW_2: usize = 6;
const ROW_3: usize = 5;
const ROW_4: usize = 4;
const ROW_5: usize = 3;
const ROW_6: usize = 2;
const ROW_7: usize = 1;
const ROW_8: usize = 0;

const COL_A: usize = 0;
const COL_B: usize = 1;
const COL_C: usize = 2;
const COL_D: usize = 3;
const COL_E: usize = 4;
const COL_F: usize = 5;
const COL_G: usize = 6;

fn decode(fen: &str) -> Position {
    Position::from_fen(fen).unwrap()
}

#[test]
fn new_equals_startpos() {
    assert_eq!(Position::new(), decode(STARTPOS_FEN));
}

#[test]
fn moves_1e4() {
    let mut pos = Position::new();
    pos.make_move((ROW_2, COL_E), (ROW_4, COL_E), None);
    assert_eq!(pos,
               decode("rnbqkbnr/pppppppp/8/8/4P3/8/PPPP1PPP/RNBQKBNR b KQkq e3 0 1"));
}

#[test]
fn giuoco_piano() {
    let mut pos = Position::new();
    pos.make_move((ROW_2, COL_E), (ROW_4, COL_E), None);    // 1.e4
    pos.make_move((ROW_7, COL_E), (ROW_5, COL_E), None);    // 1...e5
    pos.make_move((ROW_1, COL_G), (ROW_3, COL_F), None);    // 2.Nf3
    pos.make_move((ROW_8, COL_B), (ROW_6, COL_C), None);    // 2...Nc6
    pos.make_move((ROW_1, COL_F), (ROW_4, COL_C), None);    // 3.Bc4
    pos.make_move((ROW_8, COL_F), (ROW_5, COL_C), None);    // 3...Bc5
    assert_eq!(pos,
               decode("r1bqk1nr/pppp1ppp/2n5/2b1p3/2B1P3/5N2/PPPP1PPP/RNBQK2R w KQkq - 4 4"));
}

#[test]
fn white_capturing_en_passant() {
    let mut pos = decode("k7/p7/8/1P6/8/8/8/K7 b - - 0 1");
    pos.make_move((ROW_7, COL_A), (ROW_5, COL_A), None);    // 1...a5
    pos.make_move((ROW_5, COL_B), (ROW_6, COL_A), None);    // 2.bxa6 e.p.
    assert_eq!(pos,
               decode("k7/8/P7/8/8/8/8/K7 b - - 0 2"));
}

#[test]
fn black_capturing_en_passant() {
    let mut pos = decode("k7/8/8/8/1p6/8/P7/K7 w - - 0 1");
    pos.make_move((ROW_2, COL_A), (ROW_4, COL_A), None);    // 1.a4
    pos.make_move((ROW_4, COL_B), (ROW_3, COL_A), None);    // 1...bxa3 e.p.
    assert_eq!(pos,
               decode("k7/8/8/8/8/p7/8/K7 w - - 0 2"));
}

#[test]
fn not_en_passant() {
    // Looks like en passant, but isn't, so the black pawn on row 5 stays
    let mut pos = decode("k7/4p3/8/3Pp3/8/8/8/K7 b - - 0 1");
    pos.make_move((ROW_7, COL_E), (ROW_6, COL_E), None);    // 1...e6
    pos.make_move((ROW_5, COL_D), (ROW_6, COL_E), None);    // 2.dxe6
    assert_eq!(pos,
               decode("k7/8/4P3/4p3/8/8/8/K7 b - - 0 2"));
}

#[test]
fn white_castling_kingside() {
    let mut pos = decode("k7/8/8/8/8/8/8/4K2R w K - 0 1");
    pos.make_move((ROW_1, COL_E), (ROW_1, COL_G), None);    // 1.O-O
    assert_eq!(pos,
               decode("k7/8/8/8/8/8/8/5RK1 b - - 1 1"));
}

#[test]
fn black_castling_kingside() {
    let mut pos = decode("4k2r/8/8/8/8/8/8/K7 b k - 0 1");
    pos.make_move((ROW_8, COL_E), (ROW_8, COL_G), None);    // 1...O-O
    assert_eq!(pos,
               decode("5rk1/8/8/8/8/8/8/K7 w - - 1 2"));
}

#[test]
fn white_castling_queenside() {
    let mut pos = decode("k7/8/8/8/8/8/8/R3K3 w K - 0 1");
    pos.make_move((ROW_1, COL_E), (ROW_1, COL_C), None);    // 1.O-O-O
    assert_eq!(pos,
               decode("k7/8/8/8/8/8/8/2KR4 b - - 1 1"));
}

#[test]
fn black_castling_queenside() {
    let mut pos = decode("r3k3/8/8/8/8/8/8/K7 b k - 0 1");
    pos.make_move((ROW_8, COL_E), (ROW_8, COL_C), None);    // 1...O-O-O
    assert_eq!(pos,
               decode("2kr4/8/8/8/8/8/8/K7 w - - 1 2"));
}

#[test]
fn promote_pawn_to_knight() {
    let mut pos = decode("k7/4P3/8/8/8/8/8/K7 w - - 0 1");
    pos.make_move((ROW_7, COL_E), (ROW_8, COL_E), Some(PieceType::Knight)); // 1.e8=N
    assert_eq!(pos,
               decode("k3N3/8/8/8/8/8/8/K7 b - - 0 1"));
}

#[test]
fn two_square_advance_sets_skipped_square() {
    let mut pos = Position::new();
    pos.make_move((ROW_2, COL_D), (ROW_4, COL_D), None);
    assert_eq!(pos.en_passant(), Some((ROW_3, COL_D)));
    pos.make_move((ROW_7, COL_G), (ROW_5, COL_G), None);
    assert_eq!(pos.en_passant(), Some((ROW_6, COL_G)));
}

#[test]
fn en_passant_target_is_cleared_when_unused() {
    let mut pos = Position::new();
    pos.make_move((ROW_2, COL_E), (ROW_4, COL_E), None);
    assert_eq!(pos.en_passant(), Some((ROW_3, COL_E)));
    pos.make_move((ROW_8, COL_G), (ROW_6, COL_F), None);
    assert_eq!(pos.en_passant(), None);
}

#[test]
fn single_step_sets_no_target() {
    let mut pos = Position::new();
    pos.make_move((ROW_2, COL_E), (ROW_3, COL_E), None);
    assert_eq!(pos.en_passant(), None);
    assert_eq!(pos.halfmove_clock(), 0);
}

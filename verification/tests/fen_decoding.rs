use farce::color::Color;
use farce::fen::{decode_captures, parse_algebraic_coords, read_rank, FenError};
use farce::piece::PieceType;
use farce::position::{Cell, Position};

fn chars(text: &str) -> Vec<char> {
    text.chars().collect()
}

fn groups(fields: &[&str]) -> Option<Vec<Option<Vec<char>>>> {
    let mut all: Vec<Option<Vec<char>>> = vec![Some(chars(&fields.join(" ")))];
    for field in fields {
        all.push(Some(chars(field)));
    }
    Some(all)
}

const START_FIELDS: [&str; 13] = [
    "rnbqkbnr", "pppppppp", "8", "8", "8", "8", "PPPPPPPP", "RNBQKBNR", "w", "KQkq", "-", "0", "1",
];

#[test]
fn decodes_every_field() {
    let pos = Position::from_fen("4k3/8/8/3pP3/8/8/8/R3K3 w Qk d6 17 42").unwrap();
    assert_eq!(pos.cell(0, 4), Cell::Piece(PieceType::King, Color::Black));
    assert_eq!(pos.cell(3, 3), Cell::Piece(PieceType::Pawn, Color::Black));
    assert_eq!(pos.cell(3, 4), Cell::Piece(PieceType::Pawn, Color::White));
    assert_eq!(pos.cell(7, 0), Cell::Piece(PieceType::Rook, Color::White));
    assert_eq!(pos.cell(7, 4), Cell::Piece(PieceType::King, Color::White));
    assert_eq!(pos.cell(7, 7), Cell::Empty);
    assert_eq!(pos.side_to_move(), Color::White);
    assert_eq!(pos.en_passant(), Some((2, 3)));
    assert_eq!(pos.halfmove_clock(), 17);
    assert!(!pos.can_castle_kingside(Color::White));
    assert!(pos.can_castle_queenside(Color::White));
    assert!(pos.can_castle_kingside(Color::Black));
    assert!(!pos.can_castle_queenside(Color::Black));
}

#[test]
fn black_to_move_is_read() {
    let pos = Position::from_fen("k7/8/8/8/8/8/8/K7 b - - 0 1").unwrap();
    assert_eq!(pos.side_to_move(), Color::Black);
}

#[test]
fn text_off_the_grammar_is_refused() {
    assert_eq!(Position::from_fen("").err(), Some(FenError::Grammar));
    assert_eq!(Position::from_fen("not a position").err(), Some(FenError::Grammar));
    assert_eq!(
        Position::from_fen("rnbqkbnr/pppppppp/8/8/8/8/PPPPPPPP w KQkq - 0 1").err(),
        Some(FenError::Grammar)
    );
    assert_eq!(
        Position::from_fen("rnbqkbnr/pppppppp/8/8/8/8/PPPPPPPP/RNBQKBNR x KQkq - 0 1").err(),
        Some(FenError::Grammar)
    );
    assert_eq!(
        Position::from_fen("rnbqkbnr/pppppppp/8/8/8/8/PPPPPPPP/RNBQKBNR w KQkq e9 0 1").err(),
        Some(FenError::Grammar)
    );
    assert_eq!(
        Position::from_fen("rnbqkbnr/pppppppp/8/8/8/8/PPPPPPPP/RNBQKBNR w KQkq - 0").err(),
        Some(FenError::Grammar)
    );
}

#[test]
fn unknown_piece_letter_is_refused() {
    assert_eq!(
        Position::from_fen("rnbqkbnr/pppppppp/8/8/8/8/PPPPPPPP/RNBQKBNX w KQkq - 0 1").err(),
        Some(FenError::Grammar)
    );
    assert_eq!(
        Position::from_fen("rnbqkbnr/pppppppp/9/8/8/8/PPPPPPPP/RNBQKBNR w KQkq - 0 1").err(),
        Some(FenError::Grammar)
    );
}

#[test]
fn slack_around_the_record_is_refused() {
    assert_eq!(
        Position::from_fen(" rnbqkbnr/pppppppp/8/8/8/8/PPPPPPPP/RNBQKBNR w KQkq - 0 1").err(),
        Some(FenError::Grammar)
    );
    assert_eq!(
        Position::from_fen("rnbqkbnr/pppppppp/8/8/8/8/PPPPPPPP/RNBQKBNR w KQkq - 0 1 ").err(),
        Some(FenError::Grammar)
    );
}

#[test]
fn rank_of_wrong_width_is_refused() {
    assert_eq!(
        Position::from_fen("rnbqkbnr/ppppppp/8/8/8/8/PPPPPPPP/RNBQKBNR w KQkq - 0 1").err(),
        Some(FenError::Rank)
    );
    assert_eq!(
        Position::from_fen("rnbqkbnr/pppppppp/8/8/8/8/PPPPPPPP1/RNBQKBNR w KQkq - 0 1").err(),
        Some(FenError::Rank)
    );
    assert_eq!(
        Position::from_fen("rnbqkbnr/pppppppp/45/8/8/8/PPPPPPPP/RNBQKBNR w KQkq - 0 1").err(),
        Some(FenError::Rank)
    );
}

#[test]
fn clock_beyond_32_bits_is_refused() {
    assert_eq!(
        Position::from_fen("k7/8/8/8/8/8/8/K7 w - - 4294967296 1").err(),
        Some(FenError::Clock)
    );
    assert_eq!(
        Position::from_fen("k7/8/8/8/8/8/8/K7 w - - 99999999999999999999999 1").err(),
        Some(FenError::Clock)
    );
    let pos = Position::from_fen("k7/8/8/8/8/8/8/K7 w - - 4294967295 1").unwrap();
    assert_eq!(pos.halfmove_clock(), 4294967295);
    let pos = Position::from_fen("k7/8/8/8/8/8/8/K7 w - - 0000000000000042 1").unwrap();
    assert_eq!(pos.halfmove_clock(), 42);
}

#[test]
fn castling_letters_come_in_any_order() {
    let pos = Position::from_fen("r3k2r/8/8/8/8/8/8/R3K2R w qK - 0 1").unwrap();
    assert!(pos.can_castle_kingside(Color::White));
    assert!(!pos.can_castle_queenside(Color::White));
    assert!(!pos.can_castle_kingside(Color::Black));
    assert!(pos.can_castle_queenside(Color::Black));
    let pos = Position::from_fen("r3k2r/8/8/8/8/8/8/R3K2R w - - 0 1").unwrap();
    assert!(!pos.can_castle_kingside(Color::White));
    assert!(!pos.can_castle_queenside(Color::Black));
    assert_eq!(
        Position::from_fen("r3k2r/8/8/8/8/8/8/R3K2R w KQ- - 0 1").err(),
        Some(FenError::Grammar)
    );
}

#[test]
fn move_number_is_dropped() {
    assert_eq!(
        Position::from_fen("k7/8/8/8/8/8/8/K7 w - - 3 1").unwrap(),
        Position::from_fen("k7/8/8/8/8/8/8/K7 w - - 3 99999999999999999999").unwrap()
    );
}

#[test]
fn captures_of_the_start_position_decode_to_it() {
    assert_eq!(decode_captures(&groups(&START_FIELDS)).unwrap(), Position::new());
}

#[test]
fn captures_without_a_match_are_refused() {
    assert_eq!(decode_captures(&None).err(), Some(FenError::Grammar));
    assert_eq!(decode_captures(&Some(vec![])).err(), Some(FenError::Grammar));
    let mut short = groups(&START_FIELDS).unwrap();
    short.pop();
    assert_eq!(decode_captures(&Some(short)).err(), Some(FenError::Grammar));
    let mut holed = groups(&START_FIELDS).unwrap();
    holed[10] = None;
    assert_eq!(decode_captures(&Some(holed)).err(), Some(FenError::Grammar));
}

#[test]
fn captures_are_checked_field_by_field() {
    let mut fields = START_FIELDS;
    fields[8] = "white";
    assert_eq!(decode_captures(&groups(&fields)).err(), Some(FenError::Grammar));
    let mut fields = START_FIELDS;
    fields[9] = "KQx";
    assert_eq!(decode_captures(&groups(&fields)).err(), Some(FenError::Grammar));
    let mut fields = START_FIELDS;
    fields[9] = "";
    assert_eq!(decode_captures(&groups(&fields)).err(), Some(FenError::Grammar));
    let mut fields = START_FIELDS;
    fields[9] = "K-";
    assert_eq!(decode_captures(&groups(&fields)).err(), Some(FenError::Grammar));
    let mut fields = START_FIELDS;
    fields[10] = "e0";
    assert_eq!(decode_captures(&groups(&fields)).err(), Some(FenError::Grammar));
    let mut fields = START_FIELDS;
    fields[11] = "1x";
    assert_eq!(decode_captures(&groups(&fields)).err(), Some(FenError::Grammar));
    let mut fields = START_FIELDS;
    fields[12] = "";
    assert_eq!(decode_captures(&groups(&fields)).err(), Some(FenError::Grammar));
    let mut fields = START_FIELDS;
    fields[3] = "4x3";
    assert_eq!(decode_captures(&groups(&fields)).err(), Some(FenError::Rank));
    let mut fields = START_FIELDS;
    fields[0] = "rnbqkbnr1";
    assert_eq!(decode_captures(&groups(&fields)).err(), Some(FenError::Rank));
    let mut fields = START_FIELDS;
    fields[11] = "4294967296";
    assert_eq!(decode_captures(&groups(&fields)).err(), Some(FenError::Clock));
}

#[test]
fn rank_is_read_cell_by_cell() {
    let row = read_rank(&chars("2b1p3")).unwrap();
    assert_eq!(row[0], Cell::Empty);
    assert_eq!(row[1], Cell::Empty);
    assert_eq!(row[2], Cell::Piece(PieceType::Bishop, Color::Black));
    assert_eq!(row[3], Cell::Empty);
    assert_eq!(row[4], Cell::Piece(PieceType::Pawn, Color::Black));
    assert_eq!(row[5], Cell::Empty);
    assert_eq!(row[7], Cell::Empty);
    assert_eq!(read_rank(&chars("8")), Some([Cell::Empty; 8]));
    assert_eq!(read_rank(&chars("")), None);
    assert_eq!(read_rank(&chars("7")), None);
    assert_eq!(read_rank(&chars("81")), None);
    assert_eq!(read_rank(&chars("ppppppppp")), None);
    assert_eq!(read_rank(&chars("0pppppppp")), None);
    assert_eq!(read_rank(&chars("pppp9")), None);
}

#[test]
fn algebraic_coords() {
    assert_eq!(parse_algebraic_coords("a1"), Some((7, 0)));
    assert_eq!(parse_algebraic_coords("h8"), Some((0, 7)));
    assert_eq!(parse_algebraic_coords("e3"), Some((5, 4)));
    assert_eq!(parse_algebraic_coords("c6"), Some((2, 2)));
    assert_eq!(parse_algebraic_coords("i1"), None);
    assert_eq!(parse_algebraic_coords("a9"), None);
    assert_eq!(parse_algebraic_coords("a0"), None);
    assert_eq!(parse_algebraic_coords("A1"), None);
    assert_eq!(parse_algebraic_coords("e"), None);
    assert_eq!(parse_algebraic_coords("e33"), None);
    assert_eq!(parse_algebraic_coords(""), None);
}

use chess_api::movement::Move;
use chess_api::square::Square;

#[test]
fn square_round_trip_all() {
    for x in 0..8u8 {
        for y in 0..8u8 {
            let sq = Square::new(x, y);
            assert_eq!(Square::from_uci(&sq.to_uci()), Ok(sq));
        }
    }
}

#[test]
fn move_round_trip_all() {
    for sx in 0..8u8 {
        for sy in 0..8u8 {
            for ex in 0..8u8 {
                for ey in 0..8u8 {
                    let m = Move::new(Square::new(sx, sy), Square::new(ex, ey));
                    assert_eq!(Move::from_uci(&m.to_uci()), Ok(m));
                }
            }
        }
    }
}

#[test]
fn square_from_uci_corners() {
    assert_eq!(Square::from_uci("a1"), Ok(Square::new(0, 0)));
    assert_eq!(Square::from_uci("h8"), Ok(Square::new(7, 7)));
}

#[test]
fn square_from_uci_examples() {
    assert_eq!(Square::from_uci("a2"), Ok(Square::new(0, 1)));
    assert_eq!(Square::from_uci("c4"), Ok(Square::new(2, 3)));
}

#[test]
fn square_from_uci_rejects_malformed() {
    assert_eq!(Square::from_uci("a0"), Err(()));
    assert_eq!(Square::from_uci("a9"), Err(()));
    assert_eq!(Square::from_uci("i1"), Err(()));
    assert_eq!(Square::from_uci(""), Err(()));
    assert_eq!(Square::from_uci("a11"), Err(()));
}

#[test]
fn square_from_uci_rejects_wrong_case_and_order() {
    assert_eq!(Square::from_uci("A1"), Err(()));
    assert_eq!(Square::from_uci("1a"), Err(()));
    assert_eq!(Square::from_uci("a"), Err(()));
    assert_eq!(Square::from_uci("8h"), Err(()));
}

#[test]
fn square_to_uci_examples() {
    assert_eq!(Square::new(0, 0).to_uci(), "a1");
    assert_eq!(Square::new(2, 3).to_uci(), "c4");
    assert_eq!(Square::new(7, 7).to_uci(), "h8");
}

#[test]
fn square_from_uci_iter_advances_on_success() {
    let mut pos: usize = 0;
    assert_eq!(Square::from_uci_iter("e2e4", &mut pos), Ok(Square::new(4, 1)));
    assert_eq!(pos, 2);
    assert_eq!(Square::from_uci_iter("e2e4", &mut pos), Ok(Square::new(4, 3)));
    assert_eq!(pos, 4);
    assert_eq!(Square::from_uci_iter("e2e4", &mut pos), Err(()));
    assert_eq!(pos, 4);
}

#[test]
fn square_from_uci_iter_stays_put_on_failure() {
    let mut pos: usize = 0;
    assert_eq!(Square::from_uci_iter("x1a1", &mut pos), Err(()));
    assert_eq!(pos, 0);
    pos = 1;
    assert_eq!(Square::from_uci_iter("xa1", &mut pos), Ok(Square::new(0, 0)));
    assert_eq!(pos, 3);
}

#[test]
fn move_from_uci_example() {
    assert_eq!(
        Move::from_uci("e3c4"),
        Ok(Move::new(Square::new(4, 2), Square::new(2, 3)))
    );
}

#[test]
fn move_from_uci_rejects_malformed() {
    assert_eq!(Move::from_uci("a1a1a"), Err(()));
    assert_eq!(Move::from_uci("a0a0"), Err(()));
    assert_eq!(Move::from_uci("a1a"), Err(()));
    assert_eq!(Move::from_uci(""), Err(()));
    assert_eq!(Move::from_uci("a1i1"), Err(()));
}

#[test]
fn move_to_uci_examples() {
    assert_eq!(Move::new(Square::new(0, 0), Square::new(7, 7)).to_uci(), "a1h8");
    assert_eq!(Move::new(Square::new(4, 1), Square::new(4, 3)).to_uci(), "e2e4");
}

#[test]
fn move_with_equal_start_and_end_is_permitted() {
    let m = Move::new(Square::new(3, 3), Square::new(3, 3));
    assert_eq!(m.to_uci(), "d4d4");
    assert_eq!(Move::from_uci("d4d4"), Ok(m));
}

#[test]
fn move_from_uci_iter_leaves_trailing_input() {
    let mut pos: usize = 0;
    assert_eq!(
        Move::from_uci_iter("e2e4x", &mut pos),
        Ok(Move::new(Square::new(4, 1), Square::new(4, 3)))
    );
    assert_eq!(pos, 4);
}

#[test]
fn move_from_uci_iter_stays_put_on_failure() {
    let mut pos: usize = 0;
    assert_eq!(Move::from_uci_iter("e2x4", &mut pos), Err(()));
    assert_eq!(pos, 0);
    assert_eq!(Move::from_uci_iter("x2e4", &mut pos), Err(()));
    assert_eq!(pos, 0);
}

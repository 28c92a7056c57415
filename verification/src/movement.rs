use vstd::prelude::*;

use crate::square::{lemma_square_eq, lemma_square_round_trip, parse_square_at, Square};

verus! {

/// A move: an ordered pair of squares, the origin and the destination of a
/// piece relocation. No legality is checked; a move whose start and end
/// coincide is permitted.
#[derive(Copy, Clone, Debug, PartialEq, Eq, Structural)]
pub struct Move {
    start: Square,
    end: Square,
}

/// The move written at position `i` of `s`, if two back-to-back squares are
/// written there: the start square at `i` and the end square at `i + 2`.
pub open spec fn parse_move_at(s: Seq<char>, i: int) -> Option<((u8, u8), (u8, u8))> {
    if parse_square_at(s, i) is Some && parse_square_at(s, i + 2) is Some {
        Some((parse_square_at(s, i).unwrap(), parse_square_at(s, i + 2).unwrap()))
    } else {
        None
    }
}

/// The move denoted by the whole of `s`: exactly four characters forming two
/// valid squares, with nothing trailing.
pub open spec fn parse_move(s: Seq<char>) -> Option<((u8, u8), (u8, u8))> {
    if s.len() == 4 {
        parse_move_at(s, 0)
    } else {
        None
    }
}

impl Move {
    /// The square the move starts from.
    pub closed spec fn start(&self) -> Square {
        self.start
    }

    /// The square the move ends on.
    pub closed spec fn end(&self) -> Square {
        self.end
    }

    /// The coordinates of both squares, for stating parses and equalities
    /// compactly.
    pub open spec fn coords(&self) -> ((u8, u8), (u8, u8)) {
        (self.start().coords(), self.end().coords())
    }

    /// The move's invariant: both squares are valid.
    pub open spec fn wf(&self) -> bool {
        self.start().wf() && self.end().wf()
    }

    /// The four characters of this move's UCI notation, e.g. `['e', '2',
    /// 'e', '4']`.
    pub open spec fn uci_seq(&self) -> Seq<char> {
        self.start().uci_seq() + self.end().uci_seq()
    }

    /// Creates a move from two squares. Any pair of valid squares is
    /// accepted, including a pair whose start and end coincide.
    pub fn new(start: Square, end: Square) -> (r: Move)
        ensures
            r.start() == start,
            r.end() == end,
    {
        Move { start, end }
    }

    /// Parses a move from a shared character cursor: on success the four
    /// characters at `*pos` are consumed and `*pos` ends up just past them;
    /// on failure `*pos` is left where it was.
    ///
    /// Unlike [`Move::from_uci`], this does not demand that the cursor be
    /// exhausted afterwards, so a longer notation can parse a move and then
    /// continue with whatever follows it.
    pub fn from_uci_iter(s: &str, pos: &mut usize) -> (r: Result<Move, ()>)
        ensures
            match r {
                Ok(m) => m.wf() && parse_move_at(s@, *old(pos) as int) == Some(m.coords())
                    && *final(pos) == *old(pos) + 4,
                Err(_) => parse_move_at(s@, *old(pos) as int) is None && *final(pos) == *old(
                    pos,
                ),
            },
    {
        let entry: usize = *pos;
        let start = match Square::from_uci_iter(s, pos) {
            Ok(sq) => sq,
            Err(_) => {
                return Err(());
            },
        };
        match Square::from_uci_iter(s, pos) {
            Ok(end) => Ok(Move::new(start, end)),
            Err(_) => {
                *pos = entry;
                Err(())
            },
        }
    }

    /// Parses a move from a whole UCI string: exactly four characters
    /// forming two valid squares back to back; any trailing character, even
    /// after a valid four-character prefix, makes the whole parse fail.
    pub fn from_uci(uci: &str) -> (r: Result<Move, ()>)
        ensures
            match r {
                Ok(m) => m.wf() && parse_move(uci@) == Some(m.coords()),
                Err(_) => parse_move(uci@) is None,
            },
    {
        let n = uci.unicode_len();
        let mut pos: usize = 0;
        match Move::from_uci_iter(uci, &mut pos) {
            Ok(m) => if pos == n {
                Ok(m)
            } else {
                Err(())
            },
            Err(_) => Err(()),
        }
    }

    /// Renders this move as its four-character UCI notation: the start
    /// square's text immediately followed by the end square's text.
    pub fn to_uci(&self) -> (r: String)
        requires
            self.wf(),
        ensures
            r@ == self.uci_seq(),
    {
        let mut uci = self.start.to_uci();
        uci.append(self.end.to_uci().as_str());
        uci
    }
}

/// Two moves are equal exactly when the coordinates of their squares agree.
pub proof fn lemma_move_eq(a: Move, b: Move)
    ensures
        (a == b) <==> (a.coords() == b.coords()),
{
    lemma_square_eq(a.start(), b.start());
    lemma_square_eq(a.end(), b.end());
}

/// Round trip: the UCI text of any valid move parses back to exactly that
/// move's coordinates, so printing then parsing loses nothing.
pub proof fn lemma_move_round_trip(m: Move)
    requires
        m.wf(),
    ensures
        parse_move(m.uci_seq()) == Some(m.coords()),
{
    lemma_square_round_trip(m.start());
    lemma_square_round_trip(m.end());
}

} // verus!

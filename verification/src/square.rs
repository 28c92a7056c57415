use vstd::prelude::*;

verus! {

/// One cell of a chess board, as a zero-based (file, rank) coordinate pair.
///
/// The file `x` runs from 0 (file `'a'`) to 7 (file `'h'`); the rank `y` runs
/// from 0 (rank `"1"`) to 7 (rank `"8"`). Every square ever handed out by this
/// module satisfies [`Square::wf`]: both coordinates lie in `[0, 8)`.
#[derive(Copy, Clone, PartialEq, Eq, Structural, Debug)]
pub struct Square {
    x: u8,
    y: u8,
}

/// The file letter of file index `x`: `'a'` for 0 up to `'h'` for 7.
pub open spec fn file_char(x: int) -> char {
    if x == 0 {
        'a'
    } else if x == 1 {
        'b'
    } else if x == 2 {
        'c'
    } else if x == 3 {
        'd'
    } else if x == 4 {
        'e'
    } else if x == 5 {
        'f'
    } else if x == 6 {
        'g'
    } else {
        'h'
    }
}

/// The rank digit of rank index `y`: `'1'` for 0 up to `'8'` for 7.
pub open spec fn rank_char(y: int) -> char {
    if y == 0 {
        '1'
    } else if y == 1 {
        '2'
    } else if y == 2 {
        '3'
    } else if y == 3 {
        '4'
    } else if y == 4 {
        '5'
    } else if y == 5 {
        '6'
    } else if y == 6 {
        '7'
    } else {
        '8'
    }
}

/// The file index denoted by the character `c`, if any: `'a'` maps to 0 up to
/// `'h'` mapping to 7; every other character (upper case included) is invalid.
pub open spec fn file_value(c: char) -> Option<u8> {
    if c == 'a' {
        Some(0u8)
    } else if c == 'b' {
        Some(1u8)
    } else if c == 'c' {
        Some(2u8)
    } else if c == 'd' {
        Some(3u8)
    } else if c == 'e' {
        Some(4u8)
    } else if c == 'f' {
        Some(5u8)
    } else if c == 'g' {
        Some(6u8)
    } else if c == 'h' {
        Some(7u8)
    } else {
        None
    }
}

/// The rank index denoted by the character `c`, if any: `'1'` maps to 0 up to
/// `'8'` mapping to 7; every other character (`'0'` and `'9'` included) is
/// invalid.
pub open spec fn rank_value(c: char) -> Option<u8> {
    if c == '1' {
        Some(0u8)
    } else if c == '2' {
        Some(1u8)
    } else if c == '3' {
        Some(2u8)
    } else if c == '4' {
        Some(3u8)
    } else if c == '5' {
        Some(4u8)
    } else if c == '6' {
        Some(5u8)
    } else if c == '7' {
        Some(6u8)
    } else if c == '8' {
        Some(7u8)
    } else {
        None
    }
}

/// The square coordinates written at position `i` of `s`, if the two
/// characters `s[i]` and `s[i + 1]` exist and form a valid file letter
/// followed by a valid rank digit.
pub open spec fn parse_square_at(s: Seq<char>, i: int) -> Option<(u8, u8)> {
    if 0 <= i && i + 2 <= s.len() && file_value(s[i]) is Some && rank_value(s[i + 1]) is Some {
        Some((file_value(s[i]).unwrap(), rank_value(s[i + 1]).unwrap()))
    } else {
        None
    }
}

/// The square coordinates denoted by the whole of `s`: exactly two
/// characters, a valid file letter followed by a valid rank digit.
pub open spec fn parse_square(s: Seq<char>) -> Option<(u8, u8)> {
    if s.len() == 2 {
        parse_square_at(s, 0)
    } else {
        None
    }
}

impl Square {
    /// The file index of this square.
    pub closed spec fn file(&self) -> u8 {
        self.x
    }

    /// The rank index of this square.
    pub closed spec fn rank(&self) -> u8 {
        self.y
    }

    /// Both coordinates at once, for stating parses and equalities compactly.
    pub open spec fn coords(&self) -> (u8, u8) {
        (self.file(), self.rank())
    }

    /// The square's invariant: both coordinates lie in `[0, 8)`.
    pub open spec fn wf(&self) -> bool {
        self.file() < 8 && self.rank() < 8
    }

    /// The two characters of this square's UCI notation, e.g. `['e', '4']`.
    pub open spec fn uci_seq(&self) -> Seq<char> {
        seq![file_char(self.file() as int), rank_char(self.rank() as int)]
    }

    /// Creates a square from already-validated coordinates.
    ///
    /// Out-of-range coordinates are a caller bug, not untrusted input: the
    /// precondition excludes them, and a caller outside the verified world
    /// that passes them anyway aborts rather than obtaining a square that
    /// breaks the invariant.
    pub fn new(x: u8, y: u8) -> (r: Square)
        requires
            x < 8,
            y < 8,
        ensures
            r.wf(),
            r.coords() == (x, y),
    {
        if x < 8 && y < 8 {
            Square { x, y }
        } else {
            unreached()
        }
    }

    /// Parses a square from a shared character cursor: on success the two
    /// characters at `*pos` are consumed and `*pos` ends up just past them;
    /// on failure `*pos` is left where it was.
    ///
    /// This is the incremental building block that lets a larger parser read
    /// several squares back to back from one string without re-scanning.
    pub fn from_uci_iter(s: &str, pos: &mut usize) -> (r: Result<Square, ()>)
        ensures
            match r {
                Ok(sq) => sq.wf() && parse_square_at(s@, *old(pos) as int) == Some(sq.coords())
                    && *final(pos) == *old(pos) + 2,
                Err(_) => parse_square_at(s@, *old(pos) as int) is None && *final(pos) == *old(
                    pos,
                ),
            },
    {
        let n = s.unicode_len();
        if *pos >= n || n - *pos < 2 {
            return Err(());
        }
        let c0 = s.get_char(*pos);
        let c1 = s.get_char(*pos + 1);
        match (file_index(c0), rank_index(c1)) {
            (Some(x), Some(y)) => {
                *pos = *pos + 2;
                Ok(Square::new(x, y))
            },
            _ => Err(()),
        }
    }

    /// Parses a square from a whole UCI token: exactly two characters, a
    /// file letter `'a'..='h'` followed by a rank digit `'1'..='8'`; any
    /// other string, shorter, longer or malformed, is rejected.
    pub fn from_uci(uci: &str) -> (r: Result<Square, ()>)
        ensures
            match r {
                Ok(sq) => sq.wf() && parse_square(uci@) == Some(sq.coords()),
                Err(_) => parse_square(uci@) is None,
            },
    {
        let n = uci.unicode_len();
        if n != 2 {
            return Err(());
        }
        let mut pos: usize = 0;
        Square::from_uci_iter(uci, &mut pos)
    }

    /// Renders this square as its two-character UCI notation, the file
    /// letter followed by the rank digit.
    pub fn to_uci(&self) -> (r: String)
        requires
            self.wf(),
        ensures
            r@ == self.uci_seq(),
    {
        let mut uci = String::from_str(file_str(self.x));
        uci.append(rank_str(self.y));
        proof {
            assert(uci@ =~= self.uci_seq());
        }
        uci
    }
}

/// The one-character string holding the file letter of file index `x`.
fn file_str(x: u8) -> (r: &'static str)
    requires
        x < 8,
    ensures
        r@.len() == 1,
        r@[0] == file_char(x as int),
{
    proof {
        reveal_strlit("a");
        reveal_strlit("b");
        reveal_strlit("c");
        reveal_strlit("d");
        reveal_strlit("e");
        reveal_strlit("f");
        reveal_strlit("g");
        reveal_strlit("h");
    }
    match x {
        0 => "a",
        1 => "b",
        2 => "c",
        3 => "d",
        4 => "e",
        5 => "f",
        6 => "g",
        _ => "h",
    }
}

/// The one-character string holding the rank digit of rank index `y`.
fn rank_str(y: u8) -> (r: &'static str)
    requires
        y < 8,
    ensures
        r@.len() == 1,
        r@[0] == rank_char(y as int),
{
    proof {
        reveal_strlit("1");
        reveal_strlit("2");
        reveal_strlit("3");
        reveal_strlit("4");
        reveal_strlit("5");
        reveal_strlit("6");
        reveal_strlit("7");
        reveal_strlit("8");
    }
    match y {
        0 => "1",
        1 => "2",
        2 => "3",
        3 => "4",
        4 => "5",
        5 => "6",
        6 => "7",
        _ => "8",
    }
}

/// Decides which file index, if any, the character `c` denotes.
fn file_index(c: char) -> (r: Option<u8>)
    ensures
        r == file_value(c),
{
    if c == 'a' {
        Some(0)
    } else if c == 'b' {
        Some(1)
    } else if c == 'c' {
        Some(2)
    } else if c == 'd' {
        Some(3)
    } else if c == 'e' {
        Some(4)
    } else if c == 'f' {
        Some(5)
    } else if c == 'g' {
        Some(6)
    } else if c == 'h' {
        Some(7)
    } else {
        None
    }
}

/// Decides which rank index, if any, the character `c` denotes.
fn rank_index(c: char) -> (r: Option<u8>)
    ensures
        r == rank_value(c),
{
    if c == '1' {
        Some(0)
    } else if c == '2' {
        Some(1)
    } else if c == '3' {
        Some(2)
    } else if c == '4' {
        Some(3)
    } else if c == '5' {
        Some(4)
    } else if c == '6' {
        Some(5)
    } else if c == '7' {
        Some(6)
    } else if c == '8' {
        Some(7)
    } else {
        None
    }
}

/// Two squares are equal exactly when their coordinates agree.
pub proof fn lemma_square_eq(a: Square, b: Square)
    ensures
        (a == b) <==> (a.coords() == b.coords()),
{
}

/// Round trip: the UCI text of any valid square parses back to exactly that
/// square's coordinates, so printing then parsing loses nothing.
pub proof fn lemma_square_round_trip(sq: Square)
    requires
        sq.wf(),
    ensures
        parse_square(sq.uci_seq()) == Some(sq.coords()),
{
}

} // verus!

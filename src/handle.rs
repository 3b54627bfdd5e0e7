//! The named parts of a rectangle that a gesture can grab: its corners and
//! sides, and the directions in which it can grow or shrink. Each has a
//! kebab-case token used in configuration text, matched without regard to
//! ASCII case.
use vstd::prelude::*;
use vstd::string::*;

verus! {

/// Corner of a rectangle
#[derive(Copy, Clone, Debug, PartialEq, Eq, Structural, PartialOrd, Ord, Hash)]
pub enum Corner {
    /// Top-left corner
    TopLeft,
    /// Top-right corner
    TopRight,
    /// Bottom-left corner
    BottomLeft,
    /// Bottom-right corner
    BottomRight,
}

/// Side of a rectangle
#[derive(Copy, Clone, Debug, PartialEq, Eq, Structural, PartialOrd, Ord, Hash)]
pub enum Side {
    /// Top side
    Top,
    /// Right side
    Right,
    /// Bottom side
    Bottom,
    /// Left side
    Left,
}

/// Where to resize / shrink / extend a rectangle
#[derive(Copy, Clone, Debug, PartialEq, Eq, Structural, PartialOrd, Ord, Hash)]
pub enum Direction {
    /// Above
    Up,
    /// Below
    Down,
    /// To the left
    Left,
    /// To the right
    Right,
}

/// A side or a corner: the handle of a rectangle under the cursor
#[derive(Copy, Clone, Debug, PartialEq, Eq, Structural, PartialOrd, Ord, Hash)]
pub enum SideOrCorner {
    /// One of the 4 sides of a rectangle
    Side(Side),
    /// One of the 4 corners of a rectangle
    Corner(Corner),
}

/// A token that names no value; `expected` lists the accepted spellings.
#[derive(Copy, Clone, Debug, PartialEq, Eq)]
pub struct InvalidToken {
    pub expected: &'static str,
}

/// Whether character `c` of the input stands for character `t` of a
/// lower-case token: the same character, or its ASCII upper-case form.
pub open spec fn char_matches(c: char, t: char) -> bool {
    c == t || ('A' <= c <= 'Z' && c as int + 32 == t as int)
}

/// Whether the input `s` spells the lower-case token `t`, ignoring ASCII case.
pub open spec fn matches_token(s: Seq<char>, t: Seq<char>) -> bool {
    &&& s.len() == t.len()
    &&& forall|i: int| 0 <= i < s.len() ==> char_matches(#[trigger] s[i], t[i])
}

/// Compares `s` with the lower-case token `t`, ignoring ASCII case.
fn matches_ignore_case(s: &str, t: &str) -> (r: bool)
    ensures
        r == matches_token(s@, t@),
{
    let n = s.unicode_len();
    if n != t.unicode_len() {
        return false;
    }
    let mut i: usize = 0;
    while i < n
        invariant
            n == s@.len(),
            n == t@.len(),
            i <= n,
            forall|j: int| 0 <= j < i ==> char_matches(#[trigger] s@[j], t@[j]),
        decreases n - i,
    {
        let c = s.get_char(i);
        let d = t.get_char(i);
        if !(c == d || ('A' <= c && c <= 'Z' && (c as u32) + 32 == d as u32)) {
            assert(!char_matches(s@[i as int], t@[i as int]));
            return false;
        }
        i = i + 1;
    }
    true
}

impl Corner {
    /// The token naming this corner.
    pub open spec fn token(self) -> Seq<char> {
        match self {
            Corner::TopLeft => "top-left"@,
            Corner::TopRight => "top-right"@,
            Corner::BottomLeft => "bottom-left"@,
            Corner::BottomRight => "bottom-right"@,
        }
    }

    /// The corner that input `s` names, if any.
    pub open spec fn spec_parse(s: Seq<char>) -> Option<Corner> {
        if matches_token(s, Corner::TopLeft.token()) {
            Some(Corner::TopLeft)
        } else if matches_token(s, Corner::TopRight.token()) {
            Some(Corner::TopRight)
        } else if matches_token(s, Corner::BottomLeft.token()) {
            Some(Corner::BottomLeft)
        } else if matches_token(s, Corner::BottomRight.token()) {
            Some(Corner::BottomRight)
        } else {
            None
        }
    }

    /// The accepted corner tokens, separated by commas.
    pub open spec fn expected() -> Seq<char> {
        "top-left, top-right, bottom-left, bottom-right"@
    }

    /// The token naming this corner.
    pub fn to_token(self) -> (r: &'static str)
        ensures
            r@ == self.token(),
    {
        match self {
            Corner::TopLeft => "top-left",
            Corner::TopRight => "top-right",
            Corner::BottomLeft => "bottom-left",
            Corner::BottomRight => "bottom-right",
        }
    }

    /// Reads a corner from its token, ignoring ASCII case.
    pub fn parse_token(s: &str) -> (r: Result<Corner, InvalidToken>)
        ensures
            r is Ok <==> Corner::spec_parse(s@) is Some,
            r is Ok ==> Corner::spec_parse(s@) == Some(r->Ok_0),
            r is Err ==> r->Err_0.expected@ == Corner::expected(),
    {
        if matches_ignore_case(s, "top-left") {
            Ok(Corner::TopLeft)
        } else if matches_ignore_case(s, "top-right") {
            Ok(Corner::TopRight)
        } else if matches_ignore_case(s, "bottom-left") {
            Ok(Corner::BottomLeft)
        } else if matches_ignore_case(s, "bottom-right") {
            Ok(Corner::BottomRight)
        } else {
            Err(InvalidToken { expected: "top-left, top-right, bottom-left, bottom-right" })
        }
    }
}

impl Side {
    /// The token naming this side.
    pub open spec fn token(self) -> Seq<char> {
        match self {
            Side::Top => "top"@,
            Side::Right => "right"@,
            Side::Bottom => "bottom"@,
            Side::Left => "left"@,
        }
    }

    /// The side that input `s` names, if any.
    pub open spec fn spec_parse(s: Seq<char>) -> Option<Side> {
        if matches_token(s, Side::Top.token()) {
            Some(Side::Top)
        } else if matches_token(s, Side::Right.token()) {
            Some(Side::Right)
        } else if matches_token(s, Side::Bottom.token()) {
            Some(Side::Bottom)
        } else if matches_token(s, Side::Left.token()) {
            Some(Side::Left)
        } else {
            None
        }
    }

    /// The accepted side tokens, separated by commas.
    pub open spec fn expected() -> Seq<char> {
        "top, right, bottom, left"@
    }

    /// The token naming this side.
    pub fn to_token(self) -> (r: &'static str)
        ensures
            r@ == self.token(),
    {
        match self {
            Side::Top => "top",
            Side::Right => "right",
            Side::Bottom => "bottom",
            Side::Left => "left",
        }
    }

    /// Reads a side from its token, ignoring ASCII case.
    pub fn parse_token(s: &str) -> (r: Result<Side, InvalidToken>)
        ensures
            r is Ok <==> Side::spec_parse(s@) is Some,
            r is Ok ==> Side::spec_parse(s@) == Some(r->Ok_0),
            r is Err ==> r->Err_0.expected@ == Side::expected(),
    {
        if matches_ignore_case(s, "top") {
            Ok(Side::Top)
        } else if matches_ignore_case(s, "right") {
            Ok(Side::Right)
        } else if matches_ignore_case(s, "bottom") {
            Ok(Side::Bottom)
        } else if matches_ignore_case(s, "left") {
            Ok(Side::Left)
        } else {
            Err(InvalidToken { expected: "top, right, bottom, left" })
        }
    }
}

impl Direction {
    /// The token naming this direction.
    pub open spec fn token(self) -> Seq<char> {
        match self {
            Direction::Up => "up"@,
            Direction::Down => "down"@,
            Direction::Left => "left"@,
            Direction::Right => "right"@,
        }
    }

    /// The direction that input `s` names, if any.
    pub open spec fn spec_parse(s: Seq<char>) -> Option<Direction> {
        if matches_token(s, Direction::Up.token()) {
            Some(Direction::Up)
        } else if matches_token(s, Direction::Down.token()) {
            Some(Direction::Down)
        } else if matches_token(s, Direction::Left.token()) {
            Some(Direction::Left)
        } else if matches_token(s, Direction::Right.token()) {
            Some(Direction::Right)
        } else {
            None
        }
    }

    /// The accepted direction tokens, separated by commas.
    pub open spec fn expected() -> Seq<char> {
        "up, down, left, right"@
    }

    /// The token naming this direction.
    pub fn to_token(self) -> (r: &'static str)
        ensures
            r@ == self.token(),
    {
        match self {
            Direction::Up => "up",
            Direction::Down => "down",
            Direction::Left => "left",
            Direction::Right => "right",
        }
    }

    /// Reads a direction from its token, ignoring ASCII case.
    pub fn parse_token(s: &str) -> (r: Result<Direction, InvalidToken>)
        ensures
            r is Ok <==> Direction::spec_parse(s@) is Some,
            r is Ok ==> Direction::spec_parse(s@) == Some(r->Ok_0),
            r is Err ==> r->Err_0.expected@ == Direction::expected(),
    {
        if matches_ignore_case(s, "up") {
            Ok(Direction::Up)
        } else if matches_ignore_case(s, "down") {
            Ok(Direction::Down)
        } else if matches_ignore_case(s, "left") {
            Ok(Direction::Left)
        } else if matches_ignore_case(s, "right") {
            Ok(Direction::Right)
        } else {
            Err(InvalidToken { expected: "up, down, left, right" })
        }
    }
}

impl SideOrCorner {
    /// The token naming this side or corner.
    pub open spec fn token(self) -> Seq<char> {
        match self {
            SideOrCorner::Side(side) => side.token(),
            SideOrCorner::Corner(corner) => corner.token(),
        }
    }

    /// The side or corner that input `s` names, if any; sides are tried first.
    pub open spec fn spec_parse(s: Seq<char>) -> Option<SideOrCorner> {
        match Side::spec_parse(s) {
            Some(side) => Some(SideOrCorner::Side(side)),
            None => match Corner::spec_parse(s) {
                Some(corner) => Some(SideOrCorner::Corner(corner)),
                None => None,
            },
        }
    }

    /// The accepted tokens, sides then corners, separated by commas.
    pub open spec fn expected() -> Seq<char> {
        Side::expected() + ", "@ + Corner::expected()
    }

    /// All the accepted tokens, sides then corners, separated by commas.
    pub fn variants() -> (r: String)
        ensures
            r@ == SideOrCorner::expected(),
    {
        let mut r = String::from_str("top, right, bottom, left");
        r.append(", ");
        r.append("top-left, top-right, bottom-left, bottom-right");
        r
    }

    /// The token naming this side or corner.
    pub fn to_token(self) -> (r: &'static str)
        ensures
            r@ == self.token(),
    {
        match self {
            SideOrCorner::Side(side) => side.to_token(),
            SideOrCorner::Corner(corner) => corner.to_token(),
        }
    }

    /// Reads a side or a corner from its token, ignoring ASCII case; the
    /// error message lists every accepted token.
    pub fn parse_token(s: &str) -> (r: Result<SideOrCorner, String>)
        ensures
            r is Ok <==> SideOrCorner::spec_parse(s@) is Some,
            r is Ok ==> SideOrCorner::spec_parse(s@) == Some(r->Ok_0),
            r is Err ==> r->Err_0@ == "expected one of "@ + SideOrCorner::expected(),
    {
        match Side::parse_token(s) {
            Ok(side) => Ok(SideOrCorner::Side(side)),
            Err(_) => match Corner::parse_token(s) {
                Ok(corner) => Ok(SideOrCorner::Corner(corner)),
                Err(_) => {
                    let mut message = String::from_str("expected one of ");
                    let list = SideOrCorner::variants();
                    message.append(list.as_str());
                    Err(message)
                },
            },
        }
    }
}

impl std::str::FromStr for SideOrCorner {
    type Err = String;

    fn from_str(s: &str) -> Result<Self, Self::Err> {
        SideOrCorner::parse_token(s)
    }
}

/// Every corner reads back from its own token.
pub proof fn lemma_corner_token_round_trip(v: Corner)
    ensures
        Corner::spec_parse(v.token()) == Some(v),
{
    reveal_strlit("top-left");
    reveal_strlit("top-right");
    reveal_strlit("bottom-left");
    reveal_strlit("bottom-right");
}

/// Every side reads back from its own token.
pub proof fn lemma_side_token_round_trip(v: Side)
    ensures
        Side::spec_parse(v.token()) == Some(v),
{
    reveal_strlit("top");
    reveal_strlit("right");
    reveal_strlit("bottom");
    reveal_strlit("left");
}

/// Every direction reads back from its own token.
pub proof fn lemma_direction_token_round_trip(v: Direction)
    ensures
        Direction::spec_parse(v.token()) == Some(v),
{
    reveal_strlit("up");
    reveal_strlit("down");
    reveal_strlit("left");
    reveal_strlit("right");
    assert(!char_matches("left"@[0], "down"@[0]));
}

/// Every side or corner reads back from its own token.
pub proof fn lemma_side_or_corner_token_round_trip(v: SideOrCorner)
    ensures
        SideOrCorner::spec_parse(v.token()) == Some(v),
{
    reveal_strlit("top");
    reveal_strlit("right");
    reveal_strlit("bottom");
    reveal_strlit("left");
    reveal_strlit("top-left");
    reveal_strlit("top-right");
    reveal_strlit("bottom-left");
    reveal_strlit("bottom-right");
}

} // verus!

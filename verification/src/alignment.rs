//! Alignment of a widget along the vertical axis of the slot it was given.
//!
//! Lengths are whole device units. A position or a height that comes out of an
//! alignment is signed and wide enough for every outcome: nothing is clamped, so
//! margins that exceed the slot give a negative height.

use vstd::prelude::*;
use vstd::string::*;

verus! {

/// The offsets that keep a widget away from the edges of its slot.
///
/// Every offset is a length, so none is negative.
#[derive(Copy, Clone, Debug, PartialEq, Eq, Structural)]
pub struct Margin {
    pub top: u32,
    pub right: u32,
    pub bottom: u32,
    pub left: u32,
}

impl Margin {
    /// A margin of no width on any side.
    pub fn zero() -> (margin: Margin)
        ensures
            margin == (Margin { top: 0, right: 0, bottom: 0, left: 0 }),
    {
        Margin { top: 0, right: 0, bottom: 0, left: 0 }
    }
}

/// Used to vertically align a widget.
#[derive(Copy, Clone, Debug, PartialEq, Eq, Structural)]
pub enum VerticalAlignment {
    /// Align at the top.
    Top,
    /// Align at the center.
    Center,
    /// Align at the bottom.
    Bottom,
    /// Stretch to the available height.
    Stretch,
}

/// Half of `d`, rounded toward zero.
pub open spec fn half(d: int) -> int {
    if d >= 0 {
        d / 2
    } else {
        -((-d) / 2)
    }
}

/// The code of `c` with the upper-case ASCII letters moved onto the lower-case ones.
pub open spec fn fold_case(c: char) -> int {
    if 'A' <= c <= 'Z' {
        c as int + 32
    } else {
        c as int
    }
}

/// Two texts are the same but for the case of their ASCII letters.
pub open spec fn same_ignoring_case(a: Seq<char>, b: Seq<char>) -> bool {
    &&& a.len() == b.len()
    &&& forall|i: int| 0 <= i < a.len() ==> fold_case(#[trigger] a[i]) == fold_case(b[i])
}

/// The canonical name of `Top`.
pub open spec fn name_top() -> Seq<char> {
    seq!['T', 'o', 'p']
}

/// The canonical name of `Center`.
pub open spec fn name_center() -> Seq<char> {
    seq!['C', 'e', 'n', 't', 'e', 'r']
}

/// The canonical name of `Bottom`.
pub open spec fn name_bottom() -> Seq<char> {
    seq!['B', 'o', 't', 't', 'o', 'm']
}

/// The alignment that a textual token stands for: the one whose canonical name it
/// is, whatever the case of its letters, and `Stretch` for every other token.
pub open spec fn alignment_of(token: Seq<char>) -> VerticalAlignment {
    if same_ignoring_case(token, name_top()) {
        VerticalAlignment::Top
    } else if same_ignoring_case(token, name_center()) {
        VerticalAlignment::Center
    } else if same_ignoring_case(token, name_bottom()) {
        VerticalAlignment::Bottom
    } else {
        VerticalAlignment::Stretch
    }
}

/// The folded code of one character.
fn folded(c: char) -> (code: u32)
    ensures
        code == fold_case(c),
{
    if 'A' <= c && c <= 'Z' {
        c as u32 + 32
    } else {
        c as u32
    }
}

/// Whether `token` is `name` but for the case of its ASCII letters.
fn is_name(token: &str, name: &str) -> (same: bool)
    ensures
        same == same_ignoring_case(token@, name@),
{
    let n: usize = name.unicode_len();
    if token.unicode_len() != n {
        return false;
    }
    let mut i: usize = 0;
    while i < n
        invariant
            n == name@.len(),
            n == token@.len(),
            i <= n,
            forall|j: int| 0 <= j < i ==> fold_case(#[trigger] token@[j]) == fold_case(name@[j]),
        decreases n - i,
    {
        if folded(token.get_char(i)) != folded(name.get_char(i)) {
            return false;
        }
        i += 1;
    }
    true
}

/// Reads an alignment from a textual token.
fn parse(token: &str) -> (alignment: VerticalAlignment)
    ensures
        alignment == alignment_of(token@),
{
    proof {
        reveal_strlit("Top");
        reveal_strlit("Center");
        reveal_strlit("Bottom");
        assert("Top"@ =~= name_top());
        assert("Center"@ =~= name_center());
        assert("Bottom"@ =~= name_bottom());
    }
    if is_name(token, "Top") {
        VerticalAlignment::Top
    } else if is_name(token, "Center") {
        VerticalAlignment::Center
    } else if is_name(token, "Bottom") {
        VerticalAlignment::Bottom
    } else {
        VerticalAlignment::Stretch
    }
}

impl VerticalAlignment {
    /// The y position of a widget of the given height inside a slot of the
    /// available height.
    pub open spec fn spec_align_y(self, available_height: int, height: int, margin: Margin) -> int {
        match self {
            VerticalAlignment::Bottom => available_height - height - margin.bottom,
            VerticalAlignment::Center => half(available_height - height),
            _ => margin.top as int,
        }
    }

    /// The height of a widget of the given goal height inside a slot of the
    /// available height.
    pub open spec fn spec_align_height(
        self,
        available_height: int,
        height: int,
        margin: Margin,
    ) -> int {
        match self {
            VerticalAlignment::Stretch => available_height - margin.top - margin.bottom,
            _ => height,
        }
    }

    /// Calculates the y position of the widget depending on the available height, the goal
    /// height, the margin and the vertical alignment.
    pub fn align_y(&self, available_height: u32, height: u32, margin: Margin) -> (y: i64)
        ensures
            y == self.spec_align_y(available_height as int, height as int, margin),
    {
        let available: i64 = available_height as i64;
        let goal: i64 = height as i64;
        match self {
            VerticalAlignment::Bottom => available - goal - (margin.bottom as i64),
            VerticalAlignment::Center => (available - goal) / 2,
            _ => margin.top as i64,
        }
    }

    /// Calculates the height of the widget depending on the available height, the goal
    /// height, the margin and the vertical alignment.
    pub fn align_height(&self, available_height: u32, height: u32, margin: Margin) -> (h: i64)
        ensures
            h == self.spec_align_height(available_height as int, height as int, margin),
    {
        match self {
            VerticalAlignment::Stretch => {
                (available_height as i64) - (margin.top as i64) - (margin.bottom as i64)
            },
            _ => height as i64,
        }
    }
}

impl Default for VerticalAlignment {
    fn default() -> (alignment: VerticalAlignment)
        ensures
            alignment == VerticalAlignment::Stretch,
    {
        VerticalAlignment::Stretch
    }
}

impl<'a> From<&'a str> for VerticalAlignment {
    fn from(t: &'a str) -> (alignment: VerticalAlignment) {
        parse(t)
    }
}

impl<'a> vstd::std_specs::convert::FromSpecImpl<&'a str> for VerticalAlignment {
    open spec fn obeys_from_spec() -> bool {
        true
    }

    open spec fn from_spec(t: &'a str) -> VerticalAlignment {
        alignment_of(t@)
    }
}

impl From<String> for VerticalAlignment {
    fn from(t: String) -> (alignment: VerticalAlignment) {
        parse(t.as_str())
    }
}

impl vstd::std_specs::convert::FromSpecImpl<String> for VerticalAlignment {
    open spec fn obeys_from_spec() -> bool {
        true
    }

    open spec fn from_spec(t: String) -> VerticalAlignment {
        alignment_of(t@)
    }
}

/// A stretched widget starts where the top margin ends, and its position, its
/// height and the bottom margin together fill the slot.
pub proof fn lemma_stretch_fills_slot(available_height: u32, height: u32, margin: Margin)
    ensures
        VerticalAlignment::Stretch.spec_align_y(available_height as int, height as int, margin)
            == margin.top,
        VerticalAlignment::Stretch.spec_align_y(available_height as int, height as int, margin)
            + VerticalAlignment::Stretch.spec_align_height(
            available_height as int,
            height as int,
            margin,
        ) + margin.bottom == available_height,
{
}

/// A centered widget that fits its slot has exactly half of the free height above
/// it, whatever the margin.
pub proof fn lemma_center_halves_free_height(available_height: u32, height: u32, margin: Margin)
    requires
        available_height >= height,
    ensures
        VerticalAlignment::Center.spec_align_y(available_height as int, height as int, margin) == (
        available_height - height) / 2,
{
}

} // verus!

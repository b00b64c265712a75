//! The dice: rolling them, telling a match, and drawing a roll as text.

use vstd::prelude::*;

verus! {

/// The fewest pips a die shows.
pub const MIN_FACE: u8 = 1;

/// The most pips a die shows.
pub const MAX_FACE: u8 = 6;

/// The marker that follows a roll in which every die agrees.
pub const MATCH_MARKER: char = '\u{2605}';

/// Whether `value` is a face of a die.
pub open spec fn is_face(value: u8) -> bool {
    1 <= value <= 6
}

/// Whether every entry of `dice` is a face of a die.
pub open spec fn all_faces(dice: Seq<u8>) -> bool {
    forall|i: int| 0 <= i < dice.len() ==> is_face(#[trigger] dice[i])
}

/// The glyph of a face: the six die glyphs follow one another from U+2680.
pub open spec fn face_glyph(value: u8) -> char
    recommends
        is_face(value),
{
    seq!['\u{2680}', '\u{2681}', '\u{2682}', '\u{2683}', '\u{2684}', '\u{2685}'][value - 1]
}

/// A roll is a match when it holds at least one die and every die shows what
/// the first one shows.
pub open spec fn all_same(dice: Seq<u8>) -> bool {
    dice.len() > 0 && forall|i: int| 0 <= i < dice.len() ==> #[trigger] dice[i] == dice[0]
}

/// The glyphs of a roll in roll order, one space between neighbours.
pub open spec fn glyph_row(dice: Seq<u8>) -> Seq<char>
    decreases dice.len(),
{
    if dice.len() == 0 {
        Seq::empty()
    } else if dice.len() == 1 {
        seq![face_glyph(dice[0])]
    } else {
        glyph_row(dice.drop_last()) + seq![' ', face_glyph(dice.last())]
    }
}

/// The line a roll is shown as: its glyphs, and behind them a space and the
/// marker where the roll is shown as a match.
pub open spec fn display_text(dice: Seq<u8>, marked: bool) -> Seq<char> {
    if marked {
        glyph_row(dice) + seq![' ', '\u{2605}']
    } else {
        glyph_row(dice)
    }
}

/// `rand::Rng::gen_range` on the thread's generator, `rand::thread_rng()`,
/// with the inclusive range from `low` to `high`. The generator promises a
/// value inside the range it is given, and no more is claimed here: which
/// value comes is left open. An empty range makes it panic, so it is excluded.
#[verifier::external_body]
fn sample_inclusive(low: u8, high: u8) -> (r: u8)
    requires
        low <= high,
    ensures
        low <= r <= high,
{
    rand::Rng::gen_range(&mut rand::thread_rng(), low..=high)
}

/// `String::from_iter` over the characters of a vector: the text holds those
/// characters, in their order.
#[verifier::external_body]
pub(crate) fn text_of(chars: &Vec<char>) -> (s: String)
    ensures
        s@ == chars@,
{
    String::from_iter(chars.iter())
}

/// Rolls one die.
pub fn roll_dice() -> (value: u8)
    ensures
        is_face(value),
{
    sample_inclusive(MIN_FACE, MAX_FACE)
}

/// The glyph that shows `value` pips.
pub fn dice_to_char(value: u8) -> (glyph: char)
    requires
        is_face(value),
    ensures
        glyph == face_glyph(value),
{
    if value == 1 {
        '\u{2680}'
    } else if value == 2 {
        '\u{2681}'
    } else if value == 3 {
        '\u{2682}'
    } else if value == 4 {
        '\u{2683}'
    } else if value == 5 {
        '\u{2684}'
    } else {
        '\u{2685}'
    }
}

/// Rolls `count` dice, one after the other.
pub fn roll_multiple_dice(count: usize) -> (dice: Vec<u8>)
    ensures
        dice@.len() == count,
        all_faces(dice@),
{
    let mut dice: Vec<u8> = Vec::new();
    let mut rolled: usize = 0;
    while rolled < count
        invariant
            rolled <= count,
            dice@.len() == rolled,
            all_faces(dice@),
        decreases count - rolled,
    {
        let value = roll_dice();
        dice.push(value);
        rolled = rolled + 1;
    }
    dice
}

/// Whether the roll is a match.
pub fn is_all_same(dice: &[u8]) -> (same: bool)
    ensures
        same == all_same(dice@),
{
    if dice.len() == 0 {
        return false;
    }
    let first = dice[0];
    let mut at: usize = 1;
    while at < dice.len()
        invariant
            1 <= at <= dice@.len(),
            first == dice@[0],
            forall|i: int| 0 <= i < at ==> #[trigger] dice@[i] == first,
        decreases dice@.len() - at,
    {
        if dice[at] != first {
            return false;
        }
        at = at + 1;
    }
    true
}

/// The line that shows a roll, with the match marker where `is_zoromi` asks
/// for it.
pub fn dice_to_display(dice: &[u8], is_zoromi: bool) -> (line: String)
    requires
        all_faces(dice@),
    ensures
        line@ == display_text(dice@, is_zoromi),
{
    let mut chars: Vec<char> = Vec::new();
    let mut at: usize = 0;
    while at < dice.len()
        invariant
            at <= dice@.len(),
            all_faces(dice@),
            chars@ == glyph_row(dice@.take(at as int)),
        decreases dice@.len() - at,
    {
        proof {
            let next = dice@.take(at + 1);
            assert(next.drop_last() == dice@.take(at as int));
            assert(next.last() == dice@[at as int]);
        }
        if at > 0 {
            chars.push(' ');
        }
        chars.push(dice_to_char(dice[at]));
        at = at + 1;
    }
    proof {
        assert(dice@.take(dice@.len() as int) == dice@);
    }
    if is_zoromi {
        chars.push(' ');
        chars.push(MATCH_MARKER);
    }
    text_of(&chars)
}

/// A roll of no dice is no match.
pub proof fn lemma_empty_roll_is_no_match()
    ensures
        !all_same(Seq::<u8>::empty()),
{
}

/// A roll of one die is a match, whatever it shows.
pub proof fn lemma_single_die_is_match(value: u8)
    ensures
        all_same(seq![value]),
{
}

/// Whether a roll is a match does not depend on the order of its dice: a roll
/// and the same roll read backwards agree.
pub proof fn lemma_match_ignores_order(dice: Seq<u8>)
    ensures
        all_same(dice.reverse()) == all_same(dice),
{
    let back = dice.reverse();
    assert(back.len() == dice.len());
    if dice.len() > 0 {
        let n = dice.len() as int;
        assert(forall|i: int| 0 <= i < n ==> back[i] == dice[n - 1 - i]);
        if all_same(dice) {
            assert forall|i: int| 0 <= i < n implies #[trigger] back[i] == back[0] by {
                assert(dice[n - 1 - i] == dice[0]);
                assert(dice[n - 1] == dice[0]);
            }
        }
        if all_same(back) {
            assert forall|i: int| 0 <= i < n implies #[trigger] dice[i] == dice[0] by {
                assert(back[n - 1 - i] == back[0]);
                assert(back[n - 1] == back[0]);
            }
        }
    }
}

} // verus!

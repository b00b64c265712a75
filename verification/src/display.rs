//! The text that a trial is shown with.

use vstd::prelude::*;
use vstd::string::*;
use crate::dice::{all_faces, all_same, dice_to_display, display_text, is_all_same, text_of};

verus! {

/// The width that the number of trials is padded to.
pub const TRIAL_WIDTH: usize = 15;

/// The width that minutes and seconds are padded to.
pub const CLOCK_WIDTH: usize = 2;

/// The character of a decimal digit.
pub open spec fn digit_glyph(digit: int) -> char
    recommends
        0 <= digit < 10,
{
    seq!['0', '1', '2', '3', '4', '5', '6', '7', '8', '9'][digit]
}

/// A number in decimal digits, without leading zeros.
pub open spec fn decimal(n: nat) -> Seq<char>
    decreases n,
{
    if n < 10 {
        seq![digit_glyph(n as int)]
    } else {
        decimal(n / 10).push(digit_glyph((n % 10) as int))
    }
}

/// `count` zeros.
pub open spec fn zeros(count: nat) -> Seq<char> {
    Seq::new(count, |i: int| '0')
}

/// A number in decimal digits, with zeros in front up to `width` characters.
/// A number that needs more keeps all its digits.
pub open spec fn zero_padded(n: nat, width: nat) -> Seq<char> {
    let digits = decimal(n);
    if digits.len() >= width {
        digits
    } else {
        zeros((width - digits.len()) as nat) + digits
    }
}

/// A time in whole seconds as minutes and seconds, both of at least two
/// digits, with a colon between them. The minutes are not cut off at an hour.
pub open spec fn elapsed_text(total_secs: nat) -> Seq<char> {
    zero_padded(total_secs / 60, 2) + seq![':'] + zero_padded(total_secs % 60, 2)
}

/// The second line of a trial up to the probability, which follows it.
pub open spec fn stats_text(trial: nat, elapsed_secs: nat) -> Seq<char> {
    "number of trials: "@ + zero_padded(trial, 15) + " / ETA: "@ + elapsed_text(elapsed_secs)
        + " / Prob: "@
}

fn digit_to_char(digit: u64) -> (glyph: char)
    requires
        digit < 10,
    ensures
        glyph == digit_glyph(digit as int),
{
    if digit == 0 {
        '0'
    } else if digit == 1 {
        '1'
    } else if digit == 2 {
        '2'
    } else if digit == 3 {
        '3'
    } else if digit == 4 {
        '4'
    } else if digit == 5 {
        '5'
    } else if digit == 6 {
        '6'
    } else if digit == 7 {
        '7'
    } else if digit == 8 {
        '8'
    } else {
        '9'
    }
}

fn push_decimal(out: &mut Vec<char>, n: u64)
    ensures
        final(out)@ == old(out)@ + decimal(n as nat),
    decreases n,
{
    if n >= 10 {
        push_decimal(out, n / 10);
    }
    out.push(digit_to_char(n % 10));
    proof {
        let before = old(out)@;
        if n >= 10 {
            assert(final(out)@ == (before + decimal((n / 10) as nat)).push(
                digit_glyph((n % 10) as int),
            ));
            assert(final(out)@ =~= before + decimal(n as nat));
        } else {
            assert(final(out)@ =~= before + decimal(n as nat));
        }
    }
}

fn push_zero_padded(out: &mut Vec<char>, n: u64, width: usize)
    ensures
        final(out)@ == old(out)@ + zero_padded(n as nat, width as nat),
{
    let mut digits: Vec<char> = Vec::new();
    push_decimal(&mut digits, n);
    assert(digits@ =~= decimal(n as nat));
    let mut filled: usize = digits.len();
    while filled < width
        invariant
            digits@.len() <= filled,
            filled <= width || filled == digits@.len(),
            out@ == old(out)@ + zeros((filled - digits@.len()) as nat),
        decreases width - filled,
    {
        out.push('0');
        filled = filled + 1;
        assert(out@ =~= old(out)@ + zeros((filled - digits@.len()) as nat));
    }
    push_decimal(out, n);
    assert(out@ =~= old(out)@ + zero_padded(n as nat, width as nat));
}

/// A time in whole seconds as `MM:SS`.
pub fn format_elapsed(total_secs: u64) -> (text: String)
    ensures
        text@ == elapsed_text(total_secs as nat),
{
    let mut chars: Vec<char> = Vec::new();
    push_zero_padded(&mut chars, total_secs / 60, CLOCK_WIDTH);
    chars.push(':');
    push_zero_padded(&mut chars, total_secs % 60, CLOCK_WIDTH);
    assert(chars@ =~= elapsed_text(total_secs as nat));
    text_of(&chars)
}

/// The number of a trial, padded with zeros to fifteen digits.
pub fn format_trial(trial: u64) -> (text: String)
    ensures
        text@ == zero_padded(trial as nat, 15),
{
    let mut chars: Vec<char> = Vec::new();
    push_zero_padded(&mut chars, trial, TRIAL_WIDTH);
    assert(chars@ =~= zero_padded(trial as nat, 15));
    text_of(&chars)
}

/// The two lines that show a trial, and whether the cursor goes back up to
/// draw the next trial over them.
#[derive(Debug)]
pub struct Frame {
    /// The dice, with the marker behind them where they match.
    pub dice_line: String,
    /// The statistics up to the probability, which the caller puts behind it.
    pub stats_lead: String,
    /// Whether the next trial is drawn over this one: it is unless the dice
    /// match.
    pub rewind: bool,
}

/// The lines for the trial with number `trial`, in which `dice` were rolled
/// after `elapsed_secs` whole seconds.
pub fn render_frame(dice: &[u8], trial: u64, elapsed_secs: u64) -> (frame: Frame)
    requires
        all_faces(dice@),
    ensures
        frame.dice_line@ == display_text(dice@, all_same(dice@)),
        frame.stats_lead@ == stats_text(trial as nat, elapsed_secs as nat),
        frame.rewind == !all_same(dice@),
{
    let is_zoromi = is_all_same(dice);
    let dice_line = dice_to_display(dice, is_zoromi);
    let trial_text = format_trial(trial);
    let elapsed = format_elapsed(elapsed_secs);
    let mut stats_lead = String::new();
    stats_lead.append("number of trials: ");
    stats_lead.append(trial_text.as_str());
    stats_lead.append(" / ETA: ");
    stats_lead.append(elapsed.as_str());
    stats_lead.append(" / Prob: ");
    assert(stats_lead@ =~= stats_text(trial as nat, elapsed_secs as nat));
    Frame { dice_line, stats_lead, rewind: !is_zoromi }
}

/// A padded number has at least the width asked for.
pub proof fn lemma_padding_fills_width(n: nat, width: nat)
    ensures
        zero_padded(n, width).len() >= width,
        zero_padded(n, width).len() >= decimal(n).len(),
{
}

/// The seconds always take two characters, and the minutes two or more: the
/// colon is the third character from the end.
pub proof fn lemma_seconds_take_two_characters(total_secs: nat)
    ensures
        zero_padded(total_secs % 60, 2).len() == 2,
        elapsed_text(total_secs).len() == zero_padded(total_secs / 60, 2).len() + 3,
        elapsed_text(total_secs).len() >= 5,
        elapsed_text(total_secs)[elapsed_text(total_secs).len() - 3] == ':',
{
    reveal_with_fuel(decimal, 3);
    let secs = total_secs % 60;
    if secs < 10 {
        assert(decimal(secs).len() == 1);
    } else {
        assert(decimal(secs / 10).len() == 1);
        assert(decimal(secs).len() == 2);
    }
    lemma_padding_fills_width(total_secs / 60, 2);
}

} // verus!

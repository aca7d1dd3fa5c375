//! The progress bar that is shown while a request is under way.

use vstd::prelude::*;
use vstd::string::*;
use crate::text::{decimal, decimal_string};

verus! {

/// The width of the bar, in slots.
pub const BAR_SLOTS: u64 = 20;

/// How many slots of the bar are filled after `elapsed` of `total` seconds:
/// the elapsed share of the bar, rounded down, and never more than the whole
/// bar. A total of zero counts as one second.
pub open spec fn filled_slots(elapsed: u64, total: u64) -> int {
    let safe_total: int = if total == 0 { 1 } else { total as int };
    let share = (elapsed * BAR_SLOTS) / safe_total;
    if share < BAR_SLOTS {
        share
    } else {
        BAR_SLOTS as int
    }
}

/// The character `c`, `n` times.
pub open spec fn repeated(c: char, n: nat) -> Seq<char> {
    Seq::new(n, |i: int| c)
}

/// The bar and the times behind it: the filled slots, the empty slots, then
/// `] `, the elapsed seconds, `s/`, the total seconds and `s`.
pub open spec fn progress_text(elapsed: u64, total: u64) -> Seq<char> {
    let filled = filled_slots(elapsed, total);
    "["@ + repeated('\u{2588}', filled as nat) + repeated(
        '\u{2591}',
        (BAR_SLOTS - filled) as nat,
    ) + "] "@ + decimal(elapsed as nat) + "s/"@ + decimal(total as nat) + "s"@
}

/// Counts the filled slots of the bar.
pub fn progress_slots(elapsed: u64, total: u64) -> (slots: u64)
    ensures
        slots == filled_slots(elapsed, total),
        slots <= BAR_SLOTS,
{
    let safe_total: u128 = if total == 0 {
        1
    } else {
        total as u128
    };
    let scaled: u128 = (elapsed as u128) * (BAR_SLOTS as u128);
    let share: u128 = scaled / safe_total;
    if share < BAR_SLOTS as u128 {
        share as u64
    } else {
        BAR_SLOTS
    }
}

/// Draws the bar and the times behind it.
pub fn progress_bar(elapsed: u64, total: u64) -> (text: String)
    ensures
        text@ == progress_text(elapsed, total),
{
    let filled = progress_slots(elapsed, total);
    let mut text = String::from_str("[");
    let ghost start = text@;
    let mut i: u64 = 0;
    while i < filled
        invariant
            i <= filled,
            text@ == start + repeated('\u{2588}', i as nat),
        decreases filled - i,
    {
        proof {
            reveal_strlit("\u{2588}");
        }
        text.append("\u{2588}");
        assert(text@ =~= start + repeated('\u{2588}', (i + 1) as nat));
        i = i + 1;
    }
    let ghost full = text@;
    let empty: u64 = BAR_SLOTS - filled;
    let mut j: u64 = 0;
    while j < empty
        invariant
            j <= empty,
            text@ == full + repeated('\u{2591}', j as nat),
        decreases empty - j,
    {
        proof {
            reveal_strlit("\u{2591}");
        }
        text.append("\u{2591}");
        assert(text@ =~= full + repeated('\u{2591}', (j + 1) as nat));
        j = j + 1;
    }
    text.append("] ");
    let spent = decimal_string(elapsed);
    text.append(spent.as_str());
    text.append("s/");
    let whole = decimal_string(total);
    text.append(whole.as_str());
    text.append("s");
    text
}

} // verus!

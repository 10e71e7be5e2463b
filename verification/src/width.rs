//! Display width of text in terminal columns, and shortening a line that is
//! wider than the viewport.
//!
//! Measuring is one thing and deciding another: `shorten` and `count_kept`
//! decide from widths that they are given, and `fit_to_width` measures a
//! line and hands the widths on.

use vstd::prelude::*;
use unicode_width::UnicodeWidthStr;
use crate::text::{chars_of, push_chars};

verus! {

/// The number of terminal columns that `text` takes, as the `unicode-width`
/// crate measures a string (wide East Asian characters count two columns).
pub uninterp spec fn display_width(text: Seq<char>) -> nat;

/// Calls `UnicodeWidthStr::width` of the `unicode-width` crate on `s`. The
/// contract only gives that number its name: the width of a string is a
/// function of its characters alone.
#[verifier::external_body]
pub(crate) fn str_width(s: &str) -> (w: usize)
    ensures
        w as nat == display_width(s@),
{
    UnicodeWidthStr::width(s)
}

/// The columns that the character `c` takes when it stands alone.
pub open spec fn char_columns(c: char) -> nat {
    display_width(seq![c])
}

/// The widths of the characters of `chars`, each measured alone.
pub open spec fn char_widths(chars: Seq<char>) -> Seq<nat> {
    Seq::new(chars.len(), |i: int| char_columns(chars[i]))
}

/// The given machine numbers as natural numbers.
pub open spec fn as_nats(widths: Seq<usize>) -> Seq<nat> {
    Seq::new(widths.len(), |i: int| widths[i] as nat)
}

/// The sum of `widths`.
pub open spec fn total_width(widths: Seq<nat>) -> nat
    decreases widths.len(),
{
    if widths.len() == 0 {
        0
    } else {
        widths[0] + total_width(widths.drop_first())
    }
}

/// The widths of the characters of `chars`, each measured alone, added up.
pub open spec fn accumulated_width(chars: Seq<char>) -> nat {
    total_width(char_widths(chars))
}

/// How many leading characters are kept when their widths are `widths` and
/// at most `budget` columns may be filled: characters are taken from the
/// front, and the first one that would go past the budget ends the run.
pub open spec fn kept_count(widths: Seq<nat>, budget: int) -> nat
    decreases widths.len(),
{
    if widths.len() == 0 || widths[0] > budget {
        0
    } else {
        1 + kept_count(widths.drop_first(), budget - widths[0])
    }
}

/// How many leading characters of `chars` are kept within `budget` columns.
pub open spec fn kept_len(chars: Seq<char>, budget: int) -> nat {
    kept_count(char_widths(chars), budget)
}

/// The marker that ends a shortened line.
pub open spec fn ellipsis() -> Seq<char> {
    seq!['.', '.', '.']
}

/// What a viewport of `width` columns shows of a line of `total` columns
/// whose characters have the widths `widths`: the line itself where it is
/// at most `width` columns wide, else the run of its leading characters
/// that leaves three columns free, followed by the marker.
pub open spec fn shortened(text: Seq<char>, widths: Seq<nat>, total: nat, width: nat) -> Seq<
    char,
> {
    if total <= width {
        text
    } else {
        text.take(kept_count(widths, width - 3) as int) + ellipsis()
    }
}

/// What the viewport shows of a line, by the measured width of the line and
/// of each of its characters.
pub open spec fn displayed(text: Seq<char>, width: nat) -> Seq<char> {
    shortened(text, char_widths(text), display_width(text), width)
}

/// Measures one character, as the one-character string that holds it.
pub fn char_width(c: char) -> (w: usize)
    ensures
        w as nat == char_columns(c),
{
    let mut single = String::new();
    single.push(c);
    assert(single@ =~= seq![c]);
    str_width(single.as_str())
}

/// Measures each character of `chars` alone.
pub fn measure_chars(chars: &Vec<char>) -> (widths: Vec<usize>)
    ensures
        as_nats(widths@) == char_widths(chars@),
{
    let mut widths: Vec<usize> = Vec::new();
    let mut i: usize = 0;
    while i < chars.len()
        invariant
            i <= chars@.len(),
            widths@.len() == i,
            forall|k: int| 0 <= k < i ==> widths@[k] as nat == char_columns(chars@[k]),
        decreases chars@.len() - i,
    {
        widths.push(char_width(chars[i]));
        i += 1;
    }
    assert(as_nats(widths@) =~= char_widths(chars@));
    widths
}

/// Counts the leading characters that fit into `budget` columns, given the
/// width of each character.
pub fn count_kept(widths: &Vec<usize>, budget: usize) -> (kept: usize)
    ensures
        kept as nat == kept_count(as_nats(widths@), budget as int),
        kept <= widths@.len(),
{
    let ghost all = as_nats(widths@);
    let mut kept: usize = 0;
    let mut used: usize = 0;
    proof {
        assert(all.skip(0) =~= all);
    }
    while kept < widths.len()
        invariant_except_break
            kept <= widths@.len(),
            used <= budget,
            all == as_nats(widths@),
            kept_count(all, budget as int) == kept + kept_count(
                all.skip(kept as int),
                budget - used,
            ),
        ensures
            kept <= widths@.len(),
            kept as nat == kept_count(as_nats(widths@), budget as int),
        decreases widths@.len() - kept,
    {
        let w = widths[kept];
        let ghost rest = all.skip(kept as int);
        assert(rest[0] == w as nat);
        assert(rest.drop_first() =~= all.skip(kept + 1));
        if w > budget - used {
            break;
        }
        used += w;
        kept += 1;
    }
    kept
}

/// Shortens the line `chars` for a viewport of `width` columns, given the
/// width `total` of the line and the width of each of its characters.
pub fn shorten(chars: &Vec<char>, widths: &Vec<usize>, total: usize, width: usize) -> (shown:
    String)
    requires
        widths@.len() == chars@.len(),
    ensures
        shown@ == shortened(chars@, as_nats(widths@), total as nat, width as nat),
{
    let mut shown = String::new();
    if total <= width {
        push_chars(&mut shown, chars, 0, chars.len());
        assert(shown@ =~= chars@);
        return shown;
    }
    let kept: usize = if width < 3 {
        0
    } else {
        count_kept(widths, width - 3)
    };
    push_chars(&mut shown, chars, 0, kept);
    shown.push('.');
    shown.push('.');
    shown.push('.');
    assert(shown@ =~= chars@.take(kept as int) + ellipsis());
    shown
}

/// Shortens `text` for a viewport of `width` columns.
pub fn fit_to_width(text: &str, width: usize) -> (shown: String)
    ensures
        shown@ == displayed(text@, width as nat),
{
    let total = str_width(text);
    let chars = chars_of(text);
    let widths = measure_chars(&chars);
    shorten(&chars, &widths, total, width)
}

/// The characters of a leading part of a text have the leading widths of the
/// text.
pub proof fn lemma_widths_of_prefix(chars: Seq<char>, count: int)
    requires
        0 <= count <= chars.len(),
    ensures
        char_widths(chars.take(count)) == char_widths(chars).take(count),
{
    assert(char_widths(chars.take(count)) =~= char_widths(chars).take(count));
}

/// No more characters are kept than there are.
pub proof fn lemma_kept_count_bound(widths: Seq<nat>, budget: int)
    ensures
        kept_count(widths, budget) <= widths.len(),
    decreases widths.len(),
{
    if widths.len() > 0 && widths[0] <= budget {
        lemma_kept_count_bound(widths.drop_first(), budget - widths[0]);
    }
}

/// The kept characters are the longest run of leading characters whose
/// widths add up to no more than the budget: they fit, and either they are
/// all there is or one more character would not fit.
pub proof fn lemma_kept_is_longest_fit(widths: Seq<nat>, budget: int)
    requires
        budget >= 0,
    ensures
        kept_count(widths, budget) <= widths.len(),
        total_width(widths.take(kept_count(widths, budget) as int)) <= budget,
        kept_count(widths, budget) == widths.len() || total_width(
            widths.take(kept_count(widths, budget) as int + 1),
        ) > budget,
    decreases widths.len(),
{
    let kept = kept_count(widths, budget);
    if widths.len() == 0 {
        assert(widths.take(0) =~= widths);
    } else if widths[0] > budget {
        assert(widths.take(0).len() == 0);
        let one = widths.take(1);
        assert(one[0] == widths[0]);
        assert(one.drop_first().len() == 0);
    } else {
        let rest = widths.drop_first();
        let left = budget - widths[0];
        lemma_kept_is_longest_fit(rest, left);
        let inner = kept_count(rest, left);
        let head = widths.take(kept as int);
        assert(head[0] == widths[0]);
        assert(head.drop_first() =~= rest.take(inner as int));
        if kept < widths.len() {
            let more = widths.take(kept as int + 1);
            assert(more[0] == widths[0]);
            assert(more.drop_first() =~= rest.take(inner as int + 1));
        }
    }
}

/// A line that is exactly as wide as the viewport is shown as it is.
pub proof fn lemma_exact_width_untouched(text: Seq<char>, width: nat)
    requires
        display_width(text) == width,
    ensures
        displayed(text, width) == text,
{
}

/// A line that is wider than the viewport, be it by one column, is shown as
/// a run of its leading characters followed by the marker. In a viewport of
/// at least three columns the accumulated width of that run and the three
/// columns of the marker together are within the viewport's width, and the
/// run is as long as that allows. In a narrower viewport only the marker is
/// shown.
pub proof fn lemma_wider_is_shortened(text: Seq<char>, width: nat)
    requires
        display_width(text) > width,
    ensures
        kept_len(text, width - 3) <= text.len(),
        displayed(text, width) == text.take(kept_len(text, width - 3) as int) + ellipsis(),
        displayed(text, width).len() == kept_len(text, width - 3) + 3,
        width >= 3 ==> accumulated_width(text.take(kept_len(text, width - 3) as int)) + 3
            <= width,
        width >= 3 ==> kept_len(text, width - 3) == text.len() || accumulated_width(
            text.take(kept_len(text, width - 3) as int + 1),
        ) + 3 > width,
        width < 3 ==> displayed(text, width) == ellipsis(),
{
    let widths = char_widths(text);
    let kept = kept_len(text, width - 3);
    lemma_kept_count_bound(widths, width - 3);
    if width >= 3 {
        lemma_kept_is_longest_fit(widths, width - 3);
        lemma_widths_of_prefix(text, kept as int);
        if kept < text.len() {
            lemma_widths_of_prefix(text, kept as int + 1);
        }
    } else {
        assert(text.take(0) + ellipsis() =~= ellipsis());
    }
}

} // verus!

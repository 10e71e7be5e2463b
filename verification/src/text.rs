//! Small building blocks on strings: the characters of a string, runs of one
//! character, decimal numerals, and splitting a text into lines.

use vstd::prelude::*;

verus! {

/// `String::push` of the standard library appends the given character at the
/// end of the string and changes nothing else.
pub assume_specification[ String::push ](s: &mut String, c: char)
    ensures
        final(s)@ == old(s)@.push(c),
;

/// The characters of `s`, in order.
pub fn chars_of(s: &str) -> (v: Vec<char>)
    ensures
        v@ == s@,
{
    let mut v: Vec<char> = Vec::new();
    for c in it: s.chars()
        invariant
            it.seq() == s@,
            v@ == it.seq().take(it.index()),
    {
        v.push(c);
        assert(v@ =~= it.seq().take(it.index() + 1));
    }
    assert(v@ =~= s@);
    v
}

/// Appends `chars[from..to]` to `out`.
pub fn push_chars(out: &mut String, chars: &Vec<char>, from: usize, to: usize)
    requires
        from <= to <= chars@.len(),
    ensures
        final(out)@ == old(out)@ + chars@.subrange(from as int, to as int),
{
    let mut i: usize = from;
    while i < to
        invariant
            from <= i <= to <= chars@.len(),
            out@ == old(out)@ + chars@.subrange(from as int, i as int),
        decreases to - i,
    {
        out.push(chars[i]);
        i += 1;
        assert(out@ =~= old(out)@ + chars@.subrange(from as int, i as int));
    }
}

/// `count` copies of `c`.
pub open spec fn repeated(c: char, count: nat) -> Seq<char> {
    Seq::new(count, |i: int| c)
}

/// Appends `count` copies of `c` to `out`.
pub fn push_repeated(out: &mut String, c: char, count: usize)
    ensures
        final(out)@ == old(out)@ + repeated(c, count as nat),
{
    let mut i: usize = 0;
    while i < count
        invariant
            i <= count,
            out@ == old(out)@ + repeated(c, i as nat),
        decreases count - i,
    {
        out.push(c);
        i += 1;
        assert(out@ =~= old(out)@ + repeated(c, i as nat));
    }
}

/// The character that writes the digit `d`, for `d` below ten.
pub open spec fn digit_char(d: nat) -> char {
    (48 + d) as char
}

/// The decimal numeral of `n`: no sign, no leading zero, `"0"` for zero.
pub open spec fn decimal_digits(n: nat) -> Seq<char>
    decreases n,
{
    if n < 10 {
        seq![digit_char(n)]
    } else {
        decimal_digits(n / 10).push(digit_char(n % 10))
    }
}

/// Appends the decimal numeral of `n` to `out`.
pub fn push_decimal(out: &mut String, n: u128)
    ensures
        final(out)@ == old(out)@ + decimal_digits(n as nat),
    decreases n,
{
    if n >= 10 {
        push_decimal(out, n / 10);
    }
    let d: u8 = (n % 10) as u8;
    out.push((48u8 + d) as char);
    assert(out@ =~= old(out)@ + decimal_digits(n as nat));
}

/// The decimal numeral of `n` as a string.
pub fn decimal(n: u128) -> (s: String)
    ensures
        s@ == decimal_digits(n as nat),
{
    let mut s = String::new();
    push_decimal(&mut s, n);
    assert(s@ =~= decimal_digits(n as nat));
    s
}

/// The texts of the strings of `strings`, in order.
pub open spec fn texts_of(strings: Seq<String>) -> Seq<Seq<char>> {
    Seq::new(strings.len(), |i: int| strings[i]@)
}

/// The position of the first line feed of `text`, or the length of `text`
/// where it holds none.
pub open spec fn first_line_feed(text: Seq<char>) -> nat
    decreases text.len(),
{
    if text.len() == 0 || text[0] == '\n' {
        0
    } else {
        1 + first_line_feed(text.drop_first())
    }
}

/// `line` without the carriage return at its end, if it has one.
pub open spec fn without_cr(line: Seq<char>) -> Seq<char> {
    if line.len() > 0 && line.last() == '\r' {
        line.drop_last()
    } else {
        line
    }
}

/// The lines of `text`. A line ends at a line feed, or at a carriage return
/// directly followed by one; neither belongs to the line. What follows the
/// last line feed is a line of its own unless it is empty, so a text that
/// ends in a line feed has the same lines as the text without it, and the
/// empty text has no line. A carriage return elsewhere stays in its line.
pub open spec fn split_lines(text: Seq<char>) -> Seq<Seq<char>>
    decreases text.len(),
{
    if text.len() == 0 {
        Seq::empty()
    } else {
        let at = first_line_feed(text);
        if at >= text.len() {
            seq![text]
        } else {
            seq![without_cr(text.take(at as int))] + split_lines(text.skip(at as int + 1))
        }
    }
}

/// A position before which no line feed stands, and which holds one or is
/// the end of the text, is the position of the first line feed.
pub proof fn lemma_first_line_feed(text: Seq<char>, at: int)
    requires
        0 <= at <= text.len(),
        forall|k: int| 0 <= k < at ==> text[k] != '\n',
        at == text.len() || text[at] == '\n',
    ensures
        first_line_feed(text) == at,
    decreases at,
{
    if at > 0 {
        lemma_first_line_feed(text.drop_first(), at - 1);
    }
}

/// Splits `text` into its lines.
pub fn lines_of(text: &str) -> (lines: Vec<String>)
    ensures
        texts_of(lines@) == split_lines(text@),
{
    let chars = chars_of(text);
    let n = chars.len();
    let mut lines: Vec<String> = Vec::new();
    let mut start: usize = 0;
    proof {
        assert(chars@.skip(0) =~= chars@);
        assert(texts_of(lines@) + split_lines(chars@) =~= split_lines(chars@));
    }
    while start < n
        invariant
            n == chars@.len(),
            start <= n,
            split_lines(chars@) == texts_of(lines@) + split_lines(chars@.skip(start as int)),
        decreases n - start,
    {
        let mut at: usize = start;
        while at < n && chars[at] != '\n'
            invariant
                n == chars@.len(),
                start <= at <= n,
                forall|k: int| start <= k < at ==> chars@[k] != '\n',
            decreases n - at,
        {
            at += 1;
        }
        let ghost rest = chars@.skip(start as int);
        let ghost before = texts_of(lines@);
        proof {
            lemma_first_line_feed(rest, at - start);
        }
        let stop: usize = if at < n && at > start && chars[at - 1] == '\r' {
            at - 1
        } else {
            at
        };
        let mut line = String::new();
        push_chars(&mut line, &chars, start, stop);
        lines.push(line);
        proof {
            let whole = chars@.subrange(start as int, at as int);
            assert(whole =~= rest.take(at - start));
            assert(line@ =~= chars@.subrange(start as int, stop as int));
            if at < n {
                assert(line@ =~= without_cr(whole));
                assert(rest.skip(at - start + 1) =~= chars@.skip(at + 1));
                assert(split_lines(rest) == seq![line@] + split_lines(chars@.skip(at + 1)));
            } else {
                assert(whole =~= rest);
                assert(chars@.skip(n as int) =~= Seq::<char>::empty());
                assert(split_lines(rest) =~= seq![line@] + split_lines(chars@.skip(n as int)));
            }
            assert(texts_of(lines@) =~= before.push(line@));
        }
        start = if at < n {
            at + 1
        } else {
            n
        };
        assert(split_lines(chars@) =~= texts_of(lines@) + split_lines(
            chars@.skip(start as int),
        ));
    }
    assert(split_lines(chars@.skip(n as int)) =~= Seq::<Seq<char>>::empty());
    assert(texts_of(lines@) =~= split_lines(text@));
    lines
}

} // verus!

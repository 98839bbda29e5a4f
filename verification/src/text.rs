//! Small operations on text, stated over the sequence of characters that a string holds.

use vstd::prelude::*;
use vstd::string::{StrSliceExecFns, StringExecFns};

verus! {

/// `String::push` appends one character.
pub assume_specification[ String::push ](s: &mut String, c: char)
    ensures
        final(s)@ == old(s)@.push(c),
;

/// The characters with the Unicode property `White_Space`.
pub open spec fn is_white_space(c: char) -> bool {
    ||| '\u{9}' <= c <= '\u{d}'
    ||| c == ' '
    ||| c == '\u{85}'
    ||| c == '\u{a0}'
    ||| c == '\u{1680}'
    ||| '\u{2000}' <= c <= '\u{200a}'
    ||| c == '\u{2028}'
    ||| c == '\u{2029}'
    ||| c == '\u{202f}'
    ||| c == '\u{205f}'
    ||| c == '\u{3000}'
}

/// `s` without the white space it starts with.
pub open spec fn trim_front(s: Seq<char>) -> Seq<char>
    decreases s.len(),
{
    if s.len() > 0 && is_white_space(s[0]) {
        trim_front(s.drop_first())
    } else {
        s
    }
}

/// `s` without the white space it ends with.
pub open spec fn trim_back(s: Seq<char>) -> Seq<char>
    decreases s.len(),
{
    if s.len() > 0 && is_white_space(s.last()) {
        trim_back(s.drop_last())
    } else {
        s
    }
}

/// `s` without the white space at its two ends.
pub open spec fn trimmed(s: Seq<char>) -> Seq<char> {
    trim_back(trim_front(s))
}

/// Calls `str::trim`. Claimed: what `trim` removes is the `White_Space` at the two ends.
#[verifier::external_body]
pub(crate) fn trim(s: &str) -> (t: &str)
    ensures
        t@ == trimmed(s@),
{
    s.trim()
}

/// `c` with an upper-case ASCII letter lowered.
pub open spec fn lower_char(c: char) -> char {
    if 'A' <= c <= 'Z' {
        (c as u32 + 32) as char
    } else {
        c
    }
}

/// `s` with its upper-case ASCII letters lowered.
pub open spec fn lowered(s: Seq<char>) -> Seq<char> {
    s.map_values(|c: char| lower_char(c))
}

/// Calls `str::to_ascii_lowercase`. Claimed: ASCII letters are lowered one by one and nothing
/// else changes.
#[verifier::external_body]
pub(crate) fn to_ascii_lowercase(s: &str) -> (t: String)
    ensures
        t@ == lowered(s@),
{
    s.to_ascii_lowercase()
}

/// The characters of `s`.
pub(crate) fn chars_of(s: &str) -> (chars: Vec<char>)
    ensures
        chars@ == s@,
{
    let mut chars: Vec<char> = Vec::new();
    for c in it: s.chars()
        invariant
            chars@ == it.seq().take(it.index()),
            it.seq() == s@,
    {
        chars.push(c);
    }
    chars
}

/// The string of the characters `chars[from..to]`.
pub(crate) fn string_of(chars: &Vec<char>, from: usize, to: usize) -> (s: String)
    requires
        from <= to <= chars@.len(),
    ensures
        s@ == chars@.subrange(from as int, to as int),
{
    let mut s = String::new();
    let mut i: usize = from;
    while i < to
        invariant
            from <= i <= to <= chars@.len(),
            s@ == chars@.subrange(from as int, i as int),
        decreases to - i,
    {
        s.push(chars[i]);
        i = i + 1;
    }
    s
}

/// Whether two strings hold the same characters.
pub(crate) fn same_text(a: &str, b: &str) -> (same: bool)
    ensures
        same == (a@ == b@),
{
    let left = chars_of(a);
    let right = chars_of(b);
    if left.len() != right.len() {
        return false;
    }
    let mut i: usize = 0;
    while i < left.len()
        invariant
            i <= left@.len(),
            left@ == a@,
            right@ == b@,
            left@.len() == right@.len(),
            left@.take(i as int) == right@.take(i as int),
        decreases left@.len() - i,
    {
        if left[i] != right[i] {
            assert(a@[i as int] != b@[i as int]);
            return false;
        }
        i = i + 1;
        assert(left@.take(i as int) =~= left@.take(i - 1).push(left@[i - 1]));
        assert(right@.take(i as int) =~= right@.take(i - 1).push(right@[i - 1]));
    }
    assert(left@.take(i as int) =~= left@);
    assert(right@.take(i as int) =~= right@);
    true
}

/// Whether `s` starts with `prefix`.
pub open spec fn starts_with(s: Seq<char>, prefix: Seq<char>) -> bool {
    prefix.len() <= s.len() && s.take(prefix.len() as int) == prefix
}

/// Whether `chars` starts with `prefix`.
pub(crate) fn has_prefix(chars: &Vec<char>, prefix: &str) -> (found: bool)
    ensures
        found == starts_with(chars@, prefix@),
{
    let wanted = chars_of(prefix);
    if wanted.len() > chars.len() {
        return false;
    }
    let mut i: usize = 0;
    while i < wanted.len()
        invariant
            i <= wanted@.len() <= chars@.len(),
            wanted@ == prefix@,
            chars@.take(i as int) == wanted@.take(i as int),
        decreases wanted@.len() - i,
    {
        if chars[i] != wanted[i] {
            assert(chars@.take(wanted@.len() as int)[i as int] != wanted@[i as int]);
            return false;
        }
        i = i + 1;
        assert(chars@.take(i as int) =~= chars@.take(i - 1).push(chars@[i - 1]));
        assert(wanted@.take(i as int) =~= wanted@.take(i - 1).push(wanted@[i - 1]));
    }
    assert(wanted@.take(i as int) =~= wanted@);
    true
}

/// The part of `s` in front of its first `separator`, or all of `s` if it has none.
pub open spec fn before(s: Seq<char>, separator: char) -> Seq<char>
    decreases s.len(),
{
    if s.len() == 0 || s[0] == separator {
        Seq::empty()
    } else {
        seq![s[0]] + before(s.drop_first(), separator)
    }
}

/// The part in front of the first separator is the whole prefix up to it.
pub proof fn lemma_before(s: Seq<char>, separator: char, at: int)
    requires
        0 <= at <= s.len(),
        forall|k: int| 0 <= k < at ==> s[k] != separator,
        at < s.len() ==> s[at] == separator,
    ensures
        before(s, separator) == s.take(at),
    decreases s.len(),
{
    if at > 0 {
        lemma_before(s.drop_first(), separator, at - 1);
        assert(seq![s[0]] + s.drop_first().take(at - 1) =~= s.take(at));
    } else {
        assert(s.take(0) =~= Seq::<char>::empty());
    }
}

/// The index of the first `separator` in `chars` at or after `from`, or the length of `chars`.
pub(crate) fn index_of(chars: &Vec<char>, separator: char, from: usize) -> (at: usize)
    requires
        from <= chars@.len(),
    ensures
        from <= at <= chars@.len(),
        forall|k: int| from <= k < at ==> chars@[k] != separator,
        at < chars@.len() ==> chars@[at as int] == separator,
        chars@.subrange(from as int, at as int) == before(chars@.skip(from as int), separator),
{
    let mut at: usize = from;
    while at < chars.len() && chars[at] != separator
        invariant
            from <= at <= chars@.len(),
            forall|k: int| from <= k < at ==> chars@[k] != separator,
        decreases chars@.len() - at,
    {
        at = at + 1;
    }
    proof {
        lemma_before(chars@.skip(from as int), separator, at - from);
        assert(chars@.skip(from as int).take(at - from) =~= chars@.subrange(
            from as int,
            at as int,
        ));
    }
    at
}

/// `reason` behind `label`.
pub(crate) fn labelled(label: &str, reason: &str) -> (message: String)
    ensures
        message@ == label@ + reason@,
{
    let mut message = label.to_owned();
    message.append(reason);
    message
}

/// The decimal digit of `n`.
pub open spec fn digit(n: nat) -> char {
    (48 + n % 10) as char
}

/// `n` in decimal notation.
pub open spec fn decimal(n: nat) -> Seq<char>
    decreases n,
{
    if n < 10 {
        seq![digit(n)]
    } else {
        decimal(n / 10).push(digit(n))
    }
}

/// `n` in decimal notation, with zeros in front up to `width` characters.
pub open spec fn padded(n: nat, width: nat) -> Seq<char> {
    zeros((width - decimal(n).len()) as int) + decimal(n)
}

/// `count` characters `0`, none if `count` is negative.
pub open spec fn zeros(count: int) -> Seq<char> {
    Seq::new(if count < 0 { 0 } else { count as nat }, |i: int| '0')
}

/// Whether `at` is the first place at which two texts differ, and the first text has the smaller
/// character there or none.
pub open spec fn differs_first_at(a: Seq<char>, b: Seq<char>, at: int) -> bool {
    &&& 0 <= at <= a.len()
    &&& at < b.len()
    &&& a.take(at) == b.take(at)
    &&& at == a.len() || (a[at] as int) < (b[at] as int)
}

/// Whether a text comes before another one, character by character.
pub open spec fn comes_before(a: Seq<char>, b: Seq<char>) -> bool {
    exists|at: int| differs_first_at(a, b, at)
}

/// How many numbers there are of at most `width` digits.
pub open spec fn numbers_of(width: nat) -> nat
    decreases width,
{
    if width == 0 {
        1
    } else {
        10 * numbers_of((width - 1) as nat)
    }
}

/// A padded number of no more digits than its width has that many characters; the last one is the
/// digit of the number, and the others are those of the number without it.
pub(crate) proof fn lemma_padded(n: nat, width: nat)
    requires
        width >= 1,
        n < numbers_of(width),
    ensures
        padded(n, width).len() == width,
        width >= 2 ==> padded(n, width) == padded(n / 10, (width - 1) as nat).push(digit(n)),
        width == 1 ==> padded(n, width) == seq![digit(n)],
    decreases width,
{
    reveal_with_fuel(numbers_of, 2);
    if width == 1 {
        assert(padded(n, width) =~= seq![digit(n)]);
    } else {
        lemma_padded(n / 10, (width - 1) as nat);
        if n < 10 {
            assert(n / 10 == 0);
            assert(digit(0) == '0');
        }
        assert(padded(n, width) =~= padded(n / 10, (width - 1) as nat).push(digit(n)));
    }
}

/// Whether a text comes before another one of the same length.
pub open spec fn is_smaller(a: Seq<char>, b: Seq<char>) -> bool {
    &&& a.len() == b.len()
    &&& exists|at: int| at < a.len() && #[trigger] differs_first_at(a, b, at)
}

/// Padded numbers are ordered as the numbers are.
pub(crate) proof fn lemma_padded_ordered(m: nat, n: nat, width: nat)
    requires
        width >= 1,
        m < n < numbers_of(width),
    ensures
        is_smaller(padded(m, width), padded(n, width)),
    decreases width,
{
    reveal_with_fuel(numbers_of, 2);
    lemma_padded(m, width);
    lemma_padded(n, width);
    let a = padded(m, width);
    let b = padded(n, width);
    if width == 1 {
        assert(a.take(0) =~= b.take(0));
        assert(differs_first_at(a, b, 0));
    } else {
        let w = (width - 1) as nat;
        lemma_padded(m / 10, w);
        lemma_padded(n / 10, w);
        let c = padded(m / 10, w);
        let d = padded(n / 10, w);
        if m / 10 < n / 10 {
            lemma_padded_ordered(m / 10, n / 10, w);
            let at = choose|at: int| at < c.len() && #[trigger] differs_first_at(c, d, at);
            assert(a.take(at) =~= c.take(at));
            assert(b.take(at) =~= d.take(at));
            assert(differs_first_at(a, b, at));
        } else {
            assert(a.take(w as int) =~= c);
            assert(b.take(w as int) =~= d);
            assert(differs_first_at(a, b, w as int));
        }
    }
}

/// Of two texts that are alike up to a part, the one with the smaller part comes first, whatever
/// follows.
pub(crate) proof fn lemma_part_decides(
    front: Seq<char>,
    c: Seq<char>,
    d: Seq<char>,
    x: Seq<char>,
    y: Seq<char>,
)
    requires
        is_smaller(c, d),
    ensures
        comes_before(front + c + x, front + d + y),
{
    let at = choose|at: int| at < c.len() && #[trigger] differs_first_at(c, d, at);
    let a = front + c + x;
    let b = front + d + y;
    assert(a.take(front.len() + at) =~= front + c.take(at));
    assert(b.take(front.len() + at) =~= front + d.take(at));
    assert(differs_first_at(a, b, front.len() + at));
}

/// The decimal digit of `n`.
fn digit_char(n: u8) -> (c: char)
    requires
        n < 10,
    ensures
        c == digit(n as nat),
{
    (48 + n) as char
}

/// `n` in decimal notation.
pub(crate) fn decimal_text(n: u64) -> (s: String)
    ensures
        s@ == decimal(n as nat),
    decreases n,
{
    let c = digit_char((n % 10) as u8);
    if n < 10 {
        let mut s = String::new();
        s.push(c);
        assert(s@ =~= decimal(n as nat));
        s
    } else {
        let mut s = decimal_text(n / 10);
        s.push(c);
        s
    }
}

/// Appends `n` in decimal notation, with zeros in front up to `width` characters.
pub(crate) fn push_padded(s: &mut String, n: u64, width: usize)
    ensures
        final(s)@ == old(s)@ + padded(n as nat, width as nat),
{
    let text = decimal_text(n);
    let len = text.as_str().unicode_len();
    let mut filled: usize = len;
    while filled < width
        invariant
            len <= filled,
            filled <= width || filled == len,
            s@ == old(s)@ + zeros(filled - len),
        decreases width - filled,
    {
        s.push('0');
        filled = filled + 1;
        assert(zeros(filled - len) =~= zeros(filled - 1 - len).push('0'));
    }
    s.append(text.as_str());
    assert(s@ =~= old(s)@ + padded(n as nat, width as nat));
}

/// The part in front of a separator holds none, and what follows it, if anything does, starts with
/// one.
pub proof fn parts_end_at_the_first_separator(s: Seq<char>, separator: char)
    ensures
        before(s, separator).len() <= s.len(),
        before(s, separator) == s.take(before(s, separator).len() as int),
        !before(s, separator).contains(separator),
        before(s, separator).len() < s.len() ==> s[before(s, separator).len() as int] == separator,
    decreases s.len(),
{
    let part = before(s, separator);
    if s.len() > 0 && s[0] != separator {
        let rest = before(s.drop_first(), separator);
        parts_end_at_the_first_separator(s.drop_first(), separator);
        assert(part =~= s.take(part.len() as int)) by {
            assert forall|k: int| 0 <= k < part.len() implies part[k] == s[k] by {
                if k > 0 {
                    assert(rest[k - 1] == s.drop_first().take(rest.len() as int)[k - 1]);
                }
            }
        }
        assert forall|k: int| 0 <= k < part.len() implies part[k] != separator by {
            if k > 0 {
                assert(rest.contains(rest[k - 1]));
            }
        }
    } else {
        assert(part =~= s.take(0));
    }
}

/// The number that decimal digits stand for, the highest first.
pub open spec fn decimal_value(s: Seq<char>) -> int
    decreases s.len(),
{
    if s.len() == 0 {
        0
    } else {
        10 * decimal_value(s.drop_last()) + (s.last() as int - '0' as int)
    }
}

/// Decimal notation stands for its number: it is made of digits, does not start with zero unless it
/// is zero, and its digits give the number back.
pub proof fn decimal_notation_stands_for_its_number(n: nat)
    ensures
        decimal(n).len() >= 1,
        forall|k: int| 0 <= k < decimal(n).len() ==> '0' <= #[trigger] decimal(n)[k] <= '9',
        decimal(n)[0] == '0' ==> n == 0,
        decimal_value(decimal(n)) == n,
    decreases n,
{
    if n < 10 {
        reveal_with_fuel(decimal_value, 2);
        assert(decimal(n).drop_last() =~= Seq::<char>::empty());
    } else {
        decimal_notation_stands_for_its_number(n / 10);
        assert(decimal(n).drop_last() =~= decimal(n / 10));
    }
}

/// Zeros in front of a number do not change it, and fill it up to its width.
pub proof fn padded_notation_stands_for_its_number(n: nat, width: nat)
    ensures
        decimal_value(padded(n, width)) == n,
        padded(n, width).len() >= width,
        padded(n, width).len() > width ==> padded(n, width) == decimal(n),
        forall|k: int|
            0 <= k < padded(n, width).len() ==> '0' <= #[trigger] padded(n, width)[k] <= '9',
{
    decimal_notation_stands_for_its_number(n);
    let count = width - decimal(n).len();
    lemma_zeros_in_front(count, decimal(n));
    if count <= 0 {
        assert(padded(n, width) =~= decimal(n));
    }
    assert forall|k: int| 0 <= k < padded(n, width).len() implies '0' <= #[trigger] padded(
        n,
        width,
    )[k] <= '9' by {
        if k >= zeros(count).len() {
            assert(padded(n, width)[k] == decimal(n)[k - zeros(count).len()]);
        }
    }
}

/// Zeros in front of digits do not change the number.
proof fn lemma_zeros_in_front(count: int, digits: Seq<char>)
    ensures
        decimal_value(zeros(count) + digits) == decimal_value(digits),
    decreases digits.len(), if count < 0 { 0 } else { count },
{
    let all = zeros(count) + digits;
    if digits.len() > 0 {
        assert(all.drop_last() =~= zeros(count) + digits.drop_last());
        lemma_zeros_in_front(count, digits.drop_last());
    } else if count > 0 {
        assert(all.drop_last() =~= zeros(count - 1) + digits);
        lemma_zeros_in_front(count - 1, digits);
    } else {
        assert(all =~= digits);
    }
}

} // verus!

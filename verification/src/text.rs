//! Building text: decimal numbers, padding and repetition.

use vstd::prelude::*;

verus! {

/// The decimal digit for a number below ten.
pub open spec fn spec_digit(d: nat) -> char {
    if d == 0 {
        '0'
    } else if d == 1 {
        '1'
    } else if d == 2 {
        '2'
    } else if d == 3 {
        '3'
    } else if d == 4 {
        '4'
    } else if d == 5 {
        '5'
    } else if d == 6 {
        '6'
    } else if d == 7 {
        '7'
    } else if d == 8 {
        '8'
    } else {
        '9'
    }
}

fn digit(d: u64) -> (r: char)
    requires
        d < 10,
    ensures
        r == spec_digit(d as nat),
{
    if d == 0 {
        '0'
    } else if d == 1 {
        '1'
    } else if d == 2 {
        '2'
    } else if d == 3 {
        '3'
    } else if d == 4 {
        '4'
    } else if d == 5 {
        '5'
    } else if d == 6 {
        '6'
    } else if d == 7 {
        '7'
    } else if d == 8 {
        '8'
    } else {
        '9'
    }
}

/// The decimal writing of a number, without leading zeros.
pub open spec fn spec_decimal(n: nat) -> Seq<char>
    decreases n,
{
    if n < 10 {
        seq![spec_digit(n)]
    } else {
        spec_decimal(n / 10).push(spec_digit(n % 10))
    }
}

/// Appends the decimal writing of `n`.
pub fn push_decimal(out: &mut Vec<char>, n: u64)
    ensures
        final(out)@ == old(out)@ + spec_decimal(n as nat),
    decreases n,
{
    if n < 10 {
        out.push(digit(n));
        assert(spec_decimal(n as nat) == seq![spec_digit(n as nat)]);
    } else {
        push_decimal(out, n / 10);
        out.push(digit(n % 10));
        assert(old(out)@ + spec_decimal(n as nat) == old(out)@ + spec_decimal((n / 10) as nat) + seq![
            spec_digit((n % 10) as nat),
        ]);
    }
}

/// `n` copies of a character.
pub open spec fn spec_repeat(c: char, n: nat) -> Seq<char> {
    Seq::new(n, |i: int| c)
}

/// Appends `n` copies of a character.
pub fn push_repeat(out: &mut Vec<char>, c: char, n: usize)
    ensures
        final(out)@ == old(out)@ + spec_repeat(c, n as nat),
{
    let mut i: usize = 0;
    while i < n
        invariant
            i <= n,
            out@ == old(out)@ + spec_repeat(c, i as nat),
        decreases n - i,
    {
        out.push(c);
        assert(old(out)@ + spec_repeat(c, (i + 1) as nat) == (old(out)@ + spec_repeat(c, i as nat)).push(c));
        i = i + 1;
    }
}

/// Appends the characters of a string slice.
pub fn push_str(out: &mut Vec<char>, s: &str)
    ensures
        final(out)@ == old(out)@ + s@,
{
    let n = s.unicode_len();
    let mut i: usize = 0;
    while i < n
        invariant
            i <= n,
            n == s@.len(),
            out@ == old(out)@ + s@.subrange(0, i as int),
        decreases n - i,
    {
        let c = s.get_char(i);
        out.push(c);
        assert(s@.subrange(0, i + 1) == s@.subrange(0, i as int).push(c));
        i = i + 1;
    }
    assert(s@.subrange(0, n as int) == s@);
}

/// A text padded with spaces to `width` characters, on the left (`right`
/// aligned) or on the right; a longer text is kept whole.
pub open spec fn spec_pad(s: Seq<char>, width: nat, right: bool) -> Seq<char> {
    if s.len() >= width {
        s
    } else if right {
        spec_repeat(' ', (width - s.len()) as nat) + s
    } else {
        s + spec_repeat(' ', (width - s.len()) as nat)
    }
}

/// Appends a text padded to `width` characters.
pub fn push_padded(out: &mut Vec<char>, s: &Vec<char>, width: usize, right: bool)
    ensures
        final(out)@ == old(out)@ + spec_pad(s@, width as nat, right),
{
    if s.len() >= width {
        push_chars(out, s);
    } else if right {
        push_repeat(out, ' ', width - s.len());
        push_chars(out, s);
        assert(old(out)@ + spec_repeat(' ', (width - s.len()) as nat) + s@ == old(out)@ + (spec_repeat(
            ' ',
            (width - s.len()) as nat,
        ) + s@));
    } else {
        push_chars(out, s);
        push_repeat(out, ' ', width - s.len());
        assert(old(out)@ + s@ + spec_repeat(' ', (width - s.len()) as nat) == old(out)@ + (s@ + spec_repeat(
            ' ',
            (width - s.len()) as nat,
        )));
    }
}

/// Appends the characters of another list.
pub fn push_chars(out: &mut Vec<char>, s: &Vec<char>)
    ensures
        final(out)@ == old(out)@ + s@,
{
    let mut i: usize = 0;
    while i < s.len()
        invariant
            i <= s@.len(),
            out@ == old(out)@ + s@.subrange(0, i as int),
        decreases s@.len() - i,
    {
        out.push(s[i]);
        assert(s@.subrange(0, i + 1) == s@.subrange(0, i as int).push(s@[i as int]));
        i = i + 1;
    }
    assert(s@.subrange(0, s@.len() as int) == s@);
}

/// The characters of a string slice, as a list.
pub fn chars_of(s: &str) -> (r: Vec<char>)
    ensures
        r@ == s@,
{
    let mut r: Vec<char> = Vec::new();
    push_str(&mut r, s);
    assert(r@ == Seq::<char>::empty() + s@);
    r
}

/// A string holding the given characters (`String::from_iter`).
#[verifier::external_body]
pub(crate) fn string_from_chars(chars: Vec<char>) -> (r: String)
    ensures
        r@ == chars@,
{
    String::from_iter(chars)
}

} // verus!

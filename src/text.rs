//! Character-level helpers: building strings, decimal numbers and padding.
use vstd::prelude::*;

verus! {

broadcast use vstd::string::axiom_spec_iter;

/// Relies on `String::push`: appends one character to the end of the string.
#[verifier::external_body]
pub(crate) fn push_char(s: &mut String, c: char)
    ensures
        final(s)@ == old(s)@.push(c),
{
    s.push(c)
}

/// The characters of `s`, in order.
pub fn chars_of(s: &str) -> (r: Vec<char>)
    ensures
        r@ == s@,
{
    let mut r: Vec<char> = Vec::new();
    for c in it: s.chars()
        invariant
            r@ == it.seq().take(it.index() as int),
    {
        r.push(c);
    }
    r
}


/// The decimal digit for `d < 10`.
pub open spec fn digit_char(d: int) -> char {
    if d == 0 {
        '0'
    } else if d == 1 {
        '1'
    } else if d == 2 {
        '2'
    } else if d == 3 {
        '3'
    } else if d == 4 {
        '4'
    } else if d == 5 {
        '5'
    } else if d == 6 {
        '6'
    } else if d == 7 {
        '7'
    } else if d == 8 {
        '8'
    } else {
        '9'
    }
}

/// `n` written in decimal, without leading zeros.
pub open spec fn decimal(n: nat) -> Seq<char>
    decreases n,
{
    if n < 10 {
        seq![digit_char(n as int)]
    } else {
        decimal(n / 10).push(digit_char((n % 10) as int))
    }
}

/// `s` right-aligned in a field of `width` characters: spaces in front when
/// it is shorter, `s` itself otherwise.
pub open spec fn pad_left(s: Seq<char>, width: int) -> Seq<char> {
    if s.len() < width {
        Seq::new((width - s.len()) as nat, |i: int| ' ') + s
    } else {
        s
    }
}

/// `s` left-aligned in a field of `width` characters.
pub open spec fn pad_right(s: Seq<char>, width: int) -> Seq<char> {
    if s.len() < width {
        s + Seq::new((width - s.len()) as nat, |i: int| ' ')
    } else {
        s
    }
}

fn digit(d: usize) -> (c: char)
    requires
        d < 10,
    ensures
        c == digit_char(d as int),
{
    if d == 0 {
        '0'
    } else if d == 1 {
        '1'
    } else if d == 2 {
        '2'
    } else if d == 3 {
        '3'
    } else if d == 4 {
        '4'
    } else if d == 5 {
        '5'
    } else if d == 6 {
        '6'
    } else if d == 7 {
        '7'
    } else if d == 8 {
        '8'
    } else {
        '9'
    }
}

/// Appends `n` in decimal to `s`.
pub fn push_decimal(s: &mut String, n: usize)
    ensures
        final(s)@ == old(s)@ + decimal(n as nat),
    decreases n,
{
    if n >= 10 {
        push_decimal(s, n / 10);
    }
    push_char(s, digit(n % 10));
}

/// Appends `count` spaces to `s`.
pub fn push_spaces(s: &mut String, count: usize)
    ensures
        final(s)@ == old(s)@ + Seq::new(count as nat, |i: int| ' '),
{
    let ghost start = s@;
    let mut k: usize = 0;
    while k < count
        invariant
            k <= count,
            s@ == start + Seq::new(k as nat, |i: int| ' '),
        decreases count - k,
    {
        push_char(s, ' ');
        k = k + 1;
        assert(s@ =~= start + Seq::new(k as nat, |i: int| ' '));
    }
}

/// Appends `t[from..to]` to `s`.
pub fn push_range(s: &mut String, t: &Vec<char>, from: usize, to: usize)
    requires
        from <= to <= t.len(),
    ensures
        final(s)@ == old(s)@ + t@.subrange(from as int, to as int),
{
    let ghost start = s@;
    let mut k: usize = from;
    while k < to
        invariant
            from <= k <= to,
            to <= t.len(),
            s@ == start + t@.subrange(from as int, k as int),
        decreases to - k,
    {
        push_char(s, t[k]);
        k = k + 1;
        assert(s@ =~= start + t@.subrange(from as int, k as int));
    }
}

/// Appends `t[from..to]`, right-aligned in `width` characters, to `s`.
pub fn push_padded_left(s: &mut String, t: &Vec<char>, from: usize, to: usize, width: usize)
    requires
        from <= to <= t.len(),
    ensures
        final(s)@ == old(s)@ + pad_left(t@.subrange(from as int, to as int), width as int),
{
    let ghost start = s@;
    if to - from < width {
        push_spaces(s, width - (to - from));
    }
    push_range(s, t, from, to);
    assert(s@ =~= start + pad_left(t@.subrange(from as int, to as int), width as int));
}

} // verus!

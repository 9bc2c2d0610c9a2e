use vstd::prelude::*;

verus! {

/// std's `String::push`. Claimed: `c` is appended to `s`.
#[verifier::external_body]
pub(crate) fn push_char(s: &mut String, c: char)
    ensures
        final(s)@ == old(s)@.push(c),
{
    s.push(c)
}

/// The decimal digit for `d`.
pub open spec fn digit_char(d: nat) -> char {
    (d + 48) as char
}

/// The decimal representation of `n`, without leading zeros.
pub open spec fn decimal(n: nat) -> Seq<char>
    decreases n,
{
    if n < 10 {
        seq![digit_char(n)]
    } else {
        decimal(n / 10).push(digit_char(n % 10))
    }
}

/// The decimal representation of a signed number: a minus sign before the
/// magnitude when it is negative.
pub open spec fn signed_decimal(n: int) -> Seq<char> {
    if n < 0 {
        seq!['-'] + decimal((-n) as nat)
    } else {
        decimal(n as nat)
    }
}

/// `s` padded on the right with spaces to at least `width` characters.
pub open spec fn pad_right(s: Seq<char>, width: nat) -> Seq<char> {
    if s.len() >= width {
        s
    } else {
        s + Seq::new((width - s.len()) as nat, |i: int| ' ')
    }
}

/// `s` padded on the left with spaces to at least `width` characters.
pub open spec fn pad_left(s: Seq<char>, width: nat) -> Seq<char> {
    if s.len() >= width {
        s
    } else {
        Seq::new((width - s.len()) as nat, |i: int| ' ') + s
    }
}

/// `s` padded on the left with zeros to at least `width` characters.
pub open spec fn zero_pad(s: Seq<char>, width: nat) -> Seq<char> {
    if s.len() >= width {
        s
    } else {
        Seq::new((width - s.len()) as nat, |i: int| '0') + s
    }
}

pub proof fn lemma_decimal_len_pos(n: nat)
    ensures
        decimal(n).len() >= 1,
    decreases n,
{
    if n >= 10 {
        lemma_decimal_len_pos(n / 10);
    }
}

fn digit(d: u64) -> (c: char)
    requires
        d < 10,
    ensures
        c == digit_char(d as nat),
{
    ((d as u8) + 48u8) as char
}

/// Appends the decimal representation of `n` to `out`.
pub fn push_decimal(out: &mut String, n: u64)
    ensures
        final(out)@ == old(out)@ + decimal(n as nat),
    decreases n,
{
    if n >= 10 {
        push_decimal(out, n / 10);
    }
    push_char(out, digit(n % 10));
    proof {
        if n >= 10 {
            assert(old(out)@ + decimal(n as nat) =~= old(out)@ + decimal((n / 10) as nat) + seq![
                digit_char((n % 10) as nat),
            ]);
        }
    }
}

/// Appends the decimal representation of the signed `n` to `out`.
pub fn push_signed_decimal(out: &mut String, n: i64)
    ensures
        final(out)@ == old(out)@ + signed_decimal(n as int),
{
    if n < 0 {
        push_char(out, '-');
        let magnitude: u64 = if n == i64::MIN {
            9_223_372_036_854_775_808u64
        } else {
            (-n) as u64
        };
        push_decimal(out, magnitude);
        assert(final(out)@ =~= old(out)@ + signed_decimal(n as int));
    } else {
        push_decimal(out, n as u64);
    }
}

/// Appends `n` spaces to `out`.
pub fn push_spaces(out: &mut String, n: usize)
    ensures
        final(out)@ == old(out)@ + Seq::new(n as nat, |i: int| ' '),
{
    let mut k: usize = 0;
    while k < n
        invariant
            k <= n,
            out@ == old(out)@ + Seq::new(k as nat, |i: int| ' '),
        decreases n - k,
    {
        push_char(out, ' ');
        k = k + 1;
        assert(out@ =~= old(out)@ + Seq::new(k as nat, |i: int| ' '));
    }
}

/// Appends `s`, padded on the right with spaces to `width` characters.
pub fn push_padded_right(out: &mut String, s: &str, width: usize)
    ensures
        final(out)@ == old(out)@ + pad_right(s@, width as nat),
{
    let len = s.unicode_len();
    out.append(s);
    if len < width {
        push_spaces(out, width - len);
    }
    assert(final(out)@ =~= old(out)@ + pad_right(s@, width as nat));
}

/// Appends `s`, padded on the left with spaces to `width` characters.
pub fn push_padded_left(out: &mut String, s: &str, width: usize)
    ensures
        final(out)@ == old(out)@ + pad_left(s@, width as nat),
{
    let len = s.unicode_len();
    if len < width {
        push_spaces(out, width - len);
    }
    out.append(s);
    assert(final(out)@ =~= old(out)@ + pad_left(s@, width as nat));
}

/// Appends the decimal representation of `n`, zero-padded to at least two
/// digits.
pub fn push_two_digits(out: &mut String, n: u64)
    ensures
        final(out)@ == old(out)@ + zero_pad(decimal(n as nat), 2),
{
    if n < 10 {
        push_char(out, '0');
        push_char(out, digit(n));
        assert(final(out)@ =~= old(out)@ + zero_pad(decimal(n as nat), 2));
    } else {
        proof {
            lemma_decimal_len_pos((n / 10) as nat);
        }
        push_decimal(out, n);
    }
}

} // verus!

//! Building blocks for the outbound wire format: decimal rendering of
//! correlation counters and JSON string escaping, both exact to the
//! character.

use vstd::prelude::*;
use vstd::string::StrSliceExecFns;

verus! {

/// The character for one decimal digit.
pub open spec fn dec_digit(d: nat) -> char {
    if d == 0 {
        '0'
    } else if d == 1 {
        '1'
    } else if d == 2 {
        '2'
    } else if d == 3 {
        '3'
    } else if d == 4 {
        '4'
    } else if d == 5 {
        '5'
    } else if d == 6 {
        '6'
    } else if d == 7 {
        '7'
    } else if d == 8 {
        '8'
    } else {
        '9'
    }
}

/// The decimal rendering of `n`, most significant digit first, no sign and
/// no leading zeroes (a single `'0'` for zero).
pub open spec fn dec_seq(n: nat) -> Seq<char>
    decreases n,
{
    if n < 10 {
        seq![dec_digit(n)]
    } else {
        dec_seq(n / 10) + seq![dec_digit(n % 10)]
    }
}

fn dec_digit_exec(d: u32) -> (c: char)
    requires
        d < 10,
    ensures
        c == dec_digit(d as nat),
{
    if d == 0 {
        '0'
    } else if d == 1 {
        '1'
    } else if d == 2 {
        '2'
    } else if d == 3 {
        '3'
    } else if d == 4 {
        '4'
    } else if d == 5 {
        '5'
    } else if d == 6 {
        '6'
    } else if d == 7 {
        '7'
    } else if d == 8 {
        '8'
    } else {
        '9'
    }
}

/// Appends the decimal rendering of `n` to `out`.
pub fn push_dec_u32(n: u32, out: &mut Vec<char>)
    ensures
        final(out)@ == old(out)@ + dec_seq(n as nat),
    decreases n,
{
    if n < 10 {
        out.push(dec_digit_exec(n));
    } else {
        push_dec_u32(n / 10, out);
        out.push(dec_digit_exec(n % 10));
    }
}

/// The decimal rendering of `n` as an owned string.
pub fn dec_string_u32(n: u32) -> (r: String)
    ensures
        r@ == dec_seq(n as nat),
{
    let mut out: Vec<char> = Vec::new();
    push_dec_u32(n, &mut out);
    crate::json::string_from_chars(&out)
}

proof fn lemma_dec_digit_injective(a: nat, b: nat)
    requires
        a < 10,
        b < 10,
        dec_digit(a) == dec_digit(b),
    ensures
        a == b,
{
}

proof fn lemma_dec_seq_nonempty(n: nat)
    ensures
        dec_seq(n).len() >= 1,
    decreases n,
{
    if n >= 10 {
        lemma_dec_seq_nonempty(n / 10);
    }
}

/// Distinct counter values render to distinct decimal strings: an
/// identifier minted from the per-connection counter is never reused for
/// the lifetime of the connection.
pub proof fn lemma_dec_seq_injective(m: nat, n: nat)
    requires
        dec_seq(m) == dec_seq(n),
    ensures
        m == n,
    decreases m,
{
    lemma_dec_seq_nonempty(m);
    lemma_dec_seq_nonempty(n);
    if m < 10 && n < 10 {
        assert(dec_seq(m)[0] == dec_digit(m));
        assert(dec_seq(n)[0] == dec_digit(n));
        lemma_dec_digit_injective(m, n);
    } else if m < 10 {
        lemma_dec_seq_nonempty(n / 10);
        assert(dec_seq(n).len() >= 2);
        assert(false);
    } else if n < 10 {
        lemma_dec_seq_nonempty(m / 10);
        assert(dec_seq(m).len() >= 2);
        assert(false);
    } else {
        let dm = dec_seq(m / 10);
        let dn = dec_seq(n / 10);
        assert(dec_seq(m) == dm + seq![dec_digit(m % 10)]);
        assert(dec_seq(n) == dn + seq![dec_digit(n % 10)]);
        assert(dec_seq(m).len() == dm.len() + 1);
        assert(dm =~= dec_seq(m).subrange(0, dec_seq(m).len() - 1));
        assert(dn =~= dec_seq(n).subrange(0, dec_seq(n).len() - 1));
        assert(dec_seq(m)[dec_seq(m).len() - 1] == dec_digit(m % 10));
        assert(dec_seq(n)[dec_seq(n).len() - 1] == dec_digit(n % 10));
        lemma_dec_digit_injective(m % 10, n % 10);
        lemma_dec_seq_injective(m / 10, n / 10);
        vstd::arithmetic::div_mod::lemma_fundamental_div_mod(m as int, 10);
        vstd::arithmetic::div_mod::lemma_fundamental_div_mod(n as int, 10);
    }
}

/// The character for one hexadecimal digit.
pub open spec fn hex_digit(d: nat) -> char {
    if d < 10 {
        dec_digit(d)
    } else if d == 10 {
        'a'
    } else if d == 11 {
        'b'
    } else if d == 12 {
        'c'
    } else if d == 13 {
        'd'
    } else if d == 14 {
        'e'
    } else {
        'f'
    }
}

fn hex_digit_exec(d: u32) -> (c: char)
    requires
        d < 16,
    ensures
        c == hex_digit(d as nat),
{
    if d < 10 {
        dec_digit_exec(d)
    } else if d == 10 {
        'a'
    } else if d == 11 {
        'b'
    } else if d == 12 {
        'c'
    } else if d == 13 {
        'd'
    } else if d == 14 {
        'e'
    } else {
        'f'
    }
}

/// How one character is written inside a JSON string literal: quotes and
/// backslashes get a backslash escape, control characters a `\u00XX`
/// escape, every other character stands as itself.
pub open spec fn escaped_char(c: char) -> Seq<char> {
    if c == '"' {
        seq!['\\', '"']
    } else if c == '\\' {
        seq!['\\', '\\']
    } else if (c as u32) < 32 {
        seq!['\\', 'u', '0', '0', hex_digit((c as u32 / 16) as nat), hex_digit(
            (c as u32 % 16) as nat,
        )]
    } else {
        seq![c]
    }
}

/// The escaped form of the first `n` characters of `s`.
pub open spec fn escaped_prefix(s: Seq<char>, n: int) -> Seq<char>
    decreases n,
{
    if n <= 0 {
        Seq::empty()
    } else {
        escaped_prefix(s, n - 1) + escaped_char(s[n - 1])
    }
}

/// The escaped form of a whole string.
pub open spec fn escaped_str(s: Seq<char>) -> Seq<char> {
    escaped_prefix(s, s.len() as int)
}

/// Appends the escaped form of `s` to `out`.
pub fn push_escaped(s: &str, out: &mut Vec<char>)
    ensures
        final(out)@ == old(out)@ + escaped_str(s@),
{
    let n = s.unicode_len();
    let mut i: usize = 0;
    while i < n
        invariant
            i <= n,
            n == s@.len(),
            out@ == old(out)@ + escaped_prefix(s@, i as int),
        decreases n - i,
    {
        let c = s.get_char(i);
        let code = c as u32;
        if c == '"' || c == '\\' {
            out.push('\\');
            out.push(c);
        } else if code < 32 {
            out.push('\\');
            out.push('u');
            out.push('0');
            out.push('0');
            out.push(hex_digit_exec(code / 16));
            out.push(hex_digit_exec(code % 16));
        } else {
            out.push(c);
        }
        proof {
            assert(out@ =~= old(out)@ + escaped_prefix(s@, i + 1));
        }
        i += 1;
    }
}

/// Appends the characters of `s`, unchanged, to `out`.
pub fn push_str_chars(s: &str, out: &mut Vec<char>)
    ensures
        final(out)@ == old(out)@ + s@,
{
    let n = s.unicode_len();
    let mut i: usize = 0;
    while i < n
        invariant
            i <= n,
            n == s@.len(),
            out@ == old(out)@ + s@.subrange(0, i as int),
        decreases n - i,
    {
        out.push(s.get_char(i));
        proof {
            assert(out@ =~= old(out)@ + s@.subrange(0, i + 1));
        }
        i += 1;
    }
    proof {
        assert(s@.subrange(0, n as int) =~= s@);
    }
}

} // verus!

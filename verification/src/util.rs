use vstd::prelude::*;

verus! {

use vstd::string::StrSliceExecFns;

/// `n` spaces.
pub open spec fn nspaces(n: nat) -> Seq<char>
    decreases n,
{
    if n == 0 {
        Seq::empty()
    } else {
        nspaces((n - 1) as nat).push(' ')
    }
}

/// One decimal digit.
pub open spec fn dec_digit(d: nat) -> char {
    if d == 0 {
        '0'
    } else if d == 1 {
        '1'
    } else if d == 2 {
        '2'
    } else if d == 3 {
        '3'
    } else if d == 4 {
        '4'
    } else if d == 5 {
        '5'
    } else if d == 6 {
        '6'
    } else if d == 7 {
        '7'
    } else if d == 8 {
        '8'
    } else {
        '9'
    }
}

/// The decimal digits of a natural number, most significant first.
pub open spec fn dec_nat(n: nat) -> Seq<char>
    decreases n,
{
    if n < 10 {
        seq![dec_digit(n)]
    } else {
        dec_nat(n / 10).push(dec_digit(n % 10))
    }
}

/// The decimal form of an integer: a minus sign before the digits of
/// its magnitude.
pub open spec fn dec_int(n: int) -> Seq<char> {
    if n < 0 {
        seq!['-'] + dec_nat((-n) as nat)
    } else {
        dec_nat(n as nat)
    }
}

/// The indentation of a nested construct: four more columns, left
/// unchanged at the top of the machine range so that printing stays
/// total.
pub open spec fn bump(ind: nat) -> nat {
    if ind + 4 <= usize::MAX {
        (ind + 4) as nat
    } else {
        ind
    }
}

/// Four more columns of indentation, saturating.
pub fn bump_indent(ind: usize) -> (r: usize)
    ensures
        r as nat == bump(ind as nat),
{
    if ind <= usize::MAX - 4 {
        ind + 4
    } else {
        ind
    }
}

/// Append the characters of a string slice to the buffer.
pub fn push_str_chars(out: &mut Vec<char>, s: &str)
    ensures
        final(out)@ == old(out)@ + s@,
{
    let ghost base = old(out)@;
    let n = s.unicode_len();
    let mut i: usize = 0;
    while i < n
        invariant
            i <= n,
            n as nat == s@.len(),
            out@ == base + s@.subrange(0, i as int),
        decreases n - i,
    {
        out.push(s.get_char(i));
        proof {
            assert(out@ =~= base + s@.subrange(0, i + 1));
        }
        i = i + 1;
    }
    proof {
        assert(s@.subrange(0, n as int) =~= s@);
        assert(out@ =~= base + s@);
    }
}

/// Append `n` spaces to the buffer.
pub fn push_spaces(out: &mut Vec<char>, n: usize)
    ensures
        final(out)@ == old(out)@ + nspaces(n as nat),
{
    let ghost base = old(out)@;
    let mut i: usize = 0;
    while i < n
        invariant
            i <= n,
            out@ == base + nspaces(i as nat),
        decreases n - i,
    {
        out.push(' ');
        i = i + 1;
    }
    proof {
        assert(out@ =~= base + nspaces(n as nat));
    }
}

fn dec_digit_exec(d: u64) -> (r: char)
    requires
        d < 10,
    ensures
        r == dec_digit(d as nat),
{
    if d == 0 {
        '0'
    } else if d == 1 {
        '1'
    } else if d == 2 {
        '2'
    } else if d == 3 {
        '3'
    } else if d == 4 {
        '4'
    } else if d == 5 {
        '5'
    } else if d == 6 {
        '6'
    } else if d == 7 {
        '7'
    } else if d == 8 {
        '8'
    } else {
        '9'
    }
}

/// Append the decimal form of an unsigned number to the buffer.
pub fn push_dec_u64(out: &mut Vec<char>, n: u64)
    ensures
        final(out)@ == old(out)@ + dec_nat(n as nat),
    decreases n,
{
    if n >= 10 {
        push_dec_u64(out, n / 10);
    }
    out.push(dec_digit_exec(n % 10));
    proof {
        assert(out@ =~= old(out)@ + dec_nat(n as nat));
    }
}

/// Append the decimal form of a signed number to the buffer.
pub fn push_dec_i64(out: &mut Vec<char>, n: i64)
    ensures
        final(out)@ == old(out)@ + dec_int(n as int),
{
    if n < 0 {
        out.push('-');
        let mag: u64 = (-(n as i128)) as u64;
        push_dec_u64(out, mag);
        proof {
            assert(out@ =~= old(out)@ + dec_int(n as int));
        }
    } else {
        push_dec_u64(out, n as u64);
    }
}

} // verus!

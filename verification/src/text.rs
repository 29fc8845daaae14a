//! Textual building blocks of the emitter: decimal rendering of integer
//! literals and quoting/escaping of string literals, each specified as a
//! function from values to `Seq<char>` and implemented by verified code.

use vstd::prelude::*;

verus! {

/// The decimal digit character for `d` (meaningful for `d < 10`).
pub open spec fn dec_digit(d: nat) -> char {
    if d == 0 {
        '0'
    } else if d == 1 {
        '1'
    } else if d == 2 {
        '2'
    } else if d == 3 {
        '3'
    } else if d == 4 {
        '4'
    } else if d == 5 {
        '5'
    } else if d == 6 {
        '6'
    } else if d == 7 {
        '7'
    } else if d == 8 {
        '8'
    } else {
        '9'
    }
}

/// Decimal text of a natural number, most significant digit first and
/// without leading zeros (`0` itself renders as `"0"`).
pub open spec fn dec_nat(n: nat) -> Seq<char>
    decreases n,
{
    if n < 10 {
        seq![dec_digit(n)]
    } else {
        dec_nat(n / 10) + seq![dec_digit(n % 10)]
    }
}

/// Decimal text of an integer: a leading `-` for negative values, then the
/// decimal text of the magnitude.
pub open spec fn dec_int(i: int) -> Seq<char> {
    if i < 0 {
        seq!['-'] + dec_nat((-i) as nat)
    } else {
        dec_nat(i as nat)
    }
}

/// How one character of a string literal is written between the quotes:
/// backslash, double quote, newline, carriage return and tab take a
/// two-character escape; every other character stands for itself.
pub open spec fn escape_char(c: char) -> Seq<char> {
    if c == '\\' {
        seq!['\\', '\\']
    } else if c == '"' {
        seq!['\\', '"']
    } else if c == '\n' {
        seq!['\\', 'n']
    } else if c == '\r' {
        seq!['\\', 'r']
    } else if c == '\t' {
        seq!['\\', 't']
    } else {
        seq![c]
    }
}

/// The escaped form of a whole character sequence.
pub open spec fn escape_text(s: Seq<char>) -> Seq<char>
    decreases s.len(),
{
    if s.len() == 0 {
        Seq::empty()
    } else {
        escape_text(s.drop_last()) + escape_char(s.last())
    }
}

/// A string literal as it appears in the output: escaped and double-quoted.
pub open spec fn quote_text(s: Seq<char>) -> Seq<char> {
    seq!['"'] + escape_text(s) + seq!['"']
}

/// Relies on `String::push`: appends exactly one character at the end of the
/// string, which vstd leaves unspecified.
#[verifier::external_body]
fn push_char(s: &mut String, c: char)
    ensures
        final(s)@ == old(s)@.push(c),
{
    s.push(c);
}

/// Appends the decimal digits of `n` to `out`.
fn push_dec_u64(n: u64, out: &mut String)
    ensures
        final(out)@ == old(out)@ + dec_nat(n as nat),
    decreases n,
{
    if n >= 10 {
        push_dec_u64(n / 10, out);
    }
    let d: u64 = n % 10;
    let c: char = if d == 0 {
        '0'
    } else if d == 1 {
        '1'
    } else if d == 2 {
        '2'
    } else if d == 3 {
        '3'
    } else if d == 4 {
        '4'
    } else if d == 5 {
        '5'
    } else if d == 6 {
        '6'
    } else if d == 7 {
        '7'
    } else if d == 8 {
        '8'
    } else {
        '9'
    };
    push_char(out, c);
    proof {
        if n < 10 {
            assert(dec_nat(n as nat) =~= seq![dec_digit(n as nat)]);
        } else {
            assert(dec_nat(n as nat) =~= dec_nat(n as nat / 10) + seq![
                dec_digit(n as nat % 10),
            ]);
        }
    }
}

/// Appends the decimal text of `i` to `out`.
pub fn push_dec_i64(i: i64, out: &mut String)
    ensures
        final(out)@ == old(out)@ + dec_int(i as int),
{
    if i < 0 {
        let ghost before: Seq<char> = out@;
        out.append("-");
        proof {
            reveal_strlit("-");
            assert(out@ =~= before + seq!['-']);
        }
        let magnitude: u64 = (-(i as i128)) as u64;
        push_dec_u64(magnitude, out);
        proof {
            assert(out@ =~= before + dec_int(i as int));
        }
    } else {
        push_dec_u64(i as u64, out);
    }
}

/// Appends the quoted, escaped form of `s` to `out`.
pub fn push_quoted(s: &str, out: &mut String)
    ensures
        final(out)@ == old(out)@ + quote_text(s@),
{
    let ghost before: Seq<char> = out@;
    push_char(out, '"');
    let n = s.unicode_len();
    let mut i: usize = 0;
    while i < n
        invariant
            n == s@.len(),
            i <= n,
            out@ == before + seq!['"'] + escape_text(s@.take(i as int)),
        decreases n - i,
    {
        let c = s.get_char(i);
        let ghost partial: Seq<char> = s@.take(i as int);
        if c == '\\' {
            out.append("\\\\");
            proof {
                reveal_strlit("\\\\");
                assert("\\\\"@ =~= escape_char(c));
            }
        } else if c == '"' {
            out.append("\\\"");
            proof {
                reveal_strlit("\\\"");
                assert("\\\""@ =~= escape_char(c));
            }
        } else if c == '\n' {
            out.append("\\n");
            proof {
                reveal_strlit("\\n");
                assert("\\n"@ =~= escape_char(c));
            }
        } else if c == '\r' {
            out.append("\\r");
            proof {
                reveal_strlit("\\r");
                assert("\\r"@ =~= escape_char(c));
            }
        } else if c == '\t' {
            out.append("\\t");
            proof {
                reveal_strlit("\\t");
                assert("\\t"@ =~= escape_char(c));
            }
        } else {
            push_char(out, c);
            proof {
                assert(out@ =~= before + seq!['"'] + escape_text(partial) + escape_char(c));
            }
        }
        proof {
            assert(s@.take(i + 1).drop_last() =~= partial);
            assert(s@.take(i + 1).last() == c);
            assert(escape_text(s@.take(i + 1)) == escape_text(partial) + escape_char(c));
            assert(out@ =~= before + seq!['"'] + escape_text(s@.take(i + 1)));
        }
        i = i + 1;
    }
    proof {
        assert(s@.take(n as int) =~= s@);
    }
    push_char(out, '"');
    proof {
        assert(out@ =~= before + quote_text(s@));
    }
}

} // verus!

//! Verified text helpers: the decimal rendering of an integer, used by the
//! footer line.

use vstd::prelude::*;
use vstd::string::StringExecFns;

verus! {

/// The character for one decimal digit.
pub open spec fn dec_digit(d: nat) -> char {
    if d == 0 {
        '0'
    } else if d == 1 {
        '1'
    } else if d == 2 {
        '2'
    } else if d == 3 {
        '3'
    } else if d == 4 {
        '4'
    } else if d == 5 {
        '5'
    } else if d == 6 {
        '6'
    } else if d == 7 {
        '7'
    } else if d == 8 {
        '8'
    } else {
        '9'
    }
}

/// The decimal rendering of `n`, most significant digit first,
/// without leading zeros (except for `n == 0`, rendered as "0").
pub open spec fn dec_seq(n: nat) -> Seq<char>
    decreases n,
{
    if n < 10 {
        seq![dec_digit(n)]
    } else {
        dec_seq(n / 10).push(dec_digit(n % 10))
    }
}

/// A one-character string for one decimal digit value.
fn digit_str(d: u8) -> (r: &'static str)
    requires
        d < 10,
    ensures
        r@ == seq![dec_digit(d as nat)],
{
    proof {
        reveal_strlit("0");
        reveal_strlit("1");
        reveal_strlit("2");
        reveal_strlit("3");
        reveal_strlit("4");
        reveal_strlit("5");
        reveal_strlit("6");
        reveal_strlit("7");
        reveal_strlit("8");
        reveal_strlit("9");
    }
    let r: &'static str = match d {
        0 => "0",
        1 => "1",
        2 => "2",
        3 => "3",
        4 => "4",
        5 => "5",
        6 => "6",
        7 => "7",
        8 => "8",
        _ => "9",
    };
    proof {
        assert(r@ =~= seq![dec_digit(d as nat)]);
    }
    r
}

/// The digit characters of `digs`, read back to front.
pub open spec fn rev_digit_chars(digs: Seq<u8>) -> Seq<char> {
    Seq::new(digs.len(), |i: int| dec_digit(digs[digs.len() - 1 - i] as nat))
}

/// Render `n` in decimal, most significant digit first.
pub fn u32_to_string(n: u32) -> (r: String)
    ensures
        r@ == dec_seq(n as nat),
{
    let mut digs: Vec<u8> = Vec::new();
    let mut m: u32 = n;
    while m >= 10
        invariant
            dec_seq(n as nat) =~= dec_seq(m as nat) + rev_digit_chars(digs@),
            forall|i: int| 0 <= i < digs@.len() ==> digs@[i] < 10,
        decreases m,
    {
        let d: u8 = (m % 10) as u8;
        let ghost old_digs = digs@;
        digs.push(d);
        proof {
            assert(rev_digit_chars(digs@) =~= seq![dec_digit((m % 10) as nat)]
                + rev_digit_chars(old_digs));
            assert(dec_seq(m as nat) =~= dec_seq((m / 10) as nat).push(
                dec_digit((m % 10) as nat),
            ));
            assert(dec_seq(m as nat) + rev_digit_chars(old_digs) =~= dec_seq((m / 10) as nat)
                + rev_digit_chars(digs@));
        }
        m = m / 10;
    }
    let ghost old_digs = digs@;
    digs.push(m as u8);
    proof {
        assert(rev_digit_chars(digs@) =~= seq![dec_digit(m as nat)] + rev_digit_chars(old_digs));
        assert(dec_seq(n as nat) =~= rev_digit_chars(digs@));
    }
    let mut r = String::new();
    let len: usize = digs.len();
    let mut j: usize = 0;
    while j < len
        invariant
            len == digs@.len(),
            j <= len,
            forall|i: int| 0 <= i < len ==> digs@[i] < 10,
            r@ =~= rev_digit_chars(digs@).take(j as int),
        decreases len - j,
    {
        let d: u8 = digs[len - 1 - j];
        r.append(digit_str(d));
        j = j + 1;
        proof {
            assert(r@ =~= rev_digit_chars(digs@).take(j as int));
        }
    }
    proof {
        assert(r@ =~= rev_digit_chars(digs@));
    }
    r
}

} // verus!

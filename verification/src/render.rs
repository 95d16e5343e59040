//! Decimal text for integers, used to render a point as a string.

use vstd::prelude::*;

verus! {

/// The decimal digits of `n`, most significant first, as ASCII bytes.
pub open spec fn dec_digits(n: nat) -> Seq<u8>
    decreases n,
{
    if n < 10 {
        seq![(48 + n) as u8]
    } else {
        dec_digits(n / 10).push((48 + n % 10) as u8)
    }
}

/// The decimal form of `n`: its digits, after a minus sign when `n` is
/// negative.
pub open spec fn int_digits(n: int) -> Seq<u8> {
    if n < 0 {
        seq![45u8] + dec_digits((-n) as nat)
    } else {
        dec_digits(n as nat)
    }
}

/// The decimal form of `n` as characters.
pub open spec fn int_chars(n: int) -> Seq<char> {
    int_digits(n).map(|i: int, b: u8| b as char)
}

/// Every byte of `dec_digits` is an ASCII digit.
proof fn lemma_dec_digits_ascii(n: nat)
    ensures
        forall|i: int| 0 <= i < dec_digits(n).len() ==> 48 <= #[trigger] dec_digits(n)[i] <= 57,
    decreases n,
{
    if n >= 10 {
        lemma_dec_digits_ascii(n / 10);
        assert forall|i: int| 0 <= i < dec_digits(n).len() implies 48 <= #[trigger] dec_digits(n)[i] <= 57 by {
            if i < dec_digits(n / 10).len() {
                assert(dec_digits(n)[i] == dec_digits(n / 10)[i]);
            } else {
                assert(dec_digits(n)[i] == (48 + n % 10) as u8);
            }
        }
    }
}

/// Appends the decimal digits of `n` to `out`.
fn push_dec_digits(out: &mut Vec<u8>, n: u32)
    ensures
        final(out)@ == old(out)@ + dec_digits(n as nat),
    decreases n,
{
    if n >= 10 {
        push_dec_digits(out, n / 10);
    }
    out.push(48 + (n % 10) as u8);
    proof {
        assert(out@ =~= old(out)@ + dec_digits(n as nat));
    }
}

/// Appends the decimal form of `n`, sign included, to `out`.
fn push_int_digits(out: &mut Vec<u8>, n: i32)
    ensures
        final(out)@ == old(out)@ + int_digits(n as int),
{
    if n < 0 {
        out.push(45);
        let wide: i64 = -(n as i64);
        assert(0 <= wide <= u32::MAX);
        let m: u32 = wide as u32;
        push_dec_digits(out, m);
        proof {
            assert(out@ =~= old(out)@ + int_digits(n as int));
        }
    } else {
        push_dec_digits(out, n as u32);
    }
}

/// Relies on `String::from_utf8`: bytes below 128 decode to one ASCII
/// character each, in order.
#[verifier::external_body]
fn ascii_string(bytes: Vec<u8>) -> (s: String)
    requires
        forall|i: int| 0 <= i < bytes@.len() ==> bytes@[i] < 128,
    ensures
        s@.len() == bytes@.len(),
        forall|i: int| 0 <= i < bytes@.len() ==> s@[i] == bytes@[i] as char,
{
    String::from_utf8(bytes).unwrap_or_default()
}

/// The decimal form of `n` as a string.
pub fn int_string(n: i32) -> (s: String)
    ensures
        s@ == int_chars(n as int),
{
    let mut bytes: Vec<u8> = Vec::new();
    push_int_digits(&mut bytes, n);
    proof {
        if n < 0 {
            lemma_dec_digits_ascii((-(n as int)) as nat);
        } else {
            lemma_dec_digits_ascii(n as nat);
        }
    }
    let s = ascii_string(bytes);
    proof {
        assert(s@ =~= int_chars(n as int));
    }
    s
}

} // verus!

//! The text form of an index: sixteen lowercase hexadecimal digits, no
//! prefix, leading zeros kept.
use crate::buffer::with_prefix;
use crate::engine::{
    cell_from_str, edge_from_str, hex_char_value, hex_digits_value, hex_value, is_cell, is_edge,
    is_vertex, vertex_from_str,
};
use crate::error::{code, success, H3Error, H3ErrorCodes};
use crate::H3Index;
use vstd::prelude::*;

verus! {

/// The lowercase ASCII hexadecimal digit of a value below 16.
pub open spec fn hex_digit(d: u64) -> u8 {
    if d < 10 {
        (48 + d) as u8
    } else {
        (87 + d) as u8
    }
}

/// The last `k` hexadecimal digits of `n`, most significant first, leading
/// zeros kept.
pub open spec fn hex_fixed(n: u64, k: nat) -> Seq<u8>
    decreases k,
{
    if k == 0 {
        Seq::empty()
    } else {
        hex_fixed(n / 16, (k - 1) as nat).push(hex_digit(n % 16))
    }
}

/// The fixed-width text form of `n`: its sixteen hexadecimal digits, as
/// ASCII bytes.
pub open spec fn hex_string(n: u64) -> Seq<u8> {
    hex_fixed(n, 16)
}

/// The text form of `n` as characters.
pub open spec fn hex_chars(n: u64) -> Seq<char> {
    hex_string(n).map_values(|b: u8| b as char)
}

/// Sixteen to the power `k`.
pub open spec fn pow16(k: nat) -> nat
    decreases k,
{
    if k == 0 {
        1
    } else {
        16 * pow16((k - 1) as nat)
    }
}

/// The digit of a value below 16.
fn hex_digit_byte(d: u64) -> (r: u8)
    requires
        d < 16,
    ensures
        r == hex_digit(d),
{
    if d < 10 {
        48 + d as u8
    } else {
        87 + d as u8
    }
}

/// The last `k` hexadecimal digits of `n` as ASCII bytes.
fn hex_fixed_bytes(n: u64, k: usize) -> (r: Vec<u8>)
    ensures
        r@ == hex_fixed(n, k as nat),
    decreases k,
{
    if k == 0 {
        Vec::new()
    } else {
        let mut v = hex_fixed_bytes(n / 16, k - 1);
        v.push(hex_digit_byte(n % 16));
        v
    }
}

/// Writes the sixteen-digit text form of `h` to the front of `s`, followed
/// by a NUL byte.
///
/// `sz` is the size of the buffer the caller vouches for; below 17 (sixteen
/// digits and the NUL) the call fails without writing.
pub fn h3ToString(h: H3Index, s: &mut [u8], sz: usize) -> (r: H3Error)
    requires
        sz <= old(s)@.len(),
    ensures
        sz < 17 ==> r == code(H3ErrorCodes::EFailed) && final(s)@ == old(s)@,
        sz >= 17 ==> r == success() && final(s)@ == with_prefix(old(s)@, hex_string(h).push(0u8)),
        hex_string(h).len() == 16,
{
    proof {
        lemma_hex_fixed_len(h, 16);
    }
    if sz < 17 {
        return H3Error::of(H3ErrorCodes::EFailed);
    }
    let mut text = hex_fixed_bytes(h, 16);
    text.push(0u8);
    crate::buffer::write_prefix(s, &text);
    H3Error::of(H3ErrorCodes::ESuccess)
}

/// `hex_fixed(n, k)` has `k` digits.
proof fn lemma_hex_fixed_len(n: u64, k: nat)
    ensures
        hex_fixed(n, k).len() == k,
    decreases k,
{
    if k > 0 {
        lemma_hex_fixed_len(n / 16, (k - 1) as nat);
    }
}

/// The index that a text names: its hexadecimal value, where that value is
/// a valid cell, directed edge or vertex.
pub open spec fn parse_index(s: Seq<char>) -> Option<u64> {
    match hex_value(s) {
        Some(v) => if is_cell(v) || is_edge(v) || is_vertex(v) {
            Some(v)
        } else {
            None
        },
        None => None,
    }
}

/// Reads the index that a text names, trying it as a cell, then as a
/// directed edge, then as a vertex.
pub fn stringToH3(text: &str, out: &mut H3Index) -> (r: H3Error)
    ensures
        match parse_index(text@) {
            Some(v) => r == success() && *final(out) == v,
            None => r == code(H3ErrorCodes::EFailed) && *final(out) == *old(out),
        },
{
    let found = match cell_from_str(text) {
        Some(v) => Some(v),
        None => match edge_from_str(text) {
            Some(v) => Some(v),
            None => vertex_from_str(text),
        },
    };
    match found {
        Some(v) => {
            *out = v;
            H3Error::of(H3ErrorCodes::ESuccess)
        },
        None => H3Error::of(H3ErrorCodes::EFailed),
    }
}

/// The last `k` digits of `n`, read back, give `n` where `n < 16^k`.
proof fn lemma_hex_fixed_value(n: u64, k: nat)
    requires
        n < pow16(k),
    ensures
        hex_digits_value(hex_fixed(n, k).map_values(|b: u8| b as char)) == Some(n as nat),
    decreases k,
{
    let chars = hex_fixed(n, k).map_values(|b: u8| b as char);
    if k == 0 {
        assert(chars =~= Seq::<char>::empty());
    } else {
        let p = pow16((k - 1) as nat);
        assert(n / 16 < p) by (nonlinear_arith)
            requires
                n < 16 * p,
        ;
        lemma_hex_fixed_value(n / 16, (k - 1) as nat);
        lemma_hex_fixed_len(n / 16, (k - 1) as nat);
        assert(chars.drop_last() =~= hex_fixed(n / 16, (k - 1) as nat).map_values(|b: u8| b as char));
        let d = n % 16;
        assert(chars.last() == hex_digit(d) as char);
        assert(hex_char_value(hex_digit(d) as char) == Some(d as nat));
    }
}

/// Every digit of `hex_fixed(n, k)` is an ASCII digit or lowercase letter.
proof fn lemma_hex_fixed_digits(n: u64, k: nat)
    ensures
        forall|i: int|
            0 <= i < hex_fixed(n, k).len() ==> (48 <= #[trigger] hex_fixed(n, k)[i] <= 57 || 97
                <= hex_fixed(n, k)[i] <= 102),
    decreases k,
{
    if k > 0 {
        lemma_hex_fixed_digits(n / 16, (k - 1) as nat);
        let front = hex_fixed(n / 16, (k - 1) as nat);
        let d = n % 16;
        assert(48 <= hex_digit(d) <= 57 || 97 <= hex_digit(d) <= 102);
        assert forall|i: int| 0 <= i < hex_fixed(n, k).len() implies (48 <= #[trigger] hex_fixed(
            n,
            k,
        )[i] <= 57 || 97 <= hex_fixed(n, k)[i] <= 102) by {
            if i < front.len() {
                assert(hex_fixed(n, k)[i] == front[i]);
            }
        }
    }
}

/// Round trip: the text form of any valid cell, directed edge or vertex
/// names that same index.
pub proof fn lemma_index_string_round_trip(x: u64)
    requires
        is_cell(x) || is_edge(x) || is_vertex(x),
    ensures
        parse_index(hex_chars(x)) == Some(x),
{
    reveal_with_fuel(pow16, 17);
    assert(pow16(16) == 0x1_0000_0000_0000_0000);
    lemma_hex_fixed_value(x, 16);
    lemma_hex_fixed_len(x, 16);
    lemma_hex_fixed_digits(x, 16);
    let chars = hex_chars(x);
    assert(chars[0] == hex_string(x)[0] as char);
    assert(chars[0] != '+');
}

} // verus!

//! Rendering a quaternion as text: `"<s> + <x>i + <y>j + <z>k"`.
//!
//! `core::fmt` cannot appear in verified code, so the renderer produces the
//! ASCII bytes of the text instead; a caller turns them into a string.

use vstd::prelude::*;

use crate::algebra::Quaternion;
use crate::model::Quat;

verus! {

/// The decimal digits of a nonnegative integer, as ASCII bytes.
pub open spec fn dec_bytes_nat(n: nat) -> Seq<u8>
    decreases n,
{
    if n < 10 {
        seq![(n + 0x30) as u8]
    } else {
        dec_bytes_nat(n / 10).push((n % 10 + 0x30) as u8)
    }
}

/// The decimal rendering of an integer, as ASCII bytes: a minus sign for
/// negative values, then the digits of the magnitude.
pub open spec fn dec_bytes(v: int) -> Seq<u8> {
    if v < 0 {
        seq![0x2Du8] + dec_bytes_nat((-v) as nat)
    } else {
        dec_bytes_nat(v as nat)
    }
}

/// The rendering of a whole quaternion: the four components in decimal,
/// joined as `"<s> + <x>i + <y>j + <z>k"`.
pub open spec fn display_bytes_spec(q: Quat) -> Seq<u8> {
    dec_bytes(q.s) + seq![0x20u8, 0x2Bu8, 0x20u8]  // " + "
     + dec_bytes(q.x) + seq![0x69u8, 0x20u8, 0x2Bu8, 0x20u8]  // "i + "
     + dec_bytes(q.y) + seq![0x6Au8, 0x20u8, 0x2Bu8, 0x20u8]  // "j + "
     + dec_bytes(q.z) + seq![0x6Bu8]  // "k"
}

/// Appends the decimal digits of `m` to `out`.
fn push_dec_u64(out: &mut Vec<u8>, m: u64)
    ensures
        final(out)@ == old(out)@ + dec_bytes_nat(m as nat),
    decreases m,
{
    if m < 10 {
        out.push(m as u8 + 0x30);
        assert(final(out)@ =~= old(out)@ + dec_bytes_nat(m as nat));
    } else {
        push_dec_u64(out, m / 10);
        out.push((m % 10) as u8 + 0x30);
        assert(final(out)@ =~= old(out)@ + dec_bytes_nat(m as nat));
    }
}

/// Appends the decimal rendering of `v` to `out`.
fn push_dec(out: &mut Vec<u8>, v: i64)
    ensures
        final(out)@ == old(out)@ + dec_bytes(v as int),
{
    if v < 0 {
        out.push(0x2D);
        let mag: u64 = (-(v as i128)) as u64;
        assert(mag as nat == -(v as int) as nat);
        push_dec_u64(out, mag);
        assert(final(out)@ =~= old(out)@ + dec_bytes(v as int));
    } else {
        push_dec_u64(out, v as u64);
        assert(final(out)@ =~= old(out)@ + dec_bytes(v as int));
    }
}

impl Quaternion {
    /// The ASCII bytes of the rendering `"<s> + <x>i + <y>j + <z>k"`.
    pub fn display_bytes(&self) -> (r: Vec<u8>)
        ensures
            r@ == display_bytes_spec(self@),
    {
        let mut out: Vec<u8> = Vec::new();
        push_dec(&mut out, self.s);
        out.push(0x20);
        out.push(0x2B);
        out.push(0x20);
        push_dec(&mut out, self.x);
        out.push(0x69);
        out.push(0x20);
        out.push(0x2B);
        out.push(0x20);
        push_dec(&mut out, self.y);
        out.push(0x6A);
        out.push(0x20);
        out.push(0x2B);
        out.push(0x20);
        push_dec(&mut out, self.z);
        out.push(0x6B);
        assert(out@ =~= display_bytes_spec(self@));
        out
    }
}

} // verus!

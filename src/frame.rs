//! Bounds-checked access to the bytes of a frame.
//!
//! Every header field is read or written through a [`Window`], which can only
//! be had from [`window`] after the offset and size were checked against the
//! frame's length. Multi-byte fields are big-endian (network byte order).

use vstd::prelude::*;

verus! {

/// Big-endian 16-bit value stored at `i`.
pub open spec fn be16(s: Seq<u8>, i: int) -> nat {
    (s[i] * 0x100 + s[i + 1]) as nat
}

/// Big-endian 32-bit value stored at `i`.
pub open spec fn be32(s: Seq<u8>, i: int) -> nat {
    (s[i] * 0x100_0000 + s[i + 1] * 0x1_0000 + s[i + 2] * 0x100 + s[i + 3]) as nat
}

/// `s` with the big-endian encoding of `v` stored at `i`.
pub open spec fn put_be16(s: Seq<u8>, i: int, v: u16) -> Seq<u8> {
    s.update(i, (v / 0x100) as u8).update(i + 1, (v % 0x100) as u8)
}

/// `s` with the big-endian encoding of `v` stored at `i`.
pub open spec fn put_be32(s: Seq<u8>, i: int, v: u32) -> Seq<u8> {
    s.update(i, (v / 0x100_0000) as u8).update(i + 1, (v / 0x1_0000 % 0x100) as u8).update(
        i + 2,
        (v / 0x100 % 0x100) as u8,
    ).update(i + 3, (v % 0x100) as u8)
}

/// Reading back a stored 16-bit value gives that value.
pub proof fn lemma_be16_put(s: Seq<u8>, i: int, v: u16)
    requires
        0 <= i,
        i + 2 <= s.len(),
    ensures
        be16(put_be16(s, i, v), i) == v,
        put_be16(s, i, v).len() == s.len(),
{
    let t = put_be16(s, i, v);
    assert(t[i] == v / 0x100);
    assert(t[i + 1] == v % 0x100);
}

/// Reading back a stored 32-bit value gives that value.
pub proof fn lemma_be32_put(s: Seq<u8>, i: int, v: u32)
    requires
        0 <= i,
        i + 4 <= s.len(),
    ensures
        be32(put_be32(s, i, v), i) == v,
        put_be32(s, i, v).len() == s.len(),
{
    let t = put_be32(s, i, v);
    assert(t[i] == v / 0x100_0000);
    assert(t[i + 1] == v / 0x1_0000 % 0x100);
    assert(t[i + 2] == v / 0x100 % 0x100);
    assert(t[i + 3] == v % 0x100);
    let a = v as int / 0x100;
    let b = a / 0x100;
    let c = b / 0x100;
    vstd::arithmetic::div_mod::lemma_fundamental_div_mod(v as int, 0x100);
    vstd::arithmetic::div_mod::lemma_fundamental_div_mod(a, 0x100);
    vstd::arithmetic::div_mod::lemma_fundamental_div_mod(b, 0x100);
    vstd::arithmetic::div_mod::lemma_div_denominator(v as int, 0x100, 0x100);
    vstd::arithmetic::div_mod::lemma_div_denominator(a, 0x100, 0x100);
    vstd::arithmetic::div_mod::lemma_div_denominator(v as int, 0x1_0000, 0x100);
    assert(c < 0x100);
}

/// The frame was shorter than a header that had to be read.
#[derive(Clone, Copy, Debug, PartialEq, Eq, Structural)]
pub struct OutOfBounds;

/// A range of a frame, `len` bytes from `offset`, that was checked to lie
/// inside it.
#[derive(Clone, Copy, Debug, PartialEq, Eq, Structural)]
pub struct Window {
    pub offset: usize,
    pub len: usize,
}

impl Window {
    /// The window lies inside a frame of `frame_len` bytes (a frame whose
    /// positions are all `usize` values).
    pub open spec fn fits(self, frame_len: nat) -> bool {
        self.offset + self.len <= frame_len && self.offset + self.len <= usize::MAX
    }

    /// Byte `at` of the window.
    pub fn read_u8(&self, frame: &[u8], at: usize) -> (r: u8)
        requires
            self.fits(frame@.len()),
            at < self.len,
        ensures
            r == frame@[self.offset + at],
    {
        frame[self.offset + at]
    }

    /// Big-endian 16-bit field at byte `at` of the window.
    pub fn read_be16(&self, frame: &[u8], at: usize) -> (r: u16)
        requires
            self.fits(frame@.len()),
            at + 2 <= self.len,
        ensures
            r == be16(frame@, self.offset + at),
    {
        let i = self.offset + at;
        (frame[i] as u16) * 0x100 + frame[i + 1] as u16
    }

    /// Big-endian 32-bit field at byte `at` of the window.
    pub fn read_be32(&self, frame: &[u8], at: usize) -> (r: u32)
        requires
            self.fits(frame@.len()),
            at + 4 <= self.len,
        ensures
            r == be32(frame@, self.offset + at),
    {
        let i = self.offset + at;
        (frame[i] as u32) * 0x100_0000 + (frame[i + 1] as u32) * 0x1_0000 + (frame[i + 2] as u32)
            * 0x100 + frame[i + 3] as u32
    }

    /// Stores `v` at byte `at` of the window.
    pub fn write_u8(&self, frame: &mut [u8], at: usize, v: u8)
        requires
            self.fits(old(frame)@.len()),
            at < self.len,
        ensures
            final(frame)@ == old(frame)@.update(self.offset + at, v),
    {
        frame[self.offset + at] = v;
    }

    /// Stores `v` big-endian at byte `at` of the window.
    pub fn write_be16(&self, frame: &mut [u8], at: usize, v: u16)
        requires
            self.fits(old(frame)@.len()),
            at + 2 <= self.len,
        ensures
            final(frame)@ == put_be16(old(frame)@, self.offset + at, v),
    {
        let i = self.offset + at;
        frame[i] = (v / 0x100) as u8;
        frame[i + 1] = (v % 0x100) as u8;
    }

    /// Stores `v` big-endian at byte `at` of the window.
    pub fn write_be32(&self, frame: &mut [u8], at: usize, v: u32)
        requires
            self.fits(old(frame)@.len()),
            at + 4 <= self.len,
        ensures
            final(frame)@ == put_be32(old(frame)@, self.offset + at, v),
    {
        let i = self.offset + at;
        frame[i] = (v / 0x100_0000) as u8;
        frame[i + 1] = (v / 0x1_0000 % 0x100) as u8;
        frame[i + 2] = (v / 0x100 % 0x100) as u8;
        frame[i + 3] = (v % 0x100) as u8;
    }
}

/// Checks that `size` bytes from `offset` lie inside the frame, and yields
/// the window over them.
pub fn window(frame: &[u8], offset: usize, size: usize) -> (r: Result<Window, OutOfBounds>)
    ensures
        r is Ok <==> offset + size <= frame@.len(),
        r matches Ok(w) ==> w.offset == offset && w.len == size && w.fits(frame@.len()),
{
    if offset <= frame.len() && size <= frame.len() - offset {
        Ok(Window { offset, len: size })
    } else {
        Err(OutOfBounds)
    }
}

} // verus!

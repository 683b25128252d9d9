//! Length-prefixed byte-array framing.
//!
//! The inter-robot message relay exchanges opaque byte arrays over stream
//! connections. On the wire each array is preceded by its length as a
//! four-byte big-endian word. The decoder is incremental: it remembers a
//! length whose body has not arrived in full yet, and consumes input as it
//! goes.

use vstd::prelude::*;

verus! {

/// The value of a four-byte big-endian length word.
pub open spec fn spec_be32(b: Seq<u8>) -> int
    recommends
        b.len() == 4,
{
    b[0] * 0x1000000 + b[1] * 0x10000 + b[2] * 0x100 + b[3]
}

/// The four-byte big-endian encoding of a length.
pub open spec fn spec_be32_bytes(n: int) -> Seq<u8> {
    seq![
        ((n / 0x1000000) % 0x100) as u8,
        ((n / 0x10000) % 0x100) as u8,
        ((n / 0x100) % 0x100) as u8,
        (n % 0x100) as u8,
    ]
}

/// Encoding a length and reading the word back gives the length.
pub proof fn lemma_be32_roundtrip(n: int)
    requires
        0 <= n < 0x100000000,
    ensures
        spec_be32(spec_be32_bytes(n)) == n,
{
    assert(((n / 0x1000000) % 0x100) * 0x1000000 + ((n / 0x10000) % 0x100) * 0x10000 + ((n
        / 0x100) % 0x100) * 0x100 + (n % 0x100) == n) by (nonlinear_arith)
        requires 0 <= n < 0x100000000;
}

/// What one decoder step does: the state and buffer it leaves, and the
/// frame it produces, if any.
pub open spec fn spec_decode(
    len: Option<u32>,
    buf: Seq<u8>,
) -> (Option<u32>, Seq<u8>, Option<Seq<u8>>) {
    match len {
        Some(l) => if buf.len() >= l {
            (None, buf.skip(l as int), Some(buf.take(l as int)))
        } else {
            (Some(l), buf, None)
        },
        None => if buf.len() < 4 {
            (None, buf, None)
        } else {
            let l = spec_be32(buf.take(4));
            let rest = buf.skip(4);
            if rest.len() >= l {
                (None, rest.skip(l), Some(rest.take(l)))
            } else {
                (Some(l as u32), rest, None)
            }
        },
    }
}

/// The incremental decoder: the length of a frame whose body has not
/// arrived in full yet, if one was read.
#[derive(Clone, Copy, Debug, PartialEq, Eq, Structural)]
pub struct ByteArrayCodec {
    /// The pending frame length.
    pub len: Option<u32>,
}

impl ByteArrayCodec {
    /// A fresh codec with no pending length.
    pub fn new() -> (c: ByteArrayCodec)
        ensures
            c.len is None,
    {
        ByteArrayCodec { len: None }
    }

    /// Consumes as much of `buf` as one frame needs. Returns the next
    /// complete frame, or nothing if the buffered input does not hold one
    /// yet; a length whose body is incomplete is remembered, its word
    /// already consumed from the buffer.
    pub fn decode(&mut self, buf: &mut Vec<u8>) -> (frame: Option<Vec<u8>>)
        ensures
            ({
                let (len2, buf2, frame2) = spec_decode(old(self).len, old(buf)@);
                &&& final(self).len == len2
                &&& final(buf)@ == buf2
                &&& match (frame, frame2) {
                    (Some(f), Some(f2)) => f@ == f2,
                    (None, None) => true,
                    _ => false,
                }
            }),
    {
        if let Some(l) = self.len {
            let l = l as usize;
            if buf.len() >= l {
                self.len = None;
                Some(split_front(buf, l))
            } else {
                None
            }
        } else {
            if buf.len() < 4 {
                return None;
            }
            let l: u32 = (buf[0] as u32) * 0x1000000 + (buf[1] as u32) * 0x10000 + (buf[2] as u32)
                * 0x100 + (buf[3] as u32);
            proof {
                assert(old(buf)@.take(4)[0] == old(buf)@[0]);
                assert(old(buf)@.take(4)[1] == old(buf)@[1]);
                assert(old(buf)@.take(4)[2] == old(buf)@[2]);
                assert(old(buf)@.take(4)[3] == old(buf)@[3]);
            }
            drop_front(buf, 4);
            let l_us = l as usize;
            if buf.len() >= l_us {
                self.len = None;
                let frame = split_front(buf, l_us);
                proof {
                    assert(old(buf)@.skip(4).take(l as int) =~= frame@);
                    assert(old(buf)@.skip(4).skip(l as int) =~= buf@);
                }
                Some(frame)
            } else {
                self.len = Some(l);
                None
            }
        }
    }

    /// Appends one frame to the output buffer: the length word, then the
    /// bytes. The length must fit the four-byte word.
    pub fn encode(&mut self, data: &Vec<u8>, buf: &mut Vec<u8>)
        requires
            data@.len() < 0x100000000,
        ensures
            *final(self) == *old(self),
            final(buf)@ == old(buf)@ + spec_be32_bytes(data@.len() as int) + data@,
    {
        let l: u32 = data.len() as u32;
        buf.push((l / 0x1000000 % 0x100) as u8);
        buf.push((l / 0x10000 % 0x100) as u8);
        buf.push((l / 0x100 % 0x100) as u8);
        buf.push((l % 0x100) as u8);
        let mut i: usize = 0;
        while i < data.len()
            invariant
                i <= data@.len(),
                buf@ == old(buf)@ + spec_be32_bytes(data@.len() as int) + data@.take(i as int),
            decreases data@.len() - i,
        {
            buf.push(data[i]);
            proof {
                assert(data@.take(i as int).push(data@[i as int]) =~= data@.take(i as int + 1));
                assert((old(buf)@ + spec_be32_bytes(data@.len() as int) + data@.take(i as int))
                    .push(data@[i as int]) =~= old(buf)@ + spec_be32_bytes(data@.len() as int)
                    + data@.take(i as int + 1));
            }
            i = i + 1;
        }
        proof {
            assert(data@.take(data@.len() as int) =~= data@);
            assert(old(buf)@ + spec_be32_bytes(data@.len() as int) + data@.take(
                data@.len() as int,
            ) =~= old(buf)@ + spec_be32_bytes(data@.len() as int) + data@);
        }
    }
}

/// Removes the first `k` bytes of the buffer.
fn drop_front(buf: &mut Vec<u8>, k: usize)
    requires
        k <= old(buf)@.len(),
    ensures
        final(buf)@ == old(buf)@.skip(k as int),
{
    let mut rest: Vec<u8> = Vec::new();
    let mut i: usize = k;
    while i < buf.len()
        invariant
            k <= i <= buf@.len(),
            buf@ == old(buf)@,
            rest@ == old(buf)@.subrange(k as int, i as int),
        decreases buf@.len() - i,
    {
        rest.push(buf[i]);
        proof {
            assert(old(buf)@.subrange(k as int, i as int).push(old(buf)@[i as int])
                =~= old(buf)@.subrange(k as int, i as int + 1));
        }
        i = i + 1;
    }
    proof {
        assert(rest@ =~= old(buf)@.skip(k as int));
    }
    *buf = rest;
}

/// Removes and returns the first `k` bytes of the buffer.
fn split_front(buf: &mut Vec<u8>, k: usize) -> (front: Vec<u8>)
    requires
        k <= old(buf)@.len(),
    ensures
        front@ == old(buf)@.take(k as int),
        final(buf)@ == old(buf)@.skip(k as int),
{
    let mut front: Vec<u8> = Vec::new();
    let mut i: usize = 0;
    while i < k
        invariant
            i <= k <= buf@.len(),
            buf@ == old(buf)@,
            front@ == old(buf)@.take(i as int),
        decreases k - i,
    {
        front.push(buf[i]);
        proof {
            assert(old(buf)@.take(i as int).push(old(buf)@[i as int]) =~= old(buf)@.take(
                i as int + 1,
            ));
        }
        i = i + 1;
    }
    drop_front(buf, k);
    front
}

/// Round trip: a frame encoded into an empty buffer by a fresh codec is
/// decoded back whole by a fresh decoder, which consumes the buffer and
/// keeps no pending length.
pub proof fn lemma_codec_roundtrip(data: Seq<u8>)
    requires
        data.len() < 0x100000000,
    ensures
        spec_decode(None, spec_be32_bytes(data.len() as int) + data) == (
            None::<u32>,
            Seq::<u8>::empty(),
            Some(data),
        ),
{
    let wire = spec_be32_bytes(data.len() as int) + data;
    lemma_be32_roundtrip(data.len() as int);
    assert(wire.take(4) =~= spec_be32_bytes(data.len() as int));
    assert(wire.skip(4) =~= data);
    let l = spec_be32(wire.take(4));
    assert(l == data.len());
    assert(wire.skip(4).skip(l) =~= Seq::<u8>::empty());
    assert(wire.skip(4).take(l) =~= data);
}

} // verus!

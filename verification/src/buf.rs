//! Byte buffers that are read from the front and written at the back.
use vstd::prelude::*;

use crate::error::{Error, ErrorCode};
use crate::le::{from_le16, from_le32, le16, le32, u16_from_le, u16_to_le, u32_from_le, u32_to_le};

verus! {

/// The error of a write that does not fit.
pub open spec fn no_space() -> Error {
    Error { code: ErrorCode::NoSpace }
}

/// The error of a read past the end.
pub open spec fn truncated() -> Error {
    Error { code: ErrorCode::TruncatedPacket }
}

/// Bytes written so far into memory of a fixed size.
pub struct WriteBuf<'a> {
    buf: &'a mut [u8],
    end: usize,
}

impl View for WriteBuf<'_> {
    type V = Seq<u8>;

    /// The bytes written so far.
    closed spec fn view(&self) -> Seq<u8> {
        self.buf@.take(self.end as int)
    }
}

impl<'a> WriteBuf<'a> {
    #[verifier::type_invariant]
    spec fn within_bounds(&self) -> bool {
        self.end <= self.buf@.len()
    }

    /// How many bytes fit in all.
    pub closed spec fn capacity(&self) -> nat {
        self.buf@.len()
    }

    /// A buffer with nothing written yet.
    pub fn new(buf: &'a mut [u8]) -> (wb: Self)
        ensures
            wb@ == Seq::<u8>::empty(),
            wb.capacity() == old(buf)@.len(),
    {
        WriteBuf { buf, end: 0 }
    }

    /// Writes `bytes` at the back, or nothing if they do not fit.
    pub fn copy_from_slice(&mut self, bytes: &[u8]) -> (r: Result<(), Error>)
        ensures
            final(self).capacity() == old(self).capacity(),
            old(self)@.len() <= old(self).capacity(),
            old(self)@.len() + bytes@.len() <= old(self).capacity() ==> r is Ok && final(self)@
                == old(self)@ + bytes@,
            old(self)@.len() + bytes@.len() > old(self).capacity() ==> r == Err::<(), Error>(
                no_space(),
            ) && final(self)@ == old(self)@,
    {
        proof {
            use_type_invariant(&*self);
        }
        let capacity: usize = self.buf.len();
        let start: usize = self.end;
        if bytes.len() > capacity - start {
            return Err(Error::new(ErrorCode::NoSpace));
        }
        let mut i: usize = 0;
        while i < bytes.len()
            invariant
                i <= bytes@.len(),
                start + bytes@.len() <= capacity,
                capacity == self.buf@.len(),
                capacity == old(self).buf@.len(),
                self.end == start,
                self.buf@.take(start as int) == old(self).buf@.take(start as int),
                self.buf@.subrange(start as int, start + i) == bytes@.take(i as int),
            decreases bytes@.len() - i,
        {
            let ghost before = self.buf@;
            self.buf[start + i] = bytes[i];
            i += 1;
            proof {
                assert(self.buf@.take(start as int) =~= before.take(start as int));
                assert(self.buf@.subrange(start as int, start + i) =~= before.subrange(
                    start as int,
                    start + i - 1,
                ).push(bytes@[i - 1]));
                assert(bytes@.take(i as int) =~= bytes@.take(i - 1).push(bytes@[i - 1]));
            }
        }
        self.end = start + bytes.len();
        proof {
            assert(bytes@.take(i as int) =~= bytes@);
            assert(self@ =~= old(self)@ + bytes@);
        }
        Ok(())
    }

    /// Writes two bytes, least significant first, or nothing if they do not fit.
    pub fn le_u16(&mut self, x: u16) -> (r: Result<(), Error>)
        ensures
            final(self).capacity() == old(self).capacity(),
            old(self)@.len() <= old(self).capacity(),
            old(self)@.len() + 2 <= old(self).capacity() ==> r is Ok && final(self)@ == old(self)@
                + le16(x),
            old(self)@.len() + 2 > old(self).capacity() ==> r == Err::<(), Error>(no_space())
                && final(self)@ == old(self)@,
    {
        let bytes: [u8; 2] = u16_to_le(x);
        self.copy_from_slice(&bytes)
    }

    /// Writes four bytes, least significant first, or nothing if they do not fit.
    pub fn le_u32(&mut self, x: u32) -> (r: Result<(), Error>)
        ensures
            final(self).capacity() == old(self).capacity(),
            old(self)@.len() <= old(self).capacity(),
            old(self)@.len() + 4 <= old(self).capacity() ==> r is Ok && final(self)@ == old(self)@
                + le32(x),
            old(self)@.len() + 4 > old(self).capacity() ==> r == Err::<(), Error>(no_space())
                && final(self)@ == old(self)@,
    {
        let bytes: [u8; 4] = u32_to_le(x);
        self.copy_from_slice(&bytes)
    }

    /// The bytes written so far.
    pub fn as_slice(&self) -> (written: &[u8])
        ensures
            written@ == self@,
    {
        proof {
            use_type_invariant(self);
        }
        vstd::slice::slice_subrange(&*self.buf, 0, self.end)
    }
}

/// Bytes of which a part has been read.
#[derive(Clone, Copy, Debug)]
pub struct ReadBuf<'a> {
    rest: &'a [u8],
}

impl View for ReadBuf<'_> {
    type V = Seq<u8>;

    /// The bytes that have not been read yet.
    closed spec fn view(&self) -> Seq<u8> {
        self.rest@
    }
}

impl<'a> ReadBuf<'a> {
    /// A buffer of which nothing has been read yet.
    pub fn new(bytes: &'a [u8]) -> (rb: Self)
        ensures
            rb@ == bytes@,
    {
        ReadBuf { rest: bytes }
    }

    /// Reads two bytes, least significant first, or nothing if there are fewer.
    pub fn le_u16(&mut self) -> (r: Result<u16, Error>)
        ensures
            old(self)@.len() >= 2 ==> r == Ok::<u16, Error>(from_le16(old(self)@.take(2)))
                && final(self)@ == old(self)@.skip(2),
            old(self)@.len() < 2 ==> r == Err::<u16, Error>(truncated()) && final(self)@ 
                == old(self)@,
    {
        if self.rest.len() < 2 {
            return Err(Error::new(ErrorCode::TruncatedPacket));
        }
        let x: u16 = u16_from_le(self.rest);
        self.rest = vstd::slice::slice_subrange(self.rest, 2, self.rest.len());
        Ok(x)
    }

    /// Reads four bytes, least significant first, or nothing if there are fewer.
    pub fn le_u32(&mut self) -> (r: Result<u32, Error>)
        ensures
            old(self)@.len() >= 4 ==> r == Ok::<u32, Error>(from_le32(old(self)@.take(4)))
                && final(self)@ == old(self)@.skip(4),
            old(self)@.len() < 4 ==> r == Err::<u32, Error>(truncated()) && final(self)@ 
                == old(self)@,
    {
        if self.rest.len() < 4 {
            return Err(Error::new(ErrorCode::TruncatedPacket));
        }
        let x: u32 = u32_from_le(self.rest);
        self.rest = vstd::slice::slice_subrange(self.rest, 4, self.rest.len());
        Ok(x)
    }

    /// The bytes that have not been read yet.
    pub fn as_slice(&self) -> (rest: &'a [u8])
        ensures
            rest@ == self@,
    {
        self.rest
    }
}

} // verus!

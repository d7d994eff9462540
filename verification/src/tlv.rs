//! Elements of the tag-length-value encoding, and what writes them.
use vstd::prelude::*;

use crate::error::Error;

verus! {

/// What names an element.
#[derive(Clone, Copy, Debug, PartialEq, Eq, Structural)]
pub enum TLVTag {
    Anonymous,
    Context(u8),
    CommonPrf16(u16),
    CommonPrf32(u32),
    ImplPrf16(u16),
    ImplPrf32(u32),
    FullQual48 { vendor_id: u16, profile: u16, tag: u16 },
    FullQual64 { vendor_id: u16, profile: u16, tag: u32 },
}

/// What an element holds.
#[derive(Clone, Copy, Debug, PartialEq, Eq, Structural)]
pub enum TLVValue {
    U8(u8),
    U16(u16),
    Structure,
    EndContainer,
}

/// An element.
#[derive(Clone, Copy, Debug, PartialEq, Eq, Structural)]
pub struct TLV {
    pub tag: TLVTag,
    pub value: TLVValue,
}

impl TLV {
    /// The start of a structure.
    pub fn structure(tag: TLVTag) -> (tlv: Self)
        ensures
            tlv == (TLV { tag, value: TLVValue::Structure }),
    {
        TLV { tag, value: TLVValue::Structure }
    }

    /// A number of one byte.
    pub fn u8(tag: TLVTag, value: u8) -> (tlv: Self)
        ensures
            tlv == (TLV { tag, value: TLVValue::U8(value) }),
    {
        TLV { tag, value: TLVValue::U8(value) }
    }

    /// A number of two bytes.
    pub fn u16(tag: TLVTag, value: u16) -> (tlv: Self)
        ensures
            tlv == (TLV { tag, value: TLVValue::U16(value) }),
    {
        TLV { tag, value: TLVValue::U16(value) }
    }

    /// The end of a container, which has no name of its own.
    pub fn end_container() -> (tlv: Self)
        ensures
            tlv == (TLV { tag: TLVTag::Anonymous, value: TLVValue::EndContainer }),
    {
        TLV { tag: TLVTag::Anonymous, value: TLVValue::EndContainer }
    }
}

/// Something that elements are written to, one after the other. It may refuse an
/// element.
///
/// An implementation that is not verified leaves `refuses` and `written` open, and has
/// to keep the contracts all the same.
pub trait TLVWrite {
    /// Whether an element can be refused with this error, behind what is written.
    closed spec fn refuses(written: Seq<TLV>, element: TLV, error: Error) -> bool {
        arbitrary()
    }

    /// The elements written so far.
    closed spec fn written(&self) -> Seq<TLV> {
        arbitrary()
    }

    /// Starts a structure.
    fn start_struct(&mut self, tag: &TLVTag) -> (r: Result<(), Error>)
        ensures
            r is Ok ==> final(self).written() == old(self).written().push(
                (TLV { tag: *tag, value: TLVValue::Structure }),
            ),
            r matches Err(error) ==> Self::refuses(
                old(self).written(),
                (TLV { tag: *tag, value: TLVValue::Structure }),
                error,
            ),
    ;

    /// Writes a number of one byte.
    fn u8(&mut self, tag: &TLVTag, value: u8) -> (r: Result<(), Error>)
        ensures
            r is Ok ==> final(self).written() == old(self).written().push(
                (TLV { tag: *tag, value: TLVValue::U8(value) }),
            ),
            r matches Err(error) ==> Self::refuses(
                old(self).written(),
                (TLV { tag: *tag, value: TLVValue::U8(value) }),
                error,
            ),
    ;

    /// Writes a number of two bytes.
    fn u16(&mut self, tag: &TLVTag, value: u16) -> (r: Result<(), Error>)
        ensures
            r is Ok ==> final(self).written() == old(self).written().push(
                (TLV { tag: *tag, value: TLVValue::U16(value) }),
            ),
            r matches Err(error) ==> Self::refuses(
                old(self).written(),
                (TLV { tag: *tag, value: TLVValue::U16(value) }),
                error,
            ),
    ;

    /// Ends the container that was started last.
    fn end_container(&mut self) -> (r: Result<(), Error>)
        ensures
            r is Ok ==> final(self).written() == old(self).written().push(
                (TLV { tag: TLVTag::Anonymous, value: TLVValue::EndContainer }),
            ),
            r matches Err(error) ==> Self::refuses(
                old(self).written(),
                (TLV { tag: TLVTag::Anonymous, value: TLVValue::EndContainer }),
                error,
            ),
    ;
}

/// A list takes every element.
impl TLVWrite for Vec<TLV> {
    open spec fn refuses(written: Seq<TLV>, element: TLV, error: Error) -> bool {
        false
    }

    open spec fn written(&self) -> Seq<TLV> {
        self@
    }

    fn start_struct(&mut self, tag: &TLVTag) -> (r: Result<(), Error>) {
        self.push(TLV::structure(*tag));
        Ok(())
    }

    fn u8(&mut self, tag: &TLVTag, value: u8) -> (r: Result<(), Error>) {
        self.push(TLV::u8(*tag, value));
        Ok(())
    }

    fn u16(&mut self, tag: &TLVTag, value: u16) -> (r: Result<(), Error>) {
        self.push(TLV::u16(*tag, value));
        Ok(())
    }

    fn end_container(&mut self) -> (r: Result<(), Error>) {
        self.push(TLV::end_container());
        Ok(())
    }
}

} // verus!

//! The text and data segments of an executable.

use vstd::prelude::*;
use vstd::slice::slice_to_vec;
use crate::minix::error::MinixError;

verus! {

/// The bytes of one segment; `T` says which.
#[derive(Debug, PartialEq, Eq)]
pub struct Segment<T> {
    pub data: Vec<u8>,
    pub marker: std::marker::PhantomData<T>,
}

impl<T> Segment<T> {
    /// A segment with the given bytes.
    pub fn new(data: Vec<u8>) -> (segment: Self)
        ensures
            segment.data == data,
    {
        Segment { data, marker: std::marker::PhantomData }
    }
}

impl<T> std::ops::Deref for Segment<T> {
    type Target = Vec<u8>;

    /// The bytes of the segment.
    fn deref(&self) -> (bytes: &Vec<u8>)
        ensures
            bytes@ == self.data@,
    {
        &self.data
    }
}

/// Whether `binary` holds `size` bytes from `offset` bytes after the
/// header on.
pub open spec fn holds_segment(binary: Seq<u8>, offset: int, size: int) -> bool {
    32 + offset + size <= binary.len()
}

/// The `size` bytes of `binary` from `offset` bytes after the header on.
pub open spec fn segment_bytes(binary: Seq<u8>, offset: int, size: int) -> Seq<u8> {
    binary.subrange(32 + offset, 32 + offset + size)
}

/// Copies the `size` bytes from `offset` bytes after the header on;
/// `InvalidSize` where `binary` ends before them.
fn cut(binary: &[u8], offset: u32, size: u32) -> (res: Result<Vec<u8>, MinixError>)
    ensures
        match res {
            Ok(bytes) => holds_segment(binary@, offset as int, size as int) && bytes@
                == segment_bytes(binary@, offset as int, size as int),
            Err(e) => !holds_segment(binary@, offset as int, size as int) && e
                == MinixError::InvalidSize,
        },
{
    let end: u64 = 32 + offset as u64 + size as u64;
    let len = binary.len();
    if end > len as u64 {
        return Err(MinixError::InvalidSize);
    }
    let start: usize = (32 + offset as u64) as usize;
    Ok(slice_to_vec(&binary[start..end as usize]))
}

/// The text segment: the machine code.
#[derive(Debug, PartialEq, Eq)]
pub struct Text;

impl Text {
    /// Takes the text segment out of `binary`: the `size` bytes after the
    /// header; `InvalidSize` where `binary` ends before them.
    pub fn parse(binary: &[u8], size: u32) -> (res: Result<Segment<Text>, MinixError>)
        ensures
            match res {
                Ok(segment) => holds_segment(binary@, 0, size as int) && segment.data@
                    == segment_bytes(binary@, 0, size as int),
                Err(e) => !holds_segment(binary@, 0, size as int) && e == MinixError::InvalidSize,
            },
    {
        match cut(binary, 0, size) {
            Ok(bytes) => Ok(Segment::new(bytes)),
            Err(e) => Err(e),
        }
    }
}

/// The data segment: the initial contents of memory.
#[derive(Debug, PartialEq, Eq)]
pub struct Data;

impl Data {
    /// Takes the data segment out of `binary`: the `size` bytes from
    /// `offset` bytes after the header on, where `offset` is the size of
    /// the text segment; `InvalidSize` where `binary` ends before them.
    pub fn parse(binary: &[u8], offset: u32, size: u32) -> (res: Result<Segment<Data>, MinixError>)
        ensures
            match res {
                Ok(segment) => holds_segment(binary@, offset as int, size as int) && segment.data@
                    == segment_bytes(binary@, offset as int, size as int),
                Err(e) => !holds_segment(binary@, offset as int, size as int) && e
                    == MinixError::InvalidSize,
            },
    {
        match cut(binary, offset, size) {
            Ok(bytes) => Ok(Segment::new(bytes)),
            Err(e) => Err(e),
        }
    }
}

} // verus!

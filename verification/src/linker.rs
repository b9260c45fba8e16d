//! Objects: a compiled image or a library, and their encoding as bytes.

use crate::endian::{byte_at, le_bytes, le_value, le_value_of_le_bytes, read_le};
use crate::instructions::Width;
use vstd::prelude::*;

verus! {

/// What the assembler or a library build leaves behind.
#[derive(Debug, Clone)]
pub enum ArsenalObject {
    /// An image that the machine can run.
    ArsenalCompiledObject { data: Vec<u8> },
    /// A library; it holds no instructions.
    ArsenalLibraryObject {  },
}

/// An object as plain values.
pub enum ObjectView {
    Compiled(Seq<u8>),
    Library,
}

impl View for ArsenalObject {
    type V = ObjectView;

    open spec fn view(&self) -> ObjectView {
        match self {
            ArsenalObject::ArsenalCompiledObject { data } => ObjectView::Compiled(data@),
            ArsenalObject::ArsenalLibraryObject {  } => ObjectView::Library,
        }
    }
}

#[derive(Clone, Copy, Debug, PartialEq, Eq, Structural)]
pub enum LinkError {
    /// Instructions were asked of an object that is no compiled object.
    NotCompiledObject,
    /// The bytes are no encoding of an object.
    InvalidEncoding,
}

/// The instructions of a compiled object, to read or to change. A library
/// has none.
pub fn extract_instructions(obj: &mut ArsenalObject) -> (r: Result<&mut Vec<u8>, LinkError>)
    ensures
        old(obj)@ is Compiled <==> r is Ok,
        r matches Err(e) ==> e == LinkError::NotCompiledObject && *final(obj) == *old(obj),
        r matches Ok(data) ==> old(obj)@ == ObjectView::Compiled(data@) && final(obj)@
            == ObjectView::Compiled(final(data)@),
{
    match obj {
        ArsenalObject::ArsenalCompiledObject { data } => Ok(data),
        _ => Err(LinkError::NotCompiledObject),
    }
}

/// The encoding of an object: the variant's number in 4 bytes, and for a
/// compiled object the image's length in 8 bytes and the image; numbers are
/// little-endian.
pub open spec fn spec_encode(obj: ObjectView) -> Seq<u8> {
    match obj {
        ObjectView::Compiled(data) => le_bytes(0, 4) + le_bytes(data.len() as int, 8) + data,
        ObjectView::Library => le_bytes(1, 4),
    }
}

/// The object that `bytes` start with; what follows it is not looked at.
pub open spec fn spec_decode(bytes: Seq<u8>) -> Result<ObjectView, LinkError> {
    if bytes.len() < 4 {
        Err(LinkError::InvalidEncoding)
    } else if le_value(bytes.subrange(0, 4)) == 0 {
        if bytes.len() < 12 || le_value(bytes.subrange(4, 12)) > bytes.len() - 12 {
            Err(LinkError::InvalidEncoding)
        } else {
            Ok(ObjectView::Compiled(bytes.subrange(12, 12 + le_value(bytes.subrange(4, 12)))))
        }
    } else if le_value(bytes.subrange(0, 4)) == 1 {
        Ok(ObjectView::Library)
    } else {
        Err(LinkError::InvalidEncoding)
    }
}

/// An encoded object is decoded to itself, whatever bytes follow it.
pub proof fn decode_of_encode(obj: ArsenalObject, rest: Seq<u8>)
    ensures
        spec_decode(spec_encode(obj@) + rest) == Ok::<ObjectView, LinkError>(obj@),
{
    let bytes = spec_encode(obj@) + rest;
    match obj {
        ArsenalObject::ArsenalCompiledObject { data } => {
            assert(data@.len() == data.len());
            assert(bytes.subrange(0, 4) =~= le_bytes(0, 4));
            assert(bytes.subrange(4, 12) =~= le_bytes(data@.len() as int, 8));
            le_value_of_le_bytes(0, 4);
            le_value_of_le_bytes(data@.len() as int, 8);
            assert(bytes.subrange(12, 12 + data@.len() as int) =~= data@);
        },
        ArsenalObject::ArsenalLibraryObject {  } => {
            assert(bytes.subrange(0, 4) =~= le_bytes(1, 4));
            le_value_of_le_bytes(1, 4);
        },
    }
}

/// Appends the first `w.bytes()` bytes of the little-endian encoding of
/// `value`.
fn put(bytes: &mut Vec<u8>, value: u64, w: Width)
    ensures
        final(bytes)@ == old(bytes)@ + le_bytes(value as int, w.bytes()),
{
    let n = w.size();
    let mut i: usize = 0;
    while i < n
        invariant
            n == w.bytes(),
            i <= n,
            bytes@ =~= old(bytes)@ + le_bytes(value as int, i as int),
        decreases n - i,
    {
        bytes.push(byte_at(value, i as u8));
        i += 1;
    }
}

/// Encodes an object as bytes.
pub fn encode(data: &ArsenalObject) -> (bytes: Vec<u8>)
    ensures
        bytes@ == spec_encode(data@),
{
    let mut bytes: Vec<u8> = Vec::new();
    match data {
        ArsenalObject::ArsenalCompiledObject { data } => {
            put(&mut bytes, 0, Width::Int);
            put(&mut bytes, data.len() as u64, Width::Long);
            let ghost head = bytes@;
            let mut i: usize = 0;
            while i < data.len()
                invariant
                    i <= data.len(),
                    bytes@ =~= head + data@.take(i as int),
                decreases data.len() - i,
            {
                bytes.push(data[i]);
                i += 1;
            }
        },
        ArsenalObject::ArsenalLibraryObject {  } => {
            put(&mut bytes, 1, Width::Int);
        },
    }
    bytes
}

/// Decodes the object that `data` starts with.
pub fn decode(data: Vec<u8>) -> (r: Result<ArsenalObject, LinkError>)
    ensures
        r matches Ok(obj) ==> spec_decode(data@) == Ok::<ObjectView, LinkError>(obj@),
        r matches Err(e) ==> spec_decode(data@) == Err::<ObjectView, LinkError>(e),
{
    if data.len() < 4 {
        return Err(LinkError::InvalidEncoding);
    }
    let tag = read_le(&data, 0, Width::Int);
    if tag == 0 {
        if data.len() < 12 {
            return Err(LinkError::InvalidEncoding);
        }
        let length = read_le(&data, 4, Width::Long);
        if length > (data.len() - 12) as u64 {
            return Err(LinkError::InvalidEncoding);
        }
        let length = length as usize;
        let mut image: Vec<u8> = Vec::new();
        let mut i: usize = 0;
        while i < length
            invariant
                i <= length,
                12 + length <= data.len(),
                image@ =~= data@.subrange(12, 12 + i),
            decreases length - i,
        {
            image.push(data[12 + i]);
            i += 1;
        }
        Ok(ArsenalObject::ArsenalCompiledObject { data: image })
    } else if tag == 1 {
        Ok(ArsenalObject::ArsenalLibraryObject {  })
    } else {
        Err(LinkError::InvalidEncoding)
    }
}

} // verus!

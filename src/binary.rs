use vstd::prelude::*;
use crate::endian::Endianness;
use crate::instruction::SquirrelBinaryError;

verus! {

/// The first two bytes of a compiled script.
pub const MAGIC_FAFA: u16 = 0xfafa;
/// The four bytes after them.
pub const MAGIC_SQIR: u32 = 0x53514952;
/// The size of the header.
pub const NUT_HEADER_SIZE: usize = 0x12;
/// The four bytes that end a compiled script.
pub const MAGIC_TAIL: u32 = 0x5441494c;
/// The size of the tail.
pub const NUT_TAIL_SIZE: usize = 0x4;

/// The header of a compiled script: the sizes of a character, an integer and
/// a float in the engine that wrote it.
#[derive(Debug)]
pub struct NutHeader {
    pub sizeof_char: u32,
    pub sizeof_int: u32,
    pub sizeof_float: u32,
}

/// The tail mark of a compiled script.
#[derive(Debug)]
pub struct NutEnd;

/// One line-number record: a source line and the first instruction of it.
#[derive(Debug)]
pub struct LineInfo {
    pub line: i64,
    pub op: i64,
}

fn u16_at<E: Endianness>(b: &[u8], o: usize) -> (r: u16)
    requires
        o + 2 <= b@.len(),
    ensures
        r as nat == E::spec_value(b@.subrange(o as int, o + 2)),
{
    let arr: [u8; 2] = [b[o], b[o + 1]];
    assert(arr@ =~= b@.subrange(o as int, o + 2));
    E::get_u16(arr)
}

fn u32_at<E: Endianness>(b: &[u8], o: usize) -> (r: u32)
    requires
        o + 4 <= b@.len(),
    ensures
        r as nat == E::spec_value(b@.subrange(o as int, o + 4)),
{
    let arr: [u8; 4] = [b[o], b[o + 1], b[o + 2], b[o + 3]];
    assert(arr@ =~= b@.subrange(o as int, o + 4));
    E::get_u32(arr)
}

fn u64_at<E: Endianness>(b: &[u8], o: usize) -> (r: u64)
    requires
        o + 8 <= b@.len(),
    ensures
        r as nat == E::spec_value(b@.subrange(o as int, o + 8)),
{
    let arr: [u8; 8] = [b[o], b[o + 1], b[o + 2], b[o + 3], b[o + 4], b[o + 5], b[o + 6], b[o + 7]];
    assert(arr@ =~= b@.subrange(o as int, o + 8));
    E::get_u64(arr)
}

/// The number spelled by `n` bytes of `b` from offset `o`, in byte order `E`.
pub open spec fn field<E: Endianness>(b: Seq<u8>, o: int, n: int) -> nat {
    E::spec_value(b.subrange(o, o + n))
}

impl NutHeader {
    /// Reads the header at the start of `bytes`: the two magic numbers, then
    /// the three sizes. Too few bytes or a wrong magic number are refused.
    pub fn new<E: Endianness>(bytes: &[u8]) -> (r: Result<NutHeader, SquirrelBinaryError>)
        ensures
            bytes@.len() < 0x12 ==> r == Err::<NutHeader, SquirrelBinaryError>(SquirrelBinaryError::OutOfRange),
            bytes@.len() >= 0x12 ==> r == if field::<E>(bytes@, 0, 2) != MAGIC_FAFA {
                Err::<NutHeader, SquirrelBinaryError>(SquirrelBinaryError::InvalidFAFAHeader)
            } else if field::<E>(bytes@, 2, 4) != MAGIC_SQIR {
                Err(SquirrelBinaryError::InvalidSQIRError)
            } else {
                Ok(NutHeader {
                    sizeof_char: field::<E>(bytes@, 6, 4) as u32,
                    sizeof_int: field::<E>(bytes@, 0xa, 4) as u32,
                    sizeof_float: field::<E>(bytes@, 0xe, 4) as u32,
                })
            },
    {
        if bytes.len() < NUT_HEADER_SIZE {
            return Err(SquirrelBinaryError::OutOfRange);
        }
        if u16_at::<E>(bytes, 0) != MAGIC_FAFA {
            return Err(SquirrelBinaryError::InvalidFAFAHeader);
        }
        if u32_at::<E>(bytes, 2) != MAGIC_SQIR {
            return Err(SquirrelBinaryError::InvalidSQIRError);
        }
        Ok(NutHeader {
            sizeof_char: u32_at::<E>(bytes, 6),
            sizeof_int: u32_at::<E>(bytes, 0xa),
            sizeof_float: u32_at::<E>(bytes, 0xe),
        })
    }
}

impl NutEnd {
    /// Checks the tail mark at the start of `bytes`.
    pub fn new<E: Endianness>(bytes: &[u8]) -> (r: Result<NutEnd, SquirrelBinaryError>)
        ensures
            bytes@.len() < 4 ==> r is Err && r == Err::<NutEnd, SquirrelBinaryError>(SquirrelBinaryError::OutOfRange),
            bytes@.len() >= 4 ==> (r is Ok <==> field::<E>(bytes@, 0, 4) == MAGIC_TAIL),
            bytes@.len() >= 4 && r is Err ==> r == Err::<NutEnd, SquirrelBinaryError>(SquirrelBinaryError::InvalidTail),
    {
        if bytes.len() < NUT_TAIL_SIZE {
            return Err(SquirrelBinaryError::OutOfRange);
        }
        if u32_at::<E>(bytes, 0) == MAGIC_TAIL {
            Ok(NutEnd)
        } else {
            Err(SquirrelBinaryError::InvalidTail)
        }
    }
}

impl LineInfo {
    /// Reads a line-number record: two eight-byte integers, the line, then the
    /// instruction.
    pub fn new<E: Endianness>(bytes: &[u8]) -> (r: Result<LineInfo, SquirrelBinaryError>)
        ensures
            bytes@.len() < 16 ==> r == Err::<LineInfo, SquirrelBinaryError>(SquirrelBinaryError::OutOfRange),
            bytes@.len() >= 16 ==> r == Ok::<LineInfo, SquirrelBinaryError>(LineInfo {
                line: field::<E>(bytes@, 0, 8) as i64,
                op: field::<E>(bytes@, 8, 8) as i64,
            }),
    {
        if bytes.len() < 16 {
            return Err(SquirrelBinaryError::OutOfRange);
        }
        let line = u64_at::<E>(bytes, 0) as i64;
        let op = u64_at::<E>(bytes, 8) as i64;
        Ok(LineInfo { line, op })
    }
}

} // verus!

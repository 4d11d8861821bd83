use vstd::prelude::*;

verus! {

/// `256` to the power `k`.
pub open spec fn pow256(k: nat) -> nat
    decreases k,
{
    if k == 0 {
        1
    } else {
        256 * pow256((k - 1) as nat)
    }
}

/// The unsigned number that bytes `b` spell, least significant first.
pub open spec fn le_value(b: Seq<u8>) -> nat
    decreases b.len(),
{
    if b.len() == 0 {
        0
    } else {
        b[0] as nat + 256 * le_value(b.drop_first())
    }
}

/// The unsigned number that bytes `b` spell, most significant first.
pub open spec fn be_value(b: Seq<u8>) -> nat
    decreases b.len(),
{
    if b.len() == 0 {
        0
    } else {
        be_value(b.drop_last()) * 256 + b.last() as nat
    }
}

proof fn lemma_pow256_mono(a: nat, b: nat)
    requires
        a <= b,
    ensures
        pow256(a) <= pow256(b),
    decreases b,
{
    if a < b {
        lemma_pow256_mono(a, (b - 1) as nat);
    }
}

proof fn lemma_pow256_8()
    ensures
        pow256(8) == 0x1_0000_0000_0000_0000,
{
    reveal_with_fuel(pow256, 9);
}

proof fn lemma_le_bound(b: Seq<u8>)
    ensures
        le_value(b) < pow256(b.len()),
    decreases b.len(),
{
    if b.len() > 0 {
        lemma_le_bound(b.drop_first());
        assert(le_value(b.drop_first()) + 1 <= pow256((b.len() - 1) as nat));
        assert(b[0] as nat + 256 * le_value(b.drop_first()) < 256 * pow256((b.len() - 1) as nat)) by (nonlinear_arith)
            requires
                b[0] < 256,
                le_value(b.drop_first()) + 1 <= pow256((b.len() - 1) as nat),
        ;
    }
}

proof fn lemma_be_bound(b: Seq<u8>)
    ensures
        be_value(b) < pow256(b.len()),
    decreases b.len(),
{
    if b.len() > 0 {
        lemma_be_bound(b.drop_last());
        assert(be_value(b.drop_last()) * 256 + (b.last() as nat) < 256 * pow256((b.len() - 1) as nat)) by (nonlinear_arith)
            requires
                b.last() < 256,
                be_value(b.drop_last()) + 1 <= pow256((b.len() - 1) as nat),
        ;
    }
}

/// Four bytes spell a number below `2^32`.
pub proof fn lemma_le_bound_four(b: Seq<u8>)
    requires
        b.len() == 4,
    ensures
        le_value(b) < 0x1_0000_0000,
{
    lemma_le_bound(b);
    reveal_with_fuel(pow256, 5);
}

/// The number that up to eight bytes spell, least significant first.
pub fn read_le(b: &[u8]) -> (r: u64)
    requires
        b@.len() <= 8,
    ensures
        r as nat == le_value(b@),
{
    let n = b.len();
    let mut acc: u64 = 0;
    let mut i: usize = n;
    proof {
        lemma_pow256_mono(n as nat, 8);
        lemma_pow256_8();
    }
    while i > 0
        invariant
            n == b@.len(),
            n <= 8,
            i <= n,
            acc as nat == le_value(b@.subrange(i as int, n as int)),
            pow256(n as nat) <= 0x1_0000_0000_0000_0000,
        decreases i,
    {
        let ghost rest = b@.subrange(i as int, n as int);
        let ghost next = b@.subrange(i - 1, n as int);
        proof {
            assert(next.drop_first() =~= rest);
            lemma_le_bound(next);
            lemma_pow256_mono(next.len(), n as nat);
        }
        acc = acc * 256 + b[i - 1] as u64;
        i -= 1;
    }
    assert(b@.subrange(0, n as int) =~= b@);
    acc
}

/// The number that up to eight bytes spell, most significant first.
pub fn read_be(b: &[u8]) -> (r: u64)
    requires
        b@.len() <= 8,
    ensures
        r as nat == be_value(b@),
{
    let n = b.len();
    let mut acc: u64 = 0;
    let mut i: usize = 0;
    proof {
        lemma_pow256_mono(n as nat, 8);
        lemma_pow256_8();
    }
    while i < n
        invariant
            n == b@.len(),
            n <= 8,
            i <= n,
            acc as nat == be_value(b@.subrange(0, i as int)),
            pow256(n as nat) <= 0x1_0000_0000_0000_0000,
        decreases n - i,
    {
        let ghost next = b@.subrange(0, i + 1);
        proof {
            assert(next.drop_last() =~= b@.subrange(0, i as int));
            lemma_be_bound(next);
            lemma_pow256_mono(next.len(), n as nat);
        }
        acc = acc * 256 + b[i] as u64;
        i += 1;
    }
    assert(b@.subrange(0, n as int) =~= b@);
    acc
}

/// Reads multi-byte integers in one byte order.
pub trait Endianness {
    /// The number that bytes `b` spell in this byte order.
    spec fn spec_value(b: Seq<u8>) -> nat;

    fn get_u16(arr: [u8; 2]) -> (r: u16)
        ensures
            r as nat == Self::spec_value(arr@),
    ;

    fn get_u32(arr: [u8; 4]) -> (r: u32)
        ensures
            r as nat == Self::spec_value(arr@),
    ;

    fn get_u64(arr: [u8; 8]) -> (r: u64)
        ensures
            r as nat == Self::spec_value(arr@),
    ;
}

/// Most significant byte first.
pub struct BigEndian;

/// Least significant byte first.
pub struct LittleEndian;

/// The byte order of the machine the library runs on.
pub struct NativeEndian;

impl Endianness for LittleEndian {
    open spec fn spec_value(b: Seq<u8>) -> nat {
        le_value(b)
    }

    fn get_u16(arr: [u8; 2]) -> (r: u16) {
        proof {
            lemma_le_bound(arr@);
            reveal_with_fuel(pow256, 3);
        }
        read_le(arr.as_slice()) as u16
    }

    fn get_u32(arr: [u8; 4]) -> (r: u32) {
        proof {
            lemma_le_bound(arr@);
            reveal_with_fuel(pow256, 5);
        }
        read_le(arr.as_slice()) as u32
    }

    fn get_u64(arr: [u8; 8]) -> (r: u64) {
        read_le(arr.as_slice())
    }
}

impl Endianness for BigEndian {
    open spec fn spec_value(b: Seq<u8>) -> nat {
        be_value(b)
    }

    fn get_u16(arr: [u8; 2]) -> (r: u16) {
        proof {
            lemma_be_bound(arr@);
            reveal_with_fuel(pow256, 3);
        }
        read_be(arr.as_slice()) as u16
    }

    fn get_u32(arr: [u8; 4]) -> (r: u32) {
        proof {
            lemma_be_bound(arr@);
            reveal_with_fuel(pow256, 5);
        }
        read_be(arr.as_slice()) as u32
    }

    fn get_u64(arr: [u8; 8]) -> (r: u64) {
        read_be(arr.as_slice())
    }
}

} // verus!

verus! {

/// Relies on `u16::from_ne_bytes`: the bytes read in the machine's own order,
/// which is little or big endian.
#[verifier::external_body]
fn native_u16(arr: [u8; 2]) -> (r: u16)
    ensures
        r as nat == le_value(arr@) || r as nat == be_value(arr@),
{
    u16::from_ne_bytes(arr)
}

/// Relies on `u32::from_ne_bytes`: the bytes read in the machine's own order,
/// which is little or big endian.
#[verifier::external_body]
fn native_u32(arr: [u8; 4]) -> (r: u32)
    ensures
        r as nat == le_value(arr@) || r as nat == be_value(arr@),
{
    u32::from_ne_bytes(arr)
}

/// Relies on `u64::from_ne_bytes`: the bytes read in the machine's own order,
/// which is little or big endian.
#[verifier::external_body]
fn native_u64(arr: [u8; 8]) -> (r: u64)
    ensures
        r as nat == le_value(arr@) || r as nat == be_value(arr@),
{
    u64::from_ne_bytes(arr)
}

impl NativeEndian {
    pub fn get_u16(arr: [u8; 2]) -> (r: u16)
        ensures
            r as nat == le_value(arr@) || r as nat == be_value(arr@),
    {
        native_u16(arr)
    }

    pub fn get_u32(arr: [u8; 4]) -> (r: u32)
        ensures
            r as nat == le_value(arr@) || r as nat == be_value(arr@),
    {
        native_u32(arr)
    }

    pub fn get_u64(arr: [u8; 8]) -> (r: u64)
        ensures
            r as nat == le_value(arr@) || r as nat == be_value(arr@),
    {
        native_u64(arr)
    }
}

} // verus!

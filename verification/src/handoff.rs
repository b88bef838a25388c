use vstd::prelude::*;
use crate::error::LoaderError;

verus! {

/// Bytes occupied by one handoff block.
pub const HANDOFF_SIZE: usize = 160;

/// The record handed to the kernel. Every address in it is physical.
#[derive(Debug, Clone, Copy, PartialEq, Eq)]
pub struct AxiomHandoff {
    /// Magic value to verify handoff integrity
    pub magic: u64,
    /// Version of the handoff structure
    pub version: u32,
    /// Physical address of the framebuffer
    pub framebuffer_base: u64,
    /// Framebuffer width in pixels
    pub framebuffer_width: u32,
    /// Framebuffer height in pixels
    pub framebuffer_height: u32,
    /// Framebuffer stride in bytes
    pub framebuffer_stride: u32,
    /// Framebuffer pixel format
    pub framebuffer_format: u32,
    /// Physical address of the memory map buffer
    pub memory_map: u64,
    /// Size of the memory map in bytes
    pub memory_map_size: u64,
    /// Size of one memory descriptor in bytes
    pub memory_map_desc_size: u64,
    /// Memory descriptor version
    pub memory_map_desc_version: u32,
    /// Memory map key
    pub memory_map_key: u64,
    /// Number of memory descriptors
    pub memory_descriptor_count: u64,
    /// Physical address of the ACPI RSDP, zero when none was found
    pub acpi_rsdp: u64,
    /// Reserved for future use
    pub reserved: [u64; 8],
}

/// Little-endian bytes of a 32-bit value.
#[verifier::opaque]
pub open spec fn le_bytes_u32(x: u32) -> Seq<u8> {
    seq![
        (x % 0x100) as u8,
        (x / 0x100 % 0x100) as u8,
        (x / 0x1_0000 % 0x100) as u8,
        (x / 0x100_0000 % 0x100) as u8,
    ]
}

/// Little-endian bytes of a 64-bit value.
#[verifier::opaque]
pub open spec fn le_bytes_u64(x: u64) -> Seq<u8> {
    seq![
        (x % 0x100) as u8,
        (x / 0x100 % 0x100) as u8,
        (x / 0x1_0000 % 0x100) as u8,
        (x / 0x100_0000 % 0x100) as u8,
        (x / 0x1_0000_0000 % 0x100) as u8,
        (x / 0x100_0000_0000 % 0x100) as u8,
        (x / 0x1_0000_0000_0000 % 0x100) as u8,
        (x / 0x100_0000_0000_0000 % 0x100) as u8,
    ]
}

/// The value whose little-endian bytes are the first eight of `s`.
pub open spec fn u64_of_le(s: Seq<u8>) -> int
    recommends
        s.len() >= 8,
{
    s[0] as int + s[1] as int * 0x100 + s[2] as int * 0x1_0000 + s[3] as int * 0x100_0000
        + s[4] as int * 0x1_0000_0000 + s[5] as int * 0x100_0000_0000 + s[6] as int
        * 0x1_0000_0000_0000 + s[7] as int * 0x100_0000_0000_0000
}

/// Four bytes of alignment padding.
#[verifier::opaque]
pub open spec fn padding() -> Seq<u8> {
    seq![0u8, 0u8, 0u8, 0u8]
}

/// A 32-bit value and the padding take four bytes each.
pub proof fn lemma_len_u32(x: u32)
    ensures
        le_bytes_u32(x).len() == 4,
        padding().len() == 4,
{
    reveal(le_bytes_u32);
    reveal(padding);
}

/// A 64-bit value takes eight bytes.
pub proof fn lemma_len_u64(x: u64)
    ensures
        le_bytes_u64(x).len() == 8,
{
    reveal(le_bytes_u64);
}

/// Appends the little-endian bytes of `x`.
pub fn push_u32_le(out: &mut Vec<u8>, x: u32)
    ensures
        final(out)@ == old(out)@ + le_bytes_u32(x),
{
    proof {
        reveal(le_bytes_u32);
    }
    out.push((x % 0x100) as u8);
    out.push((x / 0x100 % 0x100) as u8);
    out.push((x / 0x1_0000 % 0x100) as u8);
    out.push((x / 0x100_0000 % 0x100) as u8);
    assert(out@ =~= old(out)@ + le_bytes_u32(x));
}

/// Appends the little-endian bytes of `x`.
pub fn push_u64_le(out: &mut Vec<u8>, x: u64)
    ensures
        final(out)@ == old(out)@ + le_bytes_u64(x),
{
    proof {
        reveal(le_bytes_u64);
    }
    out.push((x % 0x100) as u8);
    out.push((x / 0x100 % 0x100) as u8);
    out.push((x / 0x1_0000 % 0x100) as u8);
    out.push((x / 0x100_0000 % 0x100) as u8);
    out.push((x / 0x1_0000_0000 % 0x100) as u8);
    out.push((x / 0x100_0000_0000 % 0x100) as u8);
    out.push((x / 0x1_0000_0000_0000 % 0x100) as u8);
    out.push((x / 0x100_0000_0000_0000 % 0x100) as u8);
    assert(out@ =~= old(out)@ + le_bytes_u64(x));
}

/// Appends four zero bytes.
pub fn push_padding(out: &mut Vec<u8>)
    ensures
        final(out)@ == old(out)@ + padding(),
{
    proof {
        reveal(padding);
    }
    out.push(0u8);
    out.push(0u8);
    out.push(0u8);
    out.push(0u8);
    assert(out@ =~= old(out)@ + padding());
}

impl AxiomHandoff {
    /// Magic value for handoff verification, "AXIOMOS" in ASCII
    pub const MAGIC: u64 = 0x4158494F4D4F53;

    /// Current version of the handoff structure
    pub const VERSION: u32 = 1;

    /// The block before any collector has run: magic and version set, every
    /// other field zero.
    pub open spec fn is_fresh(&self) -> bool {
        &&& self.magic == 0x4158494F4D4F53
        &&& self.version == 1
        &&& self.framebuffer_base == 0
        &&& self.framebuffer_width == 0
        &&& self.framebuffer_height == 0
        &&& self.framebuffer_stride == 0
        &&& self.framebuffer_format == 0
        &&& self.memory_map == 0
        &&& self.memory_map_size == 0
        &&& self.memory_map_desc_size == 0
        &&& self.memory_map_desc_version == 0
        &&& self.memory_map_key == 0
        &&& self.memory_descriptor_count == 0
        &&& self.acpi_rsdp == 0
        &&& forall|i: int| 0 <= i < 8 ==> self.reserved@[i] == 0
    }

    /// Whether the block carries the magic value and version of this layout.
    pub open spec fn is_stamped(&self) -> bool {
        self.magic == 0x4158494F4D4F53 && self.version == 1
    }

    /// `prefix` followed by the block as the kernel reads it: fields in
    /// declared order, little-endian, each 64-bit field on an 8-byte boundary.
    pub open spec fn appended_to(&self, prefix: Seq<u8>) -> Seq<u8> {
        prefix + le_bytes_u64(self.magic) + le_bytes_u32(self.version) + padding() + le_bytes_u64(
            self.framebuffer_base,
        ) + le_bytes_u32(self.framebuffer_width) + le_bytes_u32(self.framebuffer_height)
            + le_bytes_u32(self.framebuffer_stride) + le_bytes_u32(self.framebuffer_format)
            + le_bytes_u64(self.memory_map) + le_bytes_u64(self.memory_map_size) + le_bytes_u64(
            self.memory_map_desc_size,
        ) + le_bytes_u32(self.memory_map_desc_version) + padding() + le_bytes_u64(
            self.memory_map_key,
        ) + le_bytes_u64(self.memory_descriptor_count) + le_bytes_u64(self.acpi_rsdp)
            + le_bytes_u64(self.reserved@[0]) + le_bytes_u64(self.reserved@[1]) + le_bytes_u64(
            self.reserved@[2],
        ) + le_bytes_u64(self.reserved@[3]) + le_bytes_u64(self.reserved@[4]) + le_bytes_u64(
            self.reserved@[5],
        ) + le_bytes_u64(self.reserved@[6]) + le_bytes_u64(self.reserved@[7])
    }

    /// The block as the kernel reads it.
    pub open spec fn spec_bytes(&self) -> Seq<u8> {
        self.appended_to(Seq::empty())
    }

    /// Encoding a block adds `HANDOFF_SIZE` bytes, whatever its fields hold,
    /// and the first eight of them are the magic value's.
    pub proof fn lemma_layout(&self, prefix: Seq<u8>)
        ensures
            self.appended_to(prefix).len() == prefix.len() + 160,
            forall|i: int|
                0 <= i < 8 ==> self.appended_to(prefix)[prefix.len() + i] == le_bytes_u64(
                    self.magic,
                )[i],
            forall|i: int| 0 <= i < prefix.len() ==> self.appended_to(prefix)[i] == prefix[i],
    {
        lemma_len_u64(self.magic);
        lemma_len_u32(self.version);
        lemma_len_u64(self.framebuffer_base);
        lemma_len_u32(self.framebuffer_width);
        lemma_len_u32(self.framebuffer_height);
        lemma_len_u32(self.framebuffer_stride);
        lemma_len_u32(self.framebuffer_format);
        lemma_len_u64(self.memory_map);
        lemma_len_u64(self.memory_map_size);
        lemma_len_u64(self.memory_map_desc_size);
        lemma_len_u32(self.memory_map_desc_version);
        lemma_len_u64(self.memory_map_key);
        lemma_len_u64(self.memory_descriptor_count);
        lemma_len_u64(self.acpi_rsdp);
        lemma_len_u64(self.reserved@[0]);
        lemma_len_u64(self.reserved@[1]);
        lemma_len_u64(self.reserved@[2]);
        lemma_len_u64(self.reserved@[3]);
        lemma_len_u64(self.reserved@[4]);
        lemma_len_u64(self.reserved@[5]);
        lemma_len_u64(self.reserved@[6]);
        lemma_len_u64(self.reserved@[7]);
    }

    /// Where each field stands in the block's bytes: the magic value at 0,
    /// the version at 8, the framebuffer's base at 16 and its width, height,
    /// stride and format from 24 on, the memory map's six fields from 40 on,
    /// the ACPI root pointer at 88 and the reserved words from 96 on.
    pub proof fn lemma_offsets(&self)
        ensures
            self.spec_bytes().len() == 160,
            self.spec_bytes().subrange(0, 8) == le_bytes_u64(self.magic),
            self.spec_bytes().subrange(8, 12) == le_bytes_u32(self.version),
            self.spec_bytes().subrange(12, 16) == padding(),
            self.spec_bytes().subrange(16, 24) == le_bytes_u64(self.framebuffer_base),
            self.spec_bytes().subrange(24, 28) == le_bytes_u32(self.framebuffer_width),
            self.spec_bytes().subrange(28, 32) == le_bytes_u32(self.framebuffer_height),
            self.spec_bytes().subrange(32, 36) == le_bytes_u32(self.framebuffer_stride),
            self.spec_bytes().subrange(36, 40) == le_bytes_u32(self.framebuffer_format),
            self.spec_bytes().subrange(40, 48) == le_bytes_u64(self.memory_map),
            self.spec_bytes().subrange(48, 56) == le_bytes_u64(self.memory_map_size),
            self.spec_bytes().subrange(56, 64) == le_bytes_u64(self.memory_map_desc_size),
            self.spec_bytes().subrange(64, 68) == le_bytes_u32(self.memory_map_desc_version),
            self.spec_bytes().subrange(68, 72) == padding(),
            self.spec_bytes().subrange(72, 80) == le_bytes_u64(self.memory_map_key),
            self.spec_bytes().subrange(80, 88) == le_bytes_u64(self.memory_descriptor_count),
            self.spec_bytes().subrange(88, 96) == le_bytes_u64(self.acpi_rsdp),
            forall|k: int|
                0 <= k < 8 ==> #[trigger] self.spec_bytes().subrange(96 + 8 * k, 104 + 8 * k)
                    == le_bytes_u64(self.reserved@[k]),
    {
        lemma_len_u64(self.magic);
        lemma_len_u32(self.version);
        lemma_len_u64(self.framebuffer_base);
        lemma_len_u32(self.framebuffer_width);
        lemma_len_u32(self.framebuffer_height);
        lemma_len_u32(self.framebuffer_stride);
        lemma_len_u32(self.framebuffer_format);
        lemma_len_u64(self.memory_map);
        lemma_len_u64(self.memory_map_size);
        lemma_len_u64(self.memory_map_desc_size);
        lemma_len_u32(self.memory_map_desc_version);
        lemma_len_u64(self.memory_map_key);
        lemma_len_u64(self.memory_descriptor_count);
        lemma_len_u64(self.acpi_rsdp);
        lemma_len_u64(self.reserved@[0]);
        lemma_len_u64(self.reserved@[1]);
        lemma_len_u64(self.reserved@[2]);
        lemma_len_u64(self.reserved@[3]);
        lemma_len_u64(self.reserved@[4]);
        lemma_len_u64(self.reserved@[5]);
        lemma_len_u64(self.reserved@[6]);
        lemma_len_u64(self.reserved@[7]);
        let s = self.spec_bytes();
        assert(s.subrange(0, 8) =~= le_bytes_u64(self.magic));
        assert(s.subrange(8, 12) =~= le_bytes_u32(self.version));
        assert(s.subrange(12, 16) =~= padding());
        assert(s.subrange(16, 24) =~= le_bytes_u64(self.framebuffer_base));
        assert(s.subrange(24, 28) =~= le_bytes_u32(self.framebuffer_width));
        assert(s.subrange(28, 32) =~= le_bytes_u32(self.framebuffer_height));
        assert(s.subrange(32, 36) =~= le_bytes_u32(self.framebuffer_stride));
        assert(s.subrange(36, 40) =~= le_bytes_u32(self.framebuffer_format));
        assert(s.subrange(40, 48) =~= le_bytes_u64(self.memory_map));
        assert(s.subrange(48, 56) =~= le_bytes_u64(self.memory_map_size));
        assert(s.subrange(56, 64) =~= le_bytes_u64(self.memory_map_desc_size));
        assert(s.subrange(64, 68) =~= le_bytes_u32(self.memory_map_desc_version));
        assert(s.subrange(68, 72) =~= padding());
        assert(s.subrange(72, 80) =~= le_bytes_u64(self.memory_map_key));
        assert(s.subrange(80, 88) =~= le_bytes_u64(self.memory_descriptor_count));
        assert(s.subrange(88, 96) =~= le_bytes_u64(self.acpi_rsdp));
        assert(s.subrange(96, 104) =~= le_bytes_u64(self.reserved@[0]));
        assert(s.subrange(104, 112) =~= le_bytes_u64(self.reserved@[1]));
        assert(s.subrange(112, 120) =~= le_bytes_u64(self.reserved@[2]));
        assert(s.subrange(120, 128) =~= le_bytes_u64(self.reserved@[3]));
        assert(s.subrange(128, 136) =~= le_bytes_u64(self.reserved@[4]));
        assert(s.subrange(136, 144) =~= le_bytes_u64(self.reserved@[5]));
        assert(s.subrange(144, 152) =~= le_bytes_u64(self.reserved@[6]));
        assert(s.subrange(152, 160) =~= le_bytes_u64(self.reserved@[7]));
    }

    /// Appending a block to `prefix` is appending its bytes.
    pub proof fn lemma_appended(&self, prefix: Seq<u8>)
        ensures
            self.appended_to(prefix) == prefix + self.spec_bytes(),
    {
        self.lemma_layout(prefix);
        self.lemma_layout(Seq::empty());
        lemma_len_u64(self.magic);
        lemma_len_u32(self.version);
        lemma_len_u64(self.framebuffer_base);
        lemma_len_u32(self.framebuffer_width);
        lemma_len_u32(self.framebuffer_height);
        lemma_len_u32(self.framebuffer_stride);
        lemma_len_u32(self.framebuffer_format);
        lemma_len_u64(self.memory_map);
        lemma_len_u64(self.memory_map_size);
        lemma_len_u64(self.memory_map_desc_size);
        lemma_len_u32(self.memory_map_desc_version);
        lemma_len_u64(self.memory_map_key);
        lemma_len_u64(self.memory_descriptor_count);
        lemma_len_u64(self.acpi_rsdp);
        lemma_len_u64(self.reserved@[0]);
        lemma_len_u64(self.reserved@[1]);
        lemma_len_u64(self.reserved@[2]);
        lemma_len_u64(self.reserved@[3]);
        lemma_len_u64(self.reserved@[4]);
        lemma_len_u64(self.reserved@[5]);
        lemma_len_u64(self.reserved@[6]);
        lemma_len_u64(self.reserved@[7]);
        assert(self.appended_to(prefix) =~= prefix + self.spec_bytes());
    }

    /// Create a new AxiomHandoff with default values
    pub fn new() -> (block: Self)
        ensures
            block.is_fresh(),
            block.is_stamped(),
    {
        Self {
            magic: Self::MAGIC,
            version: Self::VERSION,
            framebuffer_base: 0,
            framebuffer_width: 0,
            framebuffer_height: 0,
            framebuffer_stride: 0,
            framebuffer_format: 0,
            memory_map: 0,
            memory_map_size: 0,
            memory_map_desc_size: 0,
            memory_map_desc_version: 0,
            memory_map_key: 0,
            memory_descriptor_count: 0,
            acpi_rsdp: 0,
            reserved: [0u64; 8],
        }
    }

    /// The size of the handoff structure in bytes, the same for every block.
    pub fn size() -> (n: usize)
        ensures
            n == 160,
            forall|block: AxiomHandoff| #[trigger] block.spec_bytes().len() == n,
    {
        proof {
            assert forall|block: AxiomHandoff| #[trigger] block.spec_bytes().len() == 160 by {
                block.lemma_layout(Seq::empty());
            }
        }
        HANDOFF_SIZE
    }

    /// Appends the block's bytes to `out`. Nothing is allocated where `out`
    /// has room for `size()` more bytes.
    pub fn encode_into(&self, out: &mut Vec<u8>)
        ensures
            final(out)@ == old(out)@ + self.spec_bytes(),
            final(out)@.len() == old(out)@.len() + 160,
    {
        proof {
            self.lemma_layout(old(out)@);
            self.lemma_appended(old(out)@);
        }
        push_u64_le(out, self.magic);
        push_u32_le(out, self.version);
        push_padding(out);
        push_u64_le(out, self.framebuffer_base);
        push_u32_le(out, self.framebuffer_width);
        push_u32_le(out, self.framebuffer_height);
        push_u32_le(out, self.framebuffer_stride);
        push_u32_le(out, self.framebuffer_format);
        push_u64_le(out, self.memory_map);
        push_u64_le(out, self.memory_map_size);
        push_u64_le(out, self.memory_map_desc_size);
        push_u32_le(out, self.memory_map_desc_version);
        push_padding(out);
        push_u64_le(out, self.memory_map_key);
        push_u64_le(out, self.memory_descriptor_count);
        push_u64_le(out, self.acpi_rsdp);
        push_u64_le(out, self.reserved[0]);
        push_u64_le(out, self.reserved[1]);
        push_u64_le(out, self.reserved[2]);
        push_u64_le(out, self.reserved[3]);
        push_u64_le(out, self.reserved[4]);
        push_u64_le(out, self.reserved[5]);
        push_u64_le(out, self.reserved[6]);
        push_u64_le(out, self.reserved[7]);
    }

    /// The block's bytes: `size()` of them.
    pub fn to_bytes(&self) -> (out: Vec<u8>)
        ensures
            out@ == self.spec_bytes(),
            out@.len() == 160,
    {
        let mut out: Vec<u8> = Vec::with_capacity(HANDOFF_SIZE);
        self.encode_into(&mut out);
        out
    }
}

/// The magic value that a copied block starts with, if `bytes` is long
/// enough to hold a block.
pub open spec fn spec_copy_magic(bytes: Seq<u8>) -> Option<int> {
    if bytes.len() >= 160 {
        Some(u64_of_le(bytes))
    } else {
        None
    }
}

/// Checks a copy of a block: it is accepted exactly when it holds a whole
/// block that starts with the magic value.
pub fn verify_copy(bytes: &[u8]) -> (r: Result<(), LoaderError>)
    ensures
        r is Ok <==> spec_copy_magic(bytes@) == Some(0x4158494F4D4F53int),
        r is Err ==> r == Err::<(), LoaderError>(LoaderError::MagicMismatch),
{
    if bytes.len() < HANDOFF_SIZE {
        return Err(LoaderError::MagicMismatch);
    }
    let magic: u64 = bytes[0] as u64 + bytes[1] as u64 * 0x100 + bytes[2] as u64 * 0x1_0000
        + bytes[3] as u64 * 0x100_0000 + bytes[4] as u64 * 0x1_0000_0000 + bytes[5] as u64
        * 0x100_0000_0000 + bytes[6] as u64 * 0x1_0000_0000_0000 + bytes[7] as u64
        * 0x100_0000_0000_0000;
    if magic == AxiomHandoff::MAGIC {
        Ok(())
    } else {
        Err(LoaderError::MagicMismatch)
    }
}

/// A value is recovered from its little-endian bytes.
pub proof fn lemma_u64_le_round_trip(x: u64)
    ensures
        u64_of_le(le_bytes_u64(x)) == x,
{
    let v: int = x as int;
    let q1: int = v / 0x100;
    let q2: int = q1 / 0x100;
    let q3: int = q2 / 0x100;
    let q4: int = q3 / 0x100;
    let q5: int = q4 / 0x100;
    let q6: int = q5 / 0x100;
    let q7: int = q6 / 0x100;
    assert(q2 == v / 0x1_0000);
    assert(q3 == v / 0x100_0000);
    assert(q4 == v / 0x1_0000_0000);
    assert(q5 == v / 0x100_0000_0000);
    assert(q6 == v / 0x1_0000_0000_0000);
    assert(q7 == v / 0x100_0000_0000_0000);
    assert(q7 < 0x100);
    assert(v == v % 0x100 + q1 * 0x100);
    assert(q1 == q1 % 0x100 + q2 * 0x100);
    assert(q2 == q2 % 0x100 + q3 * 0x100);
    assert(q3 == q3 % 0x100 + q4 * 0x100);
    assert(q4 == q4 % 0x100 + q5 * 0x100);
    assert(q5 == q5 % 0x100 + q6 * 0x100);
    assert(q6 == q6 % 0x100 + q7 * 0x100);
    reveal(le_bytes_u64);
    let s = le_bytes_u64(x);
    assert(s[0] as int == v % 0x100);
    assert(s[1] as int == q1 % 0x100);
    assert(s[2] as int == q2 % 0x100);
    assert(s[3] as int == q3 % 0x100);
    assert(s[4] as int == q4 % 0x100);
    assert(s[5] as int == q5 % 0x100);
    assert(s[6] as int == q6 % 0x100);
    assert(s[7] as int == q7);
}

/// A faithful copy of a block passes the check exactly when the block
/// carries the magic value.
pub proof fn lemma_copy_keeps_magic(block: AxiomHandoff)
    ensures
        spec_copy_magic(block.spec_bytes()) == Some(block.magic as int),
{
    lemma_u64_le_round_trip(block.magic);
    block.lemma_layout(Seq::empty());
}

} // verus!

//! PCI function addresses, and the arithmetic of PCI configuration accesses narrower than a register.
use vstd::prelude::*;

verus! {

/// The location of a PCI function: segment, bus, device and function number.
#[derive(Clone, Copy, Debug, PartialEq, Eq, Structural)]
pub struct PCIAddress {
    segment: u16,
    bus: u8,
    device: u8,
    function: u8,
}

impl PCIAddress {
    pub fn new(segment: u16, bus: u8, device: u8, function: u8) -> (r: PCIAddress)
        ensures
            r.spec_segment() == segment,
            r.spec_bus() == bus,
            r.spec_device() == device,
            r.spec_function() == function,
    {
        PCIAddress { segment, bus, device, function }
    }

    pub closed spec fn spec_segment(&self) -> u16 {
        self.segment
    }

    pub closed spec fn spec_bus(&self) -> u8 {
        self.bus
    }

    pub closed spec fn spec_device(&self) -> u8 {
        self.device
    }

    pub closed spec fn spec_function(&self) -> u8 {
        self.function
    }

    pub fn segment(&self) -> (r: u16)
        ensures
            r == self.spec_segment(),
    {
        self.segment
    }

    pub fn bus(&self) -> (r: u8)
        ensures
            r == self.spec_bus(),
    {
        self.bus
    }

    pub fn device(&self) -> (r: u8)
        ensures
            r == self.spec_device(),
    {
        self.device
    }

    pub fn function(&self) -> (r: u8)
        ensures
            r == self.spec_function(),
    {
        self.function
    }
}

/// The lowercase hexadecimal digit of a value below 16.
pub open spec fn hex_char(d: nat) -> char {
    if d < 10 {
        (('0' as nat) + d) as char
    } else {
        (('a' as nat) + d - 10) as char
    }
}

/// A number in lowercase hexadecimal, without leading zeros.
pub open spec fn hex_text(v: nat) -> Seq<char>
    decreases v,
{
    if v < 16 {
        seq![hex_char(v)]
    } else {
        hex_text(v / 16).push(hex_char(v % 16))
    }
}

/// The text of a PCI address: its four parts in hexadecimal, separated by colons.
pub open spec fn pci_address_text(a: PCIAddress) -> Seq<char> {
    hex_text(a.spec_segment() as nat) + seq![':'] + hex_text(a.spec_bus() as nat) + seq![':']
        + hex_text(a.spec_device() as nat) + seq![':'] + hex_text(a.spec_function() as nat)
}

fn push_hex(out: &mut Vec<char>, v: u16)
    ensures
        final(out)@ == old(out)@ + hex_text(v as nat),
    decreases v,
{
    if v >= 16 {
        push_hex(out, v / 16);
    }
    let d = v % 16;
    let c = if d < 10 {
        ((48 + d) as u8) as char
    } else {
        ((87 + d) as u8) as char
    };
    out.push(c);
    assert(hex_char(d as nat) == c);
}

/// Relies on `String`'s `FromIterator<char>`: the string holds the characters in order.
#[verifier::external_body]
fn string_of_chars(chars: Vec<char>) -> (r: String)
    ensures
        r@ == chars@,
{
    chars.into_iter().collect()
}

impl PCIAddress {
    /// The address as text: segment, bus, device and function in hexadecimal, separated
    /// by colons.
    pub fn describe(&self) -> (r: String)
        ensures
            r@ == pci_address_text(*self),
    {
        let mut out: Vec<char> = Vec::new();
        push_hex(&mut out, self.segment);
        out.push(':');
        push_hex(&mut out, self.bus as u16);
        out.push(':');
        push_hex(&mut out, self.device as u16);
        out.push(':');
        push_hex(&mut out, self.function as u16);
        string_of_chars(out)
    }
}

/// Whether an access of `byte_width` bytes at `offset` is one the engine makes: 1, 2 or 4
/// bytes that lie within one 32-bit register.
pub open spec fn valid_pci_access(offset: usize, byte_width: u8) -> bool {
    &&& (byte_width == 1 || byte_width == 2 || byte_width == 4)
    &&& offset % 4 + byte_width <= 4
}

/// The bits of a value of `byte_width` bytes.
pub open spec fn width_mask(byte_width: u8) -> u32 {
    if byte_width == 1 {
        0xff
    } else if byte_width == 2 {
        0xffff
    } else {
        0xffff_ffff
    }
}

/// The position, in bits, of the byte at `offset` within its 32-bit register.
pub open spec fn register_shift(offset: usize) -> u32 {
    ((offset % 4) * 8) as u32
}

/// The value of `byte_width` bytes at `offset`, taken out of the register that holds them.
pub open spec fn extracted(word: u32, offset: usize, byte_width: u8) -> u32 {
    (word >> register_shift(offset)) & width_mask(byte_width)
}

/// The register with the `byte_width` bytes at `offset` replaced by the low bytes of `val`.
pub open spec fn merged(word: u32, offset: usize, byte_width: u8, val: u64) -> u32 {
    (word & !(width_mask(byte_width) << register_shift(offset))) | (((val as u32) & width_mask(
        byte_width,
    )) << register_shift(offset))
}

/// Byte `i` (0 to 3, least significant first) of a register.
pub open spec fn register_byte(word: u32, i: u32) -> u32 {
    (word >> (i * 8)) & 0xff
}

/// Whether byte `i` of the register is one that the access touches.
pub open spec fn touched(offset: usize, byte_width: u8, i: u32) -> bool {
    offset % 4 <= i < offset % 4 + byte_width
}

/// The offset of the 32-bit register that holds the byte at `offset`.
pub fn pci_register_offset(offset: usize) -> (r: usize)
    ensures
        r == offset - offset % 4,
        r % 4 == 0,
{
    offset - offset % 4
}

fn mask_of(byte_width: u8) -> (r: u32)
    ensures
        r == width_mask(byte_width),
{
    if byte_width == 1 {
        0xff
    } else if byte_width == 2 {
        0xffff
    } else {
        0xffff_ffff
    }
}

/// Reads `byte_width` bytes at `offset` out of `word`, the 32-bit register that holds them.
pub fn pci_extract(word: u32, offset: usize, byte_width: u8) -> (r: u64)
    requires
        valid_pci_access(offset, byte_width),
    ensures
        r == extracted(word, offset, byte_width),
{
    let shift: u32 = ((offset % 4) * 8) as u32;
    ((word >> shift) & mask_of(byte_width)) as u64
}

/// The value to write back to `word`, the 32-bit register that holds the `byte_width`
/// bytes at `offset`, so that those bytes take the low bytes of `val` and the others stay.
pub fn pci_merge(word: u32, offset: usize, byte_width: u8, val: u64) -> (r: u32)
    requires
        valid_pci_access(offset, byte_width),
    ensures
        r == merged(word, offset, byte_width, val),
{
    let shift: u32 = ((offset % 4) * 8) as u32;
    let mask = mask_of(byte_width);
    (word & !(mask << shift)) | (((val as u32) & mask) << shift)
}

proof fn lemma_merge_bits(word: u32, v: u32, mask: u32, s: u32, bits: u32, i: u32)
    by (bit_vector)
    requires
        s == 0 || s == 8 || s == 16 || s == 24,
        (bits == 8 && mask == 0xff) || (bits == 16 && mask == 0xffff) || (bits == 32 && mask
            == 0xffff_ffff),
        s + bits <= 32,
        i < 4,
    ensures
        (i * 8 < s || i * 8 >= s + bits) ==> (((word & !(mask << s)) | ((v & mask) << s)) >> (i
            * 8)) & 0xff == (word >> (i * 8)) & 0xff,
        (((word & !(mask << s)) | ((v & mask) << s)) >> s) & mask == v & mask,
{
}

/// A narrow PCI write leaves every byte of the register outside the access as it was,
/// and a read of the same bytes gives back what was written.
pub proof fn lemma_pci_merge(word: u32, offset: usize, byte_width: u8, val: u64, i: u32)
    requires
        valid_pci_access(offset, byte_width),
        i < 4,
    ensures
        !touched(offset, byte_width, i) ==> register_byte(merged(word, offset, byte_width, val), i)
            == register_byte(word, i),
        extracted(merged(word, offset, byte_width, val), offset, byte_width) == (val as u32)
            & width_mask(byte_width),
{
    let s = register_shift(offset);
    let bits = (byte_width * 8) as u32;
    assert(s == 0 || s == 8 || s == 16 || s == 24);
    lemma_merge_bits(word, val as u32, width_mask(byte_width), s, bits, i);
}

} // verus!

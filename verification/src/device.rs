//! Device numbers: a 12-bit major number above a 20-bit minor number.

use vstd::prelude::*;

verus! {

/// A device number as the kernel keeps it.
#[derive(Clone, Copy, Debug, PartialEq, Eq, Structural)]
pub struct DeviceNumber {
    pub data: u32,
}

/// The major number of the device number `data`.
pub open spec fn major_of(data: u32) -> u32 {
    data >> 20u32
}

/// The minor number of the device number `data`.
pub open spec fn minor_of(data: u32) -> u32 {
    data & 0xfffffu32
}

/// The 32-bit encoding of `data` that `stat` reports: the low byte of the
/// minor number, then the major number, then the rest of the minor number.
pub open spec fn new_encode_of(data: u32) -> u32 {
    (minor_of(data) & 0xffu32) | (major_of(data) << 8u32) | ((minor_of(data) & !0xffu32) << 12u32)
}

/// Whether `data` fits the old 16-bit encoding: major and minor below 256.
pub open spec fn old_valid_of(data: u32) -> bool {
    major_of(data) < 256 && minor_of(data) < 256
}

impl DeviceNumber {
    /// The major number.
    pub fn major(&self) -> (r: u32)
        ensures
            r == major_of(self.data),
    {
        self.data >> 20u32
    }

    /// The minor number.
    pub fn minor(&self) -> (r: u32)
        ensures
            r == minor_of(self.data),
    {
        self.data & 0xfffffu32
    }

    /// The device number as the kernel keeps it.
    pub fn data(&self) -> (r: u32)
        ensures
            r == self.data,
    {
        self.data
    }

    /// The encoding of the device number that `stat` reports.
    pub fn new_encode_dev(&self) -> (r: u32)
        ensures
            r == new_encode_of(self.data),
    {
        let major = self.major();
        let minor = self.minor();
        (minor & 0xffu32) | (major << 8u32) | ((minor & !0xffu32) << 12u32)
    }

    /// Whether the device number fits the old 16-bit encoding.
    pub fn old_valid_dev(&self) -> (r: bool)
        ensures
            r == old_valid_of(self.data),
    {
        self.major() < 256 && self.minor() < 256
    }
}

impl From<u32> for DeviceNumber {
    fn from(data: u32) -> (r: Self) {
        DeviceNumber { data }
    }
}

impl vstd::std_specs::convert::FromSpecImpl<u32> for DeviceNumber {
    open spec fn obeys_from_spec() -> bool {
        true
    }

    open spec fn from_spec(v: u32) -> DeviceNumber {
        DeviceNumber { data: v }
    }
}

impl Default for DeviceNumber {
    fn default() -> (r: Self)
        ensures
            r.data == 0,
    {
        DeviceNumber { data: 0 }
    }
}

/// The major and minor numbers together give back the device number.
pub proof fn lemma_major_minor_recompose(data: u32)
    ensures
        (major_of(data) << 20u32) | minor_of(data) == data,
{
    assert((data >> 20u32) << 20u32 | (data & 0xfffffu32) == data) by (bit_vector);
}

/// For a device number that fits the old 16-bit encoding, the new encoding
/// is the old one: the major number above an 8-bit minor number.
pub proof fn lemma_new_encode_extends_old(data: u32)
    requires
        old_valid_of(data),
    ensures
        new_encode_of(data) == (major_of(data) << 8u32) | minor_of(data),
{
    let mi = minor_of(data);
    let ma = major_of(data);
    assert((mi & 0xffu32) | (ma << 8u32) | ((mi & !0xffu32) << 12u32) == (ma << 8u32) | mi)
        by (bit_vector)
        requires
            mi < 256u32,
    ;
}

/// Distinct device numbers have distinct `stat` encodings.
pub proof fn lemma_new_encode_injective(a: u32, b: u32)
    requires
        new_encode_of(a) == new_encode_of(b),
    ensures
        a == b,
{
    assert(a == b) by (bit_vector)
        requires
            ((a & 0xfffffu32) & 0xffu32) | ((a >> 20u32) << 8u32) | (((a & 0xfffffu32)
                & !0xffu32) << 12u32) == ((b & 0xfffffu32) & 0xffu32) | ((b >> 20u32) << 8u32) | (((b
                & 0xfffffu32) & !0xffu32) << 12u32),
    ;
}

/// A major number fits in 12 bits and a minor number in 20.
pub proof fn lemma_major_minor_bounds(data: u32)
    ensures
        major_of(data) < 0x1000,
        minor_of(data) < 0x10_0000,
{
    assert(data >> 20u32 < 0x1000u32 && data & 0xfffffu32 < 0x10_0000u32) by (bit_vector);
}

/// A device number fits the old encoding exactly when its new encoding fits
/// in 16 bits.
pub proof fn lemma_old_valid_iff_encoding_fits_16_bits(data: u32)
    ensures
        old_valid_of(data) == (new_encode_of(data) < 0x1_0000),
{
    assert(((data >> 20u32) < 256u32 && (data & 0xfffffu32) < 256u32) == (((data & 0xfffffu32)
        & 0xffu32) | ((data >> 20u32) << 8u32) | (((data & 0xfffffu32) & !0xffu32) << 12u32)
        < 0x1_0000u32)) by (bit_vector);
}

} // verus!

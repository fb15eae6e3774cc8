//! Mapping from declared port widths to the smallest unsigned integer class.

use vstd::prelude::*;

verus! {

/// The unsigned integer classes a port value can be carried in.
#[derive(Clone, Copy, Debug, PartialEq, Eq, Structural)]
pub enum WidthClass {
    U8,
    U16,
    U32,
    U64,
}

/// Widest port, in bits, that a class can carry.
pub const MAX_WIDTH: u64 = 64;

impl WidthClass {
    /// Number of bits the class can hold.
    pub open spec fn spec_bits(self) -> nat {
        match self {
            WidthClass::U8 => 8,
            WidthClass::U16 => 16,
            WidthClass::U32 => 32,
            WidthClass::U64 => 64,
        }
    }

    /// Number of bits the class can hold.
    pub fn bits(&self) -> (r: u32)
        ensures
            r == self.spec_bits(),
    {
        match self {
            WidthClass::U8 => 8,
            WidthClass::U16 => 16,
            WidthClass::U32 => 32,
            WidthClass::U64 => 64,
        }
    }

    /// Name of the Rust type carrying the class (`u8`, `u16`, ...).
    pub open spec fn spec_host_name(self) -> Seq<char> {
        match self {
            WidthClass::U8 => "u8"@,
            WidthClass::U16 => "u16"@,
            WidthClass::U32 => "u32"@,
            WidthClass::U64 => "u64"@,
        }
    }

    /// Name of the Rust type carrying the class (`u8`, `u16`, ...).
    pub fn host_name(&self) -> (r: &'static str)
        ensures
            r@ == self.spec_host_name(),
    {
        match self {
            WidthClass::U8 => "u8",
            WidthClass::U16 => "u16",
            WidthClass::U32 => "u32",
            WidthClass::U64 => "u64",
        }
    }

    /// C ABI type used on the Rust side of the foreign declarations.
    pub open spec fn spec_ffi_name(self) -> Seq<char> {
        match self {
            WidthClass::U8 => "::std::os::raw::c_uchar"@,
            WidthClass::U16 => "::std::os::raw::c_ushort"@,
            WidthClass::U32 => "::std::os::raw::c_uint"@,
            WidthClass::U64 => "::std::os::raw::c_ulong"@,
        }
    }

    /// C ABI type used on the Rust side of the foreign declarations.
    pub fn ffi_name(&self) -> (r: &'static str)
        ensures
            r@ == self.spec_ffi_name(),
    {
        match self {
            WidthClass::U8 => "::std::os::raw::c_uchar",
            WidthClass::U16 => "::std::os::raw::c_ushort",
            WidthClass::U32 => "::std::os::raw::c_uint",
            WidthClass::U64 => "::std::os::raw::c_ulong",
        }
    }

    /// Verilator's integer type for the class, used in the C++ shim.
    pub open spec fn spec_native_name(self) -> Seq<char> {
        match self {
            WidthClass::U8 => "vluint8_t"@,
            WidthClass::U16 => "vluint16_t"@,
            WidthClass::U32 => "vluint32_t"@,
            WidthClass::U64 => "vluint64_t"@,
        }
    }

    /// Verilator's integer type for the class, used in the C++ shim.
    pub fn native_name(&self) -> (r: &'static str)
        ensures
            r@ == self.spec_native_name(),
    {
        match self {
            WidthClass::U8 => "vluint8_t",
            WidthClass::U16 => "vluint16_t",
            WidthClass::U32 => "vluint32_t",
            WidthClass::U64 => "vluint64_t",
        }
    }
}

/// The class chosen for a width in `1..=64`: the first of u8, u16, u32, u64
/// that is wide enough.
pub open spec fn class_of(width: nat) -> WidthClass {
    if width <= 8 {
        WidthClass::U8
    } else if width <= 16 {
        WidthClass::U16
    } else if width <= 32 {
        WidthClass::U32
    } else {
        WidthClass::U64
    }
}

/// Whether a declared width can be carried by some class.
pub open spec fn width_supported(width: nat) -> bool {
    1 <= width <= MAX_WIDTH
}

/// Smallest class able to carry `width` bits; `None` for a width of zero or
/// above 64.
pub fn class_for_width(width: u64) -> (r: Option<WidthClass>)
    ensures
        width_supported(width as nat) <==> r.is_some(),
        r.is_some() ==> r.unwrap() == class_of(width as nat),
{
    if width == 0 {
        None
    } else if width <= 8 {
        Some(WidthClass::U8)
    } else if width <= 16 {
        Some(WidthClass::U16)
    } else if width <= 32 {
        Some(WidthClass::U32)
    } else if width <= MAX_WIDTH {
        Some(WidthClass::U64)
    } else {
        None
    }
}

/// For every supported width, the chosen class is wide enough, and no other
/// class that is wide enough is narrower.
pub proof fn lemma_class_is_smallest(width: nat, other: WidthClass)
    requires
        width_supported(width),
    ensures
        class_of(width).spec_bits() >= width,
        other.spec_bits() >= width ==> class_of(width).spec_bits() <= other.spec_bits(),
{
}

} // verus!

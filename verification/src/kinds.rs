//! Pool states, dataset types and type masks, with their native encodings.

use vstd::prelude::*;
use vstd::std_specs::convert::FromSpec;
use vstd::std_specs::ops::BitOrSpec;
use crate::error::ContractViolation;

verus! {

/// The state of a storage pool.
#[derive(Debug, Copy, Clone, PartialEq, Eq, Structural)]
pub enum ZPoolState {
    Active,
    Exported,
    Destroyed,
    Spare,
    L2Cache,
    Uninitialized,
    Unavailable,
    PotentiallyActive,
}

impl ZPoolState {
    /// The native code of a state.
    pub open spec fn code(self) -> u32 {
        match self {
            ZPoolState::Active => 0,
            ZPoolState::Exported => 1,
            ZPoolState::Destroyed => 2,
            ZPoolState::Spare => 3,
            ZPoolState::L2Cache => 4,
            ZPoolState::Uninitialized => 5,
            ZPoolState::Unavailable => 6,
            ZPoolState::PotentiallyActive => 7,
        }
    }

    /// The state that a native code stands for, if any.
    pub open spec fn of_code(raw: u32) -> Option<ZPoolState> {
        if raw == 0 {
            Some(ZPoolState::Active)
        } else if raw == 1 {
            Some(ZPoolState::Exported)
        } else if raw == 2 {
            Some(ZPoolState::Destroyed)
        } else if raw == 3 {
            Some(ZPoolState::Spare)
        } else if raw == 4 {
            Some(ZPoolState::L2Cache)
        } else if raw == 5 {
            Some(ZPoolState::Uninitialized)
        } else if raw == 6 {
            Some(ZPoolState::Unavailable)
        } else if raw == 7 {
            Some(ZPoolState::PotentiallyActive)
        } else {
            None
        }
    }

    /// Whether a native code stands for a state.
    pub open spec fn defined(raw: u32) -> bool {
        Self::of_code(raw) is Some
    }

    /// Reads a native code, and reports one that stands for no state
    /// as a contract violation.
    pub fn decode(raw: u32) -> (r: Result<ZPoolState, ContractViolation>)
        ensures
            r == (match Self::of_code(raw) {
                Some(s) => Ok::<ZPoolState, ContractViolation>(s),
                None => Err::<ZPoolState, ContractViolation>(
                    ContractViolation::UnknownPoolState(raw),
                ),
            }),
    {
        match raw {
            0 => Ok(ZPoolState::Active),
            1 => Ok(ZPoolState::Exported),
            2 => Ok(ZPoolState::Destroyed),
            3 => Ok(ZPoolState::Spare),
            4 => Ok(ZPoolState::L2Cache),
            5 => Ok(ZPoolState::Uninitialized),
            6 => Ok(ZPoolState::Unavailable),
            7 => Ok(ZPoolState::PotentiallyActive),
            _ => Err(ContractViolation::UnknownPoolState(raw)),
        }
    }

    /// Reads a native code that stands for a state.
    pub fn from(raw: u32) -> (s: ZPoolState)
        requires
            Self::defined(raw),
        ensures
            Self::of_code(raw) == Some(s),
    {
        match Self::decode(raw) {
            Ok(s) => s,
            Err(_) => unreached(),
        }
    }

    /// Decoding the code of a state gives that state back.
    pub proof fn decode_after_encode(s: ZPoolState)
        ensures
            Self::of_code(s.code()) == Some(s),
    {
    }

    /// Encoding the state that a code stands for gives that code back.
    pub proof fn encode_after_decode(raw: u32)
        requires
            Self::defined(raw),
        ensures
            Self::of_code(raw).unwrap().code() == raw,
    {
    }
}

impl From<ZPoolState> for u32 {
    fn from(s: ZPoolState) -> (raw: u32) {
        match s {
            ZPoolState::Active => 0,
            ZPoolState::Exported => 1,
            ZPoolState::Destroyed => 2,
            ZPoolState::Spare => 3,
            ZPoolState::L2Cache => 4,
            ZPoolState::Uninitialized => 5,
            ZPoolState::Unavailable => 6,
            ZPoolState::PotentiallyActive => 7,
        }
    }
}

impl vstd::std_specs::convert::FromSpecImpl<ZPoolState> for u32 {
    open spec fn obeys_from_spec() -> bool {
        true
    }

    open spec fn from_spec(s: ZPoolState) -> u32 {
        s.code()
    }
}

/// The kind of a dataset. The native codes are single bits, so that kinds
/// combine into a mask.
#[derive(Debug, Copy, Clone, PartialEq, Eq, Structural)]
pub enum ZfsType {
    Filesystem,
    Snapshot,
    Volume,
    Pool,
    Bookmark,
}

impl ZfsType {
    /// The native code of a kind.
    pub open spec fn code(self) -> u32 {
        match self {
            ZfsType::Filesystem => 1,
            ZfsType::Snapshot => 2,
            ZfsType::Volume => 4,
            ZfsType::Pool => 8,
            ZfsType::Bookmark => 16,
        }
    }

    /// The kind that a native code stands for, if any.
    pub open spec fn of_code(raw: u32) -> Option<ZfsType> {
        if raw == 1 {
            Some(ZfsType::Filesystem)
        } else if raw == 2 {
            Some(ZfsType::Snapshot)
        } else if raw == 4 {
            Some(ZfsType::Volume)
        } else if raw == 8 {
            Some(ZfsType::Pool)
        } else if raw == 16 {
            Some(ZfsType::Bookmark)
        } else {
            None
        }
    }

    /// Whether a native code stands for a kind.
    pub open spec fn defined(raw: u32) -> bool {
        Self::of_code(raw) is Some
    }

    /// Reads a native code, and reports one that stands for no kind
    /// as a contract violation.
    pub fn decode(raw: u32) -> (r: Result<ZfsType, ContractViolation>)
        ensures
            r == (match Self::of_code(raw) {
                Some(t) => Ok::<ZfsType, ContractViolation>(t),
                None => Err::<ZfsType, ContractViolation>(
                    ContractViolation::UnknownDatasetType(raw),
                ),
            }),
    {
        match raw {
            1 => Ok(ZfsType::Filesystem),
            2 => Ok(ZfsType::Snapshot),
            4 => Ok(ZfsType::Volume),
            8 => Ok(ZfsType::Pool),
            16 => Ok(ZfsType::Bookmark),
            _ => Err(ContractViolation::UnknownDatasetType(raw)),
        }
    }

    /// Reads a native code that stands for a kind.
    pub fn from(raw: u32) -> (t: ZfsType)
        requires
            Self::defined(raw),
        ensures
            Self::of_code(raw) == Some(t),
    {
        match Self::decode(raw) {
            Ok(t) => t,
            Err(_) => unreached(),
        }
    }

    /// Decoding the code of a kind gives that kind back.
    pub proof fn decode_after_encode(t: ZfsType)
        ensures
            Self::of_code(t.code()) == Some(t),
    {
    }

    /// Encoding the kind that a code stands for gives that code back.
    pub proof fn encode_after_decode(raw: u32)
        requires
            Self::defined(raw),
        ensures
            Self::of_code(raw).unwrap().code() == raw,
    {
    }
}

impl From<ZfsType> for u32 {
    fn from(t: ZfsType) -> (raw: u32) {
        match t {
            ZfsType::Filesystem => 1,
            ZfsType::Snapshot => 2,
            ZfsType::Volume => 4,
            ZfsType::Pool => 8,
            ZfsType::Bookmark => 16,
        }
    }
}

impl vstd::std_specs::convert::FromSpecImpl<ZfsType> for u32 {
    open spec fn obeys_from_spec() -> bool {
        true
    }

    open spec fn from_spec(t: ZfsType) -> u32 {
        t.code()
    }
}

/// A set of dataset kinds, held as the union of their native codes.
#[derive(Debug, Copy, Clone, PartialEq, Eq, Structural)]
pub struct ZfsTypeMask(u32);

impl View for ZfsTypeMask {
    type V = u32;

    closed spec fn view(&self) -> u32 {
        self.0
    }
}

impl ZfsTypeMask {
    /// The mask with the given bits.
    pub closed spec fn of_bits(bits: u32) -> ZfsTypeMask {
        ZfsTypeMask(bits)
    }

    /// Whether the mask selects datasets of kind `t`.
    pub open spec fn selects(self, t: ZfsType) -> bool {
        self@ & t.code() == t.code()
    }

    /// The mask with every bit set.
    pub open spec fn full() -> ZfsTypeMask {
        Self::of_bits(u32::MAX)
    }

    /// The mask that selects every kind: all bits set.
    pub fn all() -> (m: ZfsTypeMask)
        ensures
            m == Self::full(),
            m@ == u32::MAX,
    {
        ZfsTypeMask(u32::MAX)
    }

    /// The mask as the native lookup takes it: the same 32 bits, read as a
    /// signed integer.
    pub fn to_native(self) -> (raw: i32)
        ensures
            raw == Self::as_signed(self@),
    {
        if self.0 < 0x8000_0000 {
            self.0 as i32
        } else {
            (self.0 - 0x8000_0000) as i32 + i32::MIN
        }
    }

    /// The signed integer with the same 32 bits, in two's complement.
    pub open spec fn as_signed(bits: u32) -> int {
        if bits < 0x8000_0000 {
            bits as int
        } else {
            bits - 0x1_0000_0000
        }
    }

    /// A mask is its bits and nothing else.
    pub proof fn bits_determine_mask(bits: u32, m: ZfsTypeMask)
        ensures
            Self::of_bits(bits)@ == bits,
            Self::of_bits(m@) == m,
    {
    }

    /// The full mask absorbs every kind: its union with one is the full
    /// mask again, and it selects every kind.
    pub proof fn all_absorbs(t: ZfsType)
        ensures
            Self::full().bitor_spec(t) == Self::full(),
            Self::full().selects(t),
    {
        let c = t.code();
        assert(u32::MAX | c == u32::MAX) by (bit_vector);
        assert(u32::MAX & c == c) by (bit_vector);
    }

    /// The mask of one kind selects that kind and no other, and the union
    /// of a mask with a kind selects that kind and whatever the mask
    /// selected.
    pub proof fn union_selects(m: ZfsTypeMask, t: ZfsType, u: ZfsType)
        ensures
            ZfsTypeMask::from_spec(t).selects(u) <==> t == u,
            m.bitor_spec(t).selects(t),
            m.selects(u) ==> m.bitor_spec(t).selects(u),
            t.bitor_spec(u).selects(t) && t.bitor_spec(u).selects(u),
    {
        let bits = m@;
        let a = t.code();
        let b = u.code();
        assert((bits | a) & a == a) by (bit_vector);
        assert(bits & b == b ==> (bits | a) & b == b) by (bit_vector);
        assert((a | b) & a == a && (a | b) & b == b) by (bit_vector);
        assert((a == 1 || a == 2 || a == 4 || a == 8 || a == 16) && (b == 1 || b == 2 || b == 4
            || b == 8 || b == 16) ==> (a & b == b <==> a == b)) by (bit_vector);
    }
}

impl From<ZfsType> for ZfsTypeMask {
    fn from(t: ZfsType) -> (m: ZfsTypeMask) {
        ZfsTypeMask(t.into())
    }
}

impl vstd::std_specs::convert::FromSpecImpl<ZfsType> for ZfsTypeMask {
    open spec fn obeys_from_spec() -> bool {
        true
    }

    open spec fn from_spec(t: ZfsType) -> ZfsTypeMask {
        ZfsTypeMask::of_bits(t.code())
    }
}

impl core::ops::BitOr for ZfsType {
    type Output = ZfsTypeMask;

    fn bitor(self, rhs: ZfsType) -> (m: ZfsTypeMask) {
        let a: u32 = self.into();
        let b: u32 = rhs.into();
        ZfsTypeMask(a | b)
    }
}

impl vstd::std_specs::ops::BitOrSpecImpl for ZfsType {
    open spec fn obeys_bitor_spec() -> bool {
        true
    }

    open spec fn bitor_req(self, rhs: ZfsType) -> bool {
        true
    }

    open spec fn bitor_spec(self, rhs: ZfsType) -> ZfsTypeMask {
        ZfsTypeMask::of_bits(self.code() | rhs.code())
    }
}

impl core::ops::BitOr<ZfsType> for ZfsTypeMask {
    type Output = ZfsTypeMask;

    fn bitor(self, rhs: ZfsType) -> (m: ZfsTypeMask) {
        let b: u32 = rhs.into();
        ZfsTypeMask(self.0 | b)
    }
}

impl vstd::std_specs::ops::BitOrSpecImpl<ZfsType> for ZfsTypeMask {
    open spec fn obeys_bitor_spec() -> bool {
        true
    }

    open spec fn bitor_req(self, rhs: ZfsType) -> bool {
        true
    }

    open spec fn bitor_spec(self, rhs: ZfsType) -> ZfsTypeMask {
        ZfsTypeMask::of_bits(self@ | rhs.code())
    }
}

} // verus!

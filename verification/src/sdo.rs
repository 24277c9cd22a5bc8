use crate::types::SdoEntryAddr;
use vstd::prelude::*;
use vstd::std_specs::convert::FromSpecImpl;

verus! {

/// Primitive type of an object dictionary entry.
#[derive(Debug, Clone, Copy, PartialEq, Eq, Structural)]
pub enum DataType {
    Bool,
    I8,
    I16,
    I32,
    U8,
    U16,
    U32,
    F32,
    /// Visible string.
    String,
    OctetString,
    UnicodeString,
    I24,
    F64,
    I40,
    I48,
    I56,
    I64,
    U24,
    U40,
    U48,
    U56,
    U64,
    /// Sign-and-magnitude coding, 8 bits.
    Sm8,
    /// Sign-and-magnitude coding, 16 bits.
    Sm16,
    /// Sign-and-magnitude coding, 32 bits.
    Sm32,
    /// Sign-and-magnitude coding, 64 bits.
    Sm64,
    Raw,
}

impl DataType {
    /// The code of the type in the object dictionary.
    pub open spec fn code(self) -> u16 {
        match self {
            DataType::Bool => 0x0001,
            DataType::I8 => 0x0002,
            DataType::I16 => 0x0003,
            DataType::I32 => 0x0004,
            DataType::U8 => 0x0005,
            DataType::U16 => 0x0006,
            DataType::U32 => 0x0007,
            DataType::F32 => 0x0008,
            DataType::String => 0x0009,
            DataType::OctetString => 0x000A,
            DataType::UnicodeString => 0x000B,
            DataType::I24 => 0x0010,
            DataType::F64 => 0x0011,
            DataType::I40 => 0x0012,
            DataType::I48 => 0x0013,
            DataType::I56 => 0x0014,
            DataType::I64 => 0x0015,
            DataType::U24 => 0x0016,
            DataType::U40 => 0x0018,
            DataType::U48 => 0x0019,
            DataType::U56 => 0x001A,
            DataType::U64 => 0x001B,
            DataType::Sm8 => 0xFFFB,
            DataType::Sm16 => 0xFFFC,
            DataType::Sm32 => 0xFFFD,
            DataType::Sm64 => 0xFFFE,
            DataType::Raw => 0xFFFF,
        }
    }

    /// The number of bytes that a value of the type occupies, for the types
    /// of fixed width.
    pub open spec fn width(self) -> Option<usize> {
        match self {
            DataType::Bool | DataType::I8 | DataType::U8 | DataType::Sm8 => Some(1usize),
            DataType::I16 | DataType::U16 | DataType::Sm16 => Some(2usize),
            DataType::I24 | DataType::U24 => Some(3usize),
            DataType::I32 | DataType::U32 | DataType::F32 | DataType::Sm32 => Some(4usize),
            DataType::I40 | DataType::U40 => Some(5usize),
            DataType::I48 | DataType::U48 => Some(6usize),
            DataType::I56 | DataType::U56 => Some(7usize),
            DataType::I64 | DataType::F64 | DataType::U64 | DataType::Sm64 => Some(8usize),
            DataType::String | DataType::OctetString | DataType::UnicodeString | DataType::Raw => None,
        }
    }

    /// Number of bytes.
    pub fn size(&self) -> (r: Option<usize>)
        ensures
            r == self.width(),
    {
        match self {
            DataType::Bool | DataType::I8 | DataType::U8 | DataType::Sm8 => Some(1),
            DataType::I16 | DataType::U16 | DataType::Sm16 => Some(2),
            DataType::I24 | DataType::U24 => Some(3),
            DataType::I32 | DataType::U32 | DataType::F32 | DataType::Sm32 => Some(4),
            DataType::I40 | DataType::U40 => Some(5),
            DataType::I48 | DataType::U48 => Some(6),
            DataType::I56 | DataType::U56 => Some(7),
            DataType::I64 | DataType::F64 | DataType::U64 | DataType::Sm64 => Some(8),
            _ => None,
        }
    }

    pub fn to_u16(&self) -> (code: u16)
        ensures
            code == self.code(),
    {
        match self {
            DataType::Bool => 0x0001,
            DataType::I8 => 0x0002,
            DataType::I16 => 0x0003,
            DataType::I32 => 0x0004,
            DataType::U8 => 0x0005,
            DataType::U16 => 0x0006,
            DataType::U32 => 0x0007,
            DataType::F32 => 0x0008,
            DataType::String => 0x0009,
            DataType::OctetString => 0x000A,
            DataType::UnicodeString => 0x000B,
            DataType::I24 => 0x0010,
            DataType::F64 => 0x0011,
            DataType::I40 => 0x0012,
            DataType::I48 => 0x0013,
            DataType::I56 => 0x0014,
            DataType::I64 => 0x0015,
            DataType::U24 => 0x0016,
            DataType::U40 => 0x0018,
            DataType::U48 => 0x0019,
            DataType::U56 => 0x001A,
            DataType::U64 => 0x001B,
            DataType::Sm8 => 0xFFFB,
            DataType::Sm16 => 0xFFFC,
            DataType::Sm32 => 0xFFFD,
            DataType::Sm64 => 0xFFFE,
            DataType::Raw => 0xFFFF,
        }
    }

    /// The type with the given code: `Some` for exactly the codes of the
    /// types, and then the one type that has the code.
    pub fn from_u16(code: u16) -> (r: Option<DataType>)
        ensures
            r is Some <==> exists|t: DataType| t.code() == code,
            r matches Some(t) ==> t.code() == code,
    {
        let r = match code {
            0x0001 => Some(DataType::Bool),
            0x0002 => Some(DataType::I8),
            0x0003 => Some(DataType::I16),
            0x0004 => Some(DataType::I32),
            0x0005 => Some(DataType::U8),
            0x0006 => Some(DataType::U16),
            0x0007 => Some(DataType::U32),
            0x0008 => Some(DataType::F32),
            0x0009 => Some(DataType::String),
            0x000A => Some(DataType::OctetString),
            0x000B => Some(DataType::UnicodeString),
            0x0010 => Some(DataType::I24),
            0x0011 => Some(DataType::F64),
            0x0012 => Some(DataType::I40),
            0x0013 => Some(DataType::I48),
            0x0014 => Some(DataType::I56),
            0x0015 => Some(DataType::I64),
            0x0016 => Some(DataType::U24),
            0x0018 => Some(DataType::U40),
            0x0019 => Some(DataType::U48),
            0x001A => Some(DataType::U56),
            0x001B => Some(DataType::U64),
            0xFFFB => Some(DataType::Sm8),
            0xFFFC => Some(DataType::Sm16),
            0xFFFD => Some(DataType::Sm32),
            0xFFFE => Some(DataType::Sm64),
            0xFFFF => Some(DataType::Raw),
            _ => None,
        };
        proof {
            if let Some(t) = r {
                assert(t.code() == code);
            }
        }
        r
    }
}

/// Access rights to an object dictionary entry.
#[derive(Debug, Clone, Copy, PartialEq, Eq, Structural)]
pub enum Access {
    Unknown,
    ReadOnly,
    WriteOnly,
    ReadWrite,
}

impl Access {
    /// The access that a pair of flags stands for.
    pub open spec fn of_flags(read: u8, write: u8) -> Access {
        if read == 0 && write == 1 {
            Access::ReadOnly
        } else if read == 1 && write == 0 {
            Access::WriteOnly
        } else if read == 1 && write == 1 {
            Access::ReadWrite
        } else {
            Access::Unknown
        }
    }
}

impl From<(u8, u8)> for Access {
    fn from(flags: (u8, u8)) -> (r: Self) {
        let (read, write) = flags;
        match (read, write) {
            (0, 1) => Access::ReadOnly,
            (1, 0) => Access::WriteOnly,
            (1, 1) => Access::ReadWrite,
            _ => Access::Unknown,
        }
    }
}

impl FromSpecImpl<(u8, u8)> for Access {
    open spec fn obeys_from_spec() -> bool {
        true
    }

    open spec fn from_spec(flags: (u8, u8)) -> Self {
        Access::of_flags(flags.0, flags.1)
    }
}

/// Access rights to an object dictionary entry in each of the states in which
/// the dictionary can be reached.
#[derive(Debug, Clone, Copy, PartialEq, Eq, Structural)]
pub struct SdoEntryAccess {
    pub pre_op: Access,
    pub safe_op: Access,
    pub op: Access,
}

impl From<([u8; 3], [u8; 3])> for SdoEntryAccess {
    fn from(flags: ([u8; 3], [u8; 3])) -> (r: Self) {
        let (read, write) = flags;
        SdoEntryAccess {
            pre_op: Access::from((read[0], write[0])),
            safe_op: Access::from((read[1], write[1])),
            op: Access::from((read[2], write[2])),
        }
    }
}

impl FromSpecImpl<([u8; 3], [u8; 3])> for SdoEntryAccess {
    open spec fn obeys_from_spec() -> bool {
        true
    }

    open spec fn from_spec(flags: ([u8; 3], [u8; 3])) -> Self {
        SdoEntryAccess {
            pre_op: Access::of_flags(flags.0[0], flags.1[0]),
            safe_op: Access::of_flags(flags.0[1], flags.1[1]),
            op: Access::of_flags(flags.0[2], flags.1[2]),
        }
    }
}

/// One object of a slave's dictionary.
#[derive(Debug, Clone)]
pub struct SdoInfo {
    pub slave_position: u16,
    pub position: u16,
    pub index: u16,
    pub max_subindex: u8,
    pub object_code: u8,
    pub name: String,
}

/// One entry of an object of a slave's dictionary.
#[derive(Debug, Clone)]
pub struct SdoEntry {
    pub slave_position: u16,
    pub address: SdoEntryAddr,
    pub data_type: DataType,
    pub bit_length: u16,
    pub access: SdoEntryAccess,
    pub description: String,
}

/// The `width` low bytes of a number, least significant byte first.
pub open spec fn le_bytes(value: nat, width: nat) -> Seq<u8>
    decreases width,
{
    if width == 0 {
        Seq::empty()
    } else {
        seq![(value % 256) as u8] + le_bytes(value / 256, (width - 1) as nat)
    }
}

/// The number that stands for an integer in two's complement of `width`
/// bytes.
pub open spec fn twos_complement(value: int, width: nat) -> nat {
    if value >= 0 {
        value as nat
    } else if width == 1 {
        (value + 0x100) as nat
    } else if width == 2 {
        (value + 0x1_0000) as nat
    } else if width == 4 {
        (value + 0x1_0000_0000) as nat
    } else {
        (value + 0x1_0000_0000_0000_0000) as nat
    }
}

fn le_bytes_of(value: u64, width: usize) -> (bytes: Vec<u8>)
    requires
        width <= 8,
    ensures
        bytes@ == le_bytes(value as nat, width as nat),
{
    let mut bytes: Vec<u8> = Vec::new();
    let mut rest: u64 = value;
    let mut i: usize = 0;
    while i < width
        invariant
            i <= width,
            bytes@ + le_bytes(rest as nat, (width - i) as nat) == le_bytes(
                value as nat,
                width as nat,
            ),
        decreases width - i,
    {
        let ghost before = bytes@;
        bytes.push((rest % 256) as u8);
        proof {
            assert(bytes@ + le_bytes((rest / 256) as nat, (width - i - 1) as nat) =~= before
                + le_bytes(rest as nat, (width - i) as nat));
        }
        rest = rest / 256;
        i = i + 1;
    }
    proof {
        assert(bytes@ + le_bytes(rest as nat, 0) =~= bytes@);
    }
    bytes
}

/// A value that can travel as the data of an SDO: it shows itself as bytes
/// of a known number, in the order in which they go over the wire. Integers
/// go with their least significant byte first, negative ones in two's
/// complement.
pub trait SdoData {
    /// The bytes of the value.
    spec fn data(&self) -> Seq<u8>;

    fn data_size(&self) -> (size: usize)
        ensures
            size == self.data().len(),
    ;

    fn data_bytes(&self) -> (bytes: Vec<u8>)
        ensures
            bytes@ == self.data(),
    ;
}

proof fn lemma_le_bytes_len(value: nat, width: nat)
    ensures
        le_bytes(value, width).len() == width,
    decreases width,
{
    if width > 0 {
        lemma_le_bytes_len(value / 256, (width - 1) as nat);
    }
}

impl SdoData for u8 {
    open spec fn data(&self) -> Seq<u8> {
        le_bytes(*self as nat, 1)
    }

    fn data_size(&self) -> (size: usize) {
        proof {
            lemma_le_bytes_len(*self as nat, 1);
        }
        1
    }

    fn data_bytes(&self) -> (bytes: Vec<u8>) {
        le_bytes_of(*self as u64, 1)
    }
}

impl SdoData for u16 {
    open spec fn data(&self) -> Seq<u8> {
        le_bytes(*self as nat, 2)
    }

    fn data_size(&self) -> (size: usize) {
        proof {
            lemma_le_bytes_len(*self as nat, 2);
        }
        2
    }

    fn data_bytes(&self) -> (bytes: Vec<u8>) {
        le_bytes_of(*self as u64, 2)
    }
}

impl SdoData for u32 {
    open spec fn data(&self) -> Seq<u8> {
        le_bytes(*self as nat, 4)
    }

    fn data_size(&self) -> (size: usize) {
        proof {
            lemma_le_bytes_len(*self as nat, 4);
        }
        4
    }

    fn data_bytes(&self) -> (bytes: Vec<u8>) {
        le_bytes_of(*self as u64, 4)
    }
}

impl SdoData for u64 {
    open spec fn data(&self) -> Seq<u8> {
        le_bytes(*self as nat, 8)
    }

    fn data_size(&self) -> (size: usize) {
        proof {
            lemma_le_bytes_len(*self as nat, 8);
        }
        8
    }

    fn data_bytes(&self) -> (bytes: Vec<u8>) {
        le_bytes_of(*self, 8)
    }
}

impl SdoData for i8 {
    open spec fn data(&self) -> Seq<u8> {
        le_bytes(twos_complement(*self as int, 1), 1)
    }

    fn data_size(&self) -> (size: usize) {
        proof {
            lemma_le_bytes_len(twos_complement(*self as int, 1), 1);
        }
        1
    }

    fn data_bytes(&self) -> (bytes: Vec<u8>) {
        let value: i64 = *self as i64;
        let number: u64 = if value >= 0 {
            value as u64
        } else {
            (value + 0x100) as u64
        };
        le_bytes_of(number, 1)
    }
}

impl SdoData for i16 {
    open spec fn data(&self) -> Seq<u8> {
        le_bytes(twos_complement(*self as int, 2), 2)
    }

    fn data_size(&self) -> (size: usize) {
        proof {
            lemma_le_bytes_len(twos_complement(*self as int, 2), 2);
        }
        2
    }

    fn data_bytes(&self) -> (bytes: Vec<u8>) {
        let value: i64 = *self as i64;
        let number: u64 = if value >= 0 {
            value as u64
        } else {
            (value + 0x1_0000) as u64
        };
        le_bytes_of(number, 2)
    }
}

impl SdoData for i32 {
    open spec fn data(&self) -> Seq<u8> {
        le_bytes(twos_complement(*self as int, 4), 4)
    }

    fn data_size(&self) -> (size: usize) {
        proof {
            lemma_le_bytes_len(twos_complement(*self as int, 4), 4);
        }
        4
    }

    fn data_bytes(&self) -> (bytes: Vec<u8>) {
        let value: i64 = *self as i64;
        let number: u64 = if value >= 0 {
            value as u64
        } else {
            (value + 0x1_0000_0000) as u64
        };
        le_bytes_of(number, 4)
    }
}

impl SdoData for i64 {
    open spec fn data(&self) -> Seq<u8> {
        le_bytes(twos_complement(*self as int, 8), 8)
    }

    fn data_size(&self) -> (size: usize) {
        proof {
            lemma_le_bytes_len(twos_complement(*self as int, 8), 8);
        }
        8
    }

    fn data_bytes(&self) -> (bytes: Vec<u8>) {
        let value: i128 = *self as i128;
        let number: u64 = if value >= 0 {
            value as u64
        } else {
            (value + 0x1_0000_0000_0000_0000) as u64
        };
        le_bytes_of(number, 8)
    }
}

impl SdoData for &[u8] {
    open spec fn data(&self) -> Seq<u8> {
        (*self)@
    }

    fn data_size(&self) -> (size: usize) {
        self.len()
    }

    fn data_bytes(&self) -> (bytes: Vec<u8>) {
        let mut bytes: Vec<u8> = Vec::new();
        let mut i: usize = 0;
        while i < self.len()
            invariant
                i <= self@.len(),
                bytes@ == self@.take(i as int),
            decreases self@.len() - i,
        {
            bytes.push(self[i]);
            proof {
                assert(bytes@ =~= self@.take(i + 1));
            }
            i = i + 1;
        }
        proof {
            assert(self@.take(i as int) =~= self@);
        }
        bytes
    }
}

} // verus!

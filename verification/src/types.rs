use vstd::prelude::*;
use vstd::std_specs::convert::FromSpecImpl;

verus! {

pub type MasterIndex = u32;

pub type SlaveConfigIndex = u32;

pub type SlavePosition = u16;

pub type SmIndex = u8;

pub type PdoIndex = u16;

/// Handle to a domain of a master: the position of the domain among the
/// domains of the master that created it. It means nothing to another
/// master.
#[derive(Debug, Clone, Copy, PartialEq, Eq, Hash, Structural)]
pub struct DomainIndex(pub usize);

impl View for DomainIndex {
    type V = int;

    open spec fn view(&self) -> int {
        self.0 as int
    }
}

impl From<i32> for DomainIndex {
    fn from(v: i32) -> (r: Self) {
        DomainIndex(v as usize)
    }
}

impl FromSpecImpl<i32> for DomainIndex {
    open spec fn obeys_from_spec() -> bool {
        true
    }

    open spec fn from_spec(v: i32) -> Self {
        DomainIndex(v as usize)
    }
}

impl From<DomainIndex> for u64 {
    fn from(idx: DomainIndex) -> (r: Self) {
        idx.0 as u64
    }
}

impl FromSpecImpl<DomainIndex> for u64 {
    open spec fn obeys_from_spec() -> bool {
        true
    }

    open spec fn from_spec(idx: DomainIndex) -> Self {
        idx.0 as u64
    }
}

impl From<DomainIndex> for u32 {
    fn from(idx: DomainIndex) -> (r: Self) {
        idx.0 as u32
    }
}

impl FromSpecImpl<DomainIndex> for u32 {
    open spec fn obeys_from_spec() -> bool {
        true
    }

    open spec fn from_spec(idx: DomainIndex) -> Self {
        idx.0 as u32
    }
}

/// An EtherCAT slave identification, consisting of vendor ID and product code.
#[derive(Debug, Clone, Copy, PartialEq, Eq, Structural)]
pub struct SlaveId {
    pub vendor_id: u32,
    pub product_code: u32,
}

impl SlaveId {
    pub fn new(vendor_id: u32, product_code: u32) -> (r: Self)
        ensures
            r == (SlaveId { vendor_id, product_code }),
    {
        SlaveId { vendor_id, product_code }
    }
}

/// An EtherCAT slave revision identification.
#[derive(Debug, Clone, Copy, PartialEq, Eq, Structural)]
pub struct SlaveRev {
    pub revision_number: u32,
    pub serial_number: u32,
}

impl SlaveRev {
    pub fn new(revision_number: u32, serial_number: u32) -> (r: Self)
        ensures
            r == (SlaveRev { revision_number, serial_number }),
    {
        SlaveRev { revision_number, serial_number }
    }
}

/// An EtherCAT slave, which is specified either by absolute position in the
/// ring or by offset from a given alias.
#[derive(Debug, Clone, Copy, PartialEq, Eq, Structural)]
pub enum SlaveAddr {
    ByPos(u16),
    ByAlias(u16, u16),
}

impl SlaveAddr {
    /// The `(alias, position)` pair that addresses the slave. An absolute
    /// position is a position relative to alias 0.
    pub open spec fn pair(self) -> (u16, u16) {
        match self {
            SlaveAddr::ByPos(position) => (0u16, position),
            SlaveAddr::ByAlias(alias, position) => (alias, position),
        }
    }

    pub fn as_pair(self) -> (r: (u16, u16))
        ensures
            r == self.pair(),
    {
        match self {
            SlaveAddr::ByPos(position) => (0, position),
            SlaveAddr::ByAlias(alias, position) => (alias, position),
        }
    }
}

/// Offset of a PDO entry in the domain image.
#[derive(Debug, Clone, Copy, PartialEq, Eq, Hash, Structural)]
pub struct Offset {
    pub byte: usize,
    pub bit: u32,
}

impl Offset {
    pub fn new(byte: usize, bit: u32) -> (r: Self)
        ensures
            r == (Offset { byte, bit }),
    {
        Offset { byte, bit }
    }
}

impl Default for Offset {
    fn default() -> (r: Self)
        ensures
            r == (Offset { byte: 0, bit: 0 }),
    {
        Offset { byte: 0, bit: 0 }
    }
}

#[derive(Debug, Clone, Copy, PartialEq, Eq, Structural)]
pub enum SyncDirection {
    Invalid,
    Output,
    Input,
}

#[derive(Debug, Clone, Copy, PartialEq, Eq, Structural)]
pub enum WatchdogMode {
    Default,
    Enable,
    Disable,
}

/// Identity of one entry of a process data object: the index and subindex
/// under which the slave's object dictionary lists it.
#[derive(Debug, Clone, Copy, PartialEq, Eq, Hash, Structural)]
pub struct PdoEntryIndex {
    pub index: u16,
    pub subindex: u8,
}

impl PdoEntryIndex {
    pub fn new(index: u16, subindex: u8) -> (r: Self)
        ensures
            r == (PdoEntryIndex { index, subindex }),
    {
        PdoEntryIndex { index, subindex }
    }
}

#[derive(Debug, Clone, Copy, PartialEq, Eq, Hash, Structural)]
pub struct SdoIndex {
    pub index: u16,
    pub subindex: u8,
}

impl SdoIndex {
    pub fn new(index: u16, subindex: u8) -> (r: Self)
        ensures
            r == (SdoIndex { index, subindex }),
    {
        SdoIndex { index, subindex }
    }
}

/// Address of an entry in a slave's object dictionary: by the position of
/// its object in the dictionary, or by the object's index; each with the
/// entry's subindex.
#[derive(Debug, Clone, Copy, PartialEq, Eq, Hash, Structural)]
pub enum SdoEntryAddr {
    Position(usize, u8),
    Index(u16, u8),
}

/// Shape of one PDO entry: its identity and the number of bits it occupies.
#[derive(Debug, Clone, Copy, PartialEq, Eq, Structural)]
pub struct PdoEntryInfo {
    pub index: PdoEntryIndex,
    pub bit_length: u8,
}

/// One process data object: its index and its entries, in packing order.
#[derive(Debug, Clone, Copy)]
pub struct PdoInfo<'a> {
    pub index: PdoIndex,
    pub entries: &'a [PdoEntryInfo],
}

impl<'a> PdoInfo<'a> {
    /// A PDO that keeps the entries the slave maps by default: none are
    /// declared.
    pub fn default(index: PdoIndex) -> (r: PdoInfo<'a>)
        ensures
            r.index == index,
            r.entries@ == Seq::<PdoEntryInfo>::empty(),
    {
        let entries: &[PdoEntryInfo] = &[];
        PdoInfo { index, entries }
    }
}

/// One sync manager with the PDOs assigned to it, in order.
#[derive(Debug, Clone, Copy)]
pub struct SyncInfo<'a> {
    pub index: SmIndex,
    pub direction: SyncDirection,
    pub watchdog_mode: WatchdogMode,
    pub pdos: &'a [PdoInfo<'a>],
}

impl<'a> SyncInfo<'a> {
    pub fn input(index: SmIndex, pdos: &'a [PdoInfo<'a>]) -> (r: Self)
        ensures
            r.index == index,
            r.direction == SyncDirection::Input,
            r.watchdog_mode == WatchdogMode::Default,
            r.pdos@ == pdos@,
    {
        SyncInfo {
            index,
            direction: SyncDirection::Input,
            watchdog_mode: WatchdogMode::Default,
            pdos,
        }
    }

    pub fn output(index: SmIndex, pdos: &'a [PdoInfo<'a>]) -> (r: Self)
        ensures
            r.index == index,
            r.direction == SyncDirection::Output,
            r.watchdog_mode == WatchdogMode::Default,
            r.pdos@ == pdos@,
    {
        SyncInfo {
            index,
            direction: SyncDirection::Output,
            watchdog_mode: WatchdogMode::Default,
            pdos,
        }
    }
}

} // verus!

use crate::sdo::{SdoEntry, SdoInfo};
use crate::state::SlaveInfo;
use crate::types::{SdoEntryAddr, SlaveAddr, SlaveId};
use vstd::prelude::*;

verus! {

/// One object of a slave's dictionary with its entries; the entry with
/// subindex `n` stands at position `n`.
#[derive(Debug, Clone)]
pub struct SdoObject {
    pub info: SdoInfo,
    pub entries: Vec<SdoEntry>,
}

/// One device that responds on the ring, as a scan found it: what it tells
/// of itself, and its object dictionary.
#[derive(Debug, Clone)]
pub struct Slave {
    pub info: SlaveInfo,
    pub dictionary: Vec<SdoObject>,
}

/// The ring position of the first of `slaves[from..]` that carries `alias`.
pub open spec fn alias_from(slaves: Seq<Slave>, alias: u16, from: int) -> Option<int>
    decreases slaves.len() - from,
{
    if from < 0 || from >= slaves.len() {
        None
    } else if slaves[from].info.alias == alias {
        Some(from)
    } else {
        alias_from(slaves, alias, from + 1)
    }
}

/// The ring position that an address designates, if a device responds
/// there. An alias of 0 makes the position absolute; any other alias makes
/// it relative to the first device that carries the alias.
pub open spec fn addressed(slaves: Seq<Slave>, addr: SlaveAddr) -> Option<int> {
    let (alias, position) = addr.pair();
    if alias == 0 {
        if position < slaves.len() {
            Some(position as int)
        } else {
            None
        }
    } else {
        match alias_from(slaves, alias, 0) {
            Some(base) => if base + position < slaves.len() {
                Some(base + position)
            } else {
                None
            },
            None => None,
        }
    }
}

/// The ring position of the device that a slave configuration is matched
/// to: the device that the address designates, provided that it has the
/// expected identity.
pub open spec fn matched_position(slaves: Seq<Slave>, addr: SlaveAddr, id: SlaveId) -> Option<
    u32,
> {
    match addressed(slaves, addr) {
        Some(position) => if slaves[position].info.id == id {
            Some(position as u32)
        } else {
            None
        },
        None => None,
    }
}

/// The position in a dictionary of the first of `dictionary[from..]` that
/// has the object index `index`.
pub open spec fn object_from(dictionary: Seq<SdoObject>, index: u16, from: int) -> Option<int>
    decreases dictionary.len() - from,
{
    if from < 0 || from >= dictionary.len() {
        None
    } else if dictionary[from].info.index == index {
        Some(from)
    } else {
        object_from(dictionary, index, from + 1)
    }
}

/// The position in a dictionary of the object that an entry address names,
/// if the dictionary holds it.
pub open spec fn addressed_object(dictionary: Seq<SdoObject>, addr: SdoEntryAddr) -> Option<int> {
    match addr {
        SdoEntryAddr::Position(position, _) => if position < dictionary.len() {
            Some(position as int)
        } else {
            None
        },
        SdoEntryAddr::Index(index, _) => object_from(dictionary, index, 0),
    }
}

/// The subindex of an entry address.
pub open spec fn addressed_subindex(addr: SdoEntryAddr) -> u8 {
    match addr {
        SdoEntryAddr::Position(_, subindex) => subindex,
        SdoEntryAddr::Index(_, subindex) => subindex,
    }
}

/// Finds the first device that carries an alias.
fn find_alias(slaves: &Vec<Slave>, alias: u16) -> (base: Option<usize>)
    ensures
        base matches Some(b) ==> b < slaves@.len() && alias_from(slaves@, alias, 0) == Some(b as int),
        base is None ==> alias_from(slaves@, alias, 0) is None,
{
    let mut i: usize = 0;
    while i < slaves.len()
        invariant
            i <= slaves@.len(),
            alias_from(slaves@, alias, 0) == alias_from(slaves@, alias, i as int),
        decreases slaves@.len() - i,
    {
        if slaves[i].info.alias == alias {
            return Some(i);
        }
        i = i + 1;
    }
    None
}

/// Matches a slave configuration to a device of a scanned ring.
pub(crate) fn resolve(slaves: &Vec<Slave>, addr: SlaveAddr, id: SlaveId) -> (position: Option<u32>)
    requires
        slaves@.len() <= u32::MAX,
    ensures
        position == matched_position(slaves@, addr, id),
{
    let (alias, offset) = addr.as_pair();
    let base: usize = if alias == 0 {
        0
    } else {
        match find_alias(slaves, alias) {
            Some(base) => base,
            None => {
                return None;
            },
        }
    };
    let offset: usize = offset as usize;
    if offset >= slaves.len() - base {
        return None;
    }
    let position: usize = base + offset;
    let slave = &slaves[position];
    if slave.info.id == id {
        Some(position as u32)
    } else {
        None
    }
}

/// Finds the object that an entry address names.
pub(crate) fn find_object<'a>(dictionary: &'a Vec<SdoObject>, addr: SdoEntryAddr) -> (object: Option<
    &'a SdoObject,
>)
    ensures
        match addressed_object(dictionary@, addr) {
            Some(i) => 0 <= i < dictionary@.len() && object == Some(&dictionary@[i]),
            None => object is None,
        },
{
    match addr {
        SdoEntryAddr::Position(position, _) => {
            if position < dictionary.len() {
                Some(&dictionary[position])
            } else {
                None
            }
        },
        SdoEntryAddr::Index(index, _) => {
            let mut i: usize = 0;
            while i < dictionary.len()
                invariant
                    i <= dictionary@.len(),
                    addressed_object(dictionary@, addr) == object_from(dictionary@, index, i as int),
                decreases dictionary@.len() - i,
            {
                if dictionary[i].info.index == index {
                    return Some(&dictionary[i]);
                }
                i = i + 1;
            }
            None
        },
    }
}

/// The subindex of an entry address.
pub(crate) fn subindex_of(addr: SdoEntryAddr) -> (subindex: u8)
    ensures
        subindex == addressed_subindex(addr),
{
    match addr {
        SdoEntryAddr::Position(_, subindex) => subindex,
        SdoEntryAddr::Index(_, subindex) => subindex,
    }
}

} // verus!

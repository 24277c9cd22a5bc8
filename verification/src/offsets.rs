use crate::error::Error;
use crate::types::{Offset, PdoEntryIndex};
use vstd::prelude::*;

verus! {

/// Where one entry lies in a domain image.
#[derive(Debug, Clone, Copy, PartialEq, Eq, Structural)]
pub struct Placement {
    pub entry: PdoEntryIndex,
    pub bit_length: u8,
    pub offset: Offset,
}

/// The table that a record of placements stands for: every entry with the
/// placement that was recorded for it last.
pub open spec fn table_of(placements: Seq<Placement>) -> Map<PdoEntryIndex, (u8, Offset)>
    decreases placements.len(),
{
    if placements.len() == 0 {
        Map::empty()
    } else {
        table_of(placements.drop_last()).insert(
            placements.last().entry,
            (placements.last().bit_length, placements.last().offset),
        )
    }
}

/// What a table holds for a key.
pub open spec fn lookup(table: Map<PdoEntryIndex, (u8, Offset)>, entry: PdoEntryIndex) -> Option<
    (u8, Offset),
> {
    if table.contains_key(entry) {
        Some(table[entry])
    } else {
        None
    }
}

/// What reading an entry of `bit_length` bits at `offset` from an image
/// gives. Only entries that start at bit 0 of a byte and fill whole bytes
/// can be read; reading below byte granularity is not implemented.
pub open spec fn entry_bytes(image: Seq<u8>, bit_length: u8, offset: Offset) -> Result<
    Seq<u8>,
    Error,
> {
    if offset.bit != 0 || bit_length % 8 != 0 {
        Err(Error::UnsupportedPacking)
    } else if offset.byte + bit_length / 8 > image.len() {
        Err(Error::OutOfRange)
    } else {
        Ok(image.subrange(offset.byte as int, offset.byte + bit_length / 8))
    }
}

/// The offsets of the registered entries of a cyclic session: for each entry
/// its bit length and where it lies in the domain image.
pub struct OffsetTable {
    placements: Vec<Placement>,
}

impl View for OffsetTable {
    type V = Map<PdoEntryIndex, (u8, Offset)>;

    closed spec fn view(&self) -> Map<PdoEntryIndex, (u8, Offset)> {
        table_of(self.placements@)
    }
}

impl OffsetTable {
    pub fn new() -> (table: OffsetTable)
        ensures
            table@ == Map::<PdoEntryIndex, (u8, Offset)>::empty(),
    {
        OffsetTable { placements: Vec::new() }
    }

    /// Records where an entry lies. A later record for an entry replaces an
    /// earlier one.
    pub fn insert(&mut self, entry: PdoEntryIndex, bit_length: u8, offset: Offset)
        ensures
            final(self)@ == old(self)@.insert(entry, (bit_length, offset)),
    {
        self.placements.push(Placement { entry, bit_length, offset });
        proof {
            assert(self.placements@.drop_last() =~= old(self).placements@);
        }
    }

    /// The bit length and the offset of an entry.
    pub fn get(&self, entry: PdoEntryIndex) -> (found: Option<(u8, Offset)>)
        ensures
            found == lookup(self@, entry),
    {
        let mut i: usize = self.placements.len();
        proof {
            assert(self.placements@.take(i as int) =~= self.placements@);
        }
        while i > 0
            invariant
                i <= self.placements@.len(),
                lookup(self@, entry) == lookup(table_of(self.placements@.take(i as int)), entry),
            decreases i,
        {
            i = i - 1;
            let placement = self.placements[i];
            proof {
                assert(self.placements@.take(i + 1).drop_last() =~= self.placements@.take(i as int));
            }
            if placement.entry == entry {
                return Some((placement.bit_length, placement.offset));
            }
        }
        None
    }

    /// The bytes of an entry in a domain image.
    pub fn read(&self, entry: PdoEntryIndex, image: &[u8]) -> (r: Result<Vec<u8>, Error>)
        ensures
            match lookup(self@, entry) {
                None => r matches Err(e) && e == Error::NotRegistered,
                Some((bit_length, offset)) => match entry_bytes(image@, bit_length, offset) {
                    Err(error) => r matches Err(e) && e == error,
                    Ok(bytes) => r matches Ok(read) && read@ == bytes,
                },
            },
    {
        let (bit_length, offset) = match self.get(entry) {
            None => {
                return Err(Error::NotRegistered);
            },
            Some(found) => found,
        };
        if offset.bit != 0 || bit_length % 8 != 0 {
            return Err(Error::UnsupportedPacking);
        }
        let start: usize = offset.byte;
        let length: usize = (bit_length / 8) as usize;
        let total: usize = image.len();
        if start > total || length > total - start {
            return Err(Error::OutOfRange);
        }
        let mut bytes: Vec<u8> = Vec::new();
        let mut i: usize = 0;
        while i < length
            invariant
                i <= length,
                start + length <= total == image@.len(),
                bytes@ == image@.subrange(start as int, start + i),
            decreases length - i,
        {
            bytes.push(image[start + i]);
            proof {
                assert(bytes@ =~= image@.subrange(start as int, start + i + 1));
            }
            i = i + 1;
        }
        Ok(bytes)
    }
}

} // verus!

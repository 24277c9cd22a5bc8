use crate::error::Error;
use crate::types::{PdoEntryIndex, PdoEntryInfo, PdoInfo, SyncInfo};
use vstd::prelude::*;

verus! {

/// The entries of a list of PDOs, PDO after PDO, each PDO's entries in their
/// own order.
pub open spec fn pdo_entries(pdos: Seq<PdoInfo<'_>>) -> Seq<PdoEntryInfo>
    decreases pdos.len(),
{
    if pdos.len() == 0 {
        Seq::empty()
    } else {
        pdo_entries(pdos.drop_last()) + pdos.last().entries@
    }
}

/// The entries that a list of sync managers declares, in packing order: sync
/// manager after sync manager, within each PDO after PDO.
pub open spec fn sync_entries(syncs: Seq<SyncInfo<'_>>) -> Seq<PdoEntryInfo>
    decreases syncs.len(),
{
    if syncs.len() == 0 {
        Seq::empty()
    } else {
        sync_entries(syncs.drop_last()) + pdo_entries(syncs.last().pdos@)
    }
}

/// The first entry among `declared[from..]` with the identity `entry`.
pub open spec fn find_from(declared: Seq<PdoEntryInfo>, entry: PdoEntryIndex, from: int) -> Option<
    PdoEntryInfo,
>
    decreases declared.len() - from,
{
    if from < 0 || from >= declared.len() {
        None
    } else if declared[from].index == entry {
        Some(declared[from])
    } else {
        find_from(declared, entry, from + 1)
    }
}

/// The shape under which `entry` was declared: that of the first declared
/// entry with this identity, and `None` if there is none.
pub open spec fn declared_shape(declared: Seq<PdoEntryInfo>, entry: PdoEntryIndex) -> Option<
    PdoEntryInfo,
> {
    find_from(declared, entry, 0)
}

/// The sum of the bit lengths of the entries.
pub open spec fn total_bits(entries: Seq<PdoEntryInfo>) -> nat
    decreases entries.len(),
{
    if entries.len() == 0 {
        0
    } else {
        total_bits(entries.drop_last()) + entries.last().bit_length as nat
    }
}

/// Whether every entry starts and ends on a byte boundary when the entries
/// are packed one after the other from a byte boundary on.
pub open spec fn byte_aligned(entries: Seq<PdoEntryInfo>) -> bool {
    forall|i: int| 0 <= i < entries.len() ==> (#[trigger] entries[i]).bit_length % 8 == 0
}

/// Whether every entry has at least one bit.
pub open spec fn positive(entries: Seq<PdoEntryInfo>) -> bool {
    forall|i: int| 0 <= i < entries.len() ==> (#[trigger] entries[i]).bit_length > 0
}

/// Whether no identity is declared twice.
pub open spec fn distinct(entries: Seq<PdoEntryInfo>) -> bool {
    forall|i: int, j: int|
        0 <= i < j < entries.len() ==> (#[trigger] entries[i]).index != (#[trigger] entries[j]).index
}

/// What is wrong with a declaration, if anything is: every entry has at
/// least one bit, and no identity stands for two entries of one slave.
pub open spec fn declaration_fault(entries: Seq<PdoEntryInfo>) -> Option<Error> {
    if !positive(entries) {
        Some(Error::EmptyEntry)
    } else if !distinct(entries) {
        Some(Error::DuplicateEntry)
    } else {
        None
    }
}

/// Lists the entries that the sync managers declare, in packing order.
pub(crate) fn collect_entries(syncs: &[SyncInfo<'_>]) -> (declared: Vec<PdoEntryInfo>)
    ensures
        declared@ == sync_entries(syncs@),
{
    let mut declared: Vec<PdoEntryInfo> = Vec::new();
    let mut s: usize = 0;
    while s < syncs.len()
        invariant
            s <= syncs@.len(),
            declared@ == sync_entries(syncs@.take(s as int)),
        decreases syncs@.len() - s,
    {
        let pdos = syncs[s].pdos;
        let ghost before = declared@;
        let mut p: usize = 0;
        while p < pdos.len()
            invariant
                p <= pdos@.len(),
                declared@ == before + pdo_entries(pdos@.take(p as int)),
            decreases pdos@.len() - p,
        {
            let entries = pdos[p].entries;
            let ghost head = declared@;
            let mut e: usize = 0;
            while e < entries.len()
                invariant
                    e <= entries@.len(),
                    declared@ == head + entries@.take(e as int),
                decreases entries@.len() - e,
            {
                declared.push(entries[e]);
                proof {
                    assert(entries@.take(e + 1) =~= entries@.take(e as int).push(entries@[e as int]));
                }
                e = e + 1;
            }
            proof {
                assert(entries@.take(e as int) =~= entries@);
                assert(pdos@.take(p + 1).drop_last() =~= pdos@.take(p as int));
                assert(declared@ =~= before + pdo_entries(pdos@.take(p + 1)));
            }
            p = p + 1;
        }
        proof {
            assert(pdos@.take(p as int) =~= pdos@);
            assert(syncs@.take(s + 1).drop_last() =~= syncs@.take(s as int));
        }
        s = s + 1;
    }
    proof {
        assert(syncs@.take(s as int) =~= syncs@);
    }
    declared
}

/// Looks up the shape under which an entry was declared.
pub(crate) fn find_entry(declared: &Vec<PdoEntryInfo>, entry: PdoEntryIndex) -> (shape: Option<
    PdoEntryInfo,
>)
    ensures
        shape == declared_shape(declared@, entry),
{
    let mut i: usize = 0;
    while i < declared.len()
        invariant
            i <= declared@.len(),
            declared_shape(declared@, entry) == find_from(declared@, entry, i as int),
        decreases declared@.len() - i,
    {
        if declared[i].index == entry {
            return Some(declared[i]);
        }
        i = i + 1;
    }
    None
}

/// Looks for what is wrong with a declaration.
pub(crate) fn check_declaration(declared: &Vec<PdoEntryInfo>) -> (fault: Option<Error>)
    ensures
        fault == declaration_fault(declared@),
{
    let mut i: usize = 0;
    while i < declared.len()
        invariant
            i <= declared@.len(),
            forall|k: int| 0 <= k < i ==> (#[trigger] declared@[k]).bit_length > 0,
        decreases declared@.len() - i,
    {
        if declared[i].bit_length == 0 {
            return Some(Error::EmptyEntry);
        }
        i = i + 1;
    }
    let mut j: usize = 0;
    while j < declared.len()
        invariant
            j <= declared@.len(),
            positive(declared@),
            forall|a: int, b: int|
                0 <= a < b < j ==> (#[trigger] declared@[a]).index != (#[trigger] declared@[b]).index,
        decreases declared@.len() - j,
    {
        let mut k: usize = 0;
        while k < j
            invariant
                k <= j < declared@.len(),
                positive(declared@),
                forall|a: int, b: int|
                    0 <= a < b < j ==> (#[trigger] declared@[a]).index != (
                    #[trigger] declared@[b]).index,
                forall|a: int| 0 <= a < k ==> (#[trigger] declared@[a]).index != declared@[j as int].index,
            decreases j - k,
        {
            if declared[k].index == declared[j].index {
                return Some(Error::DuplicateEntry);
            }
            k = k + 1;
        }
        j = j + 1;
    }
    None
}

} // verus!

use crate::error::Error;
use crate::exchange::InboundView;
use crate::layout::{byte_aligned, declared_shape, distinct, find_from, sync_entries, total_bits};
use crate::model::{queued_images, DomainView, MasterView};
use crate::ring::{addressed, alias_from, Slave};
use crate::sdo::DataType;
use crate::state::{AlState, MasterInfo, WcState};
use crate::types::{Offset, PdoEntryIndex, PdoEntryInfo, SlaveAddr, SlaveId, SyncInfo};
use vstd::prelude::*;

verus! {

/// Decoding inverts encoding for every application-layer state, the codes of
/// the states are 1, 2, 4 and 8, and no other code decodes.
pub proof fn law_al_state_codes(state: AlState, code: u32)
    ensures
        AlState::of_code(state.code()) == Some(state),
        AlState::of_code(code) is Some <==> code == 1 || code == 2 || code == 4 || code == 8,
        AlState::of_code(code) matches Some(decoded) ==> decoded.code() == code,
{
}

/// Decoding inverts encoding for every working counter state, the codes of
/// the states are 0, 1 and 2, and no other code decodes.
pub proof fn law_wc_state_codes(state: WcState, code: u32)
    ensures
        WcState::of_code(state.code()) == Some(state),
        WcState::of_code(code) is Some <==> code == 0 || code == 1 || code == 2,
        WcState::of_code(code) matches Some(decoded) ==> decoded.code() == code,
{
}

/// A data type has a width exactly if it is none of the strings and not raw
/// data, a width is between 1 and 8 bytes, and no two types share a code.
pub proof fn law_data_type_widths(a: DataType, b: DataType)
    ensures
        a.width() is None <==> a == DataType::String || a == DataType::OctetString || a
            == DataType::UnicodeString || a == DataType::Raw,
        a.width() matches Some(bytes) ==> 1 <= bytes <= 8,
        a.code() == b.code() ==> a == b,
{
}

/// The identities of the entries, entry by entry.
pub open spec fn identities(entries: Seq<PdoEntryInfo>) -> Seq<PdoEntryIndex> {
    Seq::new(entries.len(), |i: int| entries[i].index)
}

/// One call to register an entry: for which slave, which entry, and in
/// which domain.
pub struct Registration {
    pub config: int,
    pub entry: PdoEntryIndex,
    pub domain: int,
}

/// The master after the calls were made one after the other.
pub open spec fn registered(master: MasterView, calls: Seq<Registration>) -> MasterView
    decreases calls.len(),
{
    if calls.len() == 0 {
        master
    } else {
        registered(master, calls.drop_last()).register_state(
            calls.last().config,
            calls.last().entry,
            calls.last().domain,
        )
    }
}

/// What call `i` of the calls returned.
pub open spec fn outcome(master: MasterView, calls: Seq<Registration>, i: int) -> Result<
    Offset,
    Error,
> {
    registered(master, calls.take(i)).register_result(
        calls[i].config,
        calls[i].entry,
        calls[i].domain,
    )
}

/// The number of bytes of the entry that call `i` placed, where it placed
/// one.
pub open spec fn placed_bytes(master: MasterView, calls: Seq<Registration>, i: int) -> nat {
    let before = registered(master, calls.take(i));
    let shape = declared_shape(before.configs[calls[i].config].declared, calls[i].entry);
    (shape.unwrap().bit_length / 8) as nat
}

/// The calls that register the entries one after the other, all for one
/// slave and in one domain.
pub open spec fn calls_for(config: int, entries: Seq<PdoEntryIndex>, domain: int) -> Seq<
    Registration,
> {
    Seq::new(entries.len(), |i: int| Registration { config, entry: entries[i], domain })
}

proof fn lemma_find_from_distinct(declared: Seq<PdoEntryInfo>, i: int, from: int)
    requires
        distinct(declared),
        0 <= from <= i < declared.len(),
    ensures
        find_from(declared, declared[i].index, from) == Some(declared[i]),
    decreases i - from,
{
    if from < i {
        lemma_find_from_distinct(declared, i, from + 1);
    }
}

proof fn lemma_total_bits_aligned(entries: Seq<PdoEntryInfo>)
    requires
        byte_aligned(entries),
    ensures
        total_bits(entries) % 8 == 0,
        entries.len() > 0 ==> total_bits(entries) / 8 == total_bits(entries.drop_last()) / 8
            + entries.last().bit_length / 8,
    decreases entries.len(),
{
    if entries.len() > 0 {
        let head = entries.drop_last();
        assert(byte_aligned(head)) by {
            assert forall|i: int| 0 <= i < head.len() implies (#[trigger] head[i]).bit_length % 8
                == 0 by {
                assert(head[i] == entries[i]);
            }
        }
        lemma_total_bits_aligned(head);
        assert(entries.last().bit_length % 8 == 0);
    }
}

/// What one registration keeps and what it changes.
proof fn lemma_register_step(master: MasterView, config: int, entry: PdoEntryIndex, domain: int)
    requires
        master.inv(),
    ensures
        ({
            let next = master.register_state(config, entry, domain);
            &&& next.inv()
            &&& next.active == master.active
            &&& next.domains.len() == master.domains.len()
            &&& next.configs.len() == master.configs.len()
            &&& forall|c: int|
                0 <= c < master.configs.len() ==> (#[trigger] next.configs[c]).declared
                    == master.configs[c].declared
            &&& forall|d: int|
                0 <= d < master.domains.len() ==> (#[trigger] next.domains[d]).size
                    >= master.domains[d].size
            &&& forall|d: int|
                0 <= d < master.domains.len() ==> (#[trigger] next.domains[d]).data
                    == master.domains[d].data
            &&& master.register_result(config, entry, domain) matches Ok(offset) ==> {
                let shape = declared_shape(master.configs[config].declared, entry);
                &&& offset.byte == master.domains[domain].size
                &&& next.domains[domain].size == offset.byte + shape.unwrap().bit_length / 8
            }
        }),
{
}

proof fn lemma_registered_keeps(master: MasterView, calls: Seq<Registration>)
    requires
        master.inv(),
    ensures
        ({
            let next = registered(master, calls);
            &&& next.inv()
            &&& next.active == master.active
            &&& next.domains.len() == master.domains.len()
            &&& next.configs.len() == master.configs.len()
            &&& forall|c: int|
                0 <= c < master.configs.len() ==> (#[trigger] next.configs[c]).declared
                    == master.configs[c].declared
            &&& forall|d: int|
                0 <= d < master.domains.len() ==> (#[trigger] next.domains[d]).size
                    >= master.domains[d].size
        }),
    decreases calls.len(),
{
    if calls.len() > 0 {
        lemma_registered_keeps(master, calls.drop_last());
        lemma_register_step(
            registered(master, calls.drop_last()),
            calls.last().config,
            calls.last().entry,
            calls.last().domain,
        );
    }
}

/// Domains only grow from one call to a later one.
proof fn lemma_registered_grows(master: MasterView, calls: Seq<Registration>, i: int, j: int)
    requires
        master.inv(),
        0 <= i <= j <= calls.len(),
    ensures
        registered(master, calls.take(i)).domains.len() == master.domains.len(),
        registered(master, calls.take(j)).domains.len() == master.domains.len(),
        forall|d: int|
            0 <= d < master.domains.len() ==> registered(master, calls.take(i)).domains[d].size
                <= (#[trigger] registered(master, calls.take(j)).domains[d]).size,
    decreases j - i,
{
    lemma_registered_keeps(master, calls.take(i));
    if i < j {
        lemma_registered_grows(master, calls, i, j - 1);
        assert(calls.take(j).drop_last() =~= calls.take(j - 1));
        lemma_registered_keeps(master, calls.take(j - 1));
        lemma_register_step(
            registered(master, calls.take(j - 1)),
            calls[j - 1].config,
            calls[j - 1].entry,
            calls[j - 1].domain,
        );
    }
}

/// A call that placed an entry left its domain ending where the entry ends.
proof fn lemma_placed(master: MasterView, calls: Seq<Registration>, i: int)
    requires
        master.inv(),
        0 <= i < calls.len(),
        outcome(master, calls, i) is Ok,
    ensures
        master.has_domain(calls[i].domain),
        registered(master, calls.take(i)).domains[calls[i].domain].size == outcome(
            master,
            calls,
            i,
        ).unwrap().byte,
        registered(master, calls.take(i + 1)).domains[calls[i].domain].size == outcome(
            master,
            calls,
            i,
        ).unwrap().byte + placed_bytes(master, calls, i),
{
    lemma_registered_keeps(master, calls.take(i));
    assert(calls.take(i + 1).drop_last() =~= calls.take(i));
    lemma_register_step(
        registered(master, calls.take(i)),
        calls[i].config,
        calls[i].entry,
        calls[i].domain,
    );
}

/// The entries that were placed in a domain do not overlap: of two calls
/// that placed an entry in the same domain, for whatever slaves, the later
/// entry starts at or behind the end of the earlier one. So the offsets that
/// successive registrations return never decrease.
pub proof fn law_entries_do_not_overlap(
    master: MasterView,
    calls: Seq<Registration>,
    i: int,
    j: int,
)
    requires
        master.inv(),
        0 <= i < j < calls.len(),
        calls[i].domain == calls[j].domain,
        outcome(master, calls, i) is Ok,
        outcome(master, calls, j) is Ok,
    ensures
        outcome(master, calls, i).unwrap().byte + placed_bytes(master, calls, i) <= outcome(
            master,
            calls,
            j,
        ).unwrap().byte,
        outcome(master, calls, i).unwrap().byte <= outcome(master, calls, j).unwrap().byte,
{
    lemma_placed(master, calls, i);
    lemma_placed(master, calls, j);
    lemma_registered_grows(master, calls, i + 1, j);
    let d = calls[i].domain;
    assert(registered(master, calls.take(i + 1)).domains[d].size <= registered(
        master,
        calls.take(j),
    ).domains[d].size);
}

/// Every entry that was placed lies within its domain, however many entries
/// were registered after it: it ends at or before the end of what the
/// domain holds at last, which is the size of the image from activation on.
pub proof fn law_entries_fit_the_image(master: MasterView, calls: Seq<Registration>, i: int)
    requires
        master.inv(),
        0 <= i < calls.len(),
        outcome(master, calls, i) is Ok,
    ensures
        master.has_domain(calls[i].domain),
        outcome(master, calls, i).unwrap().byte + placed_bytes(master, calls, i) <= registered(
            master,
            calls,
        ).domains[calls[i].domain].size,
        registered(master, calls).activate_refusal() is None ==> outcome(
            master,
            calls,
            i,
        ).unwrap().byte + placed_bytes(master, calls, i) <= registered(
            master,
            calls,
        ).activate_next().domains[calls[i].domain].data.len(),
{
    lemma_placed(master, calls, i);
    lemma_registered_grows(master, calls, i + 1, calls.len() as int);
    assert(calls.take(calls.len() as int) =~= calls);
    let d = calls[i].domain;
    assert(registered(master, calls.take(i + 1)).domains[d].size <= registered(
        master,
        calls.take(calls.len() as int),
    ).domains[d].size);
}

proof fn lemma_register_declared(
    master: MasterView,
    config: int,
    declared: Seq<PdoEntryInfo>,
    domain: int,
    k: int,
)
    requires
        master.inv(),
        master.has_config(config),
        master.has_domain(domain),
        !master.active,
        master.configs[config].declared == declared,
        byte_aligned(declared),
        distinct(declared),
        0 <= k <= declared.len(),
        master.domains[domain].size + total_bits(declared.take(k)) / 8 <= usize::MAX,
    ensures
        ({
            let calls = calls_for(config, identities(declared).take(k), domain);
            &&& registered(master, calls).domains[domain].size == master.domains[domain].size
                + total_bits(declared.take(k)) / 8
            &&& forall|i: int| 0 <= i < k ==> (#[trigger] outcome(master, calls, i)) is Ok
        }),
    decreases k,
{
    let ids = identities(declared).take(k);
    let calls = calls_for(config, ids, domain);
    if k > 0 {
        let head = declared.take(k - 1);
        let earlier = calls_for(config, identities(declared).take(k - 1), domain);
        assert(declared.take(k).drop_last() =~= head);
        assert(calls.drop_last() =~= earlier);
        assert(byte_aligned(declared.take(k))) by {
            assert forall|i: int| 0 <= i < k implies (#[trigger] declared.take(k)[i]).bit_length
                % 8 == 0 by {
                assert(declared.take(k)[i] == declared[i]);
            }
        }
        lemma_total_bits_aligned(declared.take(k));
        lemma_register_declared(master, config, declared, domain, k - 1);
        let before = registered(master, earlier);
        lemma_registered_keeps(master, earlier);
        lemma_find_from_distinct(declared, k - 1, 0);
        assert(calls.last().entry == declared[k - 1].index);
        assert(declared.take(k).last() == declared[k - 1]);
        assert(before.configs[config].declared == declared);
        assert(before.register_refusal(config, calls.last().entry, domain) is None);
        assert forall|i: int| 0 <= i < k implies (#[trigger] outcome(master, calls, i)) is Ok by {
            if i < k - 1 {
                assert(calls.take(i) =~= earlier.take(i));
                assert(outcome(master, earlier, i) is Ok);
            } else {
                assert(calls.take(i) =~= earlier);
            }
        }
    } else {
        assert(declared.take(0) =~= Seq::<PdoEntryInfo>::empty());
    }
}

/// Where the sync managers of a slave declare entries that all fill whole
/// bytes, registering every declared entry in one domain, in packing order,
/// succeeds entry by entry and makes the domain grow by the total bit length
/// of the entries, in bytes.
pub proof fn law_registered_bytes(
    master: MasterView,
    config: int,
    syncs: Seq<SyncInfo<'_>>,
    domain: int,
)
    requires
        master.inv(),
        master.config_pdos_refusal(config, syncs) is None,
        master.has_domain(domain),
        byte_aligned(sync_entries(syncs)),
        master.domains[domain].size + (total_bits(sync_entries(syncs)) + 7) / 8 <= usize::MAX,
    ensures
        ({
            let declared = master.config_pdos_next(config, syncs);
            let calls = calls_for(config, identities(sync_entries(syncs)), domain);
            &&& registered(declared, calls).domains[domain].size == master.domains[domain].size
                + (total_bits(sync_entries(syncs)) + 7) / 8
            &&& forall|i: int|
                0 <= i < calls.len() ==> (#[trigger] outcome(declared, calls, i)) is Ok
        }),
{
    let declared = master.config_pdos_next(config, syncs);
    let shapes = sync_entries(syncs);
    lemma_total_bits_aligned(shapes);
    assert(shapes.take(shapes.len() as int) =~= shapes);
    assert(identities(shapes).take(shapes.len() as int) =~= identities(shapes));
    lemma_register_declared(declared, config, shapes, domain, shapes.len() as int);
}

/// An entry that does not fill whole bytes is never placed: registering it
/// reports that the packing is not supported and changes nothing. Every
/// entry that is placed starts at bit 0 of its byte.
pub proof fn law_sub_byte_entries_refused(
    master: MasterView,
    config: int,
    entry: PdoEntryIndex,
    domain: int,
)
    requires
        master.has_config(config),
        master.has_domain(domain),
        !master.active,
    ensures
        declared_shape(master.configs[config].declared, entry) matches Some(shape)
            && shape.bit_length % 8 != 0 ==> master.register_result(config, entry, domain) == Err::<
            Offset,
            Error,
        >(Error::UnsupportedPacking) && master.register_state(config, entry, domain) == master,
        master.register_result(config, entry, domain) matches Ok(offset) ==> offset.bit == 0,
{
}

proof fn lemma_runs_agree(
    a: MasterView,
    b: MasterView,
    config: int,
    entries: Seq<PdoEntryIndex>,
    domain: int,
)
    requires
        a.has_config(config),
        b.has_config(config),
        a.has_domain(domain),
        b.has_domain(domain),
        a.active == b.active,
        a.configs[config].declared == b.configs[config].declared,
        a.domains[domain].size == b.domains[domain].size,
    ensures
        ({
            let x = registered(a, calls_for(config, entries, domain));
            let y = registered(b, calls_for(config, entries, domain));
            &&& x.has_config(config)
            &&& y.has_config(config)
            &&& x.has_domain(domain)
            &&& y.has_domain(domain)
            &&& x.active == y.active
            &&& x.configs[config].declared == y.configs[config].declared
            &&& x.domains[domain].size == y.domains[domain].size
        }),
    decreases entries.len(),
{
    if entries.len() > 0 {
        lemma_runs_agree(a, b, config, entries.drop_last(), domain);
        assert(calls_for(config, entries, domain).drop_last() =~= calls_for(
            config,
            entries.drop_last(),
            domain,
        ));
    }
}

/// The offsets that registrations for one slave in one domain return are
/// settled by the declaration of the slave and by what the domain holds: two
/// masters that agree on these, and on being active or not, return the
/// same for the same registrations in the same order, whatever else they
/// hold.
pub proof fn law_offsets_determined(
    a: MasterView,
    b: MasterView,
    config: int,
    entries: Seq<PdoEntryIndex>,
    domain: int,
    i: int,
)
    requires
        a.has_config(config),
        b.has_config(config),
        a.has_domain(domain),
        b.has_domain(domain),
        a.active == b.active,
        a.configs[config].declared == b.configs[config].declared,
        a.domains[domain].size == b.domains[domain].size,
        0 <= i < entries.len(),
    ensures
        outcome(a, calls_for(config, entries, domain), i) == outcome(
            b,
            calls_for(config, entries, domain),
            i,
        ),
{
    lemma_runs_agree(a, b, config, entries.take(i), domain);
    assert(calls_for(config, entries, domain).take(i) =~= calls_for(
        config,
        entries.take(i),
        domain,
    ));
}

/// Activation freezes the layout: an active master refuses to create a
/// domain, to declare the layout of a slave and to register an entry, and
/// neither the cyclic exchange nor a scan changes the size of a domain.
pub proof fn law_layout_frozen(
    master: MasterView,
    config: int,
    entry: PdoEntryIndex,
    domain: int,
    inbound: InboundView,
    info: MasterInfo,
    slaves: Seq<Slave>,
    syncs: Seq<SyncInfo<'_>>,
    d: int,
)
    requires
        master.inv(),
        master.active,
        master.has_domain(d),
    ensures
        master.create_domain_refusal() is Some,
        master.config_pdos_refusal(config, syncs) is Some,
        master.register_refusal(config, entry, domain) is Some,
        master.register_state(config, entry, domain) == master,
        master.receive_next(inbound).domains[d].size == master.domains[d].size,
        master.has_domain(domain) ==> master.process_next(domain).domains[d].size
            == master.domains[d].size,
        master.has_domain(domain) ==> master.queue_next(domain).domains[d].size
            == master.domains[d].size,
        master.send_next().domains[d].size == master.domains[d].size,
        master.rescan_next(info, slaves).domains[d].size == master.domains[d].size,
{
}

/// Whether `position` is the ring position that an address designates: the
/// position itself where the alias is 0, else so many places behind the
/// first device that carries the alias.
pub open spec fn designates(slaves: Seq<Slave>, addr: SlaveAddr, position: int) -> bool {
    let (alias, offset) = addr.pair();
    &&& 0 <= position < slaves.len()
    &&& if alias == 0 {
        position == offset
    } else {
        exists|base: int|
            {
                &&& 0 <= base < slaves.len()
                &&& #[trigger] slaves[base].info.alias == alias
                &&& forall|k: int| 0 <= k < base ==> #[trigger] slaves[k].info.alias != alias
                &&& position == base + offset
            }
    }
}

proof fn lemma_alias_from(slaves: Seq<Slave>, alias: u16, from: int)
    requires
        0 <= from,
    ensures
        match alias_from(slaves, alias, from) {
            Some(base) => from <= base < slaves.len() && slaves[base].info.alias == alias
                && forall|k: int| from <= k < base ==> #[trigger] slaves[k].info.alias != alias,
            None => forall|k: int|
                from <= k < slaves.len() ==> #[trigger] slaves[k].info.alias != alias,
        },
    decreases slaves.len() - from,
{
    if from < slaves.len() && slaves[from].info.alias != alias {
        lemma_alias_from(slaves, alias, from + 1);
    }
}

/// A slave configuration has no slave position exactly if the ring could not
/// match it: no responding device stands at the position that the address
/// designates and has the expected identity. Where it has one, that device
/// stands there.
pub proof fn law_unmatched_configuration(master: MasterView, config: int)
    requires
        master.inv(),
        master.has_config(config),
    ensures
        ({
            let addr = master.configs[config].addr;
            let id = master.configs[config].id;
            let found = master.config_info(config).slave_position;
            &&& found is None <==> forall|position: int|
                !(designates(master.slaves, addr, position) && master.slaves[position].info.id
                    == id)
            &&& found matches Some(position) ==> designates(master.slaves, addr, position as int)
                && master.slaves[position as int].info.id == id
        }),
{
    let slaves = master.slaves;
    let addr = master.configs[config].addr;
    let id = master.configs[config].id;
    let (alias, offset) = addr.pair();
    lemma_alias_from(slaves, alias, 0);
    match addressed(slaves, addr) {
        Some(position) => {
            assert(designates(slaves, addr, position)) by {
                if alias != 0 {
                    let base = alias_from(slaves, alias, 0).unwrap();
                    assert(slaves[base].info.alias == alias);
                }
            }
            assert forall|other: int| designates(slaves, addr, other) implies other
                == position by {
                if alias != 0 {
                    let base = alias_from(slaves, alias, 0).unwrap();
                    let witness = choose|w: int|
                        {
                            &&& 0 <= w < slaves.len()
                            &&& #[trigger] slaves[w].info.alias == alias
                            &&& forall|k: int| 0 <= k < w ==> #[trigger] slaves[k].info.alias != alias
                            &&& other == w + offset
                        };
                    assert(witness == base) by {
                        if witness < base {
                            assert(slaves[witness].info.alias != alias);
                        }
                        if base < witness {
                            assert(slaves[base].info.alias != alias);
                        }
                    }
                }
            }
        },
        None => {
            assert forall|other: int| !designates(slaves, addr, other) by {
                if designates(slaves, addr, other) {
                    if alias != 0 {
                        let witness = choose|w: int|
                            {
                                &&& 0 <= w < slaves.len()
                                &&& #[trigger] slaves[w].info.alias == alias
                                &&& forall|k: int|
                                    0 <= k < w ==> #[trigger] slaves[k].info.alias != alias
                                &&& other == w + offset
                            };
                        match alias_from(slaves, alias, 0) {
                            Some(base) => {
                                if witness < base {
                                    assert(slaves[witness].info.alias != alias);
                                }
                                if base < witness {
                                    assert(slaves[base].info.alias != alias);
                                }
                            },
                            None => {
                                assert(slaves[witness].info.alias != alias);
                            },
                        }
                    }
                }
            }
        },
    }
}

/// The state of the ring that a master reports changes with an inbound
/// exchange only, and its static information with a scan only: every other
/// operation leaves both as they were, so that asking twice gives the same
/// answer twice.
pub proof fn law_snapshots_stable(
    master: MasterView,
    config: int,
    domain: int,
    entry: PdoEntryIndex,
    addr: SlaveAddr,
    id: SlaveId,
    syncs: Seq<SyncInfo<'_>>,
    image: Seq<u8>,
)
    ensures
        master.create_domain_next().state == master.state,
        master.create_domain_next().info == master.info,
        master.configure_slave_next(addr, id).state == master.state,
        master.configure_slave_next(addr, id).info == master.info,
        master.config_pdos_next(config, syncs).state == master.state,
        master.config_pdos_next(config, syncs).info == master.info,
        master.register_state(config, entry, domain).state == master.state,
        master.register_state(config, entry, domain).info == master.info,
        master.activate_next().state == master.state,
        master.activate_next().info == master.info,
        master.process_next(domain).state == master.state,
        master.process_next(domain).info == master.info,
        master.queue_next(domain).state == master.state,
        master.queue_next(domain).info == master.info,
        master.send_next().state == master.state,
        master.send_next().info == master.info,
        master.with_image(domain, image).state == master.state,
        master.with_image(domain, image).info == master.info,
{
}

/// The frames of an outbound exchange are the images of the queued domains
/// and no others, in the order of the domain indices.
pub proof fn law_outbound_frames(domains: Seq<DomainView>)
    ensures
        forall|k: int|
            0 <= k < queued_images(domains).len() ==> {
                let frame = #[trigger] queued_images(domains)[k];
                &&& 0 <= frame.0 < domains.len()
                &&& domains[frame.0].queued
                &&& frame.1 == domains[frame.0].data
            },
        forall|k: int, l: int|
            0 <= k < l < queued_images(domains).len() ==> (#[trigger] queued_images(domains)[k]).0
                < (#[trigger] queued_images(domains)[l]).0,
        forall|d: int|
            0 <= d < domains.len() && (#[trigger] domains[d]).queued ==> queued_images(
                domains,
            ).contains((d, domains[d].data)),
    decreases domains.len(),
{
    if domains.len() > 0 {
        let head = domains.drop_last();
        let last = domains.len() - 1;
        law_outbound_frames(head);
        let frames = queued_images(domains);
        let before = queued_images(head);
        assert forall|d: int| 0 <= d < domains.len() && (#[trigger] domains[d]).queued implies frames.contains(
            (d, domains[d].data),
        ) by {
            if d < last {
                assert(head[d].queued);
                let k = choose|k: int| 0 <= k < before.len() && before[k] == (d, head[d].data);
                assert(frames[k] == (d, domains[d].data));
            } else {
                assert(frames[frames.len() - 1] == (d, domains[d].data));
            }
        }
    }
}

/// What the application reads from a domain after the domain has processed
/// is what the latest inbound exchange delivered: the image and the working
/// counter of its frame, in an image of the size of the domain.
pub proof fn law_reads_reflect_the_exchange(master: MasterView, inbound: InboundView, domain: int)
    requires
        master.inv(),
        master.has_domain(domain),
        master.receive_refusal(inbound) is None,
        master.receive_next(inbound).process_refusal(domain) is None,
    ensures
        ({
            let after = master.receive_next(inbound).process_next(domain);
            let frame = inbound.frames[domain];
            &&& after.domains[domain].data == frame.data
            &&& after.domains[domain].data.len() == master.domains[domain].size
            &&& after.domains[domain].state.working_counter == frame.working_counter
            &&& after.domains[domain].state.redundancy_active == frame.redundancy_active
            &&& WcState::of_code(frame.wc_state) == Some(after.domains[domain].state.wc_state)
        }),
{
}

/// What the application writes to the image of a domain before it queues
/// the domain goes out with the next outbound exchange.
pub proof fn law_writes_reach_the_ring(master: MasterView, domain: int, data: Seq<u8>)
    requires
        master.has_domain(domain),
    ensures
        queued_images(master.with_image(domain, data).queue_next(domain).domains).contains(
            (domain, data),
        ),
        master.with_image(domain, data).queue_next(domain).send_refusal() == master.send_refusal(),
{
    let queued = master.with_image(domain, data).queue_next(domain);
    law_outbound_frames(queued.domains);
    assert(queued.domains[domain].queued);
}

} // verus!

use ethercat::{
    AlState, Availability, DomainFrame, DomainIndex, DomainState, Error, Inbound, Master,
    MasterAccess, MasterInfo, MasterState, Offset, PdoEntryIndex, PdoEntryInfo, PdoInfo, Slave,
    SlaveAddr, SlaveId, SlaveInfo, SlavePortInfo, SlaveRev, SyncInfo, WcState,
};

const ID: SlaveId = SlaveId { vendor_id: 0x2, product_code: 0x0bb9_3052 };

fn slave(ring_pos: u16) -> Slave {
    Slave {
        info: SlaveInfo {
            name: String::from("input terminal"),
            ring_pos,
            id: ID,
            rev: SlaveRev::new(0x0010_0000, 0),
            alias: 0,
            current_on_ebus: 90,
            al_state: AlState::Op,
            error_flag: 0,
            sync_count: 2,
            sdo_count: 0,
            ports: [SlavePortInfo::default(); 4],
        },
        dictionary: Vec::new(),
    }
}

fn scan(count: u16) -> (MasterInfo, Vec<Slave>) {
    (
        MasterInfo { slave_count: count as u32, link_up: true, scan_busy: false, app_time: 42 },
        (0..count).map(slave).collect(),
    )
}

fn frame(data: &[u8], working_counter: u32, wc_state: u32) -> DomainFrame {
    DomainFrame { data: data.to_vec(), working_counter, wc_state, redundancy_active: false }
}

fn inbound(frames: Vec<DomainFrame>) -> Inbound {
    Inbound { slaves_responding: frames.len() as u32, al_states: 8, link_up: true, frames }
}

/// A master with `domains` domains, each with the two bytes of one slave's
/// input PDO, and a ring of as many slaves.
fn configured(domains: u16) -> (Master, Vec<DomainIndex>) {
    let mut master = Master::reserve(0, Availability::Free).unwrap();
    let (info, slaves) = scan(domains);
    master.rescan(info, slaves).unwrap();
    let entries = [PdoEntryInfo { index: PdoEntryIndex::new(0x6000, 1), bit_length: 16 }];
    let pdos = [PdoInfo { index: 0x1a00, entries: &entries }];
    let syncs = [SyncInfo::input(3, &pdos)];
    let mut indices = Vec::new();
    for position in 0..domains {
        let domain = master.create_domain().unwrap();
        let mut config = master.configure_slave(SlaveAddr::ByPos(position), ID).unwrap();
        config.config_pdos(&syncs).unwrap();
        assert_eq!(config.register_pdo_entry(entries[0].index, domain), Ok(Offset::new(0, 0)));
        indices.push(domain);
    }
    (master, indices)
}

#[test]
fn two_domains_take_part_in_the_exchange() {
    let (mut master, domains) = configured(2);
    master.activate().unwrap();
    assert_eq!(master.domain_data(domains[0]).unwrap(), &[0u8, 0]);
    assert_eq!(master.domain_data(domains[1]).unwrap(), &[0u8, 0]);

    master.receive(inbound(vec![frame(&[0x11, 0x22], 1, 2), frame(&[0x33, 0x44], 3, 1)])).unwrap();
    master.domain(domains[0]).process().unwrap();
    master.domain(domains[1]).process().unwrap();

    assert_eq!(master.domain_data(domains[0]).unwrap().len(), 2);
    assert_eq!(master.domain_data(domains[1]).unwrap().len(), 2);
    assert_eq!(master.domain_data(domains[0]).unwrap(), &[0x11u8, 0x22]);
    assert_eq!(master.domain_data(domains[1]).unwrap(), &[0x33u8, 0x44]);
    assert_eq!(
        master.domain(domains[0]).state(),
        Ok(DomainState { working_counter: 1, wc_state: WcState::Complete, redundancy_active: false })
    );
    assert_eq!(
        master.domain(domains[1]).state(),
        Ok(DomainState {
            working_counter: 3,
            wc_state: WcState::Incomplete,
            redundancy_active: false
        })
    );
    assert_eq!(
        master.state(),
        MasterState { slaves_responding: 2, al_states: 8, link_up: true }
    );
}

#[test]
fn snapshots_repeat_between_exchanges() {
    let (mut master, domains) = configured(1);
    let before = master.state();
    assert_eq!(before, MasterState { slaves_responding: 0, al_states: 0, link_up: false });
    assert_eq!(master.state(), before);
    let info = master.get_info();
    assert_eq!(
        info,
        MasterInfo { slave_count: 1, link_up: true, scan_busy: false, app_time: 42 }
    );
    assert_eq!(master.get_info(), info);
    master.activate().unwrap();
    master.receive(inbound(vec![frame(&[1, 2], 1, 2)])).unwrap();
    let first = master.state();
    let second = master.state();
    assert_eq!(first, second);
    assert_eq!(first, MasterState { slaves_responding: 1, al_states: 8, link_up: true });
    master.domain(domains[0]).process().unwrap();
    master.domain(domains[0]).queue().unwrap();
    assert_eq!(master.state(), first);
    assert_eq!(master.get_info(), info);
    assert_eq!(master.domain(domains[0]).state(), master.domain(domains[0]).state());
}

#[test]
fn activation_needs_every_configuration_matched() {
    let (mut master, _) = configured(2);
    let (info, mut slaves) = scan(1);
    master.rescan(info, slaves.clone()).unwrap();
    assert_eq!(master.activate(), Err(Error::Unresolved));
    assert_eq!(master.get_config_info(1).unwrap().slave_position, None);
    // a device of another kind does not do
    let mut other = slave(1);
    other.info.id = SlaveId::new(ID.vendor_id, ID.product_code + 1);
    slaves.push(other);
    master
        .rescan(MasterInfo { slave_count: 2, link_up: true, scan_busy: false, app_time: 0 }, slaves)
        .unwrap();
    assert_eq!(master.activate(), Err(Error::Unresolved));
    let (info, slaves) = scan(2);
    master.rescan(info, slaves).unwrap();
    assert_eq!(master.activate(), Ok(()));
    assert_eq!(master.activate(), Err(Error::Activated));
}

#[test]
fn a_master_without_configurations_activates() {
    let mut master = Master::reserve(0, Availability::Free).unwrap();
    let domain = master.create_domain().unwrap();
    assert_eq!(master.activate(), Ok(()));
    assert!(master.domain_data(domain).unwrap().is_empty());
}

#[test]
fn layout_is_frozen_by_activation() {
    let (mut master, domains) = configured(1);
    master.activate().unwrap();
    assert_eq!(master.create_domain(), Err(Error::Activated));
    let entries = [PdoEntryInfo { index: PdoEntryIndex::new(0x6000, 1), bit_length: 16 }];
    let pdos = [PdoInfo { index: 0x1a00, entries: &entries }];
    let mut config = master.configure_slave(SlaveAddr::ByPos(0), ID).unwrap();
    assert_eq!(config.config_pdos(&[SyncInfo::input(3, &pdos)]), Err(Error::Activated));
    assert_eq!(
        config.register_pdo_entry(entries[0].index, domains[0]),
        Err(Error::Activated)
    );
    assert_eq!(master.domain_data(domains[0]).unwrap().len(), 2);
}

#[test]
fn image_has_the_size_of_what_was_registered() {
    let mut master = Master::reserve(0, Availability::Free).unwrap();
    let (info, slaves) = scan(1);
    master.rescan(info, slaves).unwrap();
    let domain = master.create_domain().unwrap();
    let empty = master.create_domain().unwrap();
    let outputs = [
        PdoEntryInfo { index: PdoEntryIndex::new(0x7000, 1), bit_length: 8 },
        PdoEntryInfo { index: PdoEntryIndex::new(0x7000, 2), bit_length: 32 },
    ];
    let inputs = [
        PdoEntryInfo { index: PdoEntryIndex::new(0x6000, 1), bit_length: 16 },
        PdoEntryInfo { index: PdoEntryIndex::new(0x6000, 2), bit_length: 64 },
        PdoEntryInfo { index: PdoEntryIndex::new(0x6000, 3), bit_length: 24 },
    ];
    let rx = [PdoInfo { index: 0x1600, entries: &outputs }];
    let tx = [PdoInfo { index: 0x1a00, entries: &inputs[..1] }, PdoInfo { index: 0x1a01, entries: &inputs[1..] }];
    let syncs = [SyncInfo::output(2, &rx), SyncInfo::input(3, &tx)];
    let mut config = master.configure_slave(SlaveAddr::ByPos(0), ID).unwrap();
    config.config_pdos(&syncs).unwrap();
    let mut bits = 0usize;
    for e in outputs.iter().chain(inputs.iter()) {
        assert_eq!(config.register_pdo_entry(e.index, domain), Ok(Offset::new(bits / 8, 0)));
        bits += e.bit_length as usize;
    }
    assert_eq!(bits, 144);
    assert!(matches!(master.domain_data(domain), Err(Error::NotActivated)));
    master.activate().unwrap();
    assert_eq!(master.domain_data(domain).unwrap().len(), 18);
    assert!(master.domain_data(domain).unwrap().iter().all(|byte| *byte == 0));
    assert_eq!(master.domain_data(empty).unwrap().len(), 0);
    assert!(matches!(master.domain_data(DomainIndex(2)), Err(Error::NoSuchDomain)));
}

#[test]
fn receive_needs_a_reserved_and_activated_master() {
    let mut shared = Master::open(0, MasterAccess::ReadWrite, Availability::Free).unwrap();
    assert_eq!(shared.activate(), Ok(()));
    assert_eq!(shared.receive(inbound(Vec::new())), Err(Error::NotReserved));
    assert!(matches!(shared.send(), Err(Error::NotReserved)));

    let (mut master, _) = configured(1);
    assert_eq!(master.receive(inbound(vec![frame(&[1, 2], 1, 2)])), Err(Error::NotActivated));
    assert!(matches!(master.send(), Err(Error::NotActivated)));
}

#[test]
fn frames_must_fit_the_domains() {
    let (mut master, domains) = configured(2);
    master.activate().unwrap();
    assert_eq!(master.receive(inbound(vec![frame(&[1, 2], 1, 2)])), Err(Error::FrameMismatch));
    assert_eq!(
        master.receive(inbound(vec![frame(&[1, 2], 1, 2), frame(&[1, 2, 3], 1, 2)])),
        Err(Error::FrameMismatch)
    );
    assert_eq!(
        master.receive(inbound(vec![frame(&[1], 1, 2), frame(&[1, 2], 1, 2)])),
        Err(Error::FrameMismatch)
    );
    assert_eq!(
        master.receive(inbound(vec![
            frame(&[1, 2], 1, 2),
            frame(&[1, 2], 1, 2),
            frame(&[], 0, 0)
        ])),
        Err(Error::FrameMismatch)
    );
    // nothing was taken in
    assert_eq!(master.state(), MasterState { slaves_responding: 0, al_states: 0, link_up: false });
    master.domain(domains[0]).process().unwrap();
    assert_eq!(master.domain_data(domains[0]).unwrap(), &[0u8, 0]);
}

#[test]
fn set_of_al_states_must_be_valid() {
    let (mut master, _) = configured(1);
    master.activate().unwrap();
    let mut exchange = inbound(vec![frame(&[1, 2], 1, 2)]);
    exchange.al_states = 16;
    assert_eq!(master.receive(exchange), Err(Error::InvalidState(16)));
    let mut exchange = inbound(vec![frame(&[1, 2], 1, 2)]);
    exchange.al_states = 0xff;
    assert_eq!(master.receive(exchange), Err(Error::InvalidState(255)));
    assert_eq!(master.state(), MasterState { slaves_responding: 0, al_states: 0, link_up: false });
    let mut exchange = inbound(vec![frame(&[1, 2], 1, 2)]);
    exchange.al_states = 0x0f;
    assert_eq!(master.receive(exchange), Ok(()));
    assert_eq!(master.state().al_states, 0x0f);
}

#[test]
fn link_state_shows_in_the_master_state() {
    let (mut master, domains) = configured(1);
    master.activate().unwrap();
    // before the first exchange nothing is known of the link
    assert!(matches!(master.send(), Err(Error::LinkDown)));
    master.receive(inbound(vec![frame(&[7, 8], 1, 2)])).unwrap();
    assert!(master.state().link_up);
    master.domain(domains[0]).process().unwrap();

    let down = Inbound { slaves_responding: 0, al_states: 0, link_up: false, frames: Vec::new() };
    assert_eq!(master.receive(down), Err(Error::LinkDown));
    assert_eq!(master.state(), MasterState { slaves_responding: 0, al_states: 0, link_up: false });
    assert!(matches!(master.send(), Err(Error::LinkDown)));
    // the frames of the exchange before are still there
    master.domain_data(domains[0]).unwrap()[0] = 0;
    master.domain(domains[0]).process().unwrap();
    assert_eq!(master.domain_data(domains[0]).unwrap(), &[7u8, 8]);

    master.receive(inbound(vec![frame(&[9, 9], 1, 2)])).unwrap();
    assert!(master.state().link_up);
    assert_eq!(master.send().unwrap().len(), 0);
}

#[test]
fn process_decodes_the_working_counter_state() {
    let (mut master, domains) = configured(1);
    master.activate().unwrap();
    master.receive(inbound(vec![frame(&[1, 2], 5, 3)])).unwrap();
    assert_eq!(master.domain(domains[0]).process(), Err(Error::InvalidState(3)));
    assert_eq!(
        master.domain(domains[0]).state(),
        Ok(DomainState { working_counter: 0, wc_state: WcState::Zero, redundancy_active: false })
    );
    assert_eq!(master.domain_data(domains[0]).unwrap(), &[0u8, 0]);
    let mut redundant = frame(&[1, 2], 0, 0);
    redundant.redundancy_active = true;
    master.receive(inbound(vec![redundant])).unwrap();
    assert_eq!(master.domain(domains[0]).process(), Ok(()));
    assert_eq!(
        master.domain(domains[0]).state(),
        Ok(DomainState { working_counter: 0, wc_state: WcState::Zero, redundancy_active: true })
    );
}

#[test]
fn process_before_the_first_exchange_changes_nothing() {
    let (mut master, domains) = configured(1);
    assert_eq!(master.domain(domains[0]).process(), Ok(()));
    master.activate().unwrap();
    master.domain_data(domains[0]).unwrap()[1] = 5;
    assert_eq!(master.domain(domains[0]).process(), Ok(()));
    assert_eq!(master.domain_data(domains[0]).unwrap(), &[0u8, 5]);
    assert_eq!(master.domain(DomainIndex(1)).process(), Err(Error::NoSuchDomain));
    assert_eq!(master.domain(DomainIndex(1)).queue(), Err(Error::NoSuchDomain));
    assert_eq!(master.domain(DomainIndex(1)).state(), Err(Error::NoSuchDomain));
}

#[test]
fn send_carries_the_queued_images() {
    let (mut master, domains) = configured(3);
    master.activate().unwrap();
    master
        .receive(inbound(vec![frame(&[1, 2], 1, 2), frame(&[3, 4], 1, 2), frame(&[5, 6], 1, 2)]))
        .unwrap();
    for domain in &domains {
        master.domain(*domain).process().unwrap();
    }
    // written after process and before queue: goes out
    master.domain_data(domains[2]).unwrap()[0] ^= 0xff;
    master.domain(domains[2]).queue().unwrap();
    master.domain(domains[0]).queue().unwrap();
    let sent = master.send().unwrap();
    assert_eq!(sent.len(), 2);
    assert_eq!(sent[0].domain, domains[0]);
    assert_eq!(sent[0].data, vec![1, 2]);
    assert_eq!(sent[1].domain, domains[2]);
    assert_eq!(sent[1].data, vec![5 ^ 0xff, 6]);
    // what was not queued again is not sent again
    assert!(master.send().unwrap().is_empty());
    master.domain(domains[1]).queue().unwrap();
    let sent = master.send().unwrap();
    assert_eq!(sent.len(), 1);
    assert_eq!(sent[0].domain, domains[1]);
    assert_eq!(sent[0].data, vec![3, 4]);
}

#[test]
fn process_overwrites_what_was_written_before_it() {
    let (mut master, domains) = configured(1);
    master.activate().unwrap();
    master.receive(inbound(vec![frame(&[1, 2], 1, 2)])).unwrap();
    master.domain_data(domains[0]).unwrap()[0] = 0xaa;
    master.domain(domains[0]).process().unwrap();
    assert_eq!(master.domain_data(domains[0]).unwrap(), &[1u8, 2]);
}

#[test]
fn ring_is_operational_when_all_slaves_are_in_op() {
    assert!(MasterState { slaves_responding: 2, al_states: 8, link_up: true }.operational());
    assert!(!MasterState { slaves_responding: 2, al_states: 8, link_up: false }.operational());
    assert!(!MasterState { slaves_responding: 2, al_states: 12, link_up: true }.operational());
    assert!(!MasterState { slaves_responding: 2, al_states: 4, link_up: true }.operational());
    assert!(!MasterState { slaves_responding: 0, al_states: 0, link_up: true }.operational());
    assert_eq!(AlState::Op.encode(), 8);
}

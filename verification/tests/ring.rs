use ethercat::{
    Access, AlState, Availability, ConfigInfo, DataType, Error, Master, MasterInfo, SdoEntry,
    SdoEntryAccess, SdoEntryAddr, SdoInfo, SdoObject, Slave, SlaveAddr, SlaveId, SlaveInfo,
    SlavePortInfo, SlaveRev,
};

fn slave(ring_pos: u16, alias: u16, id: SlaveId) -> Slave {
    Slave {
        info: SlaveInfo {
            name: format!("slave {}", ring_pos),
            ring_pos,
            id,
            rev: SlaveRev::new(1, 77),
            alias,
            current_on_ebus: 120,
            al_state: AlState::Preop,
            error_flag: 0,
            sync_count: 4,
            sdo_count: 0,
            ports: [SlavePortInfo::default(); 4],
        },
        dictionary: Vec::new(),
    }
}

fn info(slave_count: u32) -> MasterInfo {
    MasterInfo { slave_count, link_up: true, scan_busy: false, app_time: 0 }
}

const COUPLER: SlaveId = SlaveId { vendor_id: 0x2, product_code: 0x044c_2c52 };
const DRIVE: SlaveId = SlaveId { vendor_id: 0x9a, product_code: 0x0003_0924 };

fn ring() -> Vec<Slave> {
    vec![
        slave(0, 0, COUPLER),
        slave(1, 0, DRIVE),
        slave(2, 0x1000, COUPLER),
        slave(3, 0, DRIVE),
        slave(4, 0x1000, DRIVE),
    ]
}

fn position_of(addr: SlaveAddr, id: SlaveId) -> Option<u32> {
    let mut master = Master::reserve(0, Availability::Free).unwrap();
    master.rescan(info(5), ring()).unwrap();
    let idx = master.configure_slave(addr, id).unwrap().index();
    master.get_config_info(idx).unwrap().slave_position
}

#[test]
fn configuration_is_matched_by_position() {
    assert_eq!(position_of(SlaveAddr::ByPos(0), COUPLER), Some(0));
    assert_eq!(position_of(SlaveAddr::ByPos(1), DRIVE), Some(1));
    assert_eq!(position_of(SlaveAddr::ByPos(4), DRIVE), Some(4));
}

#[test]
fn configuration_is_matched_by_alias() {
    // behind the first device that carries the alias
    assert_eq!(position_of(SlaveAddr::ByAlias(0x1000, 0), COUPLER), Some(2));
    assert_eq!(position_of(SlaveAddr::ByAlias(0x1000, 1), DRIVE), Some(3));
    assert_eq!(position_of(SlaveAddr::ByAlias(0x1000, 2), DRIVE), Some(4));
    // alias 0 makes the position absolute
    assert_eq!(position_of(SlaveAddr::ByAlias(0, 3), DRIVE), Some(3));
}

#[test]
fn unmatched_configuration_has_no_slave_position() {
    // no device responds that far down the ring
    assert_eq!(position_of(SlaveAddr::ByPos(5), COUPLER), None);
    assert_eq!(position_of(SlaveAddr::ByPos(u16::MAX), COUPLER), None);
    assert_eq!(position_of(SlaveAddr::ByAlias(0x1000, 3), DRIVE), None);
    // no device carries the alias
    assert_eq!(position_of(SlaveAddr::ByAlias(0x2000, 0), COUPLER), None);
    // another device stands there
    assert_eq!(position_of(SlaveAddr::ByPos(0), DRIVE), None);
    assert_eq!(position_of(SlaveAddr::ByAlias(0x1000, 0), DRIVE), None);
    assert_eq!(
        position_of(SlaveAddr::ByPos(0), SlaveId::new(COUPLER.vendor_id, COUPLER.product_code + 1)),
        None
    );
}

#[test]
fn nothing_is_matched_on_a_ring_that_was_not_scanned() {
    let mut master = Master::reserve(0, Availability::Free).unwrap();
    let idx = master.configure_slave(SlaveAddr::ByPos(0), COUPLER).unwrap().index();
    assert_eq!(master.get_config_info(idx).unwrap().slave_position, None);
    master.rescan(info(5), ring()).unwrap();
    assert_eq!(master.get_config_info(idx).unwrap().slave_position, Some(0));
    master.rescan(info(0), Vec::new()).unwrap();
    assert_eq!(master.get_config_info(idx).unwrap().slave_position, None);
}

#[test]
fn config_info_tells_what_was_declared() {
    let mut master = Master::reserve(0, Availability::Free).unwrap();
    master.rescan(info(5), ring()).unwrap();
    let by_pos = master.configure_slave(SlaveAddr::ByPos(1), DRIVE).unwrap().index();
    let by_alias = master.configure_slave(SlaveAddr::ByAlias(0x1000, 7), DRIVE).unwrap().index();
    assert_eq!(
        master.get_config_info(by_pos),
        Ok(ConfigInfo {
            alias: 0,
            position: 1,
            id: DRIVE,
            slave_position: Some(1),
            sdo_count: 0,
            idn_count: 0,
        })
    );
    assert_eq!(
        master.get_config_info(by_alias),
        Ok(ConfigInfo {
            alias: 0x1000,
            position: 7,
            id: DRIVE,
            slave_position: None,
            sdo_count: 0,
            idn_count: 0,
        })
    );
    assert_eq!(master.get_config_info(2), Err(Error::NoSuchConfig));
}

#[test]
fn scan_must_agree_with_itself() {
    let mut master = Master::reserve(0, Availability::Free).unwrap();
    assert_eq!(master.rescan(info(4), ring()), Err(Error::ScanMismatch));
    assert_eq!(master.get_info().slave_count, 0);
    assert!(matches!(master.get_slave_info(0), Err(Error::NoSuchSlave)));
    assert_eq!(master.rescan(info(5), ring()), Ok(()));
    assert_eq!(master.get_info(), info(5));
}

#[test]
fn slave_info_by_ring_position() {
    let mut master = Master::reserve(0, Availability::Free).unwrap();
    master.rescan(info(5), ring()).unwrap();
    let found = master.get_slave_info(2).unwrap();
    assert_eq!(found.name, "slave 2");
    assert_eq!(found.ring_pos, 2);
    assert_eq!(found.alias, 0x1000);
    assert_eq!(found.id, COUPLER);
    assert_eq!(found.al_state, AlState::Preop);
    assert!(matches!(master.get_slave_info(5), Err(Error::NoSuchSlave)));
}

fn dictionary() -> Vec<SdoObject> {
    let object = |position: u16, index: u16, subindices: u8| SdoObject {
        info: SdoInfo {
            slave_position: 0,
            position,
            index,
            max_subindex: subindices - 1,
            object_code: 7,
            name: format!("object {:#x}", index),
        },
        entries: (0..subindices)
            .map(|subindex| SdoEntry {
                slave_position: 0,
                address: SdoEntryAddr::Index(index, subindex),
                data_type: DataType::U16,
                bit_length: 16,
                access: SdoEntryAccess::from(([1, 1, 1], [1, 0, 0])),
                description: format!("{:#x}:{}", index, subindex),
            })
            .collect(),
    };
    vec![object(0, 0x1000, 1), object(1, 0x1018, 5), object(2, 0x6000, 3)]
}

fn master_with_dictionary() -> Master {
    let mut master = Master::open(0, ethercat::MasterAccess::ReadOnly, Availability::Free).unwrap();
    let mut first = slave(0, 0, COUPLER);
    first.dictionary = dictionary();
    master.rescan(info(2), vec![first, slave(1, 0, DRIVE)]).unwrap();
    master
}

#[test]
fn objects_by_dictionary_position() {
    let master = master_with_dictionary();
    assert_eq!(master.get_sdo(0, 1).unwrap().index, 0x1018);
    assert_eq!(master.get_sdo(0, 2).unwrap().name, "object 0x6000");
    assert!(matches!(master.get_sdo(0, 3), Err(Error::NoSuchSdo)));
    assert!(matches!(master.get_sdo(1, 0), Err(Error::NoSuchSdo)));
    assert!(matches!(master.get_sdo(2, 0), Err(Error::NoSuchSlave)));
}

#[test]
fn entries_by_position_and_by_index() {
    let master = master_with_dictionary();
    let by_position = master.get_sdo_entry(0, SdoEntryAddr::Position(1, 4)).unwrap();
    assert_eq!(by_position.description, "0x1018:4");
    let by_index = master.get_sdo_entry(0, SdoEntryAddr::Index(0x6000, 2)).unwrap();
    assert_eq!(by_index.description, "0x6000:2");
    assert_eq!(by_index.data_type, DataType::U16);
    assert_eq!(by_index.access.pre_op, Access::ReadWrite);
    assert_eq!(by_index.access.safe_op, Access::WriteOnly);
    assert!(matches!(
        master.get_sdo_entry(0, SdoEntryAddr::Position(3, 0)),
        Err(Error::NoSuchSdo)
    ));
    assert!(matches!(
        master.get_sdo_entry(0, SdoEntryAddr::Index(0x7000, 0)),
        Err(Error::NoSuchSdo)
    ));
    assert!(matches!(
        master.get_sdo_entry(0, SdoEntryAddr::Index(0x6000, 3)),
        Err(Error::NoSuchSdoEntry)
    ));
    assert!(matches!(
        master.get_sdo_entry(0, SdoEntryAddr::Position(0, 1)),
        Err(Error::NoSuchSdoEntry)
    ));
    assert!(matches!(
        master.get_sdo_entry(5, SdoEntryAddr::Position(0, 0)),
        Err(Error::NoSuchSlave)
    ));
}

use crate::error::Error;
use crate::exchange::{FrameView, InboundView};
use crate::layout::{declaration_fault, declared_shape, sync_entries};
use crate::ring::{matched_position, Slave};
use crate::state::{is_al_state_set, ConfigInfo, DomainState, MasterInfo, MasterState, WcState};
use crate::types::{MasterIndex, Offset, PdoEntryIndex, PdoEntryInfo, SlaveAddr, SlaveId, SyncInfo};
use vstd::prelude::*;

verus! {

/// How a master instance was opened.
#[derive(Debug, Clone, Copy, PartialEq, Eq, Structural)]
pub enum MasterAccess {
    ReadOnly,
    ReadWrite,
}

/// What the transport found under a master index.
#[derive(Debug, Clone, Copy, PartialEq, Eq, Structural)]
pub enum Availability {
    /// No master instance exists under the index.
    Absent,
    /// The instance exists and nobody holds it exclusively.
    Free,
    /// The instance exists and is held exclusively.
    Held,
}

/// One domain: a contiguous process data image shared by the entries that
/// were registered in it.
pub struct DomainView {
    /// Number of bytes allotted to the entries registered so far.
    pub size: nat,
    /// The image. It is empty until the master is activated.
    pub data: Seq<u8>,
    /// Whether the image is marked for the next outbound exchange.
    pub queued: bool,
    /// What the domain saw in the latest exchange that it processed.
    pub state: DomainState,
}

/// The configuration of one slave.
pub struct ConfigView {
    pub addr: SlaveAddr,
    pub id: SlaveId,
    /// The declared entries, in packing order.
    pub declared: Seq<PdoEntryInfo>,
    /// Whether an entry of this slave was registered in a domain.
    pub registered: bool,
}

/// A master with everything it owns.
pub struct MasterView {
    pub index: MasterIndex,
    pub access: MasterAccess,
    pub reserved: bool,
    pub active: bool,
    pub domains: Seq<DomainView>,
    pub configs: Seq<ConfigView>,
    /// Static information from the latest scan.
    pub info: MasterInfo,
    /// The devices that responded to the latest scan, by ring position.
    pub slaves: Seq<Slave>,
    /// What the latest inbound exchange told of the ring.
    pub state: MasterState,
    /// The frames of the latest inbound exchange, one for each domain; empty
    /// before the first exchange.
    pub inbox: Seq<FrameView>,
}

/// A domain image of `size` bytes, all zero.
pub open spec fn blank_image(size: nat) -> Seq<u8> {
    Seq::new(size, |i: int| 0u8)
}

/// The frames that an outbound exchange carries: the images of the queued
/// domains, each with the index of its domain, in the order of the indices.
pub open spec fn queued_images(domains: Seq<DomainView>) -> Seq<(int, Seq<u8>)>
    decreases domains.len(),
{
    if domains.len() == 0 {
        Seq::empty()
    } else if domains.last().queued {
        queued_images(domains.drop_last()).push((domains.len() - 1, domains.last().data))
    } else {
        queued_images(domains.drop_last())
    }
}

impl DomainView {
    /// A domain that was just created.
    pub open spec fn fresh() -> DomainView {
        DomainView {
            size: 0,
            data: Seq::empty(),
            queued: false,
            state: DomainState {
                working_counter: 0,
                wc_state: WcState::Zero,
                redundancy_active: false,
            },
        }
    }
}

impl MasterView {
    /// A master right after it was opened.
    pub open spec fn initial(index: MasterIndex, access: MasterAccess, reserved: bool) -> MasterView {
        MasterView {
            index,
            access,
            reserved,
            active: false,
            domains: Seq::empty(),
            configs: Seq::empty(),
            info: MasterInfo { slave_count: 0, link_up: false, scan_busy: false, app_time: 0 },
            slaves: Seq::empty(),
            state: MasterState { slaves_responding: 0, al_states: 0, link_up: false },
            inbox: Seq::empty(),
        }
    }

    /// What holds of every master: each image has the size of its domain
    /// from activation on and is empty before, the frames of the latest
    /// inbound exchange fit the domains, nothing is wrong with the
    /// declaration of a slave, and the counts fit their types.
    pub open spec fn inv(self) -> bool {
        &&& forall|c: int|
            0 <= c < self.configs.len() ==> declaration_fault(
                (#[trigger] self.configs[c]).declared,
            ) is None
        &&& forall|d: int|
            0 <= d < self.domains.len() ==> (#[trigger] self.domains[d]).size <= usize::MAX
        &&& forall|d: int|
            0 <= d < self.domains.len() ==> (#[trigger] self.domains[d]).data.len() == (if self.active {
                self.domains[d].size
            } else {
                0
            })
        &&& self.inbox.len() == 0 || self.inbox.len() == self.domains.len()
        &&& forall|d: int|
            0 <= d < self.inbox.len() ==> (#[trigger] self.inbox[d]).data.len()
                == self.domains[d].size
        &&& !self.active ==> self.inbox.len() == 0
        &&& self.configs.len() <= u32::MAX + 1
        &&& self.slaves.len() == self.info.slave_count
    }

    /// Whether `domain` is the index of a domain of the master.
    pub open spec fn has_domain(self, domain: int) -> bool {
        0 <= domain < self.domains.len()
    }

    /// Whether `config` is the index of a slave configuration of the master.
    pub open spec fn has_config(self, config: int) -> bool {
        0 <= config < self.configs.len()
    }

    /// Why no domain can be created, if none can: the layout is frozen by
    /// activation.
    pub open spec fn create_domain_refusal(self) -> Option<Error> {
        if self.active {
            Some(Error::Activated)
        } else {
            None
        }
    }

    /// The master with one more domain, which is empty.
    pub open spec fn create_domain_next(self) -> MasterView {
        MasterView { domains: self.domains.push(DomainView::fresh()), ..self }
    }

    /// Why no slave configuration can be opened, if none can: the indices of
    /// the configurations are used up.
    pub open spec fn configure_slave_refusal(self) -> Option<Error> {
        if self.configs.len() > u32::MAX {
            Some(Error::OutOfSlots)
        } else {
            None
        }
    }

    /// The master with one more slave configuration, which declares nothing
    /// yet.
    pub open spec fn configure_slave_next(self, addr: SlaveAddr, id: SlaveId) -> MasterView {
        MasterView {
            configs: self.configs.push(
                ConfigView { addr, id, declared: Seq::empty(), registered: false },
            ),
            ..self
        }
    }

    /// Why a declaration is refused, if it is: the layout is frozen by
    /// activation and by the first registration for the slave, and the
    /// declaration must be sound in itself.
    pub open spec fn config_pdos_refusal(self, config: int, syncs: Seq<SyncInfo<'_>>) -> Option<
        Error,
    > {
        if !self.has_config(config) {
            Some(Error::NoSuchConfig)
        } else if self.active {
            Some(Error::Activated)
        } else if self.configs[config].registered {
            Some(Error::AlreadyRegistered)
        } else {
            declaration_fault(sync_entries(syncs))
        }
    }

    /// The master after a declaration was taken: the slave declares the
    /// entries of the sync managers, in packing order.
    pub open spec fn config_pdos_next(self, config: int, syncs: Seq<SyncInfo<'_>>) -> MasterView {
        MasterView {
            configs: self.configs.update(
                config,
                ConfigView { declared: sync_entries(syncs), ..self.configs[config] },
            ),
            ..self
        }
    }

    /// Why an entry cannot be registered, if it cannot. An entry must have
    /// been declared for the slave, and it must fill whole bytes: the image
    /// is allotted in bytes, so that every entry starts at bit 0 of a byte.
    pub open spec fn register_refusal(self, config: int, entry: PdoEntryIndex, domain: int) -> Option<
        Error,
    > {
        if !self.has_config(config) {
            Some(Error::NoSuchConfig)
        } else if self.active {
            Some(Error::Activated)
        } else if !self.has_domain(domain) {
            Some(Error::NoSuchDomain)
        } else {
            match declared_shape(self.configs[config].declared, entry) {
                None => Some(Error::EntryNotDeclared),
                Some(shape) => if shape.bit_length % 8 != 0 {
                    Some(Error::UnsupportedPacking)
                } else if self.domains[domain].size + shape.bit_length / 8 > usize::MAX {
                    Some(Error::ImageTooLarge)
                } else {
                    None
                },
            }
        }
    }

    /// Where a registered entry is placed: at the end of what the domain
    /// holds so far.
    pub open spec fn register_offset(self, domain: int) -> Offset {
        Offset { byte: self.domains[domain].size as usize, bit: 0 }
    }

    /// The master after an entry was placed: the domain has grown by the bytes
    /// of the entry, and the layout of the slave is settled.
    pub open spec fn register_next(self, config: int, entry: PdoEntryIndex, domain: int) -> MasterView {
        let shape = declared_shape(self.configs[config].declared, entry).unwrap();
        MasterView {
            domains: self.domains.update(
                domain,
                DomainView {
                    size: self.domains[domain].size + (shape.bit_length / 8) as nat,
                    ..self.domains[domain]
                },
            ),
            configs: self.configs.update(
                config,
                ConfigView { registered: true, ..self.configs[config] },
            ),
            ..self
        }
    }

    /// What registering an entry returns.
    pub open spec fn register_result(self, config: int, entry: PdoEntryIndex, domain: int) -> Result<
        Offset,
        Error,
    > {
        match self.register_refusal(config, entry, domain) {
            Some(error) => Err(error),
            None => Ok(self.register_offset(domain)),
        }
    }

    /// The master after an attempt to register an entry.
    pub open spec fn register_state(self, config: int, entry: PdoEntryIndex, domain: int) -> MasterView {
        match self.register_refusal(config, entry, domain) {
            Some(_) => self,
            None => self.register_next(config, entry, domain),
        }
    }

    /// What the master tells of a slave configuration.
    pub open spec fn config_info(self, config: int) -> ConfigInfo {
        let addr = self.configs[config].addr;
        let id = self.configs[config].id;
        ConfigInfo {
            alias: addr.pair().0,
            position: addr.pair().1,
            id,
            slave_position: matched_position(self.slaves, addr, id),
            sdo_count: 0,
            idn_count: 0,
        }
    }

    /// Whether every slave configuration is matched to a device on the ring.
    pub open spec fn all_resolved(self) -> bool {
        forall|c: int|
            0 <= c < self.configs.len() ==> matched_position(
                self.slaves,
                (#[trigger] self.configs[c]).addr,
                self.configs[c].id,
            ) is Some
    }

    /// Why a scan is not taken in, if it is not: it names another number of
    /// slaves than it lists.
    pub open spec fn rescan_refusal(self, info: MasterInfo, slaves: Seq<Slave>) -> Option<Error> {
        if info.slave_count != slaves.len() {
            Some(Error::ScanMismatch)
        } else {
            None
        }
    }

    /// The master after a scan was taken in.
    pub open spec fn rescan_next(self, info: MasterInfo, slaves: Seq<Slave>) -> MasterView {
        MasterView { info, slaves, ..self }
    }

    /// Why the master cannot be activated, if it cannot: it is active
    /// already, or a slave configuration is not matched to a device.
    pub open spec fn activate_refusal(self) -> Option<Error> {
        if self.active {
            Some(Error::Activated)
        } else if !self.all_resolved() {
            Some(Error::Unresolved)
        } else {
            None
        }
    }

    /// The master after activation: every domain has a blank image of its
    /// size.
    pub open spec fn activate_next(self) -> MasterView {
        MasterView {
            active: true,
            domains: Seq::new(
                self.domains.len(),
                |d: int| DomainView { data: blank_image(self.domains[d].size), ..self.domains[d] },
            ),
            ..self
        }
    }

    /// Whether the frames of an inbound exchange fit the domains: one frame
    /// for each domain, each of the size of its domain.
    pub open spec fn fits(self, frames: Seq<FrameView>) -> bool {
        &&& frames.len() == self.domains.len()
        &&& forall|d: int|
            0 <= d < frames.len() ==> (#[trigger] frames[d]).data.len() == self.domains[d].size
    }

    /// Why an inbound exchange is refused, if it is.
    pub open spec fn receive_refusal(self, inbound: InboundView) -> Option<Error> {
        if !self.reserved {
            Some(Error::NotReserved)
        } else if !self.active {
            Some(Error::NotActivated)
        } else if !is_al_state_set(inbound.al_states) {
            Some(Error::InvalidState(inbound.al_states as u32))
        } else if !inbound.link_up {
            Some(Error::LinkDown)
        } else if !self.fits(inbound.frames) {
            Some(Error::FrameMismatch)
        } else {
            None
        }
    }

    /// The master after an inbound exchange. An exchange that went through
    /// replaces the state of the ring and the frames. One that found the
    /// link down replaces the state of the ring alone, so that the state
    /// shows the link as down. Any other refused exchange changes nothing.
    pub open spec fn receive_next(self, inbound: InboundView) -> MasterView {
        let observed = MasterState {
            slaves_responding: inbound.slaves_responding,
            al_states: inbound.al_states,
            link_up: inbound.link_up,
        };
        match self.receive_refusal(inbound) {
            None => MasterView { state: observed, inbox: inbound.frames, ..self },
            Some(Error::LinkDown) => MasterView { state: observed, ..self },
            Some(_) => self,
        }
    }

    /// Why a domain cannot process the latest inbound exchange, if it
    /// cannot: the code of the working counter state is unknown.
    pub open spec fn process_refusal(self, domain: int) -> Option<Error> {
        if !self.has_domain(domain) {
            Some(Error::NoSuchDomain)
        } else if self.inbox.len() == 0 {
            None
        } else if WcState::of_code(self.inbox[domain].wc_state) is None {
            Some(Error::InvalidState(self.inbox[domain].wc_state))
        } else {
            None
        }
    }

    /// The master after a domain has processed the latest inbound exchange:
    /// the domain's image and state are those of its frame. Before the first
    /// exchange there is nothing to process.
    pub open spec fn process_next(self, domain: int) -> MasterView {
        if self.inbox.len() == 0 {
            self
        } else {
            let frame = self.inbox[domain];
            MasterView {
                domains: self.domains.update(
                    domain,
                    DomainView {
                        data: frame.data,
                        state: DomainState {
                            working_counter: frame.working_counter,
                            wc_state: WcState::of_code(frame.wc_state).unwrap(),
                            redundancy_active: frame.redundancy_active,
                        },
                        ..self.domains[domain]
                    },
                ),
                ..self
            }
        }
    }

    /// Why a domain cannot be queued, if it cannot.
    pub open spec fn queue_refusal(self, domain: int) -> Option<Error> {
        if !self.has_domain(domain) {
            Some(Error::NoSuchDomain)
        } else {
            None
        }
    }

    /// The master with one domain marked for the next outbound exchange.
    pub open spec fn queue_next(self, domain: int) -> MasterView {
        MasterView {
            domains: self.domains.update(
                domain,
                DomainView { queued: true, ..self.domains[domain] },
            ),
            ..self
        }
    }

    /// Why an outbound exchange is refused, if it is.
    pub open spec fn send_refusal(self) -> Option<Error> {
        if !self.reserved {
            Some(Error::NotReserved)
        } else if !self.active {
            Some(Error::NotActivated)
        } else if !self.state.link_up {
            Some(Error::LinkDown)
        } else {
            None
        }
    }

    /// The master after an outbound exchange: no domain is queued any more.
    pub open spec fn send_next(self) -> MasterView {
        MasterView {
            domains: Seq::new(
                self.domains.len(),
                |d: int| DomainView { queued: false, ..self.domains[d] },
            ),
            ..self
        }
    }

    /// Why the image of a domain cannot be had, if it cannot: there is none
    /// before activation.
    pub open spec fn domain_data_refusal(self, domain: int) -> Option<Error> {
        if !self.has_domain(domain) {
            Some(Error::NoSuchDomain)
        } else if !self.active {
            Some(Error::NotActivated)
        } else {
            None
        }
    }

    /// The master with another image in one of its domains.
    pub open spec fn with_image(self, domain: int, data: Seq<u8>) -> MasterView {
        MasterView {
            domains: self.domains.update(domain, DomainView { data, ..self.domains[domain] }),
            ..self
        }
    }
}

} // verus!

use crate::error::Error;
use crate::exchange::{frame_views, outbound_views, DomainFrame, Inbound, OutboundFrame};
use crate::layout::{check_declaration, collect_entries, find_entry};
use crate::model::{
    blank_image, queued_images, Availability, ConfigView, DomainView, MasterAccess, MasterView,
};
use crate::ring::{
    addressed_object, addressed_subindex, find_object, matched_position, resolve, subindex_of,
    Slave,
};
use crate::sdo::{SdoEntry, SdoInfo};
use crate::state::{ConfigInfo, DomainState, MasterInfo, MasterState, SlaveInfo, WcState};
use crate::types::{
    DomainIndex, MasterIndex, Offset, PdoEntryIndex, PdoEntryInfo, SdoEntryAddr, SlaveAddr,
    SlaveConfigIndex, SlaveId, SlavePosition, SyncInfo,
};
use vstd::prelude::*;

verus! {

/// One domain as the master holds it.
struct DomainRecord {
    size: usize,
    data: Vec<u8>,
    queued: bool,
    state: DomainState,
}

impl View for DomainRecord {
    type V = DomainView;

    closed spec fn view(&self) -> DomainView {
        DomainView {
            size: self.size as nat,
            data: self.data@,
            queued: self.queued,
            state: self.state,
        }
    }
}

/// One slave configuration as the master holds it.
struct ConfigRecord {
    addr: SlaveAddr,
    id: SlaveId,
    declared: Vec<PdoEntryInfo>,
    registered: bool,
}

impl View for ConfigRecord {
    type V = ConfigView;

    closed spec fn view(&self) -> ConfigView {
        ConfigView {
            addr: self.addr,
            id: self.id,
            declared: self.declared@,
            registered: self.registered,
        }
    }
}

/// An EtherCAT master: the domains and slave configurations that it owns,
/// what it knows of its ring, and where it stands between configuration and
/// cyclic exchange.
pub struct Master {
    index: MasterIndex,
    access: MasterAccess,
    reserved: bool,
    active: bool,
    domains: Vec<DomainRecord>,
    configs: Vec<ConfigRecord>,
    info: MasterInfo,
    slaves: Vec<Slave>,
    state: MasterState,
    inbox: Vec<DomainFrame>,
}

impl View for Master {
    type V = MasterView;

    closed spec fn view(&self) -> MasterView {
        MasterView {
            index: self.index,
            access: self.access,
            reserved: self.reserved,
            active: self.active,
            domains: Seq::new(self.domains@.len(), |d: int| self.domains@[d]@),
            configs: Seq::new(self.configs@.len(), |c: int| self.configs@[c]@),
            info: self.info,
            slaves: self.slaves@,
            state: self.state,
            inbox: frame_views(self.inbox@),
        }
    }
}

/// A slave configuration of a master, for as long as it is being set up.
pub struct SlaveConfig<'m> {
    pub master: &'m mut Master,
    pub idx: SlaveConfigIndex,
}

/// A domain of a master, for the length of one step of the cyclic exchange.
pub struct Domain<'m> {
    pub master: &'m mut Master,
    pub idx: DomainIndex,
}

/// An image of `size` bytes, all zero.
fn blank(size: usize) -> (image: Vec<u8>)
    ensures
        image@ == blank_image(size as nat),
{
    let mut image: Vec<u8> = Vec::new();
    let mut i: usize = 0;
    while i < size
        invariant
            i <= size,
            image@ == blank_image(i as nat),
        decreases size - i,
    {
        image.push(0);
        proof {
            assert(image@ =~= blank_image((i + 1) as nat));
        }
        i = i + 1;
    }
    image
}

/// A copy of an image.
fn copy_image(source: &Vec<u8>) -> (image: Vec<u8>)
    ensures
        image@ == source@,
{
    let mut image: Vec<u8> = Vec::new();
    let mut i: usize = 0;
    while i < source.len()
        invariant
            i <= source@.len(),
            image@ == source@.take(i as int),
        decreases source@.len() - i,
    {
        image.push(source[i]);
        proof {
            assert(image@ =~= source@.take(i + 1));
        }
        i = i + 1;
    }
    proof {
        assert(source@.take(i as int) =~= source@);
    }
    image
}

impl Master {
    /// Whether the master is in a state that its operations can start from.
    /// Every master that this library hands out is.
    pub open spec fn wf(&self) -> bool {
        self@.inv()
    }

    /// Whether `after` is this master with the image of one domain replaced.
    spec fn rewritten(&self, after: Master, domain: int, data: Seq<u8>) -> bool {
        &&& 0 <= domain < self.domains@.len()
        &&& after.index == self.index
        &&& after.access == self.access
        &&& after.reserved == self.reserved
        &&& after.active == self.active
        &&& after.configs == self.configs
        &&& after.info == self.info
        &&& after.slaves == self.slaves
        &&& after.state == self.state
        &&& after.inbox == self.inbox
        &&& after.domains@.len() == self.domains@.len()
        &&& forall|k: int|
            0 <= k < self.domains@.len() && k != domain ==> #[trigger] after.domains@[k]
                == self.domains@[k]
        &&& after.domains@[domain].size == self.domains@[domain].size
        &&& after.domains@[domain].queued == self.domains@[domain].queued
        &&& after.domains@[domain].state == self.domains@[domain].state
        &&& after.domains@[domain].data@ == data
    }

    fn fresh(index: MasterIndex, access: MasterAccess, reserved: bool) -> (master: Master)
        ensures
            master.wf(),
            master@ == MasterView::initial(index, access, reserved),
    {
        let master = Master {
            index,
            access,
            reserved,
            active: false,
            domains: Vec::new(),
            configs: Vec::new(),
            info: MasterInfo { slave_count: 0, link_up: false, scan_busy: false, app_time: 0 },
            slaves: Vec::new(),
            state: MasterState { slaves_responding: 0, al_states: 0, link_up: false },
            inbox: Vec::new(),
        };
        proof {
            let initial = MasterView::initial(index, access, reserved);
            assert(master@.domains =~= initial.domains);
            assert(master@.configs =~= initial.configs);
            assert(master@.slaves =~= initial.slaves);
            assert(master@.inbox =~= initial.inbox);
        }
        master
    }

    /// Opens the master instance `index` for shared use, given what the
    /// transport found under that index.
    pub fn open(index: MasterIndex, access: MasterAccess, found: Availability) -> (r: Result<
        Master,
        Error,
    >)
        ensures
            match found {
                Availability::Absent => r matches Err(e) && e == Error::NoSuchMaster,
                Availability::Held => r matches Err(e) && e == Error::MasterBusy,
                Availability::Free => r matches Ok(master) && master.wf() && master@
                    == MasterView::initial(index, access, false),
            },
    {
        match found {
            Availability::Absent => Err(Error::NoSuchMaster),
            Availability::Held => Err(Error::MasterBusy),
            Availability::Free => Ok(Master::fresh(index, access, false)),
        }
    }

    /// Reserves the master instance `index` for exclusive use, given what the
    /// transport found under that index.
    pub fn reserve(index: MasterIndex, found: Availability) -> (r: Result<Master, Error>)
        ensures
            match found {
                Availability::Absent => r matches Err(e) && e == Error::NoSuchMaster,
                Availability::Held => r matches Err(e) && e == Error::MasterBusy,
                Availability::Free => r matches Ok(master) && master.wf() && master@
                    == MasterView::initial(index, MasterAccess::ReadWrite, true),
            },
    {
        match found {
            Availability::Absent => Err(Error::NoSuchMaster),
            Availability::Held => Err(Error::MasterBusy),
            Availability::Free => Ok(Master::fresh(index, MasterAccess::ReadWrite, true)),
        }
    }

    /// Creates a domain with an empty image. Domains can only be created
    /// before activation.
    pub fn create_domain(&mut self) -> (r: Result<DomainIndex, Error>)
        requires
            old(self).wf(),
        ensures
            final(self).wf(),
            match old(self)@.create_domain_refusal() {
                Some(error) => r == Err::<DomainIndex, Error>(error) && final(self)@ == old(self)@,
                None => r matches Ok(domain) && domain@ == old(self)@.domains.len() && final(self)@
                    == old(self)@.create_domain_next(),
            },
    {
        if self.active {
            return Err(Error::Activated);
        }
        let domain: usize = self.domains.len();
        self.domains.push(
            DomainRecord {
                size: 0,
                data: Vec::new(),
                queued: false,
                state: DomainState {
                    working_counter: 0,
                    wc_state: WcState::Zero,
                    redundancy_active: false,
                },
            },
        );
        proof {
            let next = old(self)@.create_domain_next();
            assert(self@.domains =~= next.domains);
            assert(self@.configs =~= next.configs);
        }
        Ok(DomainIndex(domain))
    }

    /// Opens the configuration of one slave: the device that `addr`
    /// designates, which is expected to have the identity `expected`.
    pub fn configure_slave(&mut self, addr: SlaveAddr, expected: SlaveId) -> (r: Result<
        SlaveConfig<'_>,
        Error,
    >)
        requires
            old(self).wf(),
        ensures
            match old(self)@.configure_slave_refusal() {
                Some(error) => r matches Err(e) && e == error && final(self)@ == old(self)@
                    && final(self).wf(),
                None => r matches Ok(config) && config.idx == old(self)@.configs.len()
                    && config.master@ == old(self)@.configure_slave_next(addr, expected)
                    && config.master.wf() && *final(self) == *final(config.master),
            },
    {
        if self.configs.len() > 0xFFFF_FFFF {
            return Err(Error::OutOfSlots);
        }
        let idx: SlaveConfigIndex = self.configs.len() as SlaveConfigIndex;
        self.configs.push(
            ConfigRecord { addr, id: expected, declared: Vec::new(), registered: false },
        );
        proof {
            let next = old(self)@.configure_slave_next(addr, expected);
            assert(self@.domains =~= next.domains);
            assert(self@.configs =~= next.configs);
        }
        Ok(SlaveConfig { master: self, idx })
    }

    /// The domain `idx`, to process or queue it.
    pub fn domain(&mut self, idx: DomainIndex) -> (domain: Domain<'_>)
        ensures
            domain.idx == idx,
            *domain.master == *old(self),
            *final(self) == *final(domain.master),
    {
        Domain { master: self, idx }
    }

    /// Declares the PDO layout of the slave configuration `config`.
    pub(crate) fn declare(&mut self, config: SlaveConfigIndex, syncs: &[SyncInfo<'_>]) -> (r: Result<
        (),
        Error,
    >)
        requires
            old(self).wf(),
        ensures
            final(self).wf(),
            match old(self)@.config_pdos_refusal(config as int, syncs@) {
                Some(error) => r == Err::<(), Error>(error) && final(self)@ == old(self)@,
                None => r == Ok::<(), Error>(()) && final(self)@ == old(self)@.config_pdos_next(
                    config as int,
                    syncs@,
                ),
            },
    {
        let c: usize = config as usize;
        if c >= self.configs.len() {
            return Err(Error::NoSuchConfig);
        }
        if self.active {
            return Err(Error::Activated);
        }
        if self.configs[c].registered {
            return Err(Error::AlreadyRegistered);
        }
        let declared = collect_entries(syncs);
        if let Some(fault) = check_declaration(&declared) {
            return Err(fault);
        }
        self.configs[c].declared = declared;
        proof {
            let next = old(self)@.config_pdos_next(config as int, syncs@);
            assert(self@.domains =~= next.domains);
            assert(self@.configs =~= next.configs);
        }
        Ok(())
    }

    /// What the master holds of a slave configuration, and the device that
    /// the latest scan matches it to.
    pub fn get_config_info(&self, idx: SlaveConfigIndex) -> (r: Result<ConfigInfo, Error>)
        requires
            self.wf(),
        ensures
            !self@.has_config(idx as int) ==> r == Err::<ConfigInfo, Error>(Error::NoSuchConfig),
            self@.has_config(idx as int) ==> r == Ok::<ConfigInfo, Error>(
                self@.config_info(idx as int),
            ),
    {
        let c: usize = idx as usize;
        if c >= self.configs.len() {
            return Err(Error::NoSuchConfig);
        }
        let config = &self.configs[c];
        let (alias, position) = config.addr.as_pair();
        Ok(
            ConfigInfo {
                alias,
                position,
                id: config.id,
                slave_position: resolve(&self.slaves, config.addr, config.id),
                sdo_count: 0,
                idn_count: 0,
            },
        )
    }

    /// Takes in the result of a scan of the ring: the static information on
    /// the master and the devices that responded, by ring position.
    pub fn rescan(&mut self, info: MasterInfo, slaves: Vec<Slave>) -> (r: Result<(), Error>)
        requires
            old(self).wf(),
        ensures
            final(self).wf(),
            match old(self)@.rescan_refusal(info, slaves@) {
                Some(error) => r == Err::<(), Error>(error) && final(self)@ == old(self)@,
                None => r == Ok::<(), Error>(()) && final(self)@ == old(self)@.rescan_next(
                    info,
                    slaves@,
                ),
            },
    {
        if slaves.len() > 0xFFFF_FFFF || slaves.len() as u32 != info.slave_count {
            return Err(Error::ScanMismatch);
        }
        self.info = info;
        self.slaves = slaves;
        proof {
            let next = old(self)@.rescan_next(info, slaves@);
            assert(self@.domains =~= next.domains);
            assert(self@.configs =~= next.configs);
        }
        Ok(())
    }

    /// Whether the latest scan matches every slave configuration to a device.
    fn is_resolved(&self) -> (resolved: bool)
        requires
            self.wf(),
        ensures
            resolved == self@.all_resolved(),
    {
        let mut c: usize = 0;
        while c < self.configs.len()
            invariant
                self.wf(),
                c <= self.configs@.len(),
                forall|k: int|
                    0 <= k < c ==> matched_position(
                        self@.slaves,
                        (#[trigger] self@.configs[k]).addr,
                        self@.configs[k].id,
                    ) is Some,
            decreases self.configs@.len() - c,
        {
            let config = &self.configs[c];
            if resolve(&self.slaves, config.addr, config.id).is_none() {
                proof {
                    assert(self@.configs[c as int].addr == config.addr);
                }
                return false;
            }
            c = c + 1;
        }
        true
    }

    /// Freezes the layout of the domains, gives every domain its image, and
    /// makes the master ready for the cyclic exchange.
    pub fn activate(&mut self) -> (r: Result<(), Error>)
        requires
            old(self).wf(),
        ensures
            final(self).wf(),
            match old(self)@.activate_refusal() {
                Some(error) => r == Err::<(), Error>(error) && final(self)@ == old(self)@,
                None => r == Ok::<(), Error>(()) && final(self)@ == old(self)@.activate_next(),
            },
    {
        if self.active {
            return Err(Error::Activated);
        }
        if !self.is_resolved() {
            return Err(Error::Unresolved);
        }
        let mut d: usize = 0;
        while d < self.domains.len()
            invariant
                d <= self.domains@.len(),
                self.domains@.len() == old(self).domains@.len(),
                forall|k: int|
                    0 <= k < d ==> (#[trigger] self.domains@[k])@ == (DomainView {
                        data: blank_image(old(self).domains@[k].size as nat),
                        ..old(self).domains@[k]@
                    }),
                forall|k: int|
                    d <= k < self.domains@.len() ==> #[trigger] self.domains@[k] == old(
                        self,
                    ).domains@[k],
                self.index == old(self).index,
                self.access == old(self).access,
                self.reserved == old(self).reserved,
                self.active == old(self).active,
                self.configs == old(self).configs,
                self.info == old(self).info,
                self.slaves == old(self).slaves,
                self.state == old(self).state,
                self.inbox == old(self).inbox,
            decreases self.domains@.len() - d,
        {
            let image = blank(self.domains[d].size);
            self.domains[d].data = image;
            d = d + 1;
        }
        self.active = true;
        proof {
            let next = old(self)@.activate_next();
            assert(self@.domains =~= next.domains);
            assert(self@.configs =~= next.configs);
        }
        Ok(())
    }

    /// Whether the frames of an inbound exchange fit the domains.
    fn fits(&self, frames: &Vec<DomainFrame>) -> (fitting: bool)
        ensures
            fitting == self@.fits(frame_views(frames@)),
    {
        if frames.len() != self.domains.len() {
            return false;
        }
        let mut d: usize = 0;
        while d < frames.len()
            invariant
                d <= frames@.len(),
                frames@.len() == self.domains@.len(),
                forall|k: int|
                    0 <= k < d ==> (#[trigger] frame_views(frames@)[k]).data.len()
                        == self@.domains[k].size,
            decreases frames@.len() - d,
        {
            if frames[d].data.len() != self.domains[d].size {
                proof {
                    assert(frame_views(frames@)[d as int].data.len() != self@.domains[d as int].size);
                }
                return false;
            }
            d = d + 1;
        }
        true
    }

    /// Takes in one inbound exchange: what the ring reported of itself, and
    /// one frame for each domain.
    pub fn receive(&mut self, inbound: Inbound) -> (r: Result<(), Error>)
        requires
            old(self).wf(),
        ensures
            final(self).wf(),
            r == (match old(self)@.receive_refusal(inbound@) {
                Some(error) => Err::<(), Error>(error),
                None => Ok::<(), Error>(()),
            }),
            final(self)@ == old(self)@.receive_next(inbound@),
    {
        if !self.reserved {
            return Err(Error::NotReserved);
        }
        if !self.active {
            return Err(Error::NotActivated);
        }
        if inbound.al_states >= 16 {
            return Err(Error::InvalidState(inbound.al_states as u32));
        }
        let observed = MasterState {
            slaves_responding: inbound.slaves_responding,
            al_states: inbound.al_states,
            link_up: inbound.link_up,
        };
        if !inbound.link_up {
            self.state = observed;
            proof {
                let next = old(self)@.receive_next(inbound@);
                assert(self@.domains =~= next.domains);
                assert(self@.configs =~= next.configs);
            }
            return Err(Error::LinkDown);
        }
        if !self.fits(&inbound.frames) {
            return Err(Error::FrameMismatch);
        }
        self.state = observed;
        self.inbox = inbound.frames;
        proof {
            let next = old(self)@.receive_next(inbound@);
            assert(self@.domains =~= next.domains);
            assert(self@.configs =~= next.configs);
        }
        Ok(())
    }

    /// Brings a domain up to the latest inbound exchange.
    pub(crate) fn process(&mut self, domain: DomainIndex) -> (r: Result<(), Error>)
        requires
            old(self).wf(),
        ensures
            final(self).wf(),
            match old(self)@.process_refusal(domain@) {
                Some(error) => r == Err::<(), Error>(error) && final(self)@ == old(self)@,
                None => r == Ok::<(), Error>(()) && final(self)@ == old(self)@.process_next(
                    domain@,
                ),
            },
    {
        let d: usize = domain.0;
        if d >= self.domains.len() {
            return Err(Error::NoSuchDomain);
        }
        if self.inbox.len() == 0 {
            return Ok(());
        }
        let frame = &self.inbox[d];
        let wc_state = match WcState::decode(frame.wc_state) {
            Ok(wc_state) => wc_state,
            Err(error) => {
                return Err(error);
            },
        };
        let state = DomainState {
            working_counter: frame.working_counter,
            wc_state,
            redundancy_active: frame.redundancy_active,
        };
        let image = copy_image(&frame.data);
        self.domains[d].data = image;
        self.domains[d].state = state;
        proof {
            let next = old(self)@.process_next(domain@);
            assert(self@.domains =~= next.domains);
            assert(self@.configs =~= next.configs);
        }
        Ok(())
    }

    /// Marks the image of a domain for the next outbound exchange.
    pub(crate) fn queue(&mut self, domain: DomainIndex) -> (r: Result<(), Error>)
        requires
            old(self).wf(),
        ensures
            final(self).wf(),
            match old(self)@.queue_refusal(domain@) {
                Some(error) => r == Err::<(), Error>(error) && final(self)@ == old(self)@,
                None => r == Ok::<(), Error>(()) && final(self)@ == old(self)@.queue_next(domain@),
            },
    {
        let d: usize = domain.0;
        if d >= self.domains.len() {
            return Err(Error::NoSuchDomain);
        }
        self.domains[d].queued = true;
        proof {
            let next = old(self)@.queue_next(domain@);
            assert(self@.domains =~= next.domains);
            assert(self@.configs =~= next.configs);
        }
        Ok(())
    }

    /// What a domain saw in the latest exchange that it processed.
    pub(crate) fn domain_state(&self, domain: DomainIndex) -> (r: Result<DomainState, Error>)
        ensures
            !self@.has_domain(domain@) ==> r == Err::<DomainState, Error>(Error::NoSuchDomain),
            self@.has_domain(domain@) ==> r == Ok::<DomainState, Error>(
                self@.domains[domain@].state,
            ),
    {
        let d: usize = domain.0;
        if d >= self.domains.len() {
            return Err(Error::NoSuchDomain);
        }
        Ok(self.domains[d].state)
    }

    /// Hands the images of the queued domains over for one outbound
    /// exchange, each with the index of its domain, in the order of the
    /// indices. No domain is queued afterwards.
    pub fn send(&mut self) -> (r: Result<Vec<OutboundFrame>, Error>)
        requires
            old(self).wf(),
        ensures
            final(self).wf(),
            match old(self)@.send_refusal() {
                Some(error) => r matches Err(e) && e == error && final(self)@ == old(self)@,
                None => r matches Ok(frames) && outbound_views(frames@) == queued_images(
                    old(self)@.domains,
                ) && final(self)@ == old(self)@.send_next(),
            },
    {
        if !self.reserved {
            return Err(Error::NotReserved);
        }
        if !self.active {
            return Err(Error::NotActivated);
        }
        if !self.state.link_up {
            return Err(Error::LinkDown);
        }
        let mut frames: Vec<OutboundFrame> = Vec::new();
        let mut d: usize = 0;
        while d < self.domains.len()
            invariant
                d <= self.domains@.len(),
                self.domains@.len() == old(self).domains@.len(),
                outbound_views(frames@) == queued_images(old(self)@.domains.take(d as int)),
                forall|k: int|
                    0 <= k < d ==> (#[trigger] self.domains@[k])@ == (DomainView {
                        queued: false,
                        ..old(self).domains@[k]@
                    }),
                forall|k: int|
                    d <= k < self.domains@.len() ==> #[trigger] self.domains@[k] == old(
                        self,
                    ).domains@[k],
                self.index == old(self).index,
                self.access == old(self).access,
                self.reserved == old(self).reserved,
                self.active == old(self).active,
                self.configs == old(self).configs,
                self.info == old(self).info,
                self.slaves == old(self).slaves,
                self.state == old(self).state,
                self.inbox == old(self).inbox,
            decreases self.domains@.len() - d,
        {
            proof {
                assert(old(self)@.domains.take(d + 1).drop_last() =~= old(self)@.domains.take(
                    d as int,
                ));
            }
            if self.domains[d].queued {
                let data = copy_image(&self.domains[d].data);
                let ghost before = frames@;
                frames.push(OutboundFrame { domain: DomainIndex(d), data });
                self.domains[d].queued = false;
                proof {
                    assert(outbound_views(frames@) =~= outbound_views(before).push(
                        (d as int, data@),
                    ));
                }
            }
            d = d + 1;
        }
        proof {
            assert(old(self)@.domains.take(d as int) =~= old(self)@.domains);
            let next = old(self)@.send_next();
            assert(self@.domains =~= next.domains);
            assert(self@.configs =~= next.configs);
        }
        Ok(frames)
    }

    /// The image of a domain, to read the inputs from and to write the
    /// outputs to, at the offsets of the entries.
    pub fn domain_data(&mut self, idx: DomainIndex) -> (r: Result<&mut [u8], Error>)
        requires
            old(self).wf(),
        ensures
            match old(self)@.domain_data_refusal(idx@) {
                Some(error) => r matches Err(e) && e == error && final(self)@ == old(self)@
                    && final(self).wf(),
                None => r matches Ok(image) && image@ == old(self)@.domains[idx@].data
                    && final(self)@ == old(self)@.with_image(idx@, final(image)@)
                    && (final(image)@.len() == image@.len() ==> final(self).wf()),
            },
    {
        let d: usize = idx.0;
        if d >= self.domains.len() {
            return Err(Error::NoSuchDomain);
        }
        if !self.active {
            return Err(Error::NotActivated);
        }
        proof {
            let before = *self;
            assert forall|after: Master, data: Seq<u8>|
                before.rewritten(after, d as int, data) implies #[trigger] after@
                == #[trigger] before@.with_image(d as int, data) by {
                let next = before@.with_image(d as int, data);
                assert(after@.domains =~= next.domains);
                assert(after@.configs =~= next.configs);
            }
        }
        Ok(self.domains[d].data.as_mut_slice())
    }

    /// The index of the master instance.
    pub fn index(&self) -> (index: MasterIndex)
        ensures
            index == self@.index,
    {
        self.index
    }

    /// How the master instance was opened.
    pub fn access(&self) -> (access: MasterAccess)
        ensures
            access == self@.access,
    {
        self.access
    }

    /// What the latest inbound exchange told of the ring.
    pub fn state(&self) -> (state: MasterState)
        ensures
            state == self@.state,
    {
        self.state
    }

    /// The static information from the latest scan.
    pub fn get_info(&self) -> (info: MasterInfo)
        ensures
            info == self@.info,
    {
        self.info
    }

    /// What the device at a ring position told of itself in the latest scan.
    pub fn get_slave_info(&self, position: SlavePosition) -> (r: Result<&SlaveInfo, Error>)
        ensures
            position >= self@.slaves.len() ==> (r matches Err(e) && e == Error::NoSuchSlave),
            position < self@.slaves.len() ==> (r matches Ok(info) && *info
                == self@.slaves[position as int].info),
    {
        let p: usize = position as usize;
        if p >= self.slaves.len() {
            return Err(Error::NoSuchSlave);
        }
        Ok(&self.slaves[p].info)
    }

    /// The object at a position of the dictionary of a slave.
    pub fn get_sdo(&self, slave_pos: SlavePosition, sdo_pos: u16) -> (r: Result<&SdoInfo, Error>)
        ensures
            slave_pos >= self@.slaves.len() ==> (r matches Err(e) && e == Error::NoSuchSlave),
            slave_pos < self@.slaves.len() && sdo_pos
                >= self@.slaves[slave_pos as int].dictionary@.len() ==> (r matches Err(e) && e
                == Error::NoSuchSdo),
            slave_pos < self@.slaves.len() && sdo_pos
                < self@.slaves[slave_pos as int].dictionary@.len() ==> (r matches Ok(info) && *info
                == self@.slaves[slave_pos as int].dictionary@[sdo_pos as int].info),
    {
        let p: usize = slave_pos as usize;
        if p >= self.slaves.len() {
            return Err(Error::NoSuchSlave);
        }
        let dictionary = &self.slaves[p].dictionary;
        let o: usize = sdo_pos as usize;
        if o >= dictionary.len() {
            return Err(Error::NoSuchSdo);
        }
        Ok(&dictionary[o].info)
    }

    /// The entry of the dictionary of a slave that an address names.
    pub fn get_sdo_entry(&self, slave_pos: SlavePosition, addr: SdoEntryAddr) -> (r: Result<
        &SdoEntry,
        Error,
    >)
        ensures
            slave_pos >= self@.slaves.len() ==> (r matches Err(e) && e == Error::NoSuchSlave),
            slave_pos < self@.slaves.len() ==> match addressed_object(
                self@.slaves[slave_pos as int].dictionary@,
                addr,
            ) {
                None => r matches Err(e) && e == Error::NoSuchSdo,
                Some(o) => {
                    let entries = self@.slaves[slave_pos as int].dictionary@[o].entries@;
                    let subindex = addressed_subindex(addr);
                    if subindex < entries.len() {
                        r matches Ok(entry) && *entry == entries[subindex as int]
                    } else {
                        r matches Err(e) && e == Error::NoSuchSdoEntry
                    }
                },
            },
    {
        let p: usize = slave_pos as usize;
        if p >= self.slaves.len() {
            return Err(Error::NoSuchSlave);
        }
        let object = match find_object(&self.slaves[p].dictionary, addr) {
            None => {
                return Err(Error::NoSuchSdo);
            },
            Some(object) => object,
        };
        let subindex: usize = subindex_of(addr) as usize;
        if subindex >= object.entries.len() {
            return Err(Error::NoSuchSdoEntry);
        }
        Ok(&object.entries[subindex])
    }

    /// Registers an entry of the slave configuration `config` in a domain.
    pub(crate) fn register(&mut self, config: SlaveConfigIndex, entry: PdoEntryIndex, domain: DomainIndex) -> (r:
        Result<Offset, Error>)
        requires
            old(self).wf(),
        ensures
            final(self).wf(),
            r == old(self)@.register_result(config as int, entry, domain@),
            final(self)@ == old(self)@.register_state(config as int, entry, domain@),
    {
        let c: usize = config as usize;
        if c >= self.configs.len() {
            return Err(Error::NoSuchConfig);
        }
        if self.active {
            return Err(Error::Activated);
        }
        let d: usize = domain.0;
        if d >= self.domains.len() {
            return Err(Error::NoSuchDomain);
        }
        let shape = match find_entry(&self.configs[c].declared, entry) {
            None => {
                return Err(Error::EntryNotDeclared);
            },
            Some(shape) => shape,
        };
        if shape.bit_length % 8 != 0 {
            return Err(Error::UnsupportedPacking);
        }
        let bytes: usize = (shape.bit_length / 8) as usize;
        let start: usize = self.domains[d].size;
        if bytes > usize::MAX - start {
            return Err(Error::ImageTooLarge);
        }
        self.domains[d].size = start + bytes;
        self.configs[c].registered = true;
        proof {
            let next = old(self)@.register_next(config as int, entry, domain@);
            assert(self@.domains =~= next.domains);
            assert(self@.configs =~= next.configs);
        }
        Ok(Offset { byte: start, bit: 0 })
    }
}

impl<'m> SlaveConfig<'m> {
    /// The index under which the master holds this configuration.
    pub fn index(&self) -> (idx: SlaveConfigIndex)
        ensures
            idx == self.idx,
    {
        self.idx
    }

    /// Declares the sync managers of the slave, each with its PDOs and their
    /// entries, all at once: the declaration is taken as a whole or not at
    /// all. It replaces an earlier one, and is refused once an entry of the
    /// slave is registered.
    pub fn config_pdos(&mut self, info: &[SyncInfo<'_>]) -> (r: Result<(), Error>)
        requires
            old(self).master.wf(),
        ensures
            final(self).idx == old(self).idx,
            *final(final(self).master) == *final(old(self).master),
            final(self).master.wf(),
            match old(self).master@.config_pdos_refusal(old(self).idx as int, info@) {
                Some(error) => r == Err::<(), Error>(error) && final(self).master@ == old(
                    self,
                ).master@,
                None => r == Ok::<(), Error>(()) && final(self).master@ == old(
                    self,
                ).master@.config_pdos_next(old(self).idx as int, info@),
            },
    {
        self.master.declare(self.idx, info)
    }

    /// Registers a declared entry in a domain and returns where in the
    /// domain image it is placed: behind everything that was registered in
    /// the domain before.
    pub fn register_pdo_entry(&mut self, index: PdoEntryIndex, domain: DomainIndex) -> (r: Result<
        Offset,
        Error,
    >)
        requires
            old(self).master.wf(),
        ensures
            final(self).idx == old(self).idx,
            *final(final(self).master) == *final(old(self).master),
            final(self).master.wf(),
            r == old(self).master@.register_result(old(self).idx as int, index, domain@),
            final(self).master@ == old(self).master@.register_state(
                old(self).idx as int,
                index,
                domain@,
            ),
    {
        self.master.register(self.idx, index, domain)
    }
}

impl<'m> Domain<'m> {
    /// Brings the image and the state of the domain up to the latest inbound
    /// exchange.
    pub fn process(&mut self) -> (r: Result<(), Error>)
        requires
            old(self).master.wf(),
        ensures
            final(self).idx == old(self).idx,
            *final(final(self).master) == *final(old(self).master),
            final(self).master.wf(),
            match old(self).master@.process_refusal(old(self).idx@) {
                Some(error) => r == Err::<(), Error>(error) && final(self).master@ == old(
                    self,
                ).master@,
                None => r == Ok::<(), Error>(()) && final(self).master@ == old(
                    self,
                ).master@.process_next(old(self).idx@),
            },
    {
        self.master.process(self.idx)
    }

    /// Marks the image of the domain for the next outbound exchange.
    pub fn queue(&mut self) -> (r: Result<(), Error>)
        requires
            old(self).master.wf(),
        ensures
            final(self).idx == old(self).idx,
            *final(final(self).master) == *final(old(self).master),
            final(self).master.wf(),
            match old(self).master@.queue_refusal(old(self).idx@) {
                Some(error) => r == Err::<(), Error>(error) && final(self).master@ == old(
                    self,
                ).master@,
                None => r == Ok::<(), Error>(()) && final(self).master@ == old(
                    self,
                ).master@.queue_next(old(self).idx@),
            },
    {
        self.master.queue(self.idx)
    }

    /// What the domain saw in the latest exchange that it processed.
    pub fn state(&self) -> (r: Result<DomainState, Error>)
        ensures
            !old(self.master)@.has_domain(self.idx@) ==> r == Err::<DomainState, Error>(
                Error::NoSuchDomain,
            ),
            old(self.master)@.has_domain(self.idx@) ==> r == Ok::<DomainState, Error>(
                old(self.master)@.domains[self.idx@].state,
            ),
    {
        self.master.domain_state(self.idx)
    }
}

} // verus!

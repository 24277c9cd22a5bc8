use crate::error::Error;
use crate::types::{SlaveId, SlaveRev};
use vstd::prelude::*;

verus! {

/// Number of ports of a slave.
pub const MAX_PORTS: usize = 4;

/// Application-layer state of a slave.
#[derive(Debug, Clone, Copy, PartialEq, Eq, Structural)]
pub enum AlState {
    Init,
    Preop,
    Safeop,
    Op,
}

impl AlState {
    /// The code of the state on the wire. Each state has one bit of its own,
    /// so that a set of states is the bitwise or of their codes.
    pub open spec fn code(self) -> u32 {
        match self {
            AlState::Init => 1,
            AlState::Preop => 2,
            AlState::Safeop => 4,
            AlState::Op => 8,
        }
    }

    /// The state that a code stands for, if any.
    pub open spec fn of_code(code: u32) -> Option<AlState> {
        if code == 1 {
            Some(AlState::Init)
        } else if code == 2 {
            Some(AlState::Preop)
        } else if code == 4 {
            Some(AlState::Safeop)
        } else if code == 8 {
            Some(AlState::Op)
        } else {
            None
        }
    }

    pub fn encode(self) -> (code: u32)
        ensures
            code == self.code(),
    {
        match self {
            AlState::Init => 1,
            AlState::Preop => 2,
            AlState::Safeop => 4,
            AlState::Op => 8,
        }
    }

    pub fn decode(code: u32) -> (r: Result<AlState, Error>)
        ensures
            match Self::of_code(code) {
                Some(state) => r == Ok::<AlState, Error>(state),
                None => r == Err::<AlState, Error>(Error::InvalidState(code)),
            },
    {
        if code == 1 {
            Ok(AlState::Init)
        } else if code == 2 {
            Ok(AlState::Preop)
        } else if code == 4 {
            Ok(AlState::Safeop)
        } else if code == 8 {
            Ok(AlState::Op)
        } else {
            Err(Error::InvalidState(code))
        }
    }
}

/// Whether a byte is a set of application-layer states: no bit is set but
/// those of the four state codes.
pub open spec fn is_al_state_set(mask: u8) -> bool {
    mask < 16
}

/// How the working counter of a domain compares to the one expected.
#[derive(Debug, Clone, Copy, PartialEq, Eq, Structural)]
pub enum WcState {
    Zero,
    Incomplete,
    Complete,
}

impl WcState {
    pub open spec fn code(self) -> u32 {
        match self {
            WcState::Zero => 0,
            WcState::Incomplete => 1,
            WcState::Complete => 2,
        }
    }

    /// The state that a code stands for, if any.
    pub open spec fn of_code(code: u32) -> Option<WcState> {
        if code == 0 {
            Some(WcState::Zero)
        } else if code == 1 {
            Some(WcState::Incomplete)
        } else if code == 2 {
            Some(WcState::Complete)
        } else {
            None
        }
    }

    pub fn encode(self) -> (code: u32)
        ensures
            code == self.code(),
    {
        match self {
            WcState::Zero => 0,
            WcState::Incomplete => 1,
            WcState::Complete => 2,
        }
    }

    pub fn decode(code: u32) -> (r: Result<WcState, Error>)
        ensures
            match Self::of_code(code) {
                Some(state) => r == Ok::<WcState, Error>(state),
                None => r == Err::<WcState, Error>(Error::InvalidState(code)),
            },
    {
        if code == 0 {
            Ok(WcState::Zero)
        } else if code == 1 {
            Ok(WcState::Incomplete)
        } else if code == 2 {
            Ok(WcState::Complete)
        } else {
            Err(Error::InvalidState(code))
        }
    }
}

/// Static information on a master and its ring.
#[derive(Debug, Clone, Copy, PartialEq, Eq, Structural)]
pub struct MasterInfo {
    pub slave_count: u32,
    pub link_up: bool,
    pub scan_busy: bool,
    pub app_time: u64,
}

/// What a master saw of its ring in the latest inbound exchange.
#[derive(Debug, Clone, Copy, PartialEq, Eq, Structural)]
pub struct MasterState {
    pub slaves_responding: u32,
    pub al_states: u8,
    pub link_up: bool,
}

impl MasterState {
    /// Whether the ring has reached Op: the link is up, and Op is the one
    /// state that slaves are in.
    pub open spec fn is_operational(self) -> bool {
        self.link_up && self.al_states == 8
    }

    pub fn operational(&self) -> (r: bool)
        ensures
            r == self.is_operational(),
    {
        self.link_up && self.al_states == 8
    }
}

/// What a domain saw in the latest exchange that it processed.
#[derive(Debug, Clone, Copy, PartialEq, Eq, Structural)]
pub struct DomainState {
    pub working_counter: u32,
    pub wc_state: WcState,
    pub redundancy_active: bool,
}

/// A slave configuration as the master holds it. `slave_position` is the
/// ring position of the device that the configuration was matched to, and
/// `None` where no device on the ring matches it.
#[derive(Debug, Clone, Copy, PartialEq, Eq, Structural)]
pub struct ConfigInfo {
    pub alias: u16,
    pub position: u16,
    pub id: SlaveId,
    pub slave_position: Option<u32>,
    pub sdo_count: u32,
    pub idn_count: u32,
}

#[derive(Debug, Clone, Copy, PartialEq, Eq, Structural)]
pub enum SlavePortType {
    NotImplemented,
    NotConfigured,
    EBus,
    MII,
}

impl SlavePortType {
    pub open spec fn code(self) -> u32 {
        match self {
            SlavePortType::NotImplemented => 0,
            SlavePortType::NotConfigured => 1,
            SlavePortType::EBus => 2,
            SlavePortType::MII => 3,
        }
    }

    /// The port type that a code stands for, if any.
    pub open spec fn of_code(code: u32) -> Option<SlavePortType> {
        if code == 0 {
            Some(SlavePortType::NotImplemented)
        } else if code == 1 {
            Some(SlavePortType::NotConfigured)
        } else if code == 2 {
            Some(SlavePortType::EBus)
        } else if code == 3 {
            Some(SlavePortType::MII)
        } else {
            None
        }
    }

    pub fn encode(self) -> (code: u32)
        ensures
            code == self.code(),
    {
        match self {
            SlavePortType::NotImplemented => 0,
            SlavePortType::NotConfigured => 1,
            SlavePortType::EBus => 2,
            SlavePortType::MII => 3,
        }
    }

    pub fn decode(code: u32) -> (r: Result<SlavePortType, Error>)
        ensures
            match Self::of_code(code) {
                Some(port) => r == Ok::<SlavePortType, Error>(port),
                None => r == Err::<SlavePortType, Error>(Error::InvalidState(code)),
            },
    {
        if code == 0 {
            Ok(SlavePortType::NotImplemented)
        } else if code == 1 {
            Ok(SlavePortType::NotConfigured)
        } else if code == 2 {
            Ok(SlavePortType::EBus)
        } else if code == 3 {
            Ok(SlavePortType::MII)
        } else {
            Err(Error::InvalidState(code))
        }
    }
}

impl Default for SlavePortType {
    fn default() -> (r: Self)
        ensures
            r == SlavePortType::NotImplemented,
    {
        SlavePortType::NotImplemented
    }
}

#[derive(Debug, Clone, Copy, PartialEq, Eq, Structural)]
pub struct SlavePortLink {
    pub link_up: bool,
    pub loop_closed: bool,
    pub signal_detected: bool,
}

impl Default for SlavePortLink {
    fn default() -> (r: Self)
        ensures
            r == (SlavePortLink { link_up: false, loop_closed: false, signal_detected: false }),
    {
        SlavePortLink { link_up: false, loop_closed: false, signal_detected: false }
    }
}

#[derive(Debug, Clone, Copy, PartialEq, Eq, Structural)]
pub struct SlavePortInfo {
    pub desc: SlavePortType,
    pub link: SlavePortLink,
    pub receive_time: u32,
    pub next_slave: u16,
    pub delay_to_next_dc: u32,
}

impl Default for SlavePortInfo {
    fn default() -> (r: Self)
        ensures
            r == (SlavePortInfo {
                desc: SlavePortType::NotImplemented,
                link: SlavePortLink { link_up: false, loop_closed: false, signal_detected: false },
                receive_time: 0,
                next_slave: 0,
                delay_to_next_dc: 0,
            }),
    {
        SlavePortInfo {
            desc: SlavePortType::NotImplemented,
            link: SlavePortLink { link_up: false, loop_closed: false, signal_detected: false },
            receive_time: 0,
            next_slave: 0,
            delay_to_next_dc: 0,
        }
    }
}

/// What a device on the ring tells of itself.
#[derive(Debug, Clone)]
pub struct SlaveInfo {
    pub name: String,
    pub ring_pos: u16,
    pub id: SlaveId,
    pub rev: SlaveRev,
    pub alias: u16,
    pub current_on_ebus: i16,
    pub al_state: AlState,
    pub error_flag: u8,
    pub sync_count: u8,
    pub sdo_count: u16,
    pub ports: [SlavePortInfo; MAX_PORTS],
}

/// How a configured slave is doing.
#[derive(Debug, Clone, Copy, PartialEq, Eq, Structural)]
pub struct SlaveConfigState {
    pub online: bool,
    pub operational: bool,
    pub al_state: AlState,
}

} // verus!

//! Configuration and cyclic exchange layer of an EtherCAT master.

pub mod error;
pub mod exchange;
pub mod laws;
pub mod layout;
pub mod master;
pub mod model;
pub mod offsets;
pub mod ring;
pub mod sdo;
pub mod state;
pub mod types;

pub use crate::error::Error;
pub use crate::exchange::{DomainFrame, Inbound, OutboundFrame};
pub use crate::master::{Domain, Master, SlaveConfig};
pub use crate::model::{Availability, MasterAccess};
pub use crate::offsets::{OffsetTable, Placement};
pub use crate::ring::{SdoObject, Slave};
pub use crate::sdo::{Access, DataType, SdoData, SdoEntry, SdoEntryAccess, SdoInfo};
pub use crate::state::{
    AlState, ConfigInfo, DomainState, MasterInfo, MasterState, SlaveConfigState, SlaveInfo,
    SlavePortInfo, SlavePortLink, SlavePortType, WcState, MAX_PORTS,
};
pub use crate::types::{
    DomainIndex, MasterIndex, Offset, PdoEntryIndex, PdoEntryInfo, PdoIndex, PdoInfo, SdoEntryAddr,
    SdoIndex, SlaveAddr, SlaveConfigIndex, SlaveId, SlavePosition, SlaveRev, SmIndex, SyncDirection,
    SyncInfo, WatchdogMode,
};

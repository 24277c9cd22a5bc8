use vstd::prelude::*;

verus! {

/// Everything that can go wrong while configuring a master or driving the
/// cyclic exchange.
#[derive(Debug, Clone, Copy, PartialEq, Eq, Structural)]
pub enum Error {
    /// No master instance exists under the requested index.
    NoSuchMaster,
    /// The master instance is already held exclusively.
    MasterBusy,
    /// The operation needs a master that was reserved for exclusive use.
    NotReserved,
    /// The operation is only permitted before activation.
    Activated,
    /// The operation is only permitted after activation.
    NotActivated,
    /// The link to the ring is down.
    LinkDown,
    /// The domain index does not name a domain of this master.
    NoSuchDomain,
    /// The configuration index does not name a slave configuration of this
    /// master.
    NoSuchConfig,
    /// No slave responds at the given ring position.
    NoSuchSlave,
    /// The slave has no object at the given dictionary position or index.
    NoSuchSdo,
    /// The object has no entry under the given subindex.
    NoSuchSdoEntry,
    /// The master cannot hold another slave configuration.
    OutOfSlots,
    /// The PDO entry was never declared for this slave.
    EntryNotDeclared,
    /// A declared PDO entry has a bit length of 0.
    EmptyEntry,
    /// A PDO entry is declared twice for one slave.
    DuplicateEntry,
    /// The PDO layout of a slave cannot be declared again once one of its
    /// entries is registered.
    AlreadyRegistered,
    /// The entry does not start and end on a byte boundary; packing below
    /// byte granularity is not implemented.
    UnsupportedPacking,
    /// The domain image cannot grow any further.
    ImageTooLarge,
    /// A slave configuration could not be matched to a device on the ring.
    Unresolved,
    /// A state code outside the known set was observed.
    InvalidState(u32),
    /// An inbound exchange does not fit the domains of this master.
    FrameMismatch,
    /// A scan result whose slave count contradicts its list of slaves.
    ScanMismatch,
    /// The entry has no offset in the table.
    NotRegistered,
    /// The entry reaches beyond the end of the domain image.
    OutOfRange,
}

} // verus!

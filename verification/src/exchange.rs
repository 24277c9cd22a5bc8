use crate::types::DomainIndex;
use vstd::prelude::*;

verus! {

/// What one inbound exchange delivered for one domain: the domain image as
/// the ring filled it, and the raw working counter bookkeeping.
#[derive(Debug, Clone)]
pub struct DomainFrame {
    pub data: Vec<u8>,
    pub working_counter: u32,
    /// Code of the working counter state.
    pub wc_state: u32,
    pub redundancy_active: bool,
}

/// A frame of an inbound exchange, with its image as a sequence of bytes.
pub struct FrameView {
    pub data: Seq<u8>,
    pub working_counter: u32,
    pub wc_state: u32,
    pub redundancy_active: bool,
}

impl View for DomainFrame {
    type V = FrameView;

    open spec fn view(&self) -> FrameView {
        FrameView {
            data: self.data@,
            working_counter: self.working_counter,
            wc_state: self.wc_state,
            redundancy_active: self.redundancy_active,
        }
    }
}

/// One inbound exchange: what the ring reported of itself, and one frame
/// for each domain of the master, in the order of the domain indices.
#[derive(Debug, Clone)]
pub struct Inbound {
    pub slaves_responding: u32,
    /// Set of the application-layer states that the slaves are in.
    pub al_states: u8,
    pub link_up: bool,
    pub frames: Vec<DomainFrame>,
}

/// An inbound exchange, with its frames as a sequence.
pub struct InboundView {
    pub slaves_responding: u32,
    pub al_states: u8,
    pub link_up: bool,
    pub frames: Seq<FrameView>,
}

/// The views of the frames, frame by frame.
pub open spec fn frame_views(frames: Seq<DomainFrame>) -> Seq<FrameView> {
    Seq::new(frames.len(), |i: int| frames[i]@)
}

impl View for Inbound {
    type V = InboundView;

    open spec fn view(&self) -> InboundView {
        InboundView {
            slaves_responding: self.slaves_responding,
            al_states: self.al_states,
            link_up: self.link_up,
            frames: frame_views(self.frames@),
        }
    }
}

/// The image of one domain on its way to the ring.
#[derive(Debug, Clone)]
pub struct OutboundFrame {
    pub domain: DomainIndex,
    pub data: Vec<u8>,
}

impl View for OutboundFrame {
    type V = (int, Seq<u8>);

    open spec fn view(&self) -> (int, Seq<u8>) {
        (self.domain@, self.data@)
    }
}

/// The views of the frames, frame by frame.
pub open spec fn outbound_views(frames: Seq<OutboundFrame>) -> Seq<(int, Seq<u8>)> {
    Seq::new(frames.len(), |i: int| frames[i]@)
}

} // verus!

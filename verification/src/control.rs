//! The discoverable control block.
//!
//! An external agent that can only read raw memory finds the channels
//! by scanning for a fixed ASCII signature. The signature is followed
//! by the number of up channels and the number of down channels, then
//! by the up-channel descriptors and the down-channel descriptors, in
//! that stable order. Once built, the block's channel counts never
//! change.

use vstd::prelude::*;

use crate::rtt::RttChannel;

verus! {

/// The byte pattern that opens the control block: the ASCII text
/// `SEGGER RTT` padded with zero bytes to 16 bytes, chosen to be
/// unique enough that a linear scan of raw memory does not match it by
/// accident.
pub open spec fn signature_bytes() -> Seq<u8> {
    seq![
        0x53u8,
        0x45u8,
        0x47u8,
        0x47u8,
        0x45u8,
        0x52u8,
        0x20u8,
        0x52u8,
        0x54u8,
        0x54u8,
        0u8,
        0u8,
        0u8,
        0u8,
        0u8,
        0u8,
    ]
}

/// Builds the signature as stored at the head of a control block.
pub fn build_signature() -> (v: Vec<u8>)
    ensures
        v@ == signature_bytes(),
{
    let v: Vec<u8> = vec![
        0x53u8,
        0x45u8,
        0x47u8,
        0x47u8,
        0x45u8,
        0x52u8,
        0x20u8,
        0x52u8,
        0x54u8,
        0x54u8,
        0u8,
        0u8,
        0u8,
        0u8,
        0u8,
        0u8,
    ];
    proof {
        assert(v@ =~= signature_bytes());
    }
    v
}

/// The root structure an external agent discovers: the signature, the
/// two channel counts, and the two descriptor arrays in stable order.
pub struct ControlBlock {
    signature: Vec<u8>,
    max_up_channels: usize,
    max_down_channels: usize,
    up_channels: Vec<RttChannel>,
    down_channels: Vec<RttChannel>,
}

impl ControlBlock {
    /// The signature bytes at the head of the block.
    pub closed spec fn signature_view(&self) -> Seq<u8> {
        self.signature@
    }

    /// The up-channel descriptors, in discovery order.
    pub closed spec fn up_channels_view(&self) -> Seq<RttChannel> {
        self.up_channels@
    }

    /// The down-channel descriptors, in discovery order.
    pub closed spec fn down_channels_view(&self) -> Seq<RttChannel> {
        self.down_channels@
    }

    /// The stored up-channel count.
    pub closed spec fn max_up(&self) -> int {
        self.max_up_channels as int
    }

    /// The stored down-channel count.
    pub closed spec fn max_down(&self) -> int {
        self.max_down_channels as int
    }

    /// The signature is the fixed pattern, each stored count matches
    /// its descriptor array, and every descriptor is well formed.
    pub open spec fn wf(&self) -> bool {
        &&& self.signature_view() == signature_bytes()
        &&& self.max_up() == self.up_channels_view().len()
        &&& self.max_down() == self.down_channels_view().len()
        &&& forall|i: int|
            0 <= i < self.up_channels_view().len() ==> (#[trigger] self.up_channels_view()[i]).wf()
        &&& forall|i: int|
            0 <= i < self.down_channels_view().len() ==> (
            #[trigger] self.down_channels_view()[i]).wf()
    }

    /// Places the given descriptors behind a fresh signature. The
    /// counts are fixed here and never change afterwards.
    pub fn new(up_channels: Vec<RttChannel>, down_channels: Vec<RttChannel>) -> (cb: ControlBlock)
        requires
            forall|i: int| 0 <= i < up_channels@.len() ==> (#[trigger] up_channels@[i]).wf(),
            forall|i: int| 0 <= i < down_channels@.len() ==> (#[trigger] down_channels@[i]).wf(),
        ensures
            cb.wf(),
            cb.up_channels_view() == up_channels@,
            cb.down_channels_view() == down_channels@,
    {
        let signature = build_signature();
        let max_up_channels = up_channels.len();
        let max_down_channels = down_channels.len();
        ControlBlock { signature, max_up_channels, max_down_channels, up_channels, down_channels }
    }

    /// How many up channels the block was built with.
    pub fn up_channel_count(&self) -> (n: usize)
        ensures
            n as int == self.max_up(),
    {
        self.max_up_channels
    }

    /// How many down channels the block was built with.
    pub fn down_channel_count(&self) -> (n: usize)
        ensures
            n as int == self.max_down(),
    {
        self.max_down_channels
    }

    /// The signature bytes, as a memory scanner would find them.
    pub fn signature(&self) -> (r: &Vec<u8>)
        ensures
            r@ == self.signature_view(),
    {
        &self.signature
    }

    /// Takes the descriptors back out, up channels first, for handing
    /// each to its handle at initialization.
    pub fn into_channels(self) -> (r: (Vec<RttChannel>, Vec<RttChannel>))
        ensures
            r.0@ == self.up_channels_view(),
            r.1@ == self.down_channels_view(),
    {
        (self.up_channels, self.down_channels)
    }
}

} // verus!

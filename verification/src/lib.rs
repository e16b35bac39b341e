//! Target side of a polled, shared-memory byte transport.
//!
//! Data moves through ring-buffer channels that an external debug probe
//! polls asynchronously: up channels carry bytes from the target to the
//! probe, down channels carry bytes from the probe to the target. The
//! probe discovers the channels by scanning memory for a control block
//! with a fixed signature.

use vstd::prelude::*;

pub mod control;
pub mod rtt;

verus! {

/// What a write does when the payload does not fit in the channel's
/// free space.
#[derive(Clone, Copy, Debug, PartialEq, Eq, Structural)]
pub enum ChannelMode {
    /// Skip the write entirely if the payload does not fit; nothing is
    /// stored and the write reports 0 bytes.
    NoBlockSkip,
    /// Store as many leading bytes of the payload as fit and discard
    /// the rest.
    NoBlockTrim,
    /// Wait until the whole payload fits. The waiting itself is a busy
    /// poll driven by the caller; see the channel write operations.
    BlockIfFull,
}

/// The numeric value a mode contributes to a descriptor's flags word
/// in the discoverable layout.
pub open spec fn mode_flag_value(mode: ChannelMode) -> int {
    match mode {
        ChannelMode::NoBlockSkip => 0,
        ChannelMode::NoBlockTrim => 1,
        ChannelMode::BlockIfFull => 2,
    }
}

impl ChannelMode {
    /// The value this mode stores in a descriptor's flags word.
    pub fn flag_value(&self) -> (n: usize)
        ensures
            n as int == mode_flag_value(*self),
    {
        match self {
            ChannelMode::NoBlockSkip => 0,
            ChannelMode::NoBlockTrim => 1,
            ChannelMode::BlockIfFull => 2,
        }
    }
}

impl Default for ChannelMode {
    /// Channels start out skipping writes that do not fit.
    fn default() -> (m: Self)
        ensures
            m == ChannelMode::NoBlockSkip,
    {
        ChannelMode::NoBlockSkip
    }
}

/// Producer handle for one channel: bytes flow from the target to the
/// external reader. It exposes writing and the overflow mode, and no
/// read operation, so the consuming side of the descriptor cannot be
/// touched through it.
pub struct UpChannel(rtt::RttChannel);

impl UpChannel {
    /// The channel descriptor the handle is bound to.
    pub closed spec fn channel_spec(&self) -> rtt::RttChannel {
        self.0
    }

    /// The handle is as well-formed as its descriptor.
    pub open spec fn wf(&self) -> bool {
        self.channel_spec().wf()
    }

    /// Binds a handle to a channel descriptor.
    pub fn new(channel: rtt::RttChannel) -> (c: UpChannel)
        requires
            channel.wf(),
        ensures
            c.channel_spec() == channel,
    {
        UpChannel(channel)
    }

    /// Writes up to `data.len()` bytes to the channel and returns the
    /// number of bytes written, as decided by the current mode. A
    /// `BlockIfFull` payload larger than the free space could only
    /// complete once an external reader drains the buffer; the busy
    /// poll for that belongs to the caller (recheck `free_capacity`,
    /// retry), so such a call is not accepted here.
    pub fn write(&mut self, data: &[u8]) -> (n: usize)
        requires
            old(self).wf(),
            old(self).channel_spec().mode_spec() == ChannelMode::BlockIfFull ==> data@.len()
                <= old(self).channel_spec().free(),
        ensures
            rtt::write_post(old(self).channel_spec(), final(self).channel_spec(), data@, n as int),
    {
        self.0.write(data)
    }

    /// Gets the current overflow mode of the channel. The default is
    /// `NoBlockSkip`.
    pub fn mode(&self) -> (m: ChannelMode)
        ensures
            m == self.channel_spec().mode_spec(),
    {
        self.0.mode()
    }

    /// Sets the overflow mode of the channel; it governs the next
    /// write.
    pub fn set_mode(&mut self, mode: ChannelMode)
        requires
            old(self).wf(),
        ensures
            rtt::set_mode_post(old(self).channel_spec(), final(self).channel_spec(), mode),
    {
        self.0.set_mode(mode)
    }

    /// How many bytes the next write can store without overflowing.
    pub fn free_capacity(&self) -> (n: usize)
        requires
            self.wf(),
        ensures
            n as int == self.channel_spec().free(),
    {
        self.0.free_space()
    }
}

/// Consumer handle for one channel: bytes flow from the external writer
/// to the target. It exposes reading only — no write operation and no
/// mode, since draining is always best effort and never waits.
pub struct DownChannel(rtt::RttChannel);

impl DownChannel {
    /// The channel descriptor the handle is bound to.
    pub closed spec fn channel_spec(&self) -> rtt::RttChannel {
        self.0
    }

    /// The handle is as well-formed as its descriptor.
    pub open spec fn wf(&self) -> bool {
        self.channel_spec().wf()
    }

    /// Binds a handle to a channel descriptor.
    pub fn new(channel: rtt::RttChannel) -> (c: DownChannel)
        requires
            channel.wf(),
        ensures
            c.channel_spec() == channel,
    {
        DownChannel(channel)
    }

    /// Reads up to `out.len()` bytes from the channel into the front of
    /// `out` and returns the number of bytes read. An empty channel
    /// yields 0 at once; a read never waits.
    pub fn read(&mut self, out: &mut [u8]) -> (n: usize)
        requires
            old(self).wf(),
        ensures
            rtt::read_post(
                old(self).channel_spec(),
                final(self).channel_spec(),
                old(out)@.len() as int,
                n as int,
                final(out)@.take(n as int),
            ),
            final(out)@.len() == old(out)@.len(),
            final(out)@.skip(n as int) == old(out)@.skip(n as int),
    {
        self.0.read(out)
    }
}

} // verus!

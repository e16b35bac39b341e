//! The ring-buffer channel descriptor and its read/write engine.
//!
//! A channel is a circular byte buffer with a write cursor and a read
//! cursor. The distance from the read cursor to the write cursor, going
//! around the ring, is the number of unread bytes; one slot is always
//! kept empty so that a full buffer can be told apart from an empty one
//! without a separate counter.

use vstd::prelude::*;

use crate::ChannelMode;

verus! {

/// One ring-buffer channel: a name read by host tooling, a backing
/// byte buffer of fixed capacity, the two cursors, and the overflow
/// mode consulted by writes.
pub struct RttChannel {
    name: String,
    buffer: Vec<u8>,
    write_offset: usize,
    read_offset: usize,
    mode: ChannelMode,
}

impl RttChannel {
    /// Total capacity of the backing buffer in bytes.
    pub closed spec fn size(&self) -> int {
        self.buffer@.len() as int
    }

    /// The position the next produced byte goes to.
    pub closed spec fn write_cursor(&self) -> int {
        self.write_offset as int
    }

    /// The position the next consumed byte comes from.
    pub closed spec fn read_cursor(&self) -> int {
        self.read_offset as int
    }

    /// The overflow mode consulted by the next write.
    pub closed spec fn mode_spec(&self) -> ChannelMode {
        self.mode
    }

    /// The channel's human-readable identifier.
    pub closed spec fn name_view(&self) -> Seq<char> {
        self.name@
    }

    /// Both cursors are valid indices into a non-empty buffer. The last
    /// clause records how the views line up — there are as many unread
    /// bytes as the cursor distance says — so that callers can move
    /// between `contents` and the cursor arithmetic.
    pub open spec fn wf(&self) -> bool {
        &&& self.size() >= 1
        &&& 0 <= self.write_cursor() < self.size()
        &&& 0 <= self.read_cursor() < self.size()
        &&& self.contents().len() == self.occupancy()
    }

    /// Number of unread bytes in the buffer: the distance from the read
    /// cursor to the write cursor, going around the ring.
    pub open spec fn occupancy(&self) -> int {
        if self.write_cursor() >= self.read_cursor() {
            self.write_cursor() - self.read_cursor()
        } else {
            self.write_cursor() - self.read_cursor() + self.size()
        }
    }

    /// Free capacity: one slot stays reserved so that a full buffer is
    /// distinguishable from an empty one.
    pub open spec fn free(&self) -> int {
        self.size() - 1 - self.occupancy()
    }

    /// Buffer index holding the `t`-th unread byte (valid for
    /// `0 <= t < size`).
    pub closed spec fn slot(&self, t: int) -> int {
        wrap_index(self.read_cursor() + t, self.size())
    }

    /// The unread bytes, oldest first.
    pub closed spec fn contents(&self) -> Seq<u8> {
        Seq::new(self.occupancy() as nat, |t: int| self.buffer@[self.slot(t)])
    }

    /// Creates a channel with an all-zero buffer of `size` bytes, both
    /// cursors at the start, and the default `NoBlockSkip` mode.
    pub fn new(name: String, size: usize) -> (c: RttChannel)
        requires
            size >= 1,
        ensures
            c.wf(),
            c.size() == size as int,
            c.contents() == Seq::<u8>::empty(),
            c.mode_spec() == ChannelMode::NoBlockSkip,
            c.name_view() == name@,
    {
        let mut buffer: Vec<u8> = Vec::new();
        let mut i: usize = 0;
        while i < size
            invariant
                i <= size,
                buffer@.len() == i as int,
            decreases size - i,
        {
            buffer.push(0u8);
            i = i + 1;
        }
        let c = RttChannel { name, buffer, write_offset: 0, read_offset: 0, mode: ChannelMode::NoBlockSkip };
        proof {
            assert(c.contents() =~= Seq::<u8>::empty());
        }
        c
    }

    /// How many bytes a write can currently store: the usable capacity
    /// (`size - 1`) minus the occupancy.
    pub fn free_space(&self) -> (n: usize)
        requires
            self.wf(),
        ensures
            n as int == self.free(),
    {
        if self.write_offset < self.read_offset {
            self.read_offset - self.write_offset - 1
        } else {
            self.buffer.len() - 1 - (self.write_offset - self.read_offset)
        }
    }

    /// How many unread bytes a read can currently return.
    pub fn available(&self) -> (n: usize)
        requires
            self.wf(),
        ensures
            n as int == self.occupancy(),
    {
        if self.write_offset >= self.read_offset {
            self.write_offset - self.read_offset
        } else {
            self.buffer.len() - (self.read_offset - self.write_offset)
        }
    }

    /// Reports the overflow mode consulted by the next write.
    pub fn mode(&self) -> (m: ChannelMode)
        ensures
            m == self.mode_spec(),
    {
        self.mode
    }

    /// Changes the overflow mode. Only later writes are affected: the
    /// buffer, the cursors and the capacity stay as they are.
    pub fn set_mode(&mut self, mode: ChannelMode)
        requires
            old(self).wf(),
        ensures
            set_mode_post(*old(self), *final(self), mode),
    {
        self.mode = mode;
        proof {
            assert(self.contents() =~= old(self).contents());
        }
    }
}

impl RttChannel {
    /// Copies the first `n` bytes of `data` into the free region of the
    /// ring, wrapping past the end of the buffer where needed, then
    /// advances the write cursor by `n`. The bytes are all in place
    /// before the cursor moves, so a poller that sees the new cursor
    /// sees complete data.
    fn copy_in(&mut self, data: &[u8], n: usize)
        requires
            old(self).wf(),
            n as int <= data@.len(),
            n as int <= old(self).free(),
        ensures
            final(self).wf(),
            final(self).size() == old(self).size(),
            final(self).mode_spec() == old(self).mode_spec(),
            final(self).name_view() == old(self).name_view(),
            final(self).read_cursor() == old(self).read_cursor(),
            final(self).write_cursor() == wrap_index(old(self).write_cursor() + n, old(self).size()),
            final(self).contents() == old(self).contents() + data@.take(n as int),
    {
        let size = self.buffer.len();
        let mut i: usize = 0;
        while i < n
            invariant
                i <= n,
                n as int <= data@.len(),
                n as int <= old(self).free(),
                old(self).wf(),
                size as int == old(self).size(),
                self.buffer@.len() == old(self).buffer@.len(),
                self.write_offset == old(self).write_offset,
                self.read_offset == old(self).read_offset,
                self.mode == old(self).mode,
                self.name@ == old(self).name@,
                forall|t: int|
                    0 <= t < old(self).occupancy() ==> self.buffer@[old(self).slot(t)]
                        == old(self).buffer@[old(self).slot(t)],
                forall|j: int|
                    0 <= j < i ==> self.buffer@[old(self).slot(old(self).occupancy() + j)]
                        == data@[j],
            decreases n - i,
        {
            let w = self.write_offset;
            let idx = if i < size - w {
                w + i
            } else {
                i - (size - w)
            };
            proof {
                assert(idx as int == old(self).slot(old(self).occupancy() + i));
            }
            let b = data[i];
            self.buffer[idx] = b;
            i = i + 1;
        }
        let w = self.write_offset;
        self.write_offset = if n < size - w {
            w + n
        } else {
            n - (size - w)
        };
        proof {
            assert(self.occupancy() == old(self).occupancy() + n);
            assert forall|t: int| 0 <= t < self.occupancy() implies self.contents()[t] == (old(
                self,
            ).contents() + data@.take(n as int))[t] by {
                assert(self.slot(t) == old(self).slot(t));
            }
            assert(self.contents() =~= old(self).contents() + data@.take(n as int));
        }
    }

    /// Writes up to `data.len()` bytes and returns the number of bytes
    /// stored: the whole payload when it fits in the free space, and
    /// otherwise what the overflow mode allows. In `BlockIfFull` mode a
    /// payload that does not fit could only be completed by an external
    /// reader draining the buffer while this call waits; this value
    /// owns its descriptor, no reader can intervene, and such a call
    /// would never return, so those inputs are excluded and the busy
    /// poll belongs to the caller (recheck `free_space`, retry).
    pub fn write(&mut self, data: &[u8]) -> (n: usize)
        requires
            old(self).wf(),
            old(self).mode_spec() == ChannelMode::BlockIfFull ==> data@.len() <= old(self).free(),
        ensures
            write_post(*old(self), *final(self), data@, n as int),
            final(self).name_view() == old(self).name_view(),
    {
        let len = data.len();
        let free = self.free_space();
        match self.mode {
            ChannelMode::NoBlockSkip => {
                if len <= free {
                    self.copy_in(data, len);
                    len
                } else {
                    proof {
                        assert(self.contents() =~= self.contents() + data@.take(0));
                    }
                    0
                }
            },
            ChannelMode::NoBlockTrim => {
                let n = if len <= free {
                    len
                } else {
                    free
                };
                self.copy_in(data, n);
                n
            },
            ChannelMode::BlockIfFull => {
                self.copy_in(data, len);
                len
            },
        }
    }

    /// Reads up to `out.len()` bytes into the front of `out` and
    /// returns the number of bytes read: the lesser of the unread count
    /// and the room offered. An empty channel yields 0 at once, leaving
    /// every cursor in place; a read never waits for a writer.
    pub fn read(&mut self, out: &mut [u8]) -> (n: usize)
        requires
            old(self).wf(),
        ensures
            read_post(
                *old(self),
                *final(self),
                old(out)@.len() as int,
                n as int,
                final(out)@.take(n as int),
            ),
            final(self).name_view() == old(self).name_view(),
            final(out)@.len() == old(out)@.len(),
            final(out)@.skip(n as int) == old(out)@.skip(n as int),
    {
        let avail = self.available();
        let n = if avail < out.len() {
            avail
        } else {
            out.len()
        };
        let size = self.buffer.len();
        let mut i: usize = 0;
        while i < n
            invariant
                i <= n,
                n as int <= old(self).occupancy(),
                n as int <= out@.len(),
                old(self).wf(),
                size as int == old(self).size(),
                *self == *old(self),
                out@.len() == old(out)@.len(),
                forall|j: int| 0 <= j < i ==> out@[j] == old(self).contents()[j],
                forall|j: int| i <= j < out@.len() ==> out@[j] == old(out)@[j],
            decreases n - i,
        {
            let r = self.read_offset;
            let idx = if i < size - r {
                r + i
            } else {
                i - (size - r)
            };
            proof {
                assert(idx as int == old(self).slot(i as int));
            }
            let b = self.buffer[idx];
            out[i] = b;
            i = i + 1;
        }
        let r = self.read_offset;
        self.read_offset = if n < size - r {
            r + n
        } else {
            n - (size - r)
        };
        proof {
            assert(self.occupancy() == old(self).occupancy() - n);
            assert forall|t: int| 0 <= t < self.occupancy() implies self.contents()[t] == old(
                self,
            ).contents().skip(n as int)[t] by {
                assert(self.slot(t) == old(self).slot(n + t));
            }
            assert(self.contents() =~= old(self).contents().skip(n as int));
            assert(out@.take(n as int) =~= old(self).contents().take(n as int));
            assert(out@.skip(n as int) =~= old(out)@.skip(n as int));
        }
        n
    }
}

/// Number of bytes a write stores, as decided by the overflow mode:
/// the whole payload when it fits in the free space; otherwise nothing
/// for `NoBlockSkip`, the leading bytes that fit for `NoBlockTrim`, and
/// the whole payload for `BlockIfFull` (which waits until it fits).
pub open spec fn write_count(mode: ChannelMode, free: int, len: int) -> int {
    match mode {
        ChannelMode::NoBlockSkip => if len <= free {
            len
        } else {
            0
        },
        ChannelMode::NoBlockTrim => if len <= free {
            len
        } else {
            free
        },
        ChannelMode::BlockIfFull => len,
    }
}

/// Everything `write` guarantees, as a relation between the channel
/// state before and after the call: the stored count follows
/// `write_count`, exactly that prefix of the payload is appended to the
/// unread bytes, and the read cursor, capacity and mode are untouched.
pub open spec fn write_post(pre: RttChannel, post: RttChannel, data: Seq<u8>, n: int) -> bool {
    &&& post.wf()
    &&& post.size() == pre.size()
    &&& post.mode_spec() == pre.mode_spec()
    &&& post.read_cursor() == pre.read_cursor()
    &&& n == write_count(pre.mode_spec(), pre.free(), data.len() as int)
    &&& post.contents() == pre.contents() + data.take(n)
    &&& post.write_cursor() == wrap_index(pre.write_cursor() + n, pre.size())
}

/// Everything `read` guarantees: the returned count is the lesser of
/// the unread count and the room offered (`out_len`), the bytes handed
/// out are exactly the oldest unread bytes in order, those bytes leave
/// the channel, and the write cursor, capacity and mode are untouched.
pub open spec fn read_post(
    pre: RttChannel,
    post: RttChannel,
    out_len: int,
    n: int,
    taken: Seq<u8>,
) -> bool {
    &&& post.wf()
    &&& post.size() == pre.size()
    &&& post.mode_spec() == pre.mode_spec()
    &&& post.write_cursor() == pre.write_cursor()
    &&& n == if pre.occupancy() <= out_len {
        pre.occupancy()
    } else {
        out_len
    }
    &&& taken == pre.contents().take(n)
    &&& post.contents() == pre.contents().skip(n)
    &&& post.read_cursor() == wrap_index(pre.read_cursor() + n, pre.size())
}

/// `i` reduced into `[0, n)`, for `0 <= i < 2 * n`: the wraparound of a
/// cursor or slot index past the end of the buffer.
pub open spec fn wrap_index(i: int, n: int) -> int {
    if i < n {
        i
    } else {
        i - n
    }
}

/// Everything `set_mode` guarantees, as a relation between the channel
/// state before and after the call.
pub open spec fn set_mode_post(pre: RttChannel, post: RttChannel, mode: ChannelMode) -> bool {
    &&& post.wf()
    &&& post.size() == pre.size()
    &&& post.write_cursor() == pre.write_cursor()
    &&& post.read_cursor() == pre.read_cursor()
    &&& post.contents() == pre.contents()
    &&& post.name_view() == pre.name_view()
    &&& post.mode_spec() == mode
}

// What the channel promises over whole call sequences, stated and
// proved once. Every constructor and every mutating operation ensures
// `wf` and relates its states by one of the `_post` relations above, so
// these cover all reachable states.

/// Occupancy invariant: in every well-formed state the cyclic distance
/// `(write_cursor - read_cursor) mod size` equals the occupancy and
/// lies between 0 and `size - 1` — the buffer is never reported fully
/// occupied, one slot always stays reserved.
pub proof fn lemma_occupancy_invariant(c: RttChannel)
    requires
        c.wf(),
    ensures
        (c.write_cursor() - c.read_cursor()) % c.size() == c.occupancy(),
        0 <= c.occupancy() <= c.size() - 1,
{
    let d = c.write_cursor() - c.read_cursor();
    if c.write_cursor() >= c.read_cursor() {
        vstd::arithmetic::div_mod::lemma_fundamental_div_mod_converse(d, c.size(), 0, d);
    } else {
        vstd::arithmetic::div_mod::lemma_fundamental_div_mod_converse(d, c.size(), -1, d + c.size());
    }
}

/// Round trip: writing a payload shorter than the usable capacity
/// (`size - 1`) into an empty channel and reading it back with enough
/// room yields exactly the payload, in order, with nothing lost or
/// duplicated, and leaves the channel empty again.
pub proof fn lemma_round_trip(
    c0: RttChannel,
    c1: RttChannel,
    c2: RttChannel,
    data: Seq<u8>,
    out_len: int,
    n_w: int,
    n_r: int,
    taken: Seq<u8>,
)
    requires
        c0.wf(),
        c0.contents() == Seq::<u8>::empty(),
        data.len() < c0.size(),
        out_len >= data.len(),
        write_post(c0, c1, data, n_w),
        read_post(c1, c2, out_len, n_r, taken),
    ensures
        n_w == data.len(),
        n_r == data.len(),
        taken == data,
        c2.contents() == Seq::<u8>::empty(),
{
    assert(c0.occupancy() == 0);
    assert(c1.contents() =~= data);
    assert(taken =~= data);
    assert(c2.contents() =~= Seq::<u8>::empty());
}

/// Wraparound correctness, cursor independence: what a write and a
/// following read do depends only on the queued bytes, the capacity and
/// the mode, never on where the cursors sit — so however many times the
/// cursors have already wrapped past the end of the buffer, the outcome
/// is the same, and no stale byte can surface.
pub proof fn lemma_cursor_position_irrelevant(
    a0: RttChannel,
    a1: RttChannel,
    a2: RttChannel,
    b0: RttChannel,
    b1: RttChannel,
    b2: RttChannel,
    data: Seq<u8>,
    n_a: int,
    n_b: int,
    out_len: int,
    m_a: int,
    m_b: int,
    taken_a: Seq<u8>,
    taken_b: Seq<u8>,
)
    requires
        a0.wf(),
        b0.wf(),
        a0.contents() == b0.contents(),
        a0.size() == b0.size(),
        a0.mode_spec() == b0.mode_spec(),
        write_post(a0, a1, data, n_a),
        write_post(b0, b1, data, n_b),
        read_post(a1, a2, out_len, m_a, taken_a),
        read_post(b1, b2, out_len, m_b, taken_b),
    ensures
        n_a == n_b,
        m_a == m_b,
        taken_a == taken_b,
        a2.contents() == b2.contents(),
{
    assert(a0.occupancy() == a0.contents().len());
    assert(b0.occupancy() == b0.contents().len());
    assert(a1.occupancy() == a1.contents().len());
    assert(b1.occupancy() == b1.contents().len());
}

/// Wraparound correctness, order: across a write followed by a read the
/// channel behaves as a byte queue — the bytes handed out are exactly
/// the oldest queued bytes, in order, and the remainder stays queued
/// behind them.
pub proof fn lemma_fifo_order(
    c0: RttChannel,
    c1: RttChannel,
    c2: RttChannel,
    data: Seq<u8>,
    n_w: int,
    out_len: int,
    n_r: int,
    taken: Seq<u8>,
)
    requires
        c0.wf(),
        write_post(c0, c1, data, n_w),
        read_post(c1, c2, out_len, n_r, taken),
    ensures
        taken == (c0.contents() + data.take(n_w)).take(n_r),
        c2.contents() == (c0.contents() + data.take(n_w)).skip(n_r),
{
}

/// Short read idempotence: a read from an empty channel returns 0 and
/// moves nothing — not even the read cursor — so it can be repeated any
/// number of times without altering the channel.
pub proof fn lemma_short_read_idempotent(
    c0: RttChannel,
    c1: RttChannel,
    out_len: int,
    n: int,
    taken: Seq<u8>,
)
    requires
        c0.wf(),
        c0.contents().len() == 0,
        out_len >= 0,
        read_post(c0, c1, out_len, n, taken),
    ensures
        n == 0,
        taken == Seq::<u8>::empty(),
        c1.contents() == c0.contents(),
        c1.read_cursor() == c0.read_cursor(),
        c1.write_cursor() == c0.write_cursor(),
        c1.mode_spec() == c0.mode_spec(),
        c1.size() == c0.size(),
{
    assert(c0.occupancy() == 0);
    assert(taken =~= Seq::<u8>::empty());
    assert(c1.contents() =~= c0.contents());
}

/// Mode mutability: a mode change between two writes leaves the queued
/// bytes, the cursors, the free space and the capacity exactly as they
/// were; only the outcome of the next write is governed by the new
/// mode. A change can never touch a write already in progress, because
/// a write holds the channel exclusively for its whole duration.
pub proof fn lemma_mode_change_affects_only_later_writes(
    c0: RttChannel,
    c1: RttChannel,
    c2: RttChannel,
    mode: ChannelMode,
    data: Seq<u8>,
    n: int,
)
    requires
        c0.wf(),
        set_mode_post(c0, c1, mode),
        write_post(c1, c2, data, n),
    ensures
        c1.contents() == c0.contents(),
        c1.free() == c0.free(),
        n == write_count(mode, c0.free(), data.len() as int),
        c2.contents() == c0.contents() + data.take(n),
{
}

} // verus!

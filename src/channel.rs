use vstd::prelude::*;

use crate::header::HEADER_SIZE;

verus! {

/// Bytes of bookkeeping that each committed frame costs besides its own bytes
/// (a 16-bit length prefix).
pub const FRAME_OVERHEAD: usize = 2;

/// Low-level failures of a channel operation.
#[derive(Clone, Copy, Debug, PartialEq, Eq, Structural)]
pub enum ChannelError {
    /// A write grant is already outstanding.
    GrantInProgress,
    /// Not enough free space for the requested reservation.
    InsufficientSize,
    /// No committed frame is available.
    Empty,
}

/// A frame holds a header followed by exactly the number of body bytes that
/// the header's length byte declares.
pub open spec fn well_framed(f: Seq<u8>) -> bool {
    f.len() >= HEADER_SIZE && f[2] as int == f.len() - HEADER_SIZE
}

/// Space that one stored frame takes in the channel.
pub open spec fn frame_cost(f: Seq<u8>) -> int {
    f.len() + FRAME_OVERHEAD
}

/// Space that a sequence of stored frames takes in the channel.
pub open spec fn total_cost(fs: Seq<Seq<u8>>) -> int
    decreases fs.len(),
{
    if fs.len() == 0 {
        0
    } else {
        frame_cost(fs[0]) + total_cost(fs.drop_first())
    }
}

proof fn lemma_total_cost_push(fs: Seq<Seq<u8>>, f: Seq<u8>)
    ensures
        total_cost(fs.push(f)) == total_cost(fs) + frame_cost(f),
    decreases fs.len(),
{
    if fs.len() == 0 {
        assert(fs.push(f).drop_first().len() == 0);
        assert(total_cost(fs.push(f).drop_first()) == 0);
        assert(fs.push(f)[0] == f);
    } else {
        assert(fs.push(f).drop_first() =~= fs.drop_first().push(f));
        assert(fs.push(f)[0] == fs[0]);
        lemma_total_cost_push(fs.drop_first(), f);
    }
}

proof fn lemma_total_cost_nonneg(fs: Seq<Seq<u8>>)
    ensures
        total_cost(fs) >= 0,
    decreases fs.len(),
{
    if fs.len() > 0 {
        lemma_total_cost_nonneg(fs.drop_first());
    }
}

/// A fixed-capacity, single-producer/single-consumer channel of frames.
///
/// The producer reserves space with [`FramedChannel::grant`], fills the
/// returned bytes and hands them back with [`FramedChannel::commit`]; only
/// then does the frame become visible to the consumer, which peeks at the
/// oldest frame with [`FramedChannel::read`] and frees it with
/// [`FramedChannel::release`]. At most one write grant is outstanding at a
/// time.
pub struct FramedChannel {
    frames: Vec<Vec<u8>>,
    occupied: usize,
    capacity: usize,
    reserved: usize,
    write_in_progress: bool,
}

impl FramedChannel {
    /// The committed, not yet released frames, oldest first.
    pub closed spec fn frames(&self) -> Seq<Seq<u8>> {
        Seq::new(self.frames@.len(), |i: int| self.frames@[i]@)
    }

    /// Total space of the channel in bytes.
    pub closed spec fn cap(&self) -> int {
        self.capacity as int
    }

    /// Whether a write grant is outstanding.
    pub closed spec fn writing(&self) -> bool {
        self.write_in_progress
    }

    /// Size of the outstanding write grant.
    pub closed spec fn reservation(&self) -> int {
        self.reserved as int
    }

    /// Space held by the committed frames.
    pub closed spec fn occupied_space(&self) -> int {
        self.occupied as int
    }

    /// Whether a reservation of `n` bytes fits beside the stored frames.
    pub open spec fn fits(&self, n: int) -> bool {
        total_cost(self.frames()) + n + FRAME_OVERHEAD <= self.cap()
    }

    /// Well-formedness: the space accounting matches the stored frames, no
    /// more than the capacity is used, and every stored frame is well framed.
    pub open spec fn wf(&self) -> bool {
        &&& self.occupied_space() == total_cost(self.frames())
        &&& self.occupied_space() <= self.cap()
        &&& self.cap() <= usize::MAX
        &&& forall|i: int| 0 <= i < self.frames().len() ==> well_framed(#[trigger] self.frames()[i])
        &&& self.writing() ==> self.fits(self.reservation())
    }

    /// Creates an empty channel of `capacity` bytes.
    pub fn new(capacity: usize) -> (r: FramedChannel)
        ensures
            r.wf(),
            r.frames() == Seq::<Seq<u8>>::empty(),
            r.cap() == capacity,
            !r.writing(),
    {
        let r = FramedChannel {
            frames: Vec::new(),
            occupied: 0,
            capacity,
            reserved: 0,
            write_in_progress: false,
        };
        assert(r.frames() =~= Seq::<Seq<u8>>::empty());
        r
    }

    /// Total space of the channel in bytes.
    pub fn capacity(&self) -> (r: usize)
        ensures
            r == self.cap(),
    {
        self.capacity
    }

    /// Whether a write grant is outstanding.
    pub fn is_writing(&self) -> (r: bool)
        ensures
            r == self.writing(),
    {
        self.write_in_progress
    }

    /// Number of committed frames not yet released.
    pub fn len(&self) -> (r: usize)
        ensures
            r == self.frames().len(),
    {
        self.frames.len()
    }

    /// Reserves `n` zeroed bytes for the next frame.
    ///
    /// Fails with `GrantInProgress` while another write grant is outstanding,
    /// and with `InsufficientSize` when `n` bytes and the frame's bookkeeping
    /// do not fit beside the stored frames. On failure nothing changes.
    pub fn grant(&mut self, n: usize) -> (r: Result<Vec<u8>, ChannelError>)
        requires
            old(self).wf(),
        ensures
            final(self).wf(),
            final(self).frames() == old(self).frames(),
            final(self).cap() == old(self).cap(),
            old(self).writing() ==> r == Err::<Vec<u8>, ChannelError>(ChannelError::GrantInProgress)
                && *final(self) == *old(self),
            !old(self).writing() && !old(self).fits(n as int) ==> r == Err::<Vec<u8>, ChannelError>(
                ChannelError::InsufficientSize,
            ) && *final(self) == *old(self),
            !old(self).writing() && old(self).fits(n as int) ==> r.is_ok() && r.unwrap()@ == Seq::new(
                n as nat,
                |i: int| 0u8,
            ) && final(self).writing() && final(self).reservation() == n,
    {
        if self.write_in_progress {
            return Err(ChannelError::GrantInProgress);
        }
        let free = self.capacity - self.occupied;
        if n > free || free - n < FRAME_OVERHEAD {
            return Err(ChannelError::InsufficientSize);
        }
        let mut v: Vec<u8> = Vec::new();
        let mut i: usize = 0;
        while i < n
            invariant
                i <= n,
                v@ == Seq::new(i as nat, |j: int| 0u8),
            decreases n - i,
        {
            v.push(0u8);
            i = i + 1;
            assert(v@ =~= Seq::new(i as nat, |j: int| 0u8));
        }
        self.reserved = n;
        self.write_in_progress = true;
        Ok(v)
    }

    /// Makes `frame`, the filled bytes of the outstanding grant, visible to
    /// the consumer as the newest frame. The part of the reservation that
    /// `frame` does not use returns to free space.
    pub fn commit(&mut self, frame: Vec<u8>)
        requires
            old(self).wf(),
            old(self).writing(),
            frame@.len() <= old(self).reservation(),
            well_framed(frame@),
        ensures
            final(self).wf(),
            final(self).frames() == old(self).frames().push(frame@),
            final(self).cap() == old(self).cap(),
            !final(self).writing(),
    {
        let ghost pre = self.frames();
        proof {
            lemma_total_cost_push(pre, frame@);
        }
        self.occupied = self.occupied + frame.len() + FRAME_OVERHEAD;
        self.frames.push(frame);
        self.write_in_progress = false;
        self.reserved = 0;
        assert(self.frames() =~= pre.push(frame@));
    }

    /// Gives up the outstanding grant without making anything visible.
    pub fn abandon(&mut self, grant: Vec<u8>)
        requires
            old(self).wf(),
        ensures
            final(self).wf(),
            final(self).frames() == old(self).frames(),
            final(self).cap() == old(self).cap(),
            !final(self).writing(),
    {
        self.write_in_progress = false;
        self.reserved = 0;
    }

    /// A copy of the oldest committed frame that has not been released.
    /// Reading again before a release gives the same frame.
    pub fn read(&self) -> (r: Result<Vec<u8>, ChannelError>)
        requires
            self.wf(),
        ensures
            self.frames().len() == 0 <==> r == Err::<Vec<u8>, ChannelError>(ChannelError::Empty),
            self.frames().len() > 0 <==> r.is_ok(),
            r.is_ok() ==> r.unwrap()@ == self.frames()[0] && well_framed(r.unwrap()@),
    {
        if self.frames.len() == 0 {
            return Err(ChannelError::Empty);
        }
        let f = &self.frames[0];
        assert(f@ == self.frames()[0]);
        let mut v: Vec<u8> = Vec::new();
        let mut i: usize = 0;
        while i < f.len()
            invariant
                i <= f@.len(),
                v@ == f@.subrange(0, i as int),
            decreases f@.len() - i,
        {
            v.push(f[i]);
            i = i + 1;
            assert(v@ =~= f@.subrange(0, i as int));
        }
        assert(v@ =~= f@);
        Ok(v)
    }

    /// Frees the oldest committed frame.
    pub fn release(&mut self)
        requires
            old(self).wf(),
            old(self).frames().len() > 0,
        ensures
            final(self).wf(),
            final(self).frames() == old(self).frames().drop_first(),
            final(self).cap() == old(self).cap(),
            final(self).writing() == old(self).writing(),
            final(self).reservation() == old(self).reservation(),
    {
        let ghost pre = self.frames();
        proof {
            lemma_total_cost_nonneg(pre.drop_first());
        }
        let f = self.frames.remove(0);
        assert(f@ == pre[0]);
        self.occupied = self.occupied - (f.len() + FRAME_OVERHEAD);
        assert(self.frames() =~= pre.drop_first());
    }
}

/// Every frame that a well-formed channel holds is well framed, so a reader
/// never sees a body whose length disagrees with its header.
pub proof fn lemma_frames_well_framed(c: &FramedChannel, i: int)
    requires
        c.wf(),
        0 <= i < c.frames().len(),
    ensures
        well_framed(c.frames()[i]),
{
}

/// Releasing the oldest frame frees exactly the space it took, so a
/// reservation refused for lack of space fits once enough frames are released.
pub proof fn lemma_release_frees_space(c0: FramedChannel, c1: FramedChannel, n: int)
    requires
        c0.frames().len() > 0,
        c1.frames() == c0.frames().drop_first(),
        c1.cap() == c0.cap(),
    ensures
        total_cost(c1.frames()) == total_cost(c0.frames()) - frame_cost(c0.frames()[0]),
        c1.fits(n) <==> c0.fits(n - frame_cost(c0.frames()[0])),
{
}

/// Frames come out in the order they went in: after `a`, `b` and `c` are
/// committed in that order on an empty channel, the consumer reads `a`, and
/// after each release the next one.
pub proof fn lemma_fifo_order(
    c0: FramedChannel,
    c1: FramedChannel,
    c2: FramedChannel,
    c3: FramedChannel,
    c4: FramedChannel,
    c5: FramedChannel,
    a: Seq<u8>,
    b: Seq<u8>,
    c: Seq<u8>,
)
    requires
        c0.frames().len() == 0,
        c1.frames() == c0.frames().push(a),
        c2.frames() == c1.frames().push(b),
        c3.frames() == c2.frames().push(c),
        c4.frames() == c3.frames().drop_first(),
        c5.frames() == c4.frames().drop_first(),
    ensures
        c3.frames()[0] == a,
        c4.frames()[0] == b,
        c5.frames()[0] == c,
        c5.frames().len() == 1,
{
    assert(c3.frames() =~= seq![a, b, c]);
    assert(c4.frames() =~= seq![b, c]);
    assert(c5.frames() =~= seq![c]);
}

} // verus!

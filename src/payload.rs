use vstd::prelude::*;

use crate::channel::{total_cost, well_framed, ChannelError, FramedChannel, FRAME_OVERHEAD};
use crate::error::Error;
use crate::header::{decode, encode, PayloadHeader, HEADER_SIZE};

verus! {

/// `n` zero bytes.
pub open spec fn zeros(n: nat) -> Seq<u8> {
    Seq::new(n, |i: int| 0u8)
}

/// The smaller of two lengths.
pub open spec fn min_len(a: int, b: int) -> int {
    if a <= b {
        a
    } else {
        b
    }
}

/// The frame that committing `bytes` with `len` body bytes stores: the header
/// with its length byte set to `len`, then the first `len` body bytes.
pub open spec fn committed_frame(bytes: Seq<u8>, len: int) -> Seq<u8> {
    bytes.update(2, len as u8).subrange(0, HEADER_SIZE + len)
}

/// A write grant over one reserved frame: four header bytes followed by the
/// body, which the producer fills before committing.
pub struct PayloadW {
    grant: Vec<u8>,
}

impl PayloadW {
    /// All bytes of the reservation, header included.
    pub closed spec fn bytes(&self) -> Seq<u8> {
        self.grant@
    }

    /// The header currently recorded in the reservation.
    pub open spec fn header_spec(&self) -> PayloadHeader {
        decode(self.bytes())
    }

    /// The body bytes of the reservation.
    pub open spec fn body(&self) -> Seq<u8> {
        self.bytes().subrange(HEADER_SIZE as int, self.bytes().len() as int)
    }

    /// The reservation holds a header whose declared length fits in it.
    pub open spec fn wf(&self) -> bool {
        &&& self.bytes().len() >= HEADER_SIZE
        &&& self.bytes()[2] + HEADER_SIZE <= self.bytes().len()
    }

    /// Wraps a reservation of exactly the declared size and writes the
    /// encoded header into its first four bytes.
    pub(crate) fn new_from_app(raw_grant: Vec<u8>, header: PayloadHeader) -> (r: PayloadW)
        requires
            raw_grant@.len() == header.length + HEADER_SIZE,
        ensures
            r.wf(),
            r.bytes() == encode(header) + raw_grant@.subrange(
                HEADER_SIZE as int,
                raw_grant@.len() as int,
            ),
            r.header_spec() == header,
    {
        let mut grant = raw_grant;
        let bytes = header.to_bytes();
        grant.set(0, bytes[0]);
        grant.set(1, bytes[1]);
        grant.set(2, bytes[2]);
        grant.set(3, bytes[3]);
        let r = PayloadW { grant };
        assert(r.bytes() =~= encode(header) + raw_grant@.subrange(
            HEADER_SIZE as int,
            raw_grant@.len() as int,
        ));
        r
    }

    /// Wraps a reservation whose header the radio fills in later.
    pub(crate) fn new_from_radio(raw_grant: Vec<u8>) -> (r: PayloadW)
        requires
            raw_grant@.len() >= HEADER_SIZE,
            raw_grant@[2] + HEADER_SIZE <= raw_grant@.len(),
        ensures
            r.wf(),
            r.bytes() == raw_grant@,
    {
        PayloadW { grant: raw_grant }
    }

    /// Overwrites the recorded header, whose length must fit the reservation.
    pub fn update_header(&mut self, header: PayloadHeader)
        requires
            old(self).wf(),
            header.length + HEADER_SIZE <= old(self).bytes().len(),
        ensures
            final(self).wf(),
            final(self).bytes() == encode(header) + old(self).body(),
            final(self).header_spec() == header,
    {
        let bytes = header.to_bytes();
        self.grant.set(0, bytes[0]);
        self.grant.set(1, bytes[1]);
        self.grant.set(2, bytes[2]);
        self.grant.set(3, bytes[3]);
        assert(self.bytes() =~= encode(header) + old(self).body());
    }

    /// The header currently recorded in the reservation.
    pub fn header(&self) -> (r: PayloadHeader)
        requires
            self.wf(),
        ensures
            r == self.header_spec(),
    {
        PayloadHeader {
            rssi: self.grant[0],
            pipe: self.grant[1],
            length: self.grant[2],
            pid_no_ack: self.grant[3],
        }
    }

    /// The pipe recorded in the header.
    pub fn pipe(&self) -> (r: u8)
        requires
            self.wf(),
        ensures
            r == self.header_spec().pipe,
    {
        self.grant[PayloadHeader::pipe_idx()]
    }

    /// The body length recorded in the header.
    pub fn payload_len(&self) -> (r: usize)
        requires
            self.wf(),
        ensures
            r == self.header_spec().length,
    {
        self.grant[PayloadHeader::length_idx()] as usize
    }

    /// Number of body bytes the reservation holds.
    pub fn payload_capacity(&self) -> (r: usize)
        requires
            self.wf(),
        ensures
            r == self.body().len(),
    {
        self.grant.len() - HEADER_SIZE
    }

    /// The body bytes of the reservation.
    pub fn payload(&self) -> (r: &[u8])
        requires
            self.wf(),
        ensures
            r@ == self.body(),
    {
        vstd::slice::slice_subrange(self.grant.as_slice(), HEADER_SIZE, self.grant.len())
    }

    /// Writes `value` at position `i` of the body.
    pub fn set_payload_byte(&mut self, i: usize, value: u8)
        requires
            old(self).wf(),
            i < old(self).body().len(),
        ensures
            final(self).wf(),
            final(self).bytes() == old(self).bytes().update(HEADER_SIZE + i, value),
    {
        let total = self.grant.len();
        assert(HEADER_SIZE + i < total);
        self.grant.set(HEADER_SIZE + i, value);
    }

    /// Copies `data` to the start of the body; the rest of the body is kept.
    pub fn write_payload(&mut self, data: &[u8])
        requires
            old(self).wf(),
            data@.len() <= old(self).body().len(),
        ensures
            final(self).wf(),
            final(self).header_spec() == old(self).header_spec(),
            final(self).bytes() == old(self).bytes().subrange(0, HEADER_SIZE as int) + data@
                + old(self).bytes().subrange(
                HEADER_SIZE + data@.len(),
                old(self).bytes().len() as int,
            ),
    {
        let ghost pre = self.bytes();
        let total = self.grant.len();
        let mut i: usize = 0;
        while i < data.len()
            invariant
                i <= data@.len(),
                pre.len() == total,
                data@.len() + HEADER_SIZE <= pre.len(),
                self.bytes().len() == pre.len(),
                forall|j: int|
                    0 <= j < pre.len() ==> #[trigger] self.bytes()[j] == if HEADER_SIZE <= j
                        < HEADER_SIZE + i {
                        data@[j - HEADER_SIZE]
                    } else {
                        pre[j]
                    },
            decreases data@.len() - i,
        {
            self.grant.set(HEADER_SIZE + i, data[i]);
            i = i + 1;
        }
        assert(self.bytes() =~= pre.subrange(0, HEADER_SIZE as int) + data@ + pre.subrange(
            HEADER_SIZE + data@.len(),
            pre.len() as int,
        ));
    }

    /// Commits the frame with the body length recorded in the header.
    pub fn commit_all(self, chan: &mut FramedChannel)
        requires
            self.wf(),
            old(chan).wf(),
            old(chan).writing(),
            self.bytes().len() <= old(chan).reservation(),
        ensures
            final(chan).wf(),
            final(chan).frames() == old(chan).frames().push(
                self.bytes().subrange(0, HEADER_SIZE + self.header_spec().length),
            ),
            final(chan).cap() == old(chan).cap(),
            !final(chan).writing(),
    {
        let payload_len = self.payload_len();
        let mut grant = self.grant;
        grant.truncate(payload_len + HEADER_SIZE);
        chan.commit(grant);
    }

    /// Commits the frame with `min(used, declared length)` body bytes, and
    /// records that length in the header first. The declared length can
    /// only shrink.
    pub fn commit(self, chan: &mut FramedChannel, used: usize)
        requires
            self.wf(),
            old(chan).wf(),
            old(chan).writing(),
            self.bytes().len() <= old(chan).reservation(),
        ensures
            final(chan).wf(),
            final(chan).frames() == old(chan).frames().push(
                committed_frame(self.bytes(), min_len(used as int, self.header_spec().length as int)),
            ),
            decode(final(chan).frames().last()).length == min_len(
                used as int,
                self.header_spec().length as int,
            ),
            final(chan).cap() == old(chan).cap(),
            !final(chan).writing(),
    {
        let max_payload_len = self.payload_len();
        let payload_len = if used < max_payload_len {
            used
        } else {
            max_payload_len
        };
        let mut grant = self.grant;
        grant.set(PayloadHeader::length_idx(), payload_len as u8);
        grant.truncate(payload_len + HEADER_SIZE);
        chan.commit(grant);
    }

    /// Gives the reservation back without making it visible.
    pub fn abandon(self, chan: &mut FramedChannel)
        requires
            old(chan).wf(),
        ensures
            final(chan).wf(),
            final(chan).frames() == old(chan).frames(),
            final(chan).cap() == old(chan).cap(),
            !final(chan).writing(),
    {
        chan.abandon(self.grant);
    }
}

/// Reserves a frame for a packet with the given header on `chan`.
///
/// Fails with `MaximumPacketExceeded` when the header declares more than
/// `maximum_payload` body bytes, else with the channel's own refusal; on
/// failure `chan` is unchanged.
pub fn grant_payload(chan: &mut FramedChannel, maximum_payload: u8, header: PayloadHeader) -> (r:
    Result<PayloadW, Error>)
    requires
        old(chan).wf(),
    ensures
        grant_outcome(*old(chan), *final(chan), maximum_payload, header, r),
{
    if header.length > maximum_payload {
        return Err(Error::MaximumPacketExceeded);
    }
    let grant_result = chan.grant(header.payload_len() + PayloadHeader::header_size());
    match grant_result {
        Ok(grant) => {
            assert(grant@.subrange(HEADER_SIZE as int, grant@.len() as int) =~= zeros(
                header.length as nat,
            ));
            Ok(PayloadW::new_from_app(grant, header))
        },
        Err(ChannelError::GrantInProgress) => Err(Error::GrantInProgress),
        Err(ChannelError::InsufficientSize) => Err(Error::InsufficientSpace),
        Err(ChannelError::Empty) => Err(Error::InternalError),
    }
}

/// What requesting a write grant for `header` does, from channel state `pre`
/// to `post` with result `r`: an oversize header, an outstanding grant and
/// lack of space are refused in that order and change nothing; otherwise the
/// grant holds the encoded header and a zeroed body of the declared length.
pub open spec fn grant_outcome(
    pre: FramedChannel,
    post: FramedChannel,
    maximum_payload: u8,
    header: PayloadHeader,
    r: Result<PayloadW, Error>,
) -> bool {
    let n = header.length + HEADER_SIZE;
    &&& post.wf()
    &&& post.frames() == pre.frames()
    &&& post.cap() == pre.cap()
    &&& header.length > maximum_payload ==> r == Err::<PayloadW, Error>(
        Error::MaximumPacketExceeded,
    ) && post == pre
    &&& header.length <= maximum_payload && pre.writing() ==> r == Err::<PayloadW, Error>(
        Error::GrantInProgress,
    ) && post == pre
    &&& header.length <= maximum_payload && !pre.writing() && !pre.fits(n) ==> r == Err::<
        PayloadW,
        Error,
    >(Error::InsufficientSpace) && post == pre
    &&& header.length <= maximum_payload && !pre.writing() && pre.fits(n) ==> r.is_ok()
        && r.unwrap().wf() && r.unwrap().bytes() == encode(header) + zeros(header.length as nat)
        && post.writing() && post.reservation() == n
}

/// A read grant over the oldest committed frame.
pub struct PayloadR {
    grant: Vec<u8>,
}

impl PayloadR {
    /// All bytes of the frame, header included.
    pub closed spec fn bytes(&self) -> Seq<u8> {
        self.grant@
    }

    /// The frame's header.
    pub open spec fn header_spec(&self) -> PayloadHeader {
        decode(self.bytes())
    }

    /// The frame's body.
    pub open spec fn body(&self) -> Seq<u8> {
        self.bytes().subrange(HEADER_SIZE as int, self.bytes().len() as int)
    }

    /// Wraps the bytes of a committed frame.
    pub fn new(raw_grant: Vec<u8>) -> (r: PayloadR)
        requires
            well_framed(raw_grant@),
        ensures
            r.bytes() == raw_grant@,
            well_framed(r.bytes()),
    {
        PayloadR { grant: raw_grant }
    }

    /// The frame's header.
    pub fn get_header(&self) -> (r: PayloadHeader)
        requires
            well_framed(self.bytes()),
        ensures
            r == self.header_spec(),
            r.length == self.body().len(),
    {
        let mut bytes: [u8; 4] = [0u8; 4];
        bytes[0] = self.grant[0];
        bytes[1] = self.grant[1];
        bytes[2] = self.grant[2];
        bytes[3] = self.grant[3];
        assert(bytes@ =~= self.bytes().subrange(0, 4));
        PayloadHeader::from_bytes(&bytes)
    }

    /// The pipe the frame was sent on or received from.
    pub fn pipe(&self) -> (r: u8)
        requires
            well_framed(self.bytes()),
        ensures
            r == self.header_spec().pipe,
    {
        self.grant[PayloadHeader::pipe_idx()]
    }

    /// The frame's body, exactly as long as the header declares.
    pub fn payload(&self) -> (r: &[u8])
        requires
            well_framed(self.bytes()),
        ensures
            r@ == self.body(),
            r@.len() == self.header_spec().length,
    {
        vstd::slice::slice_subrange(self.grant.as_slice(), HEADER_SIZE, self.grant.len())
    }

    /// Frees the frame in `chan`, of which it is the oldest.
    pub fn release(self, chan: &mut FramedChannel)
        requires
            old(chan).wf(),
            old(chan).frames().len() > 0,
        ensures
            final(chan).wf(),
            final(chan).frames() == old(chan).frames().drop_first(),
            final(chan).cap() == old(chan).cap(),
            final(chan).writing() == old(chan).writing(),
            final(chan).reservation() == old(chan).reservation(),
    {
        chan.release();
    }
}

/// The oldest committed frame of `chan`, if any.
pub fn read_payload(chan: &FramedChannel) -> (r: Option<PayloadR>)
    requires
        chan.wf(),
    ensures
        r.is_none() <==> chan.frames().len() == 0,
        r.is_some() ==> r.unwrap().bytes() == chan.frames()[0] && well_framed(r.unwrap().bytes()),
{
    match chan.read() {
        Ok(frame) => Some(PayloadR::new(frame)),
        Err(_) => None,
    }
}

} // verus!

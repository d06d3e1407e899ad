use vstd::prelude::*;

use crate::app::{Addresses, Config, EsbApp};
use crate::channel::{well_framed, FramedChannel};
use crate::error::Error;
use crate::header::{PayloadHeader, HEADER_SIZE};
use crate::payload::{read_payload, zeros, PayloadR, PayloadW};

verus! {

/// The interrupt-side handle: produces on the channel towards the
/// application and consumes from the channel coming from it. It keeps the
/// configuration that the radio was initialised with.
pub struct EsbIrq {
    pub(crate) addresses: Addresses,
    pub(crate) config: Config,
}

impl EsbIrq {
    /// The configuration the handle was created with.
    pub closed spec fn config_spec(&self) -> Config {
        self.config
    }

    /// The addresses the handle was created with.
    pub closed spec fn addresses_spec(&self) -> Addresses {
        self.addresses
    }

    /// The configuration fixed at split time.
    pub fn config(&self) -> (r: Config)
        ensures
            r == self.config_spec(),
    {
        self.config
    }

    /// The addresses fixed at split time.
    pub fn addresses(&self) -> (r: Addresses)
        ensures
            r == self.addresses_spec(),
    {
        self.addresses
    }

    /// Reserves room on `to_app` for a packet of up to the maximum payload
    /// size, for the radio to receive into. Its header is all zero until the
    /// radio records one.
    pub fn grant_received(&mut self, to_app: &mut FramedChannel) -> (r: Result<PayloadW, Error>)
        requires
            old(to_app).wf(),
        ensures
            final(to_app).wf(),
            final(to_app).frames() == old(to_app).frames(),
            final(to_app).cap() == old(to_app).cap(),
            final(self).config_spec() == old(self).config_spec(),
            old(to_app).writing() ==> r == Err::<PayloadW, Error>(Error::GrantInProgress)
                && *final(to_app) == *old(to_app),
            !old(to_app).writing() && !old(to_app).fits(
                old(self).config_spec().maximum_payload_size + HEADER_SIZE,
            ) ==> r == Err::<PayloadW, Error>(Error::InsufficientSpace) && *final(to_app)
                == *old(to_app),
            !old(to_app).writing() && old(to_app).fits(
                old(self).config_spec().maximum_payload_size + HEADER_SIZE,
            ) ==> r.is_ok() && r.unwrap().wf() && r.unwrap().bytes() == zeros(
                (old(self).config_spec().maximum_payload_size + HEADER_SIZE) as nat,
            ) && final(to_app).writing() && final(to_app).reservation()
                == old(self).config_spec().maximum_payload_size + HEADER_SIZE,
    {
        let n = self.config.maximum_payload_size as usize + PayloadHeader::header_size();
        match to_app.grant(n) {
            Ok(grant) => Ok(PayloadW::new_from_radio(grant)),
            Err(crate::channel::ChannelError::GrantInProgress) => Err(Error::GrantInProgress),
            Err(crate::channel::ChannelError::InsufficientSize) => Err(Error::InsufficientSpace),
            Err(crate::channel::ChannelError::Empty) => Err(Error::InternalError),
        }
    }

    /// The oldest packet that the application committed on `from_app`, if any.
    pub fn read_outgoing(&self, from_app: &FramedChannel) -> (r: Option<PayloadR>)
        requires
            from_app.wf(),
        ensures
            r.is_none() <==> from_app.frames().len() == 0,
            r.is_some() ==> r.unwrap().bytes() == from_app.frames()[0] && well_framed(
                r.unwrap().bytes(),
            ),
    {
        read_payload(from_app)
    }
}

/// The duplex buffer: one channel per direction and the timer flag that the
/// interrupt side raises. It is split into its two handles once.
pub struct EsbBuffer {
    app_to_radio_buf: FramedChannel,
    radio_to_app_buf: FramedChannel,
    timer_flag: bool,
    split: bool,
}

/// What splitting does, from buffer state `pre` to `post` with result `r`:
/// a second split fails with `AlreadySplit` and changes nothing; the first
/// clears the timer flag, marks the buffer split and hands out handles that
/// carry the given configuration.
pub open spec fn split_outcome(
    pre: EsbBuffer,
    post: EsbBuffer,
    addresses: Addresses,
    config: Config,
    r: Result<(EsbApp, EsbIrq), Error>,
) -> bool {
    &&& pre.is_split() ==> r == Err::<(EsbApp, EsbIrq), Error>(Error::AlreadySplit) && post == pre
    &&& !pre.is_split() ==> r.is_ok() && post.is_split() && !post.timer_raised()
        && post.out_chan() == pre.out_chan() && post.in_chan()
        == pre.in_chan() && r.unwrap().0.max_payload() == config.maximum_payload_size
        && r.unwrap().1.config_spec() == config && r.unwrap().1.addresses_spec() == addresses
}

impl EsbBuffer {
    /// Whether the buffer has been split.
    pub closed spec fn is_split(&self) -> bool {
        self.split
    }

    /// The channel from the application to the radio.
    pub closed spec fn out_chan(&self) -> FramedChannel {
        self.app_to_radio_buf
    }

    /// The channel from the radio to the application.
    pub closed spec fn in_chan(&self) -> FramedChannel {
        self.radio_to_app_buf
    }

    /// Whether the timer flag is raised.
    pub closed spec fn timer_raised(&self) -> bool {
        self.timer_flag
    }

    /// Both channels are well formed.
    pub open spec fn wf(&self) -> bool {
        self.out_chan().wf() && self.in_chan().wf()
    }

    /// The channel from the application to the radio.
    pub fn app_to_radio(&mut self) -> (r: &mut FramedChannel)
        ensures
            *r == old(self).out_chan(),
            final(self).out_chan() == *final(r),
            final(self).in_chan() == old(self).in_chan(),
            final(self).timer_raised() == old(self).timer_raised(),
            final(self).is_split() == old(self).is_split(),
    {
        &mut self.app_to_radio_buf
    }

    /// The channel from the radio to the application.
    pub fn radio_to_app(&mut self) -> (r: &mut FramedChannel)
        ensures
            *r == old(self).in_chan(),
            final(self).in_chan() == *final(r),
            final(self).out_chan() == old(self).out_chan(),
            final(self).timer_raised() == old(self).timer_raised(),
            final(self).is_split() == old(self).is_split(),
    {
        &mut self.radio_to_app_buf
    }

    /// Whether the timer flag is raised.
    pub fn timer_flag(&self) -> (r: bool)
        ensures
            r == self.timer_raised(),
    {
        self.timer_flag
    }

    /// Creates an unsplit buffer with empty channels of the given capacities.
    pub fn new(out_capacity: usize, in_capacity: usize) -> (r: EsbBuffer)
        ensures
            r.wf(),
            !r.is_split(),
            !r.timer_raised(),
            r.out_chan().frames().len() == 0,
            r.out_chan().cap() == out_capacity,
            !r.out_chan().writing(),
            r.in_chan().frames().len() == 0,
            r.in_chan().cap() == in_capacity,
            !r.in_chan().writing(),
    {
        EsbBuffer {
            app_to_radio_buf: FramedChannel::new(out_capacity),
            radio_to_app_buf: FramedChannel::new(in_capacity),
            timer_flag: false,
            split: false,
        }
    }

    /// Splits the buffer into its application-side and interrupt-side
    /// handles. Only the first call succeeds.
    pub fn try_split(&mut self, addresses: Addresses, config: Config) -> (r: Result<
        (EsbApp, EsbIrq),
        Error,
    >)
        ensures
            split_outcome(*old(self), *final(self), addresses, config, r),
    {
        if self.split {
            return Err(Error::AlreadySplit);
        }
        self.split = true;
        self.timer_flag = false;
        let app = EsbApp::new(config.maximum_payload_size);
        let irq = EsbIrq { addresses, config };
        Ok((app, irq))
    }

    /// Raises the timer flag.
    pub fn set_timer_flag(&mut self)
        ensures
            final(self).timer_raised(),
            final(self).is_split() == old(self).is_split(),
            final(self).out_chan() == old(self).out_chan(),
            final(self).in_chan() == old(self).in_chan(),
    {
        self.timer_flag = true;
    }

    /// Reads and clears the timer flag.
    pub fn take_timer_flag(&mut self) -> (r: bool)
        ensures
            r == old(self).timer_raised(),
            !final(self).timer_raised(),
            final(self).is_split() == old(self).is_split(),
            final(self).out_chan() == old(self).out_chan(),
            final(self).in_chan() == old(self).in_chan(),
    {
        let r = self.timer_flag;
        self.timer_flag = false;
        r
    }
}

/// Splitting happens once: on a buffer not yet split, a first split succeeds
/// and a second one fails with `AlreadySplit`, whatever configuration each
/// is given.
pub proof fn lemma_split_once(
    b0: EsbBuffer,
    b1: EsbBuffer,
    b2: EsbBuffer,
    addresses1: Addresses,
    config1: Config,
    r1: Result<(EsbApp, EsbIrq), Error>,
    addresses2: Addresses,
    config2: Config,
    r2: Result<(EsbApp, EsbIrq), Error>,
)
    requires
        !b0.is_split(),
        split_outcome(b0, b1, addresses1, config1, r1),
        split_outcome(b1, b2, addresses2, config2, r2),
    ensures
        r1.is_ok(),
        r2 == Err::<(EsbApp, EsbIrq), Error>(Error::AlreadySplit),
        b2.is_split(),
{
}

} // verus!

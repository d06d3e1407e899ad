use vstd::prelude::*;

use crate::channel::FramedChannel;
use crate::error::Error;
use crate::channel::well_framed;
use crate::header::PayloadHeader;
use crate::payload::{grant_outcome, grant_payload, read_payload, PayloadR, PayloadW};

verus! {

/// Highest radio channel number the hardware accepts.
pub const MAX_RF_CHANNEL: u8 = 100;

/// Settings fixed when the duplex buffer is split.
#[derive(Clone, Copy, Debug, PartialEq, Eq, Structural)]
pub struct Config {
    /// Largest body, in bytes, that a packet may declare.
    pub maximum_payload_size: u8,
    /// Transmit power, as the radio's register value.
    pub tx_power: u8,
}

/// Addresses used for communication.
///
/// Up to eight pipes are addressed, each by a base address and a prefix.
/// Pipe 0 has its own base and prefix; pipes 1 to 7 share a base address and
/// have their own prefixes.
#[derive(Clone, Copy, Debug)]
pub struct Addresses {
    /// Base address for pipe 0.
    pub(crate) base0: [u8; 4],
    /// Base address for pipes 1-7.
    pub(crate) base1: [u8; 4],
    /// Prefixes for pipes 0-3, in order.
    pub(crate) prefixes0: [u8; 4],
    /// Prefixes for pipes 4-7, in order.
    pub(crate) prefixes1: [u8; 4],
    /// Channel used by the radio hardware, between 0 and 100.
    pub(crate) rf_channel: u8,
}

impl Addresses {
    /// The five fields: base addresses, prefixes and radio channel.
    pub closed spec fn fields(&self) -> (Seq<u8>, Seq<u8>, Seq<u8>, Seq<u8>, u8) {
        (self.base0@, self.base1@, self.prefixes0@, self.prefixes1@, self.rf_channel)
    }

    /// Creates a set of addresses; fails with `InvalidParameters` when
    /// `rf_channel` is above 100.
    pub fn new(
        base0: [u8; 4],
        base1: [u8; 4],
        prefixes0: [u8; 4],
        prefixes1: [u8; 4],
        rf_channel: u8,
    ) -> (r: Result<Addresses, Error>)
        ensures
            rf_channel > MAX_RF_CHANNEL <==> r == Err::<Addresses, Error>(Error::InvalidParameters),
            rf_channel <= MAX_RF_CHANNEL ==> r.is_ok() && r.unwrap().fields() == (
                base0@,
                base1@,
                prefixes0@,
                prefixes1@,
                rf_channel,
            ),
    {
        if rf_channel > MAX_RF_CHANNEL {
            return Err(Error::InvalidParameters);
        }
        Ok(Addresses { base0, base1, prefixes0, prefixes1, rf_channel })
    }

    /// Base address for pipe 0.
    pub fn base0(&self) -> (r: [u8; 4])
        ensures
            r@ == self.fields().0,
    {
        self.base0
    }

    /// Base address for pipes 1-7.
    pub fn base1(&self) -> (r: [u8; 4])
        ensures
            r@ == self.fields().1,
    {
        self.base1
    }

    /// Prefixes for pipes 0-3.
    pub fn prefixes0(&self) -> (r: [u8; 4])
        ensures
            r@ == self.fields().2,
    {
        self.prefixes0
    }

    /// Prefixes for pipes 4-7.
    pub fn prefixes1(&self) -> (r: [u8; 4])
        ensures
            r@ == self.fields().3,
    {
        self.prefixes1
    }

    /// Radio channel.
    pub fn rf_channel(&self) -> (r: u8)
        ensures
            r == self.fields().4,
    {
        self.rf_channel
    }
}

impl Default for Addresses {
    /// The standard addresses on radio channel 2.
    fn default() -> (r: Addresses)
        ensures
            r.fields() == (
                seq![0xE7u8, 0xE7, 0xE7, 0xE7],
                seq![0xC2u8, 0xC2, 0xC2, 0xC2],
                seq![0xE7u8, 0xC2, 0xC3, 0xC4],
                seq![0xC5u8, 0xC6, 0xC7, 0xC8],
                2u8,
            ),
    {
        let r = Addresses {
            base0: [0xE7, 0xE7, 0xE7, 0xE7],
            base1: [0xC2, 0xC2, 0xC2, 0xC2],
            prefixes0: [0xE7, 0xC2, 0xC3, 0xC4],
            prefixes1: [0xC5, 0xC6, 0xC7, 0xC8],
            rf_channel: 2,
        };
        assert(r.base0@ =~= seq![0xE7u8, 0xE7, 0xE7, 0xE7]);
        assert(r.base1@ =~= seq![0xC2u8, 0xC2, 0xC2, 0xC2]);
        assert(r.prefixes0@ =~= seq![0xE7u8, 0xC2, 0xC3, 0xC4]);
        assert(r.prefixes1@ =~= seq![0xC5u8, 0xC6, 0xC7, 0xC8]);
        r
    }
}

/// The application-side handle: produces on the channel towards the radio
/// and consumes from the channel coming from it.
pub struct EsbApp {
    pub(crate) maximum_payload: u8,
}

/// The sending half of [`EsbApp`].
pub struct EsbAppSender {
    pub(crate) maximum_payload: u8,
}

/// The receiving half of [`EsbApp`].
pub struct EsbAppReceiver {
    pub(crate) maximum_payload: u8,
}

impl EsbApp {
    /// The configured maximum payload size.
    pub closed spec fn max_payload(&self) -> u8 {
        self.maximum_payload
    }

    /// Creates the handle with the configured maximum payload size.
    pub(crate) fn new(maximum_payload: u8) -> (r: EsbApp)
        ensures
            r.max_payload() == maximum_payload,
    {
        EsbApp { maximum_payload }
    }

    /// Splits the handle into its sending and receiving halves.
    pub fn split(self) -> (r: (EsbAppSender, EsbAppReceiver))
        ensures
            r.0.max_payload() == self.max_payload(),
            r.1.max_payload() == self.max_payload(),
    {
        let EsbApp { maximum_payload } = self;
        (EsbAppSender { maximum_payload }, EsbAppReceiver { maximum_payload })
    }

    /// Obtains a grant for an outgoing packet on `to_radio`.
    ///
    /// The grant can only shrink afterwards, and only one may be active at a
    /// time.
    pub fn grant_packet(&mut self, to_radio: &mut FramedChannel, header: PayloadHeader) -> (r:
        Result<PayloadW, Error>)
        requires
            old(to_radio).wf(),
        ensures
            grant_outcome(*old(to_radio), *final(to_radio), old(self).max_payload(), header, r),
            final(self).max_payload() == old(self).max_payload(),
    {
        grant_payload(to_radio, self.maximum_payload, header)
    }

    /// Whether a received packet is waiting on `from_radio`.
    pub fn msg_ready(&mut self, from_radio: &FramedChannel) -> (r: bool)
        requires
            from_radio.wf(),
        ensures
            r == (from_radio.frames().len() > 0),
            final(self).max_payload() == old(self).max_payload(),
    {
        from_radio.read().is_ok()
    }

    /// The oldest received packet on `from_radio`, if any.
    pub fn read_packet(&mut self, from_radio: &FramedChannel) -> (r: Option<PayloadR>)
        requires
            from_radio.wf(),
        ensures
            r.is_none() <==> from_radio.frames().len() == 0,
            r.is_some() ==> r.unwrap().bytes() == from_radio.frames()[0] && well_framed(
                r.unwrap().bytes(),
            ),
            final(self).max_payload() == old(self).max_payload(),
    {
        read_payload(from_radio)
    }

    /// The configured maximum payload size in bytes.
    pub fn maximum_payload_size(&self) -> (r: usize)
        ensures
            r == self.max_payload(),
    {
        self.maximum_payload as usize
    }
}

impl EsbAppSender {
    /// The configured maximum payload size.
    pub closed spec fn max_payload(&self) -> u8 {
        self.maximum_payload
    }

    /// Obtains a grant for an outgoing packet on `to_radio`.
    pub fn grant_packet(&mut self, to_radio: &mut FramedChannel, header: PayloadHeader) -> (r:
        Result<PayloadW, Error>)
        requires
            old(to_radio).wf(),
        ensures
            grant_outcome(*old(to_radio), *final(to_radio), old(self).max_payload(), header, r),
            final(self).max_payload() == old(self).max_payload(),
    {
        grant_payload(to_radio, self.maximum_payload, header)
    }

    /// The configured maximum payload size in bytes.
    pub fn maximum_payload_size(&self) -> (r: usize)
        ensures
            r == self.max_payload(),
    {
        self.maximum_payload as usize
    }
}

impl EsbAppReceiver {
    /// The configured maximum payload size.
    pub closed spec fn max_payload(&self) -> u8 {
        self.maximum_payload
    }

    /// Whether a received packet is waiting on `from_radio`.
    pub fn msg_ready(&mut self, from_radio: &FramedChannel) -> (r: bool)
        requires
            from_radio.wf(),
        ensures
            r == (from_radio.frames().len() > 0),
            final(self).max_payload() == old(self).max_payload(),
    {
        from_radio.read().is_ok()
    }

    /// The oldest received packet on `from_radio`, if any.
    pub fn read_packet(&mut self, from_radio: &FramedChannel) -> (r: Option<PayloadR>)
        requires
            from_radio.wf(),
        ensures
            r.is_none() <==> from_radio.frames().len() == 0,
            r.is_some() ==> r.unwrap().bytes() == from_radio.frames()[0] && well_framed(
                r.unwrap().bytes(),
            ),
            final(self).max_payload() == old(self).max_payload(),
    {
        read_payload(from_radio)
    }

    /// The configured maximum payload size in bytes.
    pub fn maximum_payload_size(&self) -> (r: usize)
        ensures
            r == self.max_payload(),
    {
        self.maximum_payload as usize
    }
}

} // verus!

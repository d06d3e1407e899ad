use esb::app::{Addresses, Config};
use esb::buffer::EsbBuffer;
use esb::channel::{ChannelError, FramedChannel};
use esb::error::Error;
use esb::header::PayloadHeader;

fn config(max: u8) -> Config {
    Config { maximum_payload_size: max, tx_power: 0 }
}

#[test]
fn header_encodes_in_fixed_order() {
    let h = PayloadHeader::new(0x11, 3, 20, 0x81);
    assert_eq!(h.to_bytes(), [0x11, 3, 20, 0x81]);
    let d = PayloadHeader::from_bytes(&[9, 7, 255, 0]);
    assert_eq!(d, PayloadHeader::new(9, 7, 255, 0));
    assert_eq!(d.payload_len(), 255);
    assert_eq!(PayloadHeader::length_idx(), 2);
    assert_eq!(PayloadHeader::pid_no_ack_idx(), 3);
    assert_eq!(PayloadHeader::header_size(), 4);
}

#[test]
fn header_round_trip() {
    for pipe in 0u8..8 {
        for length in [0u8, 1, 32, 252, 255] {
            let h = PayloadHeader::new(200, pipe, length, 0x03);
            assert_eq!(PayloadHeader::from_bytes(&h.to_bytes()), h);
        }
    }
}

#[test]
fn addresses_reject_channel_above_100() {
    let r = Addresses::new([1; 4], [2; 4], [3; 4], [4; 4], 101);
    assert!(matches!(r, Err(Error::InvalidParameters)));
    let ok = Addresses::new([1; 4], [2; 4], [3; 4], [4; 4], 100).unwrap();
    assert_eq!(ok.rf_channel(), 100);
    assert_eq!(ok.base0(), [1; 4]);
    assert_eq!(ok.prefixes1(), [4; 4]);
}

#[test]
fn addresses_default_values() {
    let a = Addresses::default();
    assert_eq!(a.base0(), [0xE7, 0xE7, 0xE7, 0xE7]);
    assert_eq!(a.base1(), [0xC2, 0xC2, 0xC2, 0xC2]);
    assert_eq!(a.prefixes0(), [0xE7, 0xC2, 0xC3, 0xC4]);
    assert_eq!(a.prefixes1(), [0xC5, 0xC6, 0xC7, 0xC8]);
    assert_eq!(a.rf_channel(), 2);
}

#[test]
fn split_succeeds_once() {
    let mut buf = EsbBuffer::new(64, 64);
    buf.set_timer_flag();
    let first = buf.try_split(Addresses::default(), config(32));
    assert!(first.is_ok());
    assert!(!buf.timer_flag());
    let second = buf.try_split(Addresses::default(), config(32));
    assert!(matches!(second, Err(Error::AlreadySplit)));
    let (app, irq) = first.unwrap();
    assert_eq!(app.maximum_payload_size(), 32);
    assert_eq!(irq.config(), config(32));
    assert_eq!(irq.addresses().rf_channel(), 2);
}

#[test]
fn happy_path_app_to_radio() {
    let mut buf = EsbBuffer::new(128, 128);
    let (mut app, irq) = buf.try_split(Addresses::default(), config(32)).unwrap();
    let mut w = app
        .grant_packet(buf.app_to_radio(), PayloadHeader::new(0, 2, 10, 0))
        .unwrap();
    assert_eq!(w.pipe(), 2);
    assert_eq!(w.payload_len(), 10);
    assert_eq!(w.payload_capacity(), 10);
    w.write_payload(&[1, 2, 3, 4, 5, 6]);
    w.commit(buf.app_to_radio(), 6);
    let r = irq.read_outgoing(buf.app_to_radio()).unwrap();
    assert_eq!(r.pipe(), 2);
    assert_eq!(r.get_header().length, 6);
    assert_eq!(r.payload(), &[1, 2, 3, 4, 5, 6]);
    r.release(buf.app_to_radio());
    assert!(irq.read_outgoing(buf.app_to_radio()).is_none());
}

#[test]
fn oversize_grant_is_rejected_and_changes_nothing() {
    let mut buf = EsbBuffer::new(256, 256);
    let (mut app, _irq) = buf.try_split(Addresses::default(), config(32)).unwrap();
    let r = app.grant_packet(buf.app_to_radio(), PayloadHeader::new(0, 0, 40, 0));
    assert!(matches!(r, Err(Error::MaximumPacketExceeded)));
    assert!(!buf.app_to_radio().is_writing());
    assert_eq!(buf.app_to_radio().len(), 0);
    let ok = app.grant_packet(buf.app_to_radio(), PayloadHeader::new(0, 0, 32, 0));
    assert!(ok.is_ok());
}

#[test]
fn second_grant_while_outstanding_fails() {
    let mut buf = EsbBuffer::new(256, 256);
    let (mut app, _irq) = buf.try_split(Addresses::default(), config(32)).unwrap();
    let w = app
        .grant_packet(buf.app_to_radio(), PayloadHeader::new(0, 1, 4, 0))
        .unwrap();
    let again = app.grant_packet(buf.app_to_radio(), PayloadHeader::new(0, 1, 4, 0));
    assert!(matches!(again, Err(Error::GrantInProgress)));
    assert_eq!(w.pipe(), 1);
    w.commit_all(buf.app_to_radio());
    let again = app.grant_packet(buf.app_to_radio(), PayloadHeader::new(0, 1, 4, 0));
    assert!(again.is_ok());
}

#[test]
fn commit_clamps_to_declared_length() {
    let mut buf = EsbBuffer::new(256, 256);
    let (mut app, irq) = buf.try_split(Addresses::default(), config(32)).unwrap();
    let mut w = app
        .grant_packet(buf.app_to_radio(), PayloadHeader::new(0, 0, 5, 0))
        .unwrap();
    w.write_payload(&[9, 8, 7, 6, 5]);
    w.commit(buf.app_to_radio(), 50);
    let r = irq.read_outgoing(buf.app_to_radio()).unwrap();
    assert_eq!(r.get_header().length, 5);
    assert_eq!(r.payload(), &[9, 8, 7, 6, 5]);
    r.release(buf.app_to_radio());

    let mut w = app
        .grant_packet(buf.app_to_radio(), PayloadHeader::new(0, 0, 5, 0))
        .unwrap();
    w.set_payload_byte(0, 42);
    w.commit(buf.app_to_radio(), 1);
    let r = irq.read_outgoing(buf.app_to_radio()).unwrap();
    assert_eq!(r.get_header().length, 1);
    assert_eq!(r.payload(), &[42]);
}

#[test]
fn frames_come_out_in_commit_order() {
    let mut buf = EsbBuffer::new(256, 256);
    let (mut app, irq) = buf.try_split(Addresses::default(), config(32)).unwrap();
    for (i, body) in [[1u8, 1], [2, 2], [3, 3]].iter().enumerate() {
        let mut w = app
            .grant_packet(buf.app_to_radio(), PayloadHeader::new(0, i as u8, 2, 0))
            .unwrap();
        w.write_payload(body);
        w.commit_all(buf.app_to_radio());
    }
    for i in 0..3u8 {
        let r = irq.read_outgoing(buf.app_to_radio()).unwrap();
        let again = irq.read_outgoing(buf.app_to_radio()).unwrap();
        assert_eq!(r.pipe(), i);
        assert_eq!(again.pipe(), i);
        assert_eq!(r.payload(), &[i + 1, i + 1]);
        r.release(buf.app_to_radio());
    }
    assert!(irq.read_outgoing(buf.app_to_radio()).is_none());
}

#[test]
fn exhaustion_and_recovery() {
    // Each frame takes 4 header bytes, 4 body bytes and 2 bytes of bookkeeping.
    let mut buf = EsbBuffer::new(64, 64);
    let (mut app, irq) = buf.try_split(Addresses::default(), config(32)).unwrap();
    let header = PayloadHeader::new(0, 0, 4, 0);
    let mut committed = 0;
    loop {
        match app.grant_packet(buf.app_to_radio(), header) {
            Ok(w) => {
                w.commit_all(buf.app_to_radio());
                committed += 1;
            }
            Err(e) => {
                assert_eq!(e, Error::InsufficientSpace);
                break;
            }
        }
    }
    assert_eq!(committed, 6);
    let r = irq.read_outgoing(buf.app_to_radio()).unwrap();
    r.release(buf.app_to_radio());
    assert!(app.grant_packet(buf.app_to_radio(), header).is_ok());
}

#[test]
fn abandoned_grant_is_not_visible() {
    let mut chan = FramedChannel::new(32);
    let g = chan.grant(8).unwrap();
    assert_eq!(g, vec![0u8; 8]);
    assert_eq!(chan.grant(1), Err(ChannelError::GrantInProgress));
    chan.abandon(g);
    assert_eq!(chan.read(), Err(ChannelError::Empty));
    assert!(chan.grant(31).is_err());
    assert!(chan.grant(30).is_ok());
}

#[test]
fn radio_side_fills_inbound_frames() {
    let mut buf = EsbBuffer::new(64, 64);
    let (app, mut irq) = buf.try_split(Addresses::default(), config(8)).unwrap();
    let (_sender, mut receiver) = app.split();
    assert_eq!(receiver.maximum_payload_size(), 8);
    let mut w = irq.grant_received(buf.radio_to_app()).unwrap();
    assert_eq!(w.payload_len(), 0);
    assert_eq!(w.payload_capacity(), 8);
    w.write_payload(&[5, 6, 7]);
    w.update_header(PayloadHeader::new(0x40, 4, 3, 1));
    assert_eq!(w.pipe(), 4);
    assert!(!receiver.msg_ready(buf.radio_to_app()));
    w.commit_all(buf.radio_to_app());
    assert!(receiver.msg_ready(buf.radio_to_app()));
    let r = receiver.read_packet(buf.radio_to_app()).unwrap();
    assert_eq!(r.get_header(), PayloadHeader::new(0x40, 4, 3, 1));
    assert_eq!(r.payload(), &[5, 6, 7]);
}

use nflog::config::AddressFamily;
use nflog::message::{MacAddr, Message, RawHwAddr, RawRecord, Timestamp, u16_be};
use nflog::QueueError;

fn base_record() -> RawRecord {
    RawRecord {
        family: 2,
        hwtype: 1,
        hwhdr: Vec::new(),
        hw: None,
        l3_proto_be: [0x08, 0x00],
        mark: 0,
        ts_rc: -1,
        ts_sec: 0,
        ts_usec: 0,
        indev: 0,
        physindev: 0,
        outdev: 0,
        physoutdev: 0,
        payload: Vec::new(),
        prefix: Vec::new(),
        uid_rc: -1,
        uid: 0,
        gid_rc: -1,
        gid: 0,
        seq_rc: -1,
        seq: 0,
        seq_global_rc: -1,
        seq_global: 0,
    }
}

fn message(raw: RawRecord) -> Message {
    Message::new(Some(raw)).unwrap()
}

#[test]
fn null_record_is_a_protocol_violation() {
    match Message::new(None) {
        Err(e) => assert_eq!(e, QueueError::NullRecord),
        Ok(_) => panic!("a missing record must be rejected"),
    }
}

#[test]
fn u16_be_combines_wire_bytes() {
    assert_eq!(u16_be(0x08, 0x00), 0x0800);
    assert_eq!(u16_be(0x00, 0x06), 6);
    assert_eq!(u16_be(0xff, 0xff), 0xffff);
    assert_eq!(u16_be(0x00, 0x00), 0);
}

#[test]
fn address_family_of_known_and_unknown_families() {
    let m = message(base_record());
    assert_eq!(m.address_family(), Some(AddressFamily::Inet));
    let mut raw = base_record();
    raw.family = 10;
    assert_eq!(message(raw).address_family(), Some(AddressFamily::Inet6));
    let mut raw = base_record();
    raw.family = 99;
    assert_eq!(message(raw).address_family(), None);
}

#[test]
fn hwaddr_resolves_only_six_byte_addresses() {
    let mut raw = base_record();
    raw.hw = Some(RawHwAddr {
        len_be: [0x00, 0x06],
        addr: [0xaa, 0xbb, 0xcc, 0xdd, 0xee, 0xff, 0x00, 0x00],
    });
    assert_eq!(
        message(raw).packet_hwaddr(),
        Some(MacAddr(0xaa, 0xbb, 0xcc, 0xdd, 0xee, 0xff))
    );

    let mut raw = base_record();
    raw.hw = Some(RawHwAddr {
        len_be: [0x00, 0x04],
        addr: [0xaa, 0xbb, 0xcc, 0xdd, 0x00, 0x00, 0x00, 0x00],
    });
    assert_eq!(message(raw).packet_hwaddr(), None);

    // A length of six stored byte-swapped must not resolve: the field is
    // big-endian on the wire.
    let mut raw = base_record();
    raw.hw = Some(RawHwAddr {
        len_be: [0x06, 0x00],
        addr: [0xaa, 0xbb, 0xcc, 0xdd, 0xee, 0xff, 0x00, 0x00],
    });
    assert_eq!(message(raw).packet_hwaddr(), None);

    assert_eq!(message(base_record()).packet_hwaddr(), None);
}

#[test]
fn l3_proto_converts_from_network_order() {
    assert_eq!(message(base_record()).l3_proto(), 0x0800);
    let mut raw = base_record();
    raw.l3_proto_be = [0x86, 0xdd];
    assert_eq!(message(raw).l3_proto(), 0x86dd);
}

#[test]
fn timestamp_present_only_on_success_with_sane_fields() {
    let mut raw = base_record();
    raw.ts_rc = 0;
    raw.ts_sec = 1700000000;
    raw.ts_usec = 250000;
    assert_eq!(
        message(raw).timestamp(),
        Some(Timestamp { secs: 1700000000, micros: 250000 })
    );

    assert_eq!(message(base_record()).timestamp(), None);

    let mut raw = base_record();
    raw.ts_rc = 0;
    raw.ts_sec = -1;
    assert_eq!(message(raw).timestamp(), None);

    let mut raw = base_record();
    raw.ts_rc = 0;
    raw.ts_usec = 1000000;
    assert_eq!(message(raw).timestamp(), None);
}

#[test]
fn payload_absent_when_empty() {
    assert_eq!(message(base_record()).payload(), None);
    let mut raw = base_record();
    raw.payload = vec![0x45, 0x00, 0x00, 0x54];
    let m = message(raw);
    assert_eq!(m.payload(), Some(&[0x45u8, 0x00, 0x00, 0x54][..]));
}

#[test]
fn hwhdr_absent_when_empty() {
    assert_eq!(message(base_record()).packet_hwhdr(), None);
    let mut raw = base_record();
    raw.hwhdr = vec![1, 2, 3];
    let m = message(raw);
    assert_eq!(m.packet_hwhdr(), Some(&[1u8, 2, 3][..]));
}

#[test]
fn prefix_decodes_best_effort() {
    let mut raw = base_record();
    raw.prefix = b"drop: ".to_vec();
    assert_eq!(message(raw).prefix(), "drop: ");

    let mut raw = base_record();
    raw.prefix = vec![0x61, 0xff, 0x62];
    assert_eq!(message(raw).prefix(), "a\u{fffd}b");

    assert_eq!(message(base_record()).prefix(), "");
}

#[test]
fn uid_and_gid_follow_their_return_codes() {
    let mut raw = base_record();
    raw.uid_rc = 0;
    raw.uid = 1000;
    raw.gid_rc = 0;
    raw.gid = 100;
    let m = message(raw);
    assert_eq!(m.uid(), Some(1000));
    assert_eq!(m.gid(), Some(100));

    let m = message(base_record());
    assert_eq!(m.uid(), None);
    assert_eq!(m.gid(), None);
}

#[test]
fn seqnums_absent_without_their_flags() {
    let m = message(base_record());
    assert_eq!(m.local_seqnum(), None);
    assert_eq!(m.global_seqnum(), None);
}

#[test]
fn plain_getters_hand_fields_through() {
    let mut raw = base_record();
    raw.hwtype = 772;
    raw.mark = 7;
    raw.indev = 1;
    raw.physindev = 2;
    raw.outdev = 3;
    raw.physoutdev = 4;
    let m = message(raw);
    assert_eq!(m.hwtype(), 772);
    assert_eq!(m.nfmark(), 7);
    assert_eq!(m.indev(), 1);
    assert_eq!(m.physindev(), 2);
    assert_eq!(m.outdev(), 3);
    assert_eq!(m.physoutdev(), 4);
}

#[test]
fn delivered_ipv4_record_reads_back_as_injected() {
    // The view side of an end-to-end delivery: a record captured with copy
    // mode Packet, range 0xffff and the sequence flag set.
    let injected: Vec<u8> = vec![
        0x45, 0x00, 0x00, 0x1c, 0x00, 0x01, 0x00, 0x00, 0x40, 0x11, 0x7c, 0xce, 0x7f, 0x00,
        0x00, 0x01, 0x7f, 0x00, 0x00, 0x01,
    ];
    let mut raw = base_record();
    raw.payload = injected.clone();
    raw.l3_proto_be = [0x08, 0x00];
    raw.seq_rc = 0;
    raw.seq = 1;
    let first = message(raw);
    assert_eq!(first.payload(), Some(&injected[..]));
    assert_eq!(first.l3_proto(), 0x0800);
    assert_eq!(first.local_seqnum(), Some(1));

    let mut raw = base_record();
    raw.payload = injected.clone();
    raw.seq_rc = 0;
    raw.seq = 2;
    let second = message(raw);
    assert_eq!(second.local_seqnum(), Some(2));
}

use nflog::config::{AddressFamily, CopyMode, Flags, QueueConfig, NFLOG_BUF_SIZE};

#[test]
fn default_configuration() {
    let c = QueueConfig::default();
    assert_eq!(
        c.address_families,
        vec![AddressFamily::Inet, AddressFamily::Inet6]
    );
    assert_eq!(c.group_num, 0);
    assert_eq!(c.buffer_size, NFLOG_BUF_SIZE);
    assert_eq!(c.buffer_size, 150000);
    assert!(!c.unbind);
    assert!(c.copy_mode.is_none());
    assert!(c.range.is_none());
    assert!(c.flags.is_none());
}

#[test]
fn address_family_raw_values() {
    assert_eq!(AddressFamily::Inet.raw(), 2);
    assert_eq!(AddressFamily::Inet6.raw(), 10);
    assert_eq!(AddressFamily::Bridge.raw(), 7);
}

#[test]
fn address_family_from_raw() {
    assert_eq!(AddressFamily::from_raw(2), Some(AddressFamily::Inet));
    assert_eq!(AddressFamily::from_raw(10), Some(AddressFamily::Inet6));
    assert_eq!(AddressFamily::from_raw(7), Some(AddressFamily::Bridge));
    assert_eq!(AddressFamily::from_raw(0), None);
    assert_eq!(AddressFamily::from_raw(99), None);
}

#[test]
fn copy_mode_raw_values() {
    assert_eq!(CopyMode::NoCopy.raw(), 0);
    assert_eq!(CopyMode::Meta.raw(), 1);
    assert_eq!(CopyMode::Packet.raw(), 2);
}

#[test]
fn flags_bits() {
    assert_eq!(Flags::empty().bits, 0);
    assert_eq!(Flags::sequence().bits, 1);
    assert_eq!(Flags::global_sequence().bits, 2);
    let both = Flags::sequence().union(Flags::global_sequence());
    assert_eq!(both.bits, 3);
    assert!(both.contains(Flags::sequence()));
    assert!(both.contains(Flags::global_sequence()));
    assert!(!Flags::sequence().contains(Flags::global_sequence()));
    assert!(Flags::sequence().contains(Flags::empty()));
}

#[test]
fn record_set_mode_success_updates_configuration() {
    let mut c = QueueConfig::default();
    c.record_set_mode(true, CopyMode::Packet, 0xffff);
    assert_eq!(c.copy_mode, Some(CopyMode::Packet));
    assert_eq!(c.range, Some(0xffff));
    assert!(c.flags.is_none());
    assert_eq!(c.group_num, 0);
}

#[test]
fn record_set_mode_failure_leaves_configuration_unchanged() {
    let mut c = QueueConfig::default();
    c.record_set_mode(false, CopyMode::Packet, 0xffff);
    assert!(c.copy_mode.is_none());
    assert!(c.range.is_none());
}

#[test]
fn record_set_flags_success_updates_configuration() {
    let mut c = QueueConfig::default();
    c.record_set_flags(true, Flags::sequence());
    assert_eq!(c.flags, Some(Flags::sequence()));
    assert!(c.copy_mode.is_none());
    assert!(c.range.is_none());
}

#[test]
fn record_set_flags_failure_leaves_configuration_unchanged() {
    let mut c = QueueConfig::default();
    c.record_set_flags(false, Flags::sequence());
    assert!(c.flags.is_none());
}

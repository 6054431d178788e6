use nflog::config::{AddressFamily, CopyMode, Flags, QueueConfig};
use nflog::lifecycle::{build_plan, teardown_plan, NativeOp, QueueState};
use nflog::QueueError;

#[test]
fn build_plan_for_default_configuration() {
    let c = QueueConfig::default();
    let plan = build_plan(&c);
    assert_eq!(
        plan,
        vec![
            NativeOp::Open,
            NativeOp::BindFamily(2),
            NativeOp::BindFamily(10),
            NativeOp::BindGroup(0),
        ]
    );
}

#[test]
fn build_plan_with_unbind_interleaves_unbinds() {
    let mut c = QueueConfig::default();
    c.unbind = true;
    c.group_num = 5;
    let plan = build_plan(&c);
    assert_eq!(
        plan,
        vec![
            NativeOp::Open,
            NativeOp::UnbindFamily(2),
            NativeOp::BindFamily(2),
            NativeOp::UnbindFamily(10),
            NativeOp::BindFamily(10),
            NativeOp::BindGroup(5),
        ]
    );
}

#[test]
fn build_plan_applies_mode_and_flags_last() {
    let mut c = QueueConfig::default();
    c.address_families = vec![AddressFamily::Inet];
    c.copy_mode = Some(CopyMode::Packet);
    c.range = Some(0xffff);
    c.flags = Some(Flags::sequence());
    let plan = build_plan(&c);
    assert_eq!(
        plan,
        vec![
            NativeOp::Open,
            NativeOp::BindFamily(2),
            NativeOp::BindGroup(0),
            NativeOp::SetMode(2, 0xffff),
            NativeOp::SetFlags(1),
        ]
    );
}

#[test]
fn build_plan_needs_both_mode_and_range() {
    let mut c = QueueConfig::default();
    c.address_families = vec![AddressFamily::Inet];
    c.copy_mode = Some(CopyMode::Meta);
    let plan = build_plan(&c);
    assert_eq!(
        plan,
        vec![NativeOp::Open, NativeOp::BindFamily(2), NativeOp::BindGroup(0)]
    );
}

#[test]
fn teardown_plan_with_group_unbinds_before_closing() {
    assert_eq!(
        teardown_plan(true, true),
        vec![NativeOp::UnbindGroup, NativeOp::Close]
    );
}

#[test]
fn teardown_plan_without_group_only_closes() {
    assert_eq!(teardown_plan(true, false), vec![NativeOp::Close]);
}

#[test]
fn teardown_plan_without_context_is_empty() {
    assert_eq!(teardown_plan(false, false), vec![]);
    assert_eq!(teardown_plan(false, true), vec![]);
}

#[test]
fn queue_state_tracks_acquisition_order() {
    let mut s = QueueState::initial();
    assert!(!s.context_open);
    assert!(!s.group_bound);
    assert!(!s.callback_registered);
    s.on_opened();
    assert!(s.context_open);
    s.on_group_bound();
    assert!(s.group_bound);
    s.on_callback_registered();
    assert!(s.callback_registered);
}

#[test]
fn configure_before_group_bound_is_refused() {
    let mut s = QueueState::initial();
    s.on_opened();
    assert_eq!(s.configure_ready(), Err(QueueError::GroupNotBound));
    s.on_group_bound();
    assert_eq!(s.configure_ready(), Ok(()));
}

#[test]
fn queue_state_teardown_releases_everything() {
    let mut s = QueueState::initial();
    s.on_opened();
    s.on_group_bound();
    let plan = s.teardown();
    assert_eq!(plan, vec![NativeOp::UnbindGroup, NativeOp::Close]);
    assert!(!s.context_open);
    assert!(!s.group_bound);
    assert!(!s.callback_registered);
    let again = s.teardown();
    assert_eq!(again, vec![]);
}

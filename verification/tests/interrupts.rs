use r68k::interrupts::{InterruptController, AutoInterruptController, AUTOVECTOR_BASE};

#[test]
fn keeps_track_of_priority() {
    let mut ctrl = AutoInterruptController::new();
    ctrl.request_interrupt(2);
    ctrl.request_interrupt(5);
    assert_eq!(5, ctrl.highest_priority());
}

#[test]
fn auto_resets_on_ack() {
    let mut ctrl = AutoInterruptController::new();
    ctrl.request_interrupt(2);
    ctrl.request_interrupt(5);
    assert_eq!(Some(AUTOVECTOR_BASE + 5), ctrl.acknowledge_interrupt(5));
    assert_eq!(2, ctrl.highest_priority());
}

#[test]
fn resets_irq_level_on_external_device_reset() {
    let mut ctrl = AutoInterruptController::new();
    ctrl.request_interrupt(2);
    ctrl.request_interrupt(5);
    ctrl.reset_external_devices();
    assert_eq!(0, ctrl.highest_priority());
}

#[test]
fn highest_priority_is_zero_without_requests() {
    let ctrl = AutoInterruptController::new();
    assert_eq!(0, ctrl.highest_priority());
}

#[test]
fn request_interrupt_reports_pending_set() {
    let mut ctrl = AutoInterruptController::new();
    assert_eq!(0b10, ctrl.request_interrupt(2));
    assert_eq!(0b1_0010, ctrl.request_interrupt(5));
    assert_eq!(Some(AUTOVECTOR_BASE + 7), ctrl.acknowledge_interrupt(7));
    assert_eq!(5, ctrl.highest_priority());
}

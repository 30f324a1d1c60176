use kernel::usb::xhci::port_registers::StatusAndControl;
use kernel::usb::xhci::tasks::{
    task_for_trb, update_all_waiting, update_waiting, Error, ErrorKind, PortStatusChangeAction, PortStatusChangeStep,
    PortStatusChangeTask, TaskWaker, TimeoutReachedError, Waiting, TIMEOUT_1_SECOND,
};
use kernel::usb::xhci::trb::event::{EventTrb, PortStatusChangeTrb};

const PORT_STATUS_CHANGE: u32 = 34 << 10;

fn psc(port: u8, code: u8) -> PortStatusChangeTrb {
    PortStatusChangeTrb::new([(port as u32) << 24, 0, (code as u32) << 24, 1 | PORT_STATUS_CHANGE])
}

#[test]
fn waiting_active_states() {
    assert!(Waiting::Nothing.active());
    assert!(Waiting::TimeoutReached.active());
    assert!(Waiting::PortStatusChangeReceived(psc(1, 1)).active());
    assert!(!Waiting::TimeoutNS(5).active());
    assert!(!Waiting::PortStatusChange { port: 1, timeout: 5 }.active());
}

#[test]
fn timeouts_count_down_and_expire() {
    let mut trb = None;
    assert!(matches!(update_waiting(Waiting::TimeoutNS(100), 40, &mut trb), Waiting::TimeoutNS(60)));
    assert!(matches!(update_waiting(Waiting::TimeoutNS(100), 100, &mut trb), Waiting::TimeoutNS(0)));
    assert!(matches!(update_waiting(Waiting::TimeoutNS(100), 101, &mut trb), Waiting::TimeoutReached));
    assert!(matches!(update_waiting(Waiting::Nothing, 101, &mut trb), Waiting::Nothing));
}

#[test]
fn port_status_change_is_taken_by_the_waiting_task() {
    let mut trb = Some(EventTrb::PortStatusChange(psc(3, 1)));
    let w = update_waiting(Waiting::PortStatusChange { port: 2, timeout: 10 }, 4, &mut trb);
    assert!(matches!(w, Waiting::PortStatusChange { port: 2, timeout: 6 }));
    assert!(trb.is_some());
    let w = update_waiting(Waiting::PortStatusChange { port: 3, timeout: 1 }, 4, &mut trb);
    assert!(matches!(w, Waiting::PortStatusChangeReceived(t) if t.port_id == 3));
    assert!(trb.is_none());
    let mut none = None;
    let w = update_waiting(Waiting::PortStatusChange { port: 3, timeout: 1 }, 4, &mut none);
    assert!(matches!(w, Waiting::TimeoutReached));
}

#[test]
fn only_the_first_waiting_task_receives_a_trb() {
    let mut states = vec![
        Waiting::TimeoutNS(10),
        Waiting::PortStatusChange { port: 4, timeout: 100 },
        Waiting::PortStatusChange { port: 4, timeout: 100 },
    ];
    let leftover = update_all_waiting(&mut states, 20, Some(EventTrb::PortStatusChange(psc(4, 1))));
    assert!(leftover.is_none());
    assert!(matches!(states[0], Waiting::TimeoutReached));
    assert!(matches!(states[1], Waiting::PortStatusChangeReceived(_)));
    assert!(matches!(states[2], Waiting::PortStatusChange { port: 4, timeout: 80 }));
    let mut states = vec![Waiting::Nothing];
    let leftover = update_all_waiting(&mut states, 20, Some(EventTrb::MFINDEXWrap));
    assert!(matches!(leftover, Some(EventTrb::MFINDEXWrap)));
}

#[test]
fn new_tasks_for_trbs() {
    assert_eq!(task_for_trb(EventTrb::PortStatusChange(psc(2, 1))).map(|t| t.port_id), Some(2));
    assert!(task_for_trb(EventTrb::MFINDEXWrap).is_none());
    assert!(task_for_trb(EventTrb::Transfer).is_none());
}

#[test]
fn task_waker_outcomes() {
    let mut w = TaskWaker::new();
    w.start_timeout(5);
    assert!(!w.timeout_elapsed());
    w.set(Waiting::TimeoutReached);
    assert!(w.timeout_elapsed());
    w.start_port_status_change_wait(1, TIMEOUT_1_SECOND);
    assert!(w.port_status_change_outcome().is_none());
    w.set(Waiting::PortStatusChangeReceived(psc(1, 1)));
    assert!(matches!(w.port_status_change_outcome(), Some(Ok(t)) if t.port_id == 1));
    assert!(matches!(w.get(), Waiting::Nothing));
    w.set(Waiting::TimeoutReached);
    assert_eq!(w.port_status_change_outcome().map(|r| r.map(|t| t.port_id)), Some(Err(TimeoutReachedError)));
}

#[test]
fn port_status_change_with_error_code_ends_at_once() {
    let (task, action) = PortStatusChangeTask::start(psc(2, 4));
    drop(task);
    assert!(matches!(
        action,
        PortStatusChangeAction::Done(Err(Error { port_id: 2, kind: ErrorKind::InitialError(4) }))
    ));
}

#[test]
fn detach_finishes_without_reset() {
    let (mut task, action) = PortStatusChangeTask::start(psc(2, 1));
    assert!(matches!(action, PortStatusChangeAction::ReadStatusAndControl(2)));
    let action = task.status_read(StatusAndControl::from_bits(0));
    assert!(matches!(action, PortStatusChangeAction::Done(Ok(()))));
}

#[test]
fn usb2_attach_resets_the_port() {
    let (mut task, _) = PortStatusChangeTask::start(psc(2, 1));
    // connected, powered, connect status change, not enabled
    let action = task.status_read(StatusAndControl::from_bits(0x0002_0201));
    assert!(matches!(action, PortStatusChangeAction::ReadStatusAndControl(2)));
    // the reset is written from the value read the second time
    let action = task.status_read(StatusAndControl::from_bits(0x0006_0A01));
    match action {
        PortStatusChangeAction::ResetPort { port, value, timeout } => {
            assert_eq!(port, 2);
            assert_eq!(value.into_bits(), 0x0000_0A11);
            assert_eq!(timeout, TIMEOUT_1_SECOND);
        }
        other => panic!("unexpected {other:?}"),
    }
    assert!(matches!(task.reset_finished(Ok(psc(2, 1))), PortStatusChangeAction::Done(Ok(()))));
}

#[test]
fn failed_or_timed_out_resets_are_errors() {
    let (mut task, _) = PortStatusChangeTask::start(psc(7, 1));
    task.status_read(StatusAndControl::from_bits(0x0002_0001));
    task.status_read(StatusAndControl::from_bits(0x0002_0001));
    assert!(matches!(
        task.reset_finished(Ok(psc(7, 6))),
        PortStatusChangeAction::Done(Err(Error { port_id: 7, kind: ErrorKind::Reset(6) }))
    ));
    let (mut task, _) = PortStatusChangeTask::start(psc(7, 1));
    task.status_read(StatusAndControl::from_bits(0x0002_0001));
    task.status_read(StatusAndControl::from_bits(0x0002_0001));
    assert!(matches!(
        task.reset_finished(Err(TimeoutReachedError)),
        PortStatusChangeAction::Done(Err(Error { port_id: 7, kind: ErrorKind::Timeout }))
    ));
    let _ = PortStatusChangeStep::Finished;
}

#[test]
fn enabled_port_attach_needs_no_reset() {
    let (mut task, _) = PortStatusChangeTask::start(psc(1, 1));
    assert!(matches!(task.status_read(StatusAndControl::from_bits(0x0002_0003)), PortStatusChangeAction::Done(Ok(()))));
}

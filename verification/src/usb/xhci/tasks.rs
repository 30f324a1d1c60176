//! The decisions of the tasks that a controller runs in response to events: what each task is
//! waiting for, how the time that passes and the TRBs that arrive wake it, and the steps of the
//! task that handles a port status change.
use vstd::prelude::*;
use crate::bitfield::{bit_is_set, set_bit};
use crate::usb::xhci::port_registers::{StatusAndControl, STATUS_AND_CONTROL_WRITE_ONE_BITS};
use crate::usb::xhci::trb::event::{EventTrb, PortStatusChangeTrb, COMPLETION_CODE_SUCCESS};

verus! {

/// A timeout of one second, in nanoseconds.
pub const TIMEOUT_1_SECOND: usize = 1_000_000_000;

/// What a task is waiting for. The task queue updates it as time passes and TRBs arrive, and
/// polls the task when it is active.
#[derive(Debug, Clone, Copy)]
pub enum Waiting {
    /// The task is not waiting for anything and should be polled immediately
    Nothing,
    /// A timeout that the task set has elapsed
    TimeoutReached,
    /// The task is waiting for a timeout given in nanoseconds to elapse
    TimeoutNS(usize),
    /// The task is waiting for a port status change TRB on the given port, for at most the
    /// remaining timeout in nanoseconds
    PortStatusChange {
        /// The port id of the TRB
        port: u8,
        /// The remaining timeout in nanoseconds
        timeout: usize,
    },
    /// The port status change TRB that the task was waiting for
    PortStatusChangeReceived(PortStatusChangeTrb),
}

impl Waiting {
    /// Whether a task in this state should be polled: it is waiting for nothing, or what it
    /// waited for has come.
    pub fn active(&self) -> (r: bool)
        ensures
            r == waiting_active(*self),
    {
        match self {
            Waiting::Nothing => true,
            Waiting::TimeoutReached => true,
            Waiting::PortStatusChangeReceived(_) => true,
            Waiting::TimeoutNS(_) => false,
            Waiting::PortStatusChange { .. } => false,
        }
    }
}

/// Whether a task in state `w` should be polled.
pub open spec fn waiting_active(w: Waiting) -> bool {
    match w {
        Waiting::Nothing | Waiting::TimeoutReached | Waiting::PortStatusChangeReceived(_) => true,
        _ => false,
    }
}

/// Whether `trb` is a port status change TRB for `port`.
pub open spec fn trb_for_port(trb: Option<EventTrb>, port: u8) -> bool {
    trb matches Some(EventTrb::PortStatusChange(t)) && t.port_id == port
}

/// The state that a task in state `w` moves to when `ns` nanoseconds have passed and `trb` has
/// arrived: a timeout counts down and is reached when fewer than `ns` nanoseconds were left, and a
/// task waiting for a port status change on the TRB's port receives it.
pub open spec fn waiting_next(w: Waiting, ns: usize, trb: Option<EventTrb>) -> Waiting {
    match w {
        Waiting::TimeoutNS(t) => if t >= ns {
            Waiting::TimeoutNS((t - ns) as usize)
        } else {
            Waiting::TimeoutReached
        },
        Waiting::PortStatusChange { port, timeout } => if trb_for_port(trb, port) {
            Waiting::PortStatusChangeReceived(trb->Some_0->PortStatusChange_0)
        } else if timeout >= ns {
            Waiting::PortStatusChange { port, timeout: (timeout - ns) as usize }
        } else {
            Waiting::TimeoutReached
        },
        _ => w,
    }
}

/// Whether a task in state `w` takes the TRB `trb`.
pub open spec fn waiting_takes(w: Waiting, trb: Option<EventTrb>) -> bool {
    w matches Waiting::PortStatusChange { port, .. } && trb_for_port(trb, port)
}

/// Moves one task's waiting state on: `ns_since_last` nanoseconds have passed and `trb` may have
/// arrived. Where the task takes the TRB, `trb` is emptied so that no other task receives it.
pub fn update_waiting(w: Waiting, ns_since_last: usize, trb: &mut Option<EventTrb>) -> (r: Waiting)
    ensures
        r == waiting_next(w, ns_since_last, *old(trb)),
        *final(trb) == if waiting_takes(w, *old(trb)) { None } else { *old(trb) },
{
    match w {
        Waiting::TimeoutNS(ns) => match ns.checked_sub(ns_since_last) {
            Some(ns) => Waiting::TimeoutNS(ns),
            None => Waiting::TimeoutReached,
        },
        Waiting::PortStatusChange { port, timeout } => {
            let received = match *trb {
                Some(EventTrb::PortStatusChange(t)) => if t.port_id == port {
                    Some(t)
                } else {
                    None
                },
                _ => None,
            };
            match received {
                Some(t) => {
                    *trb = None;
                    Waiting::PortStatusChangeReceived(t)
                },
                None => match timeout.checked_sub(ns_since_last) {
                    Some(timeout) => Waiting::PortStatusChange { port, timeout },
                    None => Waiting::TimeoutReached,
                },
            }
        },
        s => s,
    }
}

/// The TRB left over after the states `ws` have, in order, had the chance to take `trb`.
pub open spec fn leftover_trb(ws: Seq<Waiting>, trb: Option<EventTrb>) -> Option<EventTrb>
    decreases ws.len(),
{
    if ws.len() == 0 {
        trb
    } else {
        let rest = ws.drop_last();
        let before = leftover_trb(rest, trb);
        if waiting_takes(ws.last(), before) {
            None
        } else {
            before
        }
    }
}

/// Updates the waiting states of all tasks, in order, for `ns_since_last` nanoseconds passing and
/// `trb` arriving, and returns the TRB if no task took it. Only the first task waiting for a port
/// status change on the TRB's port receives it.
pub fn update_all_waiting(states: &mut Vec<Waiting>, ns_since_last: usize, trb: Option<EventTrb>) -> (r: Option<
    EventTrb,
>)
    ensures
        final(states).len() == old(states).len(),
        r == leftover_trb(old(states)@, trb),
        forall|i: int| 0 <= i < old(states).len() ==> #[trigger] final(states)@[i] == waiting_next(
            old(states)@[i],
            ns_since_last,
            leftover_trb(old(states)@.subrange(0, i), trb),
        ),
{
    let ghost trb0 = trb;
    let mut trb = trb;
    let mut i: usize = 0;
    while i < states.len()
        invariant
            states.len() == old(states).len(),
            0 <= i <= states.len(),
            trb == leftover_trb(old(states)@.subrange(0, i as int), trb0),
            forall|j: int| i <= j < states.len() ==> #[trigger] states@[j] == old(states)@[j],
            forall|j: int| 0 <= j < i ==> #[trigger] states@[j] == waiting_next(
                old(states)@[j],
                ns_since_last,
                leftover_trb(old(states)@.subrange(0, j), trb0),
            ),
        decreases states.len() - i,
    {
        let w = states[i];
        proof {
            assert(old(states)@.subrange(0, i + 1).drop_last() =~= old(states)@.subrange(0, i as int));
        }
        let next = update_waiting(w, ns_since_last, &mut trb);
        states.set(i, next);
        i = i + 1;
    }
    proof {
        assert(old(states)@.subrange(0, old(states)@.len() as int) =~= old(states)@);
    }
    trb
}


/// An error occurring when a timeout expires which should not have.
#[derive(Debug, Clone, Copy, PartialEq, Eq)]
pub struct TimeoutReachedError;

/// The waiting state of one task, through which the task tells the queue what it waits for and
/// the queue hands it what it waited for.
#[derive(Debug)]
pub struct TaskWaker {
    state: Waiting,
}

impl TaskWaker {
    /// The current waiting state.
    pub closed spec fn state_spec(&self) -> Waiting {
        self.state
    }

    /// A waker that is not waiting for anything.
    pub fn new() -> (r: Self)
        ensures
            r.state_spec() == Waiting::Nothing,
    {
        TaskWaker { state: Waiting::Nothing }
    }

    /// Reads the waiting state.
    pub fn get(&self) -> (r: Waiting)
        ensures
            r == self.state_spec(),
    {
        self.state
    }

    /// Replaces the waiting state.
    pub fn set(&mut self, state: Waiting)
        ensures
            final(self).state_spec() == state,
    {
        self.state = state;
    }

    /// Starts waiting for `timeout_ns` nanoseconds to elapse.
    pub fn start_timeout(&mut self, timeout_ns: usize)
        ensures
            final(self).state_spec() == Waiting::TimeoutNS(timeout_ns),
    {
        self.state = Waiting::TimeoutNS(timeout_ns);
    }

    /// Whether the timeout that the task waits for has elapsed. Only a timeout may be waited for.
    pub fn timeout_elapsed(&self) -> (r: bool)
        requires
            self.state_spec() is TimeoutReached || self.state_spec() is TimeoutNS,
        ensures
            r == self.state_spec() is TimeoutReached,
    {
        match self.state {
            Waiting::TimeoutReached => true,
            _ => false,
        }
    }

    /// Starts waiting for a port status change TRB on `port_id`, for at most `timeout_ns` nanoseconds.
    pub fn start_port_status_change_wait(&mut self, port_id: u8, timeout_ns: usize)
        ensures
            final(self).state_spec() == (Waiting::PortStatusChange { port: port_id, timeout: timeout_ns }),
    {
        self.state = Waiting::PortStatusChange { port: port_id, timeout: timeout_ns };
    }

    /// The outcome of waiting for a port status change: `None` while still waiting, the TRB once it
    /// has been received, or an error once the timeout has elapsed. Once there is an outcome the waker
    /// stops waiting. Only a port status change may be waited for.
    pub fn port_status_change_outcome(&mut self) -> (r: Option<Result<PortStatusChangeTrb, TimeoutReachedError>>)
        requires
            old(self).state_spec() is TimeoutReached || old(self).state_spec() is PortStatusChangeReceived
                || old(self).state_spec() is PortStatusChange,
        ensures
            match old(self).state_spec() {
                Waiting::TimeoutReached => r == Some(Err::<PortStatusChangeTrb, TimeoutReachedError>(TimeoutReachedError))
                    && final(self).state_spec() == Waiting::Nothing,
                Waiting::PortStatusChangeReceived(t) => r == Some(Ok::<PortStatusChangeTrb, TimeoutReachedError>(t))
                    && final(self).state_spec() == Waiting::Nothing,
                _ => r is None && final(self).state_spec() == old(self).state_spec(),
            },
    {
        match self.state {
            Waiting::TimeoutReached => {
                self.state = Waiting::Nothing;
                Some(Err(TimeoutReachedError))
            },
            Waiting::PortStatusChangeReceived(t) => {
                self.state = Waiting::Nothing;
                Some(Ok(t))
            },
            _ => None,
        }
    }
}

/// The TRB that a new task is started for: a port status change starts a port status change task,
/// while an MFINDEX wrap, and any other event, starts none.
pub fn task_for_trb(trb: EventTrb) -> (r: Option<PortStatusChangeTrb>)
    ensures
        match trb {
            EventTrb::PortStatusChange(t) => r == Some(t),
            _ => r is None,
        },
{
    match trb {
        EventTrb::PortStatusChange(t) => Some(t),
        _ => None,
    }
}

/// A kind of error of a port status change task.
#[derive(Debug, Clone, Copy, PartialEq, Eq)]
pub enum ErrorKind {
    /// The TRB that started the task had this completion code, which is not success
    InitialError(u8),
    /// The port failed to reset, with this completion code
    Reset(u8),
    /// A timeout expired
    Timeout,
}

/// An error occurring while handling a port status change.
#[derive(Debug, Clone, Copy, PartialEq, Eq)]
pub struct Error {
    /// The port id of the port which was being handled
    pub port_id: u8,
    /// The type of error which occurred
    pub kind: ErrorKind,
}

/// What a port status change task asks to be done next.
#[derive(Debug, Clone, Copy)]
pub enum PortStatusChangeAction {
    /// Read the status and control register of the port and hand it to
    /// [`PortStatusChangeTask::status_read`].
    ReadStatusAndControl(u8),
    /// Write `value` to the status and control register of the port, which starts a reset, then wait
    /// up to `timeout` nanoseconds for a port status change TRB on the port and hand the outcome to
    /// [`PortStatusChangeTask::reset_finished`].
    ResetPort {
        /// The port to reset
        port: u8,
        /// The value to write to its status and control register
        value: StatusAndControl,
        /// How long to wait for the reset to complete
        timeout: usize,
    },
    /// The task has finished with this result.
    Done(Result<(), Error>),
}

/// Where a port status change task is.
#[derive(Debug, Clone, Copy, PartialEq, Eq)]
pub enum PortStatusChangeStep {
    /// Waiting for the port's status and control register
    ReadingStatus,
    /// Waiting for the port's status and control register again, to reset the port from it
    ReadingStatusForReset,
    /// Waiting for the port's reset to complete
    Resetting,
    /// Finished
    Finished,
}

/// The task that handles a port status change TRB: it checks the TRB, reads the port's status, and
/// resets a USB2 port that a device has been attached to, so that the port becomes enabled.
#[derive(Debug)]
pub struct PortStatusChangeTask {
    port_id: u8,
    step: PortStatusChangeStep,
}

/// The value written to a port's status and control register to reset it: the value read, with the
/// bits that writing 1 to has an effect on cleared, and the reset bit set.
pub open spec fn reset_value_of(sc: u32) -> u32 {
    set_bit(sc & !STATUS_AND_CONTROL_WRITE_ONE_BITS, 4, true)
}

impl PortStatusChangeTask {
    /// The port being handled.
    pub closed spec fn port_spec(&self) -> u8 {
        self.port_id
    }

    /// Where the task is.
    pub closed spec fn step_spec(&self) -> PortStatusChangeStep {
        self.step
    }

    /// Starts handling `trb`: a TRB without a success completion code ends the task with an error,
    /// any other asks for the port's status and control register.
    pub fn start(trb: PortStatusChangeTrb) -> (r: (Self, PortStatusChangeAction))
        ensures
            r.0.port_spec() == trb.port_id,
            trb.completion_code != COMPLETION_CODE_SUCCESS ==> r.0.step_spec() == PortStatusChangeStep::Finished
                && r.1 == PortStatusChangeAction::Done(
                Err(Error { port_id: trb.port_id, kind: ErrorKind::InitialError(trb.completion_code) }),
            ),
            trb.completion_code == COMPLETION_CODE_SUCCESS ==> r.0.step_spec() == PortStatusChangeStep::ReadingStatus
                && r.1 == PortStatusChangeAction::ReadStatusAndControl(trb.port_id),
    {
        if trb.completion_code != COMPLETION_CODE_SUCCESS {
            (
                PortStatusChangeTask { port_id: trb.port_id, step: PortStatusChangeStep::Finished },
                PortStatusChangeAction::Done(
                    Err(Error { port_id: trb.port_id, kind: ErrorKind::InitialError(trb.completion_code) }),
                ),
            )
        } else {
            (
                PortStatusChangeTask { port_id: trb.port_id, step: PortStatusChangeStep::ReadingStatus },
                PortStatusChangeAction::ReadStatusAndControl(trb.port_id),
            )
        }
    }

    /// Continues with the port's status and control register. After the first read, a connect status
    /// change on a port that is not enabled (a USB2 port) asks for the register again, to reset the
    /// port from its current value; anything else (an attach on an enabled port, or a detach) ends the
    /// task successfully. After the second read, the task asks for the port to be reset with that value.
    pub fn status_read(&mut self, status_and_control: StatusAndControl) -> (r: PortStatusChangeAction)
        requires
            old(self).step_spec() == PortStatusChangeStep::ReadingStatus || old(self).step_spec()
                == PortStatusChangeStep::ReadingStatusForReset,
        ensures
            final(self).port_spec() == old(self).port_spec(),
            ({
                let sc = status_and_control@;
                if old(self).step_spec() == PortStatusChangeStep::ReadingStatusForReset {
                    &&& final(self).step_spec() == PortStatusChangeStep::Resetting
                    &&& r matches PortStatusChangeAction::ResetPort { port, value, timeout }
                    &&& port == old(self).port_spec()
                    &&& value@ == reset_value_of(sc)
                    &&& timeout == TIMEOUT_1_SECOND
                } else if bit_is_set(sc, 17) && !bit_is_set(sc, 1) {
                    &&& final(self).step_spec() == PortStatusChangeStep::ReadingStatusForReset
                    &&& r == PortStatusChangeAction::ReadStatusAndControl(old(self).port_spec())
                } else {
                    &&& final(self).step_spec() == PortStatusChangeStep::Finished
                    &&& r == PortStatusChangeAction::Done(Ok(()))
                }
            }),
    {
        if let PortStatusChangeStep::ReadingStatusForReset = self.step {
            self.step = PortStatusChangeStep::Resetting;
            PortStatusChangeAction::ResetPort {
                port: self.port_id,
                value: status_and_control.normalised().with_reset(true),
                timeout: TIMEOUT_1_SECOND,
            }
        } else if status_and_control.connect_status_change() && !status_and_control.port_enabled() {
            self.step = PortStatusChangeStep::ReadingStatusForReset;
            PortStatusChangeAction::ReadStatusAndControl(self.port_id)
        } else {
            self.step = PortStatusChangeStep::Finished;
            PortStatusChangeAction::Done(Ok(()))
        }
    }

    /// Finishes with the outcome of waiting for the reset: a TRB with a success completion code ends
    /// the task successfully, another completion code or a timeout with an error.
    pub fn reset_finished(&mut self, outcome: Result<PortStatusChangeTrb, TimeoutReachedError>) -> (r:
        PortStatusChangeAction)
        requires
            old(self).step_spec() == PortStatusChangeStep::Resetting,
        ensures
            final(self).step_spec() == PortStatusChangeStep::Finished,
            final(self).port_spec() == old(self).port_spec(),
            r == PortStatusChangeAction::Done(match outcome {
                Ok(t) => if t.completion_code == COMPLETION_CODE_SUCCESS {
                    Ok(())
                } else {
                    Err(Error { port_id: old(self).port_spec(), kind: ErrorKind::Reset(t.completion_code) })
                },
                Err(_) => Err(Error { port_id: old(self).port_spec(), kind: ErrorKind::Timeout }),
            }),
    {
        self.step = PortStatusChangeStep::Finished;
        let result = match outcome {
            Ok(t) => if t.completion_code != COMPLETION_CODE_SUCCESS {
                Err(Error { port_id: self.port_id, kind: ErrorKind::Reset(t.completion_code) })
            } else {
                Ok(())
            },
            Err(TimeoutReachedError) => Err(Error { port_id: self.port_id, kind: ErrorKind::Timeout }),
        };
        PortStatusChangeAction::Done(result)
    }
}


/// A TRB taken by no state stays taken by none: with nothing arriving, nothing is left over.
pub proof fn lemma_nothing_left_from_nothing(ws: Seq<Waiting>)
    ensures
        leftover_trb(ws, None) is None,
    decreases ws.len(),
{
    if ws.len() > 0 {
        lemma_nothing_left_from_nothing(ws.drop_last());
    }
}

/// A TRB that arrives is left over exactly when no waiting state takes it: when none of the states
/// waits for a port status change on its port.
pub proof fn lemma_leftover_iff_untaken(ws: Seq<Waiting>, trb: Option<EventTrb>)
    requires
        trb is Some,
    ensures
        leftover_trb(ws, trb) is None <==> exists|i: int| 0 <= i < ws.len() && waiting_takes(#[trigger] ws[i], trb),
        leftover_trb(ws, trb) is Some ==> leftover_trb(ws, trb) == trb,
    decreases ws.len(),
{
    if ws.len() > 0 {
        let rest = ws.drop_last();
        lemma_leftover_iff_untaken(rest, trb);
        if leftover_trb(rest, trb) is None {
            let i = choose|i: int| 0 <= i < rest.len() && waiting_takes(#[trigger] rest[i], trb);
            assert(ws[i] == rest[i]);
        } else {
            assert forall|i: int| 0 <= i < ws.len() - 1 implies !waiting_takes(#[trigger] ws[i], trb) by {
                assert(ws[i] == rest[i]);
            }
            if waiting_takes(ws.last(), trb) {
                assert(waiting_takes(ws[ws.len() - 1], trb));
            }
        }
    }
}

/// Of all the tasks, at most one receives a TRB: once a state has taken it, the states after it see
/// nothing arrive.
pub proof fn lemma_single_receiver(ws: Seq<Waiting>, trb: Option<EventTrb>, i: int, j: int)
    requires
        0 <= i < j < ws.len(),
    ensures
        !(waiting_takes(ws[i], leftover_trb(ws.subrange(0, i), trb)) && waiting_takes(
            ws[j],
            leftover_trb(ws.subrange(0, j), trb),
        )),
    decreases j - i,
{
    if waiting_takes(ws[i], leftover_trb(ws.subrange(0, i), trb)) {
        lemma_taken_stays_taken(ws, trb, i, j);
    }
}

/// Once the state at `i` has taken the TRB, nothing is left over for the states from `i + 1` on.
proof fn lemma_taken_stays_taken(ws: Seq<Waiting>, trb: Option<EventTrb>, i: int, k: int)
    requires
        0 <= i < k <= ws.len(),
        waiting_takes(ws[i], leftover_trb(ws.subrange(0, i), trb)),
    ensures
        leftover_trb(ws.subrange(0, k), trb) is None,
    decreases k - i,
{
    if k == i + 1 {
        assert(ws.subrange(0, k).drop_last() =~= ws.subrange(0, i));
    } else {
        lemma_taken_stays_taken(ws, trb, i, k - 1);
        assert(ws.subrange(0, k).drop_last() =~= ws.subrange(0, k - 1));
    }
}

/// The value written to reset a port sets the reset bit and clears the port enabled bit, every
/// change bit and the warm reset bit, so that writing it changes nothing else.
pub proof fn lemma_reset_value_bits(sc: u32)
    ensures
        bit_is_set(reset_value_of(sc), 4),
        !bit_is_set(reset_value_of(sc), 1),
        !bit_is_set(reset_value_of(sc), 17),
        !bit_is_set(reset_value_of(sc), 18),
        !bit_is_set(reset_value_of(sc), 19),
        !bit_is_set(reset_value_of(sc), 20),
        !bit_is_set(reset_value_of(sc), 21),
        !bit_is_set(reset_value_of(sc), 22),
        !bit_is_set(reset_value_of(sc), 23),
        !bit_is_set(reset_value_of(sc), 31),
        bit_is_set(reset_value_of(sc), 0) == bit_is_set(sc, 0),
        bit_is_set(reset_value_of(sc), 9) == bit_is_set(sc, 9),
{
    assert({
        let r = set_bit(sc & !0x80FE_0012u32, 4, true);
        &&& bit_is_set(r, 4)
        &&& !bit_is_set(r, 1)
        &&& !bit_is_set(r, 17)
        &&& !bit_is_set(r, 18)
        &&& !bit_is_set(r, 19)
        &&& !bit_is_set(r, 20)
        &&& !bit_is_set(r, 21)
        &&& !bit_is_set(r, 22)
        &&& !bit_is_set(r, 23)
        &&& !bit_is_set(r, 31)
        &&& bit_is_set(r, 0) == bit_is_set(sc, 0)
        &&& bit_is_set(r, 9) == bit_is_set(sc, 9)
    }) by (bit_vector);
}

} // verus!

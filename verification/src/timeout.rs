//! How a serial port's timeout is put on a socket.
use vstd::prelude::*;

verus! {

/// Nanoseconds in a second.
pub const NANOS_PER_SEC: u32 = 1_000_000_000;

/// A span of `secs` seconds and `nanos` nanoseconds.
#[derive(Debug, Clone, Copy, PartialEq, Eq, Structural)]
pub struct Timeout {
    pub secs: u64,
    pub nanos: u32,
}

impl Timeout {
    /// The span of no time.
    pub open spec fn spec_zero() -> Timeout {
        Timeout { secs: 0, nanos: 0 }
    }

    /// Whole seconds are counted as such, so that a span of a given length has
    /// one form.
    pub open spec fn wf(self) -> bool {
        self.nanos < NANOS_PER_SEC
    }

    /// The length of the span in nanoseconds.
    pub open spec fn total_nanos(self) -> nat {
        self.secs as nat * NANOS_PER_SEC as nat + self.nanos as nat
    }

    /// The span of no time.
    pub fn zero() -> (r: Timeout)
        ensures
            r == Timeout::spec_zero(),
            r.wf(),
            r.total_nanos() == 0,
            r.secs == 0,
            r.nanos == 0,
    {
        Timeout { secs: 0, nanos: 0 }
    }

    /// Whether the span has no length.
    pub fn is_zero(&self) -> (r: bool)
        ensures
            r == (self.total_nanos() == 0),
            r == (self.secs == 0 && self.nanos == 0),
    {
        self.secs == 0 && self.nanos == 0
    }
}

/// Two well-formed timeouts are the same exactly when they are equally long.
pub proof fn law_timeout_is_its_length(a: Timeout, b: Timeout)
    requires
        a.wf(),
        b.wf(),
    ensures
        a == b <==> a.total_nanos() == b.total_nanos(),
{
}

/// One change to the settings of a socket.
#[derive(Debug, Clone, Copy, PartialEq, Eq, Structural)]
pub enum SocketOp {
    /// Turn non-blocking mode on or off.
    Nonblocking(bool),
    /// Put a deadline on reads.
    ReadTimeout(Timeout),
    /// Put a deadline on writes.
    WriteTimeout(Timeout),
}

/// The change with which putting `timeout` on a socket begins.
///
/// A zero timeout asks a serial port not to block. A socket takes no deadline
/// of zero, but has a mode for this. Any other timeout is a deadline for reads
/// and writes that block.
pub open spec fn first_op(timeout: Timeout) -> SocketOp {
    SocketOp::Nonblocking(timeout.total_nanos() == 0)
}

/// The change that follows `op` while `timeout` is put on a socket, if one
/// does.
pub open spec fn next_op(op: SocketOp, timeout: Timeout) -> Option<SocketOp> {
    match op {
        SocketOp::Nonblocking(true) => None,
        SocketOp::Nonblocking(false) => Some(SocketOp::ReadTimeout(timeout)),
        SocketOp::ReadTimeout(_) => Some(SocketOp::WriteTimeout(timeout)),
        SocketOp::WriteTimeout(_) => None,
    }
}

/// The change to make next while `timeout` is put on a socket.
#[derive(Debug)]
pub struct SocketSetting {
    pub timeout: Timeout,
    pub op: SocketOp,
}

impl SocketSetting {
    /// The change is one of those that put the timeout on a socket, and the
    /// timeout is well-formed.
    pub open spec fn wf(self) -> bool {
        &&& self.timeout.wf()
        &&& match self.op {
            SocketOp::Nonblocking(on) => on == (self.timeout.total_nanos() == 0),
            SocketOp::ReadTimeout(deadline) | SocketOp::WriteTimeout(deadline) => {
                deadline == self.timeout && self.timeout.total_nanos() > 0
            },
        }
    }

    /// What follows once this change has been made.
    pub(crate) fn next(&self) -> (r: Option<SocketSetting>)
        ensures
            r == (match next_op(self.op, self.timeout) {
                Some(op) => Some(SocketSetting { timeout: self.timeout, op }),
                None => None,
            }),
            self.wf() && r is Some ==> r->0.wf(),
    {
        let timeout: Timeout = self.timeout;
        match self.op {
            SocketOp::Nonblocking(true) => None,
            SocketOp::Nonblocking(false) => Some(
                SocketSetting { timeout, op: SocketOp::ReadTimeout(timeout) },
            ),
            SocketOp::ReadTimeout(_) => Some(
                SocketSetting { timeout, op: SocketOp::WriteTimeout(timeout) },
            ),
            SocketOp::WriteTimeout(_) => None,
        }
    }
}

/// A step in putting a timeout on a socket.
#[derive(Debug)]
pub enum TimeoutStep {
    /// Make this change, and hand its outcome to
    /// [`crate::port::TcpSerialPort::socket_set`].
    Socket(SocketSetting),
    /// Nothing is left to do, and this is what came of it.
    Done(Result<(), serialport::Error>),
}

/// The timeout on record after `op`, one of the changes that put `timeout` on
/// a socket, where `recorded` was on record before: the new timeout counts
/// once its last change has succeeded.
pub open spec fn recorded_after(
    recorded: Timeout,
    op: SocketOp,
    timeout: Timeout,
    succeeded: bool,
) -> Timeout {
    if succeeded && next_op(op, timeout) is None {
        timeout
    } else {
        recorded
    }
}

/// How a socket blocks.
pub struct SocketMode {
    pub nonblocking: bool,
    pub read_timeout: Option<Timeout>,
    pub write_timeout: Option<Timeout>,
}

impl SocketMode {
    /// The mode after a change.
    pub open spec fn after(self, op: SocketOp) -> SocketMode {
        match op {
            SocketOp::Nonblocking(on) => SocketMode { nonblocking: on, ..self },
            SocketOp::ReadTimeout(timeout) => SocketMode { read_timeout: Some(timeout), ..self },
            SocketOp::WriteTimeout(timeout) => SocketMode { write_timeout: Some(timeout), ..self },
        }
    }

    /// The mode after a sequence of changes.
    pub open spec fn after_all(self, ops: Seq<SocketOp>) -> SocketMode
        decreases ops.len(),
    {
        if ops.len() == 0 {
            self
        } else {
            self.after_all(ops.drop_last()).after(ops.last())
        }
    }
}

/// A bound on how many changes follow `op`.
pub open spec fn ops_left(op: SocketOp) -> nat {
    match op {
        SocketOp::Nonblocking(true) => 0,
        SocketOp::Nonblocking(false) => 2,
        SocketOp::ReadTimeout(_) => 1,
        SocketOp::WriteTimeout(_) => 0,
    }
}

/// The changes tried from `op` on while `timeout` is put on a socket, where
/// `succeeds` says which changes succeed: none follows one that fails.
pub open spec fn ops_tried(
    op: SocketOp,
    timeout: Timeout,
    succeeds: spec_fn(SocketOp) -> bool,
) -> Seq<SocketOp>
    decreases ops_left(op),
{
    match next_op(op, timeout) {
        Some(next) if succeeds(op) => seq![op] + ops_tried(next, timeout, succeeds),
        _ => seq![op],
    }
}

/// Whether every change from `op` on succeeds.
pub open spec fn all_succeed(
    op: SocketOp,
    timeout: Timeout,
    succeeds: spec_fn(SocketOp) -> bool,
) -> bool
    decreases ops_left(op),
{
    succeeds(op) && match next_op(op, timeout) {
        Some(next) => all_succeed(next, timeout, succeeds),
        None => true,
    }
}

/// Whether a socket blocks as a serial port with `timeout` does.
pub open spec fn carries(mode: SocketMode, timeout: Timeout) -> bool {
    if timeout.total_nanos() == 0 {
        mode.nonblocking
    } else {
        &&& !mode.nonblocking
        &&& mode.read_timeout == Some(timeout)
        &&& mode.write_timeout == Some(timeout)
    }
}

/// A timeout that is put on a socket without a failure leaves the socket as
/// asked: non-blocking and otherwise as it was for a zero timeout, blocking
/// with that deadline on reads and on writes for any other.
pub proof fn law_timeout_takes_effect(
    timeout: Timeout,
    mode: SocketMode,
    succeeds: spec_fn(SocketOp) -> bool,
)
    requires
        all_succeed(first_op(timeout), timeout, succeeds),
    ensures
        mode.after_all(ops_tried(first_op(timeout), timeout, succeeds)) == (if timeout.total_nanos()
            == 0 {
            SocketMode { nonblocking: true, ..mode }
        } else {
            SocketMode {
                nonblocking: false,
                read_timeout: Some(timeout),
                write_timeout: Some(timeout),
            }
        }),
{
    reveal_with_fuel(ops_tried, 3);
    reveal_with_fuel(all_succeed, 3);
    reveal_with_fuel(SocketMode::after_all, 4);
    let blocking: SocketOp = SocketOp::Nonblocking(false);
    let read: SocketOp = SocketOp::ReadTimeout(timeout);
    let write: SocketOp = SocketOp::WriteTimeout(timeout);
    let ops: Seq<SocketOp> = ops_tried(first_op(timeout), timeout, succeeds);
    if timeout.total_nanos() == 0 {
        assert(ops.drop_last() == Seq::<SocketOp>::empty());
    } else {
        assert(ops == seq![blocking, read, write]);
        assert(ops.drop_last() == seq![blocking, read]);
        assert(ops.drop_last().drop_last() == seq![blocking]);
        assert(ops.drop_last().drop_last().drop_last() == Seq::<SocketOp>::empty());
    }
}

/// Whatever fails on the way, a socket is never given a deadline of zero, and
/// never a deadline other than the timeout that was asked for.
pub proof fn law_no_zero_deadline(
    timeout: Timeout,
    succeeds: spec_fn(SocketOp) -> bool,
    index: int,
)
    requires
        0 <= index < ops_tried(first_op(timeout), timeout, succeeds).len(),
    ensures
        match ops_tried(first_op(timeout), timeout, succeeds)[index] {
            SocketOp::Nonblocking(on) => on == (timeout.total_nanos() == 0),
            SocketOp::ReadTimeout(deadline) => deadline == timeout && deadline.total_nanos() > 0,
            SocketOp::WriteTimeout(deadline) => deadline == timeout && deadline.total_nanos() > 0,
        },
{
    reveal_with_fuel(ops_tried, 3);
}

/// The timeout on record once all changes from `op` on have been tried.
pub open spec fn recorded_at_end(
    recorded: Timeout,
    op: SocketOp,
    timeout: Timeout,
    succeeds: spec_fn(SocketOp) -> bool,
) -> Timeout
    decreases ops_left(op),
{
    let now = recorded_after(recorded, op, timeout, succeeds(op));
    match next_op(op, timeout) {
        Some(next) if succeeds(op) => recorded_at_end(now, next, timeout, succeeds),
        _ => now,
    }
}

/// A port reports a timeout that was put on its socket without a failure. After
/// a failure at any change it still reports the one before.
pub proof fn law_timeout_recorded_on_success(
    recorded: Timeout,
    timeout: Timeout,
    succeeds: spec_fn(SocketOp) -> bool,
)
    ensures
        recorded_at_end(recorded, first_op(timeout), timeout, succeeds) == (if all_succeed(
            first_op(timeout),
            timeout,
            succeeds,
        ) {
            timeout
        } else {
            recorded
        }),
{
    reveal_with_fuel(recorded_at_end, 3);
    reveal_with_fuel(all_succeed, 3);
}

/// A timeout can be saved and restored around another. Where the timeout that
/// a port reports is put back without a failure after `other` was put on its
/// socket, the port reports it again and the socket carries it, even if a
/// change for `other` failed.
pub proof fn law_timeout_restored(
    saved: Timeout,
    other: Timeout,
    mode: SocketMode,
    succeeds_for_other: spec_fn(SocketOp) -> bool,
    succeeds_for_saved: spec_fn(SocketOp) -> bool,
)
    requires
        all_succeed(first_op(saved), saved, succeeds_for_saved),
    ensures
        recorded_at_end(
            recorded_at_end(saved, first_op(other), other, succeeds_for_other),
            first_op(saved),
            saved,
            succeeds_for_saved,
        ) == saved,
        carries(
            mode.after_all(ops_tried(first_op(other), other, succeeds_for_other)).after_all(
                ops_tried(first_op(saved), saved, succeeds_for_saved),
            ),
            saved,
        ),
{
    law_timeout_recorded_on_success(
        recorded_at_end(saved, first_op(other), other, succeeds_for_other),
        saved,
        succeeds_for_saved,
    );
    law_timeout_takes_effect(
        saved,
        mode.after_all(ops_tried(first_op(other), other, succeeds_for_other)),
        succeeds_for_saved,
    );
}

/// The length of a timeout counts its seconds and nanoseconds, and is zero only
/// where both are.
pub proof fn law_timeout_length(timeout: Timeout)
    ensures
        timeout.total_nanos() == timeout.secs * 1_000_000_000 + timeout.nanos,
        timeout.total_nanos() == 0 <==> timeout.secs == 0 && timeout.nanos == 0,
        timeout.wf() <==> timeout.nanos < 1_000_000_000,
        timeout.wf() ==> timeout.total_nanos() / 1_000_000_000 == timeout.secs,
{
}

/// A zero timeout is one change, to non-blocking mode. Any other timeout is
/// three, in this order: to blocking mode, the deadline on reads, the deadline
/// on writes.
pub proof fn law_timeout_changes_in_order(timeout: Timeout)
    ensures
        timeout.secs == 0 && timeout.nanos == 0 ==> first_op(timeout) == SocketOp::Nonblocking(true)
            && next_op(first_op(timeout), timeout) is None,
        !(timeout.secs == 0 && timeout.nanos == 0) ==> {
            &&& first_op(timeout) == SocketOp::Nonblocking(false)
            &&& next_op(SocketOp::Nonblocking(false), timeout) == Some(
                SocketOp::ReadTimeout(timeout),
            )
            &&& next_op(SocketOp::ReadTimeout(timeout), timeout) == Some(
                SocketOp::WriteTimeout(timeout),
            )
            &&& next_op(SocketOp::WriteTimeout(timeout), timeout) is None
        },
{
}

/// The timeout on record changes only with a change that succeeds and is the
/// last: to non-blocking mode, or the deadline on writes.
pub proof fn law_record_changes_at_the_end(
    recorded: Timeout,
    op: SocketOp,
    timeout: Timeout,
    succeeded: bool,
)
    ensures
        recorded_after(recorded, op, timeout, succeeded) == (if succeeded && (op
            == SocketOp::Nonblocking(true) || op is WriteTimeout) {
            timeout
        } else {
            recorded
        }),
{
}

} // verus!

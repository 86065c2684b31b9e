//! What holds of a whole attempt to connect, and of one attempt after another.
use crate::connect::{ResetBeforeOperation, StepView, TargetView};
use vstd::prelude::*;

verus! {

/// The answers to the steps of one attempt.
pub struct Replies<S> {
    /// The values of the environment variables, `None` for one without a
    /// value.
    pub environment: spec_fn(Seq<char>) -> Option<Seq<char>>,
    /// How the bootloader request fails, if it does.
    pub post_failure: Option<ureq::Error>,
    /// What comes of opening the socket.
    pub socket: Result<S, std::io::Error>,
}

/// Whether nothing is left to do.
pub open spec fn is_final<S>(step: StepView<S>) -> bool {
    step is Connected || step is BootloaderFailed || step is SocketFailed
}

/// The step that follows `step` under the replies. None follows a final step.
pub open spec fn next_step<S>(step: StepView<S>, replies: Replies<S>) -> StepView<S> {
    match step {
        StepView::HttpPort(target, query) => StepView::EnterBootloader(
            target,
            query.url((replies.environment)(query.port.variable)),
        ),
        StepView::EnterBootloader(target, url) => crate::connect::after_bootloader(
            target,
            url,
            replies.post_failure,
        ),
        StepView::FlashPort(target, query) => StepView::OpenSocket(
            target,
            query.port_in(replies.environment),
        ),
        StepView::OpenSocket(target, _) => crate::connect::after_socket(target, replies.socket),
        _ => step,
    }
}

/// How many steps can follow.
pub open spec fn steps_left<S>(step: StepView<S>) -> nat {
    match step {
        StepView::HttpPort(..) => 4,
        StepView::EnterBootloader(..) => 3,
        StepView::FlashPort(..) => 2,
        StepView::OpenSocket(..) => 1,
        _ => 0,
    }
}

/// The steps from `step` to the end.
pub open spec fn course_from<S>(step: StepView<S>, replies: Replies<S>) -> Seq<StepView<S>>
    decreases steps_left(step),
{
    if is_final(step) {
        seq![step]
    } else {
        seq![step] + course_from(next_step(step, replies), replies)
    }
}

/// The steps of an attempt to connect to `target`.
pub open spec fn course<S>(target: TargetView, replies: Replies<S>) -> Seq<StepView<S>> {
    course_from(crate::connect::connect_start(target), replies)
}

/// Whether the target is put into its bootloader on the way.
pub open spec fn enters_bootloader(target: TargetView) -> bool {
    target.before != ResetBeforeOperation::NoResetNoSync
}

/// The URL that puts a target into its bootloader: on the port that the HTTP
/// port's variable sets.
pub open spec fn bootloader_url<S>(target: TargetView, replies: Replies<S>) -> Seq<char> {
    crate::http::endpoint_url(
        target.host,
        crate::ports::http_port_query().port_in(replies.environment),
        crate::http::ENTER_BOOTLOADER_PATH@,
    )
}

/// The port that the socket is opened to: the one that the flashing port's
/// variable sets.
pub open spec fn socket_port<S>(replies: Replies<S>) -> u16 {
    crate::ports::flash_port_query().port_in(replies.environment)
}

/// The steps that put a target into its bootloader.
pub open spec fn entry_steps<S>(target: TargetView, replies: Replies<S>) -> Seq<StepView<S>> {
    seq![
        StepView::HttpPort(target, crate::connect::bootloader_query(target)),
        StepView::EnterBootloader(target, bootloader_url(target, replies)),
    ]
}

/// The steps that open the socket.
pub open spec fn opening_steps<S>(target: TargetView, replies: Replies<S>) -> Seq<StepView<S>> {
    seq![
        StepView::FlashPort(target, crate::ports::flash_port_query()),
        StepView::OpenSocket(target, socket_port(replies)),
        crate::connect::after_socket(target, replies.socket),
    ]
}

proof fn lemma_course_from_flash_port<S>(target: TargetView, replies: Replies<S>)
    ensures
        course_from(crate::connect::flash_port_step::<S>(target), replies) == opening_steps(
            target,
            replies,
        ),
{
    reveal_with_fuel(course_from, 3);
}

/// An attempt takes exactly these steps. Unless neither a reset nor a
/// synchronisation is asked for, the target is first put into its bootloader,
/// and a failure there ends the attempt. Then the socket is opened, on the
/// flashing port in force.
pub proof fn law_course_of_connect<S>(target: TargetView, replies: Replies<S>)
    ensures
        course(target, replies) == (if !enters_bootloader(target) {
            opening_steps(target, replies)
        } else if replies.post_failure is Some {
            entry_steps(target, replies) + seq![
                StepView::<S>::BootloaderFailed(
                    bootloader_url(target, replies),
                    replies.post_failure->0,
                ),
            ]
        } else {
            entry_steps(target, replies) + opening_steps(target, replies)
        }),
{
    reveal_with_fuel(course_from, 3);
    lemma_course_from_flash_port(target, replies);
}

/// A target is put into its bootloader unless neither a reset nor a
/// synchronisation is asked for, and only before the socket is opened.
pub proof fn law_bootloader_before_socket<S>(target: TargetView, replies: Replies<S>)
    ensures
        (exists|i: int|
            0 <= i < course(target, replies).len() && (#[trigger] course(
                target,
                replies,
            )[i]) is EnterBootloader) <==> target.before != ResetBeforeOperation::NoResetNoSync,
        target.before != ResetBeforeOperation::NoResetNoSync ==> {
            &&& course(target, replies)[0] matches StepView::HttpPort(of, query)
            &&& of == target
            &&& query.host == target.host
            &&& query.path == "/enter-bootloader"@
            &&& query.port.variable == "ESPBRIDGE_HTTP_PORT"@
            &&& query.port.default == 80
        },
        target.before != ResetBeforeOperation::NoResetNoSync ==> (course(target, replies)[1]
            matches StepView::EnterBootloader(of, _) && of == target),
        target.before == ResetBeforeOperation::NoResetNoSync ==> (course(target, replies)[0]
            matches StepView::FlashPort(of, query) && of == target && query.variable
            == "ESPBRIDGE_FLASH_PORT"@ && query.default == 3333),
        forall|i: int, j: int|
            0 <= i < course(target, replies).len() && 0 <= j < course(target, replies).len() && (
            #[trigger] course(target, replies)[i]) is EnterBootloader && (#[trigger] course(
                target,
                replies,
            )[j]) is OpenSocket ==> i < j,
{
    law_course_of_connect(target, replies);
    if enters_bootloader(target) {
        assert(course(target, replies)[1] is EnterBootloader);
    }
}

/// No socket is opened to a target that could not be put into its bootloader.
pub proof fn law_no_socket_without_bootloader<S>(
    target: TargetView,
    replies: Replies<S>,
    index: int,
)
    requires
        target.before != ResetBeforeOperation::NoResetNoSync,
        replies.post_failure is Some,
        0 <= index < course(target, replies).len(),
    ensures
        course(target, replies)[index] !is OpenSocket,
        course(target, replies)[index] !is Connected,
{
    law_course_of_connect(target, replies);
}

/// An attempt ends, and it ends with a connection exactly where the socket
/// opens and no bootloader request on the way fails.
///
/// The connection is to the target's host, keeps what is to be done at the
/// end, runs at the bridge's baud rate and never resets the target at its
/// start. It leaves out synchronisation exactly where that was asked for. No
/// USB device is behind its port, which starts without a timeout.
pub proof fn law_outcome_of_connect<S>(target: TargetView, replies: Replies<S>)
    ensures
        is_final(course(target, replies).last()),
        course(target, replies).last() is Connected <==> replies.socket is Ok && (
        target.before != ResetBeforeOperation::NoResetNoSync ==> replies.post_failure is None),
        course(target, replies).last() matches StepView::Connected(connection) ==> {
            &&& replies.socket == Ok::<S, std::io::Error>(connection.stream)
            &&& connection.port_host == target.host
            &&& connection.timeout == crate::timeout::Timeout::spec_zero()
            &&& connection.usb_info == crate::connect::UsbPortInfo::spec_absent()
            &&& connection.bridge_host == Some(target.host)
            &&& connection.after_operation == target.after
            &&& connection.baud == 115_200
            &&& connection.timeout.secs == 0
            &&& connection.timeout.nanos == 0
            &&& connection.before_operation == ResetBeforeOperation::NoReset
                || connection.before_operation == ResetBeforeOperation::NoResetNoSync
            &&& connection.before_operation == ResetBeforeOperation::NoResetNoSync <==> target.before
                == ResetBeforeOperation::NoResetNoSync
        },
{
    law_course_of_connect(target, replies);
}

/// The active bridge after the steps of a course.
pub open spec fn active_along<S>(active: Option<Seq<char>>, steps: Seq<StepView<S>>) -> Option<
    Seq<char>,
>
    decreases steps.len(),
{
    if steps.len() == 0 {
        active
    } else {
        crate::connect::active_after(active_along(active, steps.drop_last()), steps.last())
    }
}

/// The active bridge after attempts made one after another.
pub open spec fn active_after_attempts<S>(
    active: Option<Seq<char>>,
    attempts: Seq<(TargetView, Replies<S>)>,
) -> Option<Seq<char>>
    decreases attempts.len(),
{
    if attempts.len() == 0 {
        active
    } else {
        active_along(
            active_after_attempts(active, attempts.drop_last()),
            course(attempts.last().0, attempts.last().1),
        )
    }
}

/// Whether an attempt ends with a connection.
pub open spec fn connects<S>(attempt: (TargetView, Replies<S>)) -> bool {
    course(attempt.0, attempt.1).last() is Connected
}

proof fn lemma_active_unchanged<S>(active: Option<Seq<char>>, steps: Seq<StepView<S>>)
    requires
        forall|i: int| 0 <= i < steps.len() ==> (#[trigger] steps[i]) !is Connected,
    ensures
        active_along(active, steps) == active,
    decreases steps.len(),
{
    if steps.len() > 0 {
        lemma_active_unchanged(active, steps.drop_last());
    }
}

/// After an attempt the active bridge is the target's where a connection was
/// made, and the one before where none was.
pub proof fn law_active_after_attempt<S>(
    active: Option<Seq<char>>,
    target: TargetView,
    replies: Replies<S>,
)
    ensures
        active_along(active, course(target, replies)) == (if connects((target, replies)) {
            Some(target.host)
        } else {
            active
        }),
        active_along(active, course(target, replies)) == (if replies.socket is Ok && (target.before
            != ResetBeforeOperation::NoResetNoSync ==> replies.post_failure is None) {
            Some(target.host)
        } else {
            active
        }),
{
    let steps: Seq<StepView<S>> = course(target, replies);
    law_course_of_connect(target, replies);
    law_outcome_of_connect(target, replies);
    lemma_active_unchanged(active, steps.drop_last());
}

/// The active bridge is the one of the last attempt that ended with a
/// connection, whatever was tried and failed since.
pub proof fn law_active_is_last_connected<S>(
    active: Option<Seq<char>>,
    attempts: Seq<(TargetView, Replies<S>)>,
    last: int,
)
    requires
        0 <= last < attempts.len(),
        connects(attempts[last]),
        forall|i: int| last < i < attempts.len() ==> !connects(#[trigger] attempts[i]),
    ensures
        active_after_attempts(active, attempts) == Some(attempts[last].0.host),
    decreases attempts.len(),
{
    let earlier: Seq<(TargetView, Replies<S>)> = attempts.drop_last();
    law_active_after_attempt(
        active_after_attempts(active, earlier),
        attempts.last().0,
        attempts.last().1,
    );
    if last < attempts.len() - 1 {
        assert(earlier[last] == attempts[last]);
        assert forall|i: int| last < i < earlier.len() implies !connects(
            #[trigger] earlier[i],
        ) by {
            assert(earlier[i] == attempts[i]);
        }
        law_active_is_last_connected(active, earlier, last);
        assert(!connects(attempts[attempts.len() - 1]));
    }
}

/// Attempts that end without a connection leave the active bridge as it was.
pub proof fn law_active_without_connection<S>(
    active: Option<Seq<char>>,
    attempts: Seq<(TargetView, Replies<S>)>,
)
    requires
        forall|i: int| 0 <= i < attempts.len() ==> !connects(#[trigger] attempts[i]),
    ensures
        active_after_attempts(active, attempts) == active,
    decreases attempts.len(),
{
    if attempts.len() > 0 {
        let earlier: Seq<(TargetView, Replies<S>)> = attempts.drop_last();
        assert forall|i: int| 0 <= i < earlier.len() implies !connects(#[trigger] earlier[i]) by {
            assert(earlier[i] == attempts[i]);
        }
        law_active_without_connection(active, earlier);
        assert(!connects(attempts[attempts.len() - 1]));
        law_active_after_attempt(active, attempts.last().0, attempts.last().1);
    }
}

/// The bootloader request of an attempt goes to the whole host, at the port that
/// the environment sets for it and otherwise port 80. The socket goes to the
/// port that the environment sets for that and otherwise port 3333. A value
/// that is no port sets none.
pub proof fn law_endpoints_of_connect<S>(target: TargetView, replies: Replies<S>, index: int)
    requires
        0 <= index < course(target, replies).len(),
    ensures
        course(target, replies)[index] matches StepView::EnterBootloader(of, url) ==> {
            let port = match (replies.environment)("ESPBRIDGE_HTTP_PORT"@) {
                Some(text) => match crate::ports::port_value(text) {
                    Some(port) => port,
                    None => 80,
                },
                None => 80,
            };
            &&& of == target
            &&& url == "http://"@ + target.host + ":"@ + crate::ports::decimal(port as nat)
                + "/enter-bootloader"@
        },
        course(target, replies)[index] matches StepView::OpenSocket(of, port) ==> {
            &&& of == target
            &&& port == (match (replies.environment)("ESPBRIDGE_FLASH_PORT"@) {
                Some(text) => match crate::ports::port_value(text) {
                    Some(port) => port,
                    None => 3333,
                },
                None => 3333,
            })
        },
{
    law_course_of_connect(target, replies);
}

/// Attempts on two hosts that differ send their bootloader requests to
/// different URLs, in one and the same environment.
pub proof fn law_attempts_tell_hosts_apart<S>(
    target: TargetView,
    other: TargetView,
    replies: Replies<S>,
)
    requires
        target.before != ResetBeforeOperation::NoResetNoSync,
        other.before != ResetBeforeOperation::NoResetNoSync,
        target.host != other.host,
    ensures
        course(target, replies)[1]->EnterBootloader_1 != course(
            other,
            replies,
        )[1]->EnterBootloader_1,
{
    law_course_of_connect(target, replies);
    law_course_of_connect(other, replies);
    let port: u16 = crate::ports::http_port_query().port_in(replies.environment);
    let path: Seq<char> = crate::http::ENTER_BOOTLOADER_PATH@;
    crate::http::law_urls_tell_endpoints_apart(
        target.host,
        other.host,
        port,
        port,
        path,
        path,
    );
}

} // verus!

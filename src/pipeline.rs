//! The run as a state machine: from the stage reached and the event that
//! came in, the next stage and the action to perform.
use vstd::prelude::*;
use crate::counts::{exceeded, ErrorCount};
use crate::options::{action_text, form_text, notification_text, Opts, REBOOT_PATH};

verus! {

/// How long the operator has to interrupt the run before the reboot.
pub const GRACE_PERIOD_SECS: u64 = 5;

#[derive(Clone, Copy, Debug, PartialEq, Eq, Structural)]
pub enum Stage {
    Init,
    Gathering,
    Waiting,
    Acting,
    Done,
}

/// What the driver reports back after performing an action.
#[derive(Clone, Copy, Debug, PartialEq, Eq, Structural)]
pub enum Event {
    Started,
    /// The page was read and the chat session is ready.
    Gathered(ErrorCount),
    /// The notifications went out and the grace period ran out.
    Waited,
    /// The operator called the reboot off during the grace period.
    Cancelled,
    /// The reboot request was answered.
    Remediated,
}

#[derive(Debug)]
pub enum Action {
    /// Read the diagnostics page and set up the chat session, concurrently.
    Gather,
    /// Send `message` to every joined room (when `notify` holds) while
    /// waiting `grace_secs` seconds.
    NotifyAndWait { message: String, notify: bool, grace_secs: u64 },
    /// Print `announcement`, then post `form` to `path` under the modem's address.
    Reboot { announcement: String, path: &'static str, form: String },
    /// Print `note`, if any, and stop.
    Finish { note: Option<String> },
}

/// Whether `counts` call for action under the limits of `opts`.
pub open spec fn over_limits(opts: &Opts, counts: ErrorCount) -> bool {
    counts.correctable >= opts.correctable_threshold || counts.uncorrectable
        >= opts.uncorrectable_threshold
}

pub open spec fn step_result(opts: &Opts, stage: Stage, event: Event, r: Option<(Stage, Action)>) -> bool {
    match (stage, event) {
        (Stage::Init, Event::Started) => r matches Some((Stage::Gathering, Action::Gather)),
        (Stage::Gathering, Event::Gathered(c)) => if over_limits(opts, c) {
            r matches Some((Stage::Waiting, Action::NotifyAndWait { message, notify, grace_secs }))
                && message@ == notification_text(
                c.correctable as nat,
                c.uncorrectable as nat,
                opts.reset,
                opts.dry_run,
            ) && notify == opts.notify && grace_secs == GRACE_PERIOD_SECS
        } else {
            r matches Some((Stage::Done, Action::Finish { note: None }))
        },
        (Stage::Waiting, Event::Waited) => if opts.dry_run {
            r matches Some((Stage::Done, Action::Finish { note: Some(a) })) && a@
                == action_text(opts.reset, opts.dry_run)
        } else {
            r matches Some((Stage::Acting, Action::Reboot { announcement, path, form }))
                && announcement@ == action_text(opts.reset, opts.dry_run) && path@ == REBOOT_PATH@
                && form@ == form_text(opts.reset)
        },
        (Stage::Waiting, Event::Cancelled) => r matches Some(
            (Stage::Done, Action::Finish { note: None }),
        ),
        (Stage::Acting, Event::Remediated) => r matches Some(
            (Stage::Done, Action::Finish { note: None }),
        ),
        _ => r is None,
    }
}

/// Advances the run by one event; `None` when the event does not belong to
/// the stage. A dry run never reboots, and a run without notifications never
/// sends a message.
pub fn step(opts: &Opts, stage: Stage, event: Event) -> (r: Option<(Stage, Action)>)
    ensures
        step_result(opts, stage, event, r),
        opts.dry_run ==> !(r matches Some((_, Action::Reboot { .. }))),
        !opts.notify ==> !(r matches Some((_, Action::NotifyAndWait { notify: true, .. }))),
{
    match (stage, event) {
        (Stage::Init, Event::Started) => Some((Stage::Gathering, Action::Gather)),
        (Stage::Gathering, Event::Gathered(c)) => {
            if exceeded(&c, &opts.thresholds()) {
                Some(
                    (
                        Stage::Waiting,
                        Action::NotifyAndWait {
                            message: opts.notification_message(&c),
                            notify: opts.notify,
                            grace_secs: GRACE_PERIOD_SECS,
                        },
                    ),
                )
            } else {
                Some((Stage::Done, Action::Finish { note: None }))
            }
        },
        (Stage::Waiting, Event::Waited) => {
            if opts.dry_run {
                Some((Stage::Done, Action::Finish { note: Some(opts.message()) }))
            } else {
                Some(
                    (
                        Stage::Acting,
                        Action::Reboot {
                            announcement: opts.message(),
                            path: REBOOT_PATH,
                            form: opts.form_body(),
                        },
                    ),
                )
            }
        },
        (Stage::Waiting, Event::Cancelled) => Some((Stage::Done, Action::Finish { note: None })),
        (Stage::Acting, Event::Remediated) => Some(
            (Stage::Done, Action::Finish { note: None }),
        ),
        _ => None,
    }
}

} // verus!

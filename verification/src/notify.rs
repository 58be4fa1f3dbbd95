//! Outcome-to-notification mapping: the subject and body are a
//! deterministic function of the deploy request and its outcome. Handing
//! the notification to a mail transport is the embedding program's task and
//! is best-effort there; nothing here can fail.

use vstd::prelude::*;

use crate::classify::{DeployRequest, DeployRequestView};
use crate::runner::{interpret_output_spec, DeployOutcome, DeployOutcomeView, ProcessOutputView};

verus! {

/// A human-readable report of one deploy.
pub struct Notification {
    pub subject: String,
    pub body: String,
}

/// The mathematical value of a `Notification`.
pub struct NotificationView {
    pub subject: Seq<char>,
    pub body: Seq<char>,
}

impl View for Notification {
    type V = NotificationView;

    open spec fn view(&self) -> NotificationView {
        NotificationView { subject: self.subject@, body: self.body@ }
    }
}

/// The notification an outcome maps to: a fixed subject per outcome kind,
/// and a body naming the tag, the repository, and the result or the
/// failure detail.
pub open spec fn notification_spec(
    req: DeployRequestView,
    outcome: DeployOutcomeView,
) -> NotificationView {
    match outcome {
        DeployOutcomeView::Success(text) => NotificationView {
            subject: "Deploy successful"@,
            body: "Deploy of "@ + req.tag + " for "@ + req.repository_full_name + " successful: "@
                + text,
        },
        DeployOutcomeView::Failure(detail) => NotificationView {
            subject: "Deploy failed"@,
            body: "Deploy of "@ + req.tag + " for "@ + req.repository_full_name + " failed: "@
                + detail,
        },
    }
}

/// Formats the notification for one deploy outcome, per
/// `notification_spec`.
pub fn notification_of(req: &DeployRequest, outcome: &DeployOutcome) -> (n: Notification)
    ensures
        n@ == notification_spec(req@, outcome@),
{
    match outcome {
        DeployOutcome::Success(text) => {
            let mut body = String::from_str("Deploy of ");
            body.append(req.tag.as_str());
            body.append(" for ");
            body.append(req.repository_full_name.as_str());
            body.append(" successful: ");
            body.append(text.as_str());
            Notification { subject: String::from_str("Deploy successful"), body }
        },
        DeployOutcome::Failure(detail) => {
            let mut body = String::from_str("Deploy of ");
            body.append(req.tag.as_str());
            body.append(" for ");
            body.append(req.repository_full_name.as_str());
            body.append(" failed: ");
            body.append(detail.as_str());
            Notification { subject: String::from_str("Deploy failed"), body }
        },
    }
}

/// The notification subject always matches the deploy's exit status: a
/// process that exited zero reports `Deploy successful`, every other
/// outcome of a finished process reports `Deploy failed`.
pub proof fn lemma_subject_matches_exit(req: DeployRequestView, p: ProcessOutputView)
    ensures
        notification_spec(
            req,
            match interpret_output_spec(p) {
                Ok(s) => DeployOutcomeView::Success(s),
                Err(e) => DeployOutcomeView::Failure(e.message()),
            },
        ).subject == if p.exit_code == Some(0i32) {
            "Deploy successful"@
        } else {
            "Deploy failed"@
        },
{
}

} // verus!

//! The life of an SSH tab: what each report of its connection leads to.
//! The connection itself runs outside the library; each tick hands its
//! reports to these functions and carries out what they answer.

use vstd::prelude::*;
use crate::host_keys::TrustChallenge;
use crate::navigation::YesNoState;

verus! {

/// What the start of a connection reported.
#[derive(Clone, Debug)]
pub enum StartReport {
    /// The tab's host is no longer stored.
    HostMissing,
    /// The session is running.
    Started,
    /// The server's key is not trusted; the user must decide.
    TrustRequired(TrustChallenge),
    /// The connection failed, with this message.
    Failed(String),
}

/// What a starting tab becomes.
#[derive(Clone, Debug)]
pub enum StartStep {
    /// It shows the running session.
    Run,
    /// It asks whether to trust the key, the choice on no.
    AskTrust(TrustChallenge, YesNoState),
    /// It closes with this status.
    Close(String),
}

/// The status of a tab whose host is gone.
pub open spec fn host_missing_status() -> Seq<char> {
    "Selected host no longer exists"@
}

/// What a starting tab becomes after a report of its connection: a running
/// session runs; an untrusted key is put to the user, who must say yes to
/// go on; a missing host or a failure closes the tab with its message.
pub fn after_start_report(report: StartReport) -> (r: StartStep)
    ensures
        match report {
            StartReport::HostMissing => r matches StartStep::Close(s) && s@ == host_missing_status(),
            StartReport::Started => r is Run,
            StartReport::TrustRequired(c) => r matches StartStep::AskTrust(c2, choice) && c2 == c
                && !choice.selected,
            StartReport::Failed(e) => r matches StartStep::Close(s) && s == e,
        },
{
    match report {
        StartReport::HostMissing => StartStep::Close("Selected host no longer exists".to_string()),
        StartReport::Started => StartStep::Run,
        StartReport::TrustRequired(c) => StartStep::AskTrust(c, YesNoState { selected: false }),
        StartReport::Failed(e) => StartStep::Close(e),
    }
}

/// What a running session reported.
#[derive(Clone, Debug)]
pub enum SessionReport {
    /// Output for the terminal.
    Output,
    /// The session failed, with this message.
    Failed(String),
    /// The session ended, with this message.
    Closed(String),
}

/// The status a running tab is to close with after one more report: the
/// first failure or end reported wins, and output changes nothing.
pub fn close_status_after(current: Option<String>, report: SessionReport) -> (r: Option<String>)
    ensures
        current is Some ==> r == current,
        current is None ==> r == (match report {
            SessionReport::Output => None::<String>,
            SessionReport::Failed(e) => Some(e),
            SessionReport::Closed(e) => Some(e),
        }),
{
    match current {
        Some(s) => Some(s),
        None => match report {
            SessionReport::Output => None,
            SessionReport::Failed(e) => Some(e),
            SessionReport::Closed(e) => Some(e),
        },
    }
}

} // verus!

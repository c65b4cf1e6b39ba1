//! The version status shown on the settings page: what the background
//! version check found, and how it reads.

use vstd::prelude::*;
use crate::text::concat_str;
use crate::update::{
    check_result_view, parse_version, semver_greater, semver_parse, tag_version_text,
    version_from_tag, version_text, SemVersion, UpdateCheckStatus, UpdateCheckView, VersionView,
    LatestRelease, ReleaseView,
};

verus! {

/// Where the version check stands.
#[derive(Debug)]
pub enum VersionCheckStatus {
    Idle,
    Checking,
    UpToDate { current: SemVersion },
    UpdateAvailable { current: SemVersion, latest: SemVersion, url: String },
    Error(String),
}

/// The mathematical value of a `VersionCheckStatus`.
pub enum VersionCheckView {
    Idle,
    Checking,
    UpToDate { current: VersionView },
    UpdateAvailable { current: VersionView, latest: VersionView, url: Seq<char> },
    Error(Seq<char>),
}

impl View for VersionCheckStatus {
    type V = VersionCheckView;

    open spec fn view(&self) -> VersionCheckView {
        match self {
            VersionCheckStatus::Idle => VersionCheckView::Idle,
            VersionCheckStatus::Checking => VersionCheckView::Checking,
            VersionCheckStatus::UpToDate { current } => VersionCheckView::UpToDate { current: current@ },
            VersionCheckStatus::UpdateAvailable { current, latest, url } =>
                VersionCheckView::UpdateAvailable { current: current@, latest: latest@, url: url@ },
            VersionCheckStatus::Error(e) => VersionCheckView::Error(e@),
        }
    }
}

/// The view of a version check's result.
pub open spec fn version_result_view(r: Result<VersionCheckStatus, String>) -> Result<VersionCheckView, Seq<char>> {
    match r {
        Ok(s) => Ok(s@),
        Err(e) => Err(e@),
    }
}

/// The status for a published release whose version is known.
pub open spec fn version_outcome_spec(current: VersionView, latest: VersionView, latest_is_newer: bool, url: Seq<char>) -> VersionCheckView {
    if latest_is_newer {
        VersionCheckView::UpdateAvailable { current, latest, url }
    } else {
        VersionCheckView::UpToDate { current }
    }
}

/// The error given for a release tag that does not parse.
pub open spec fn invalid_tag_error(tag: Seq<char>) -> Seq<char> {
    "invalid release tag: "@ + tag
}

/// What the version check concludes from the running version's text and
/// what fetching the newest release gave.
pub open spec fn version_check_spec(current_text: Seq<char>, fetched: Result<ReleaseView, Seq<char>>) -> Result<
    VersionCheckView,
    Seq<char>,
> {
    match semver_parse(current_text) {
        Err(_) => Err(crate::update::invalid_current_error(current_text)),
        Ok(current) => match fetched {
            Err(e) => Err(e),
            Ok(release) => if release.draft || release.prerelease {
                Ok(VersionCheckView::UpToDate { current })
            } else {
                match semver_parse(tag_version_text(release.tag)) {
                    Err(_) => Err(invalid_tag_error(release.tag)),
                    Ok(latest) => Ok(version_outcome_spec(current, latest, semver_greater(latest, current), release.url)),
                }
            },
        },
    }
}

/// The status for a published release, given the running version, the
/// release's version and whether it is the newer one.
pub fn version_outcome(current: SemVersion, latest: SemVersion, latest_is_newer: bool, url: &str) -> (r: VersionCheckStatus)
    ensures
        r@ == version_outcome_spec(current@, latest@, latest_is_newer, url@),
{
    if latest_is_newer {
        VersionCheckStatus::UpdateAvailable { current, latest, url: url.to_string() }
    } else {
        VersionCheckStatus::UpToDate { current }
    }
}

/// Checks whether a newer release than the running version is published,
/// from the running version's text and what fetching the newest release
/// gave (`fetched`). Drafts and pre-releases count as no news.
pub fn check_for_updates(current_version: &str, fetched: Result<LatestRelease, String>) -> (r: Result<
    VersionCheckStatus,
    String,
>)
    ensures
        version_result_view(r) == version_check_spec(
            current_version@,
            match fetched {
                Ok(rel) => Ok(rel@),
                Err(e) => Err(e@),
            },
        ),
{
    let current = match parse_version(current_version) {
        Ok(v) => v,
        Err(_) => return Err(concat_str("invalid current version: ", current_version)),
    };
    let release = match fetched {
        Ok(rel) => rel,
        Err(e) => return Err(e),
    };
    if release.draft || release.prerelease {
        return Ok(VersionCheckStatus::UpToDate { current });
    }
    let latest = match version_from_tag(release.tag_name.as_str()) {
        Ok(v) => v,
        Err(_) => return Err(concat_str("invalid release tag: ", release.tag_name.as_str())),
    };
    let newer = latest.is_newer_than(&current);
    Ok(version_outcome(current, latest, newer, release.html_url.as_str()))
}

/// The version status an update check's result gives.
pub open spec fn status_of_check(c: UpdateCheckView) -> VersionCheckView {
    match c {
        UpdateCheckView::NoUpdate { current } => VersionCheckView::UpToDate { current },
        UpdateCheckView::UpdateAvailable { current, latest, release_url, .. } =>
            VersionCheckView::UpdateAvailable { current, latest, url: release_url },
        UpdateCheckView::Error(e) => VersionCheckView::Error(e),
    }
}

/// The version status an update check's result gives.
pub fn version_status_of(status: &UpdateCheckStatus) -> (r: VersionCheckStatus)
    ensures
        r@ == status_of_check(status@),
{
    match status {
        UpdateCheckStatus::NoUpdate { current } => VersionCheckStatus::UpToDate { current: current.duplicate() },
        UpdateCheckStatus::UpdateAvailable { current, latest, release_url, .. } =>
            VersionCheckStatus::UpdateAvailable {
            current: current.duplicate(),
            latest: latest.duplicate(),
            url: release_url.clone(),
        },
        UpdateCheckStatus::Error(e) => VersionCheckStatus::Error(e.clone()),
    }
}

/// How the settings page describes a version status.
pub open spec fn describe_spec(s: VersionCheckView) -> Seq<char> {
    match s {
        VersionCheckView::Idle => "idle (update check pending)"@,
        VersionCheckView::Checking => "checking for updates..."@,
        VersionCheckView::UpToDate { current } => "up to date ("@ + version_text(current) + ")"@,
        VersionCheckView::UpdateAvailable { latest, url, .. } => "new release "@ + version_text(latest)
            + " available ("@ + url + ")"@,
        VersionCheckView::Error(e) => "error checking updates: "@ + e,
    }
}

/// How the settings page describes a version status.
pub fn describe_update_status(status: &VersionCheckStatus) -> (r: String)
    ensures
        r@ == describe_spec(status@),
{
    match status {
        VersionCheckStatus::Idle => "idle (update check pending)".to_string(),
        VersionCheckStatus::Checking => "checking for updates...".to_string(),
        VersionCheckStatus::UpToDate { current } => {
            let v = current.to_text();
            let a = concat_str("up to date (", v.as_str());
            concat_str(a.as_str(), ")")
        },
        VersionCheckStatus::UpdateAvailable { latest, url, .. } => {
            let v = latest.to_text();
            let a = concat_str("new release ", v.as_str());
            let b = concat_str(a.as_str(), " available (");
            let c = concat_str(b.as_str(), url.as_str());
            concat_str(c.as_str(), ")")
        },
        VersionCheckStatus::Error(e) => concat_str("error checking updates: ", e.as_str()),
    }
}

} // verus!

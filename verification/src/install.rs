//! Installing an update: the progress the installer reports, the startup
//! screen that follows it, and the dashboard prompt that offers it.

use vstd::prelude::*;
use crate::input::{handle_yes_no_input, KeyCode};
use crate::navigation::YesNoState;
use crate::update::{opt_asset_view, AssetView, ReleaseAsset, UpdateCheckStatus, UpdateCheckView, version_text};

verus! {

/// What the installer reports as it goes.
#[derive(Clone, Debug)]
pub enum UpdateInstallStatus {
    Downloading { downloaded: u64, total: Option<u64> },
    Verifying,
    Installing,
    Done,
    Failed(String),
}

/// The phases the startup update screen shows.
#[derive(Clone, Copy, Debug, PartialEq, Eq, Structural)]
pub enum InstallPhase {
    Checking,
    Prompt,
    Downloading,
    Verifying,
    Installing,
    Done,
    Failed,
}

/// The progress the startup update screen shows.
#[derive(Clone, Debug)]
pub struct InstallProgress {
    pub phase: InstallPhase,
    pub message: Option<String>,
    pub spinner_frame: usize,
    pub downloaded: u64,
    pub total: Option<u64>,
}

impl InstallProgress {
    /// The progress when a download starts.
    pub fn downloading() -> (r: Self)
        ensures
            r.phase == InstallPhase::Downloading,
            r.message is None,
            r.spinner_frame == 0,
            r.downloaded == 0,
            r.total is None,
    {
        InstallProgress { phase: InstallPhase::Downloading, message: None, spinner_frame: 0, downloaded: 0, total: None }
    }

    /// Moves the spinner on by one frame (wrapping).
    pub fn advance_spinner(&mut self)
        ensures
            final(self).spinner_frame == (if old(self).spinner_frame == usize::MAX { 0 } else { (old(self).spinner_frame + 1) as usize }),
            final(self).phase == old(self).phase,
            final(self).message == old(self).message,
            final(self).downloaded == old(self).downloaded,
            final(self).total == old(self).total,
    {
        if self.spinner_frame == usize::MAX {
            self.spinner_frame = 0;
        } else {
            self.spinner_frame = self.spinner_frame + 1;
        }
    }

    /// Takes in one report of the installer; returns whether the update is
    /// done, after which the program restarts and no later report matters.
    pub fn apply_install_status(&mut self, status: UpdateInstallStatus) -> (restart: bool)
        ensures
            final(self).spinner_frame == old(self).spinner_frame,
            restart == (status is Done),
            match status {
                UpdateInstallStatus::Downloading { downloaded, total } => {
                    &&& final(self).phase == InstallPhase::Downloading
                    &&& final(self).downloaded == downloaded
                    &&& final(self).total == total
                    &&& final(self).message == old(self).message
                },
                UpdateInstallStatus::Failed(err) => {
                    &&& final(self).phase == InstallPhase::Failed
                    &&& final(self).message == Some(err)
                    &&& final(self).downloaded == old(self).downloaded
                    &&& final(self).total == old(self).total
                },
                _ => {
                    &&& final(self).phase == (match status {
                        UpdateInstallStatus::Verifying => InstallPhase::Verifying,
                        UpdateInstallStatus::Installing => InstallPhase::Installing,
                        _ => InstallPhase::Done,
                    })
                    &&& final(self).message == old(self).message
                    &&& final(self).downloaded == old(self).downloaded
                    &&& final(self).total == old(self).total
                },
            },
    {
        match status {
            UpdateInstallStatus::Downloading { downloaded, total } => {
                self.phase = InstallPhase::Downloading;
                self.downloaded = downloaded;
                self.total = total;
                false
            },
            UpdateInstallStatus::Verifying => {
                self.phase = InstallPhase::Verifying;
                false
            },
            UpdateInstallStatus::Installing => {
                self.phase = InstallPhase::Installing;
                false
            },
            UpdateInstallStatus::Done => {
                self.phase = InstallPhase::Done;
                true
            },
            UpdateInstallStatus::Failed(err) => {
                self.phase = InstallPhase::Failed;
                self.message = Some(err);
                false
            },
        }
    }
}

/// What a key on the startup update screen asks for.
#[derive(Clone, Copy, Debug, PartialEq, Eq, Structural)]
pub enum StartupKeyAction {
    StartInstall,
    Skip,
    Nothing,
}

/// What a key on the startup update screen asks for: on the prompt, Enter
/// installs and `s` or Esc skip; once done or failed, Enter, Esc or `s`
/// go on; otherwise keys do nothing.
pub fn startup_key_action(phase: InstallPhase, key: KeyCode) -> (r: StartupKeyAction)
    ensures
        r == (if phase == InstallPhase::Prompt {
            if key == KeyCode::Enter {
                StartupKeyAction::StartInstall
            } else if key == KeyCode::Char('s') || key == KeyCode::Esc {
                StartupKeyAction::Skip
            } else {
                StartupKeyAction::Nothing
            }
        } else if phase == InstallPhase::Done || phase == InstallPhase::Failed {
            if key == KeyCode::Enter || key == KeyCode::Esc || key == KeyCode::Char('s') {
                StartupKeyAction::Skip
            } else {
                StartupKeyAction::Nothing
            }
        } else {
            StartupKeyAction::Nothing
        }),
{
    match phase {
        InstallPhase::Prompt => {
            if key == KeyCode::Enter {
                StartupKeyAction::StartInstall
            } else if key == KeyCode::Char('s') || key == KeyCode::Esc {
                StartupKeyAction::Skip
            } else {
                StartupKeyAction::Nothing
            }
        },
        InstallPhase::Done | InstallPhase::Failed => {
            if key == KeyCode::Enter || key == KeyCode::Esc || key == KeyCode::Char('s') {
                StartupKeyAction::Skip
            } else {
                StartupKeyAction::Nothing
            }
        },
        _ => StartupKeyAction::Nothing,
    }
}

/// The spinner's character for a frame.
pub open spec fn spinner_char(frame: usize) -> char {
    let k = frame % 4;
    if k == 0 { '-' } else if k == 1 { '\\' } else if k == 2 { '|' } else { '/' }
}

/// The title of the startup update screen.
pub open spec fn startup_title_spec(phase: InstallPhase, frame: usize) -> Seq<char> {
    let sp = seq![spinner_char(frame), ' '];
    match phase {
        InstallPhase::Checking => sp + "Checking for updates..."@,
        InstallPhase::Prompt => "New version found"@,
        InstallPhase::Downloading => sp + "Downloading update..."@,
        InstallPhase::Verifying => sp + "Verifying download..."@,
        InstallPhase::Installing => sp + "Installing update..."@,
        InstallPhase::Done => "Update installed"@,
        InstallPhase::Failed => "Update failed"@,
    }
}

/// The title of the startup update screen, with the spinner for `frame`.
pub fn startup_title(phase: InstallPhase, frame: usize) -> (r: String)
    ensures
        r@ == startup_title_spec(phase, frame),
{
    let k = frame % 4;
    let sp = if k == 0 { '-' } else if k == 1 { '\\' } else if k == 2 { '|' } else { '/' };
    let mut head = String::new();
    crate::text::push_char(&mut head, sp);
    crate::text::push_char(&mut head, ' ');
    assert(head@ =~= seq![spinner_char(frame), ' ']);
    match phase {
        InstallPhase::Checking => crate::text::concat_str(head.as_str(), "Checking for updates..."),
        InstallPhase::Prompt => "New version found".to_string(),
        InstallPhase::Downloading => crate::text::concat_str(head.as_str(), "Downloading update..."),
        InstallPhase::Verifying => crate::text::concat_str(head.as_str(), "Verifying download..."),
        InstallPhase::Installing => crate::text::concat_str(head.as_str(), "Installing update..."),
        InstallPhase::Done => "Update installed".to_string(),
        InstallPhase::Failed => "Update failed".to_string(),
    }
}

/// The dashboard's offer to install a newer release.
#[derive(Clone, Debug)]
pub struct UpdatePrompt {
    pub current_version: String,
    pub latest_version: String,
    pub release_url: String,
    pub asset: ReleaseAsset,
    pub checksum_asset: Option<ReleaseAsset>,
    pub choice: YesNoState,
}

/// The offer an update check's result makes, if any: the versions as text,
/// the release page, the assets, and a choice that starts on yes.
pub fn prompt_for(status: &UpdateCheckStatus) -> (r: Option<UpdatePrompt>)
    ensures
        match status@ {
            UpdateCheckView::UpdateAvailable { current, latest, release_url, asset, checksum_asset } => r
                matches Some(p) && {
                &&& p.current_version@ == version_text(current)
                &&& p.latest_version@ == version_text(latest)
                &&& p.release_url@ == release_url
                &&& p.asset@ == asset
                &&& opt_asset_view(p.checksum_asset) == checksum_asset
                &&& p.choice.selected
            },
            _ => r is None,
        },
{
    match status {
        UpdateCheckStatus::UpdateAvailable { current, latest, release_url, asset, checksum_asset } => {
            let checksum = match checksum_asset {
                Some(a) => Some(a.duplicate()),
                None => None,
            };
            Some(UpdatePrompt {
                current_version: current.to_text(),
                latest_version: latest.to_text(),
                release_url: release_url.clone(),
                asset: asset.duplicate(),
                checksum_asset: checksum,
                choice: YesNoState::new(),
            })
        },
        _ => None,
    }
}

/// What a key on the update prompt leads to.
#[derive(Clone, Copy, Debug, PartialEq, Eq, Structural)]
pub enum PromptKeyOutcome {
    /// The prompt stays open.
    Stay,
    /// The prompt closes without installing.
    Dismiss,
    /// The update is to be installed.
    Install,
}

/// Handles a key on the update prompt: Esc dismisses; otherwise the key
/// goes to the yes/no choice, whose yes installs and whose no dismisses.
pub fn handle_update_prompt_key(prompt: &mut UpdatePrompt, key: KeyCode) -> (r: PromptKeyOutcome)
    ensures
        key == KeyCode::Esc ==> r == PromptKeyOutcome::Dismiss && *final(prompt) == *old(prompt),
        key != KeyCode::Esc ==> {
            let toggles = key == KeyCode::Left || key == KeyCode::Right || key == KeyCode::Tab;
            let yes = key == KeyCode::Char('y') || (key == KeyCode::Enter && old(prompt).choice.selected);
            let no = key == KeyCode::Char('n') || (key == KeyCode::Enter && !old(prompt).choice.selected);
            &&& final(prompt).choice.selected == (if toggles { !old(prompt).choice.selected } else { old(prompt).choice.selected })
            &&& final(prompt).current_version == old(prompt).current_version
            &&& final(prompt).latest_version == old(prompt).latest_version
            &&& final(prompt).release_url == old(prompt).release_url
            &&& final(prompt).asset == old(prompt).asset
            &&& final(prompt).checksum_asset == old(prompt).checksum_asset
            &&& r == (if toggles { PromptKeyOutcome::Stay } else if yes { PromptKeyOutcome::Install } else if no {
                PromptKeyOutcome::Dismiss
            } else {
                PromptKeyOutcome::Stay
            })
        },
{
    if key == KeyCode::Esc {
        return PromptKeyOutcome::Dismiss;
    }
    match handle_yes_no_input(&mut prompt.choice, key) {
        Some(true) => PromptKeyOutcome::Install,
        Some(false) => PromptKeyOutcome::Dismiss,
        None => PromptKeyOutcome::Stay,
    }
}

} // verus!

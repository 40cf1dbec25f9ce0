//! The update orchestrator: a state machine sequencing one update attempt.
//!
//! One attempt runs `Idle -> Checking`, then either back to `Idle` (no update,
//! or a failed check — both deliberately benign: startup continues) or on to
//! `Downloading -> Installing -> Restarting`, a terminal phase in which the
//! platform layer replaces the running process. Each transition returns the
//! exact sequence of presentation events to show; the platform layer performs
//! the network query and the transfer and feeds their outcomes back in as
//! plain values.

use vstd::prelude::*;
use crate::events::{EventModel, UiEvent, events_match, model_total};
use crate::progress::{DownloadProgress, spec_progress_percent};

verus! {

/// Outcome of one manifest check against the update service.
pub enum UpdateManifestResult {
    /// The running version is current.
    NoUpdate,
    /// A newer release exists.
    Available { current_version: String, new_version: String },
    /// The query itself failed.
    CheckFailed { message: String },
}

/// The mathematical view of an `UpdateManifestResult`.
pub enum ManifestModel {
    NoUpdate,
    Available { current_version: Seq<char>, new_version: Seq<char> },
    CheckFailed { message: Seq<char> },
}

impl View for UpdateManifestResult {
    type V = ManifestModel;

    open spec fn view(&self) -> ManifestModel {
        match self {
            UpdateManifestResult::NoUpdate => ManifestModel::NoUpdate,
            UpdateManifestResult::Available { current_version, new_version } => ManifestModel::Available {
                current_version: current_version@,
                new_version: new_version@,
            },
            UpdateManifestResult::CheckFailed { message } => ManifestModel::CheckFailed {
                message: message@,
            },
        }
    }
}

/// Phase of the current update attempt.
pub enum Phase {
    /// No attempt in progress.
    Idle,
    /// The manifest query is outstanding.
    Checking,
    /// A newer release is being downloaded.
    Downloading,
    /// The downloaded release is being installed.
    Installing,
    /// Installation finished; the process is about to replace itself.
    /// Terminal: no transition leads out of it.
    Restarting,
}

/// What the caller does after the manifest outcome is handled.
pub enum CheckDisposition {
    /// Resume normal startup: no update exists, or the check failed and the
    /// failure was swallowed.
    ContinueStartup,
    /// An update was found; the caller starts the download.
    BeginDownload,
}

/// The events shown for a manifest outcome. Whatever the outcome, the
/// checking panel is dismissed first. When no update exists, an up-to-date
/// notice with the running version follows only if one was requested; when
/// the query failed, an error notice with the failure message follows only
/// if notification was requested (the failure itself is swallowed either
/// way); when an update exists, the required-update notice and the download
/// panel follow.
pub open spec fn outcome_events(
    outcome: ManifestModel,
    notify_if_up_to_date: bool,
    app_version: Seq<char>,
) -> Seq<EventModel> {
    match outcome {
        ManifestModel::NoUpdate => if notify_if_up_to_date {
            seq![EventModel::PanelDismissed, EventModel::UpToDate { version: app_version }]
        } else {
            seq![EventModel::PanelDismissed]
        },
        ManifestModel::CheckFailed { message } => if notify_if_up_to_date {
            seq![EventModel::PanelDismissed, EventModel::UpdateError { message }]
        } else {
            seq![EventModel::PanelDismissed]
        },
        ManifestModel::Available { current_version, new_version } => seq![
            EventModel::PanelDismissed,
            EventModel::UpdateRequired { current_version, new_version },
            EventModel::DownloadStarted,
        ],
    }
}

/// Sequences one update attempt and plans its presentation events.
pub struct UpdateOrchestrator {
    /// Where the attempt stands.
    pub phase: Phase,
    /// Whether a "you are up to date" notice is wanted when no update exists
    /// (a manually triggered check wants one, the startup check does not).
    pub notify_if_up_to_date: bool,
    /// Progress of the download, once one is running.
    pub progress: DownloadProgress,
}

impl UpdateOrchestrator {
    /// A fresh orchestrator, idle and with no progress recorded.
    pub fn new() -> (r: UpdateOrchestrator)
        ensures
            r.phase is Idle,
            !r.notify_if_up_to_date,
            r.progress.bytes_downloaded == 0,
            r.progress.total_bytes is None,
    {
        UpdateOrchestrator {
            phase: Phase::Idle,
            notify_if_up_to_date: false,
            progress: DownloadProgress::new(),
        }
    }

    /// Begin an update check. Shows the checking panel and records whether an
    /// up-to-date notice is wanted should no update exist.
    pub fn start_check(&mut self, notify_if_up_to_date: bool) -> (events: Vec<UiEvent>)
        requires
            old(self).phase is Idle,
        ensures
            final(self).phase is Checking,
            final(self).notify_if_up_to_date == notify_if_up_to_date,
            final(self).progress.bytes_downloaded == 0,
            final(self).progress.total_bytes is None,
            events_match(events@, seq![EventModel::CheckingStarted]),
    {
        self.phase = Phase::Checking;
        self.notify_if_up_to_date = notify_if_up_to_date;
        self.progress = DownloadProgress::new();
        let mut events: Vec<UiEvent> = Vec::new();
        events.push(UiEvent::CheckingStarted);
        events
    }

    /// Handle the outcome of the manifest query. A failed query never
    /// escapes this step: like "no update", it ends the attempt with the
    /// caller told to continue normal startup. Only a found update moves the
    /// attempt on to the download.
    pub fn on_check_outcome(
        &mut self,
        outcome: UpdateManifestResult,
        app_version: &String,
    ) -> (r: (Vec<UiEvent>, CheckDisposition))
        requires
            old(self).phase is Checking,
        ensures
            events_match(r.0@, outcome_events(outcome@, old(self).notify_if_up_to_date, app_version@)),
            r.1 is BeginDownload <==> outcome is Available,
            outcome is Available ==> final(self).phase is Downloading,
            !(outcome is Available) ==> final(self).phase is Idle,
            final(self).notify_if_up_to_date == old(self).notify_if_up_to_date,
            final(self).progress.bytes_downloaded == old(self).progress.bytes_downloaded,
            final(self).progress.total_bytes == old(self).progress.total_bytes,
    {
        let mut events: Vec<UiEvent> = Vec::new();
        events.push(UiEvent::PanelDismissed);
        match outcome {
            UpdateManifestResult::NoUpdate => {
                if self.notify_if_up_to_date {
                    events.push(UiEvent::UpToDate { version: app_version.clone() });
                }
                self.phase = Phase::Idle;
                (events, CheckDisposition::ContinueStartup)
            },
            UpdateManifestResult::CheckFailed { message } => {
                if self.notify_if_up_to_date {
                    events.push(UiEvent::UpdateError { message });
                }
                self.phase = Phase::Idle;
                (events, CheckDisposition::ContinueStartup)
            },
            UpdateManifestResult::Available { current_version, new_version } => {
                events.push(UiEvent::UpdateRequired { current_version, new_version });
                events.push(UiEvent::DownloadStarted);
                self.phase = Phase::Downloading;
                (events, CheckDisposition::BeginDownload)
            },
        }
    }

    /// Record one received chunk of the download and plan the progress
    /// notice for it: percent complete when the announced total is known,
    /// the indeterminate sentinel `-1` when it is not.
    pub fn on_chunk(&mut self, chunk_length: u64, content_length: Option<u64>) -> (events: Vec<UiEvent>)
        requires
            old(self).phase is Downloading,
            old(self).progress.bytes_downloaded + chunk_length <= u64::MAX,
            content_length matches Some(t) ==> t > 0,
        ensures
            final(self).phase is Downloading,
            final(self).notify_if_up_to_date == old(self).notify_if_up_to_date,
            final(self).progress.bytes_downloaded == old(self).progress.bytes_downloaded + chunk_length,
            final(self).progress.total_bytes == content_length,
            events_match(events@, seq![EventModel::DownloadProgress {
                percent: spec_progress_percent(final(self).progress.bytes_downloaded, content_length),
                downloaded_bytes: old(self).progress.bytes_downloaded + chunk_length,
                total_bytes: model_total(content_length),
            }]),
            content_length is None ==> (events@[0]@ matches EventModel::DownloadProgress { percent, .. }
                && percent == -1),
    {
        self.progress.record_chunk(chunk_length, content_length);
        let percent = self.progress.percent();
        let mut events: Vec<UiEvent> = Vec::new();
        events.push(UiEvent::DownloadProgress {
            percent,
            downloaded_bytes: self.progress.bytes_downloaded,
            total_bytes: content_length,
        });
        events
    }

    /// The transfer finished; installation begins.
    pub fn on_download_complete(&mut self) -> (events: Vec<UiEvent>)
        requires
            old(self).phase is Downloading,
        ensures
            final(self).phase is Installing,
            final(self).notify_if_up_to_date == old(self).notify_if_up_to_date,
            final(self).progress == old(self).progress,
            events_match(events@, seq![EventModel::InstallingStarted]),
    {
        self.phase = Phase::Installing;
        let mut events: Vec<UiEvent> = Vec::new();
        events.push(UiEvent::InstallingStarted);
        events
    }

    /// Installation succeeded; the panel is dismissed and the attempt enters
    /// its terminal phase, after which the platform layer restarts the
    /// process.
    pub fn on_install_finished(&mut self) -> (events: Vec<UiEvent>)
        requires
            old(self).phase is Installing,
        ensures
            final(self).phase is Restarting,
            final(self).notify_if_up_to_date == old(self).notify_if_up_to_date,
            final(self).progress == old(self).progress,
            events_match(events@, seq![EventModel::PanelDismissed]),
    {
        self.phase = Phase::Restarting;
        let mut events: Vec<UiEvent> = Vec::new();
        events.push(UiEvent::PanelDismissed);
        events
    }
}

} // verus!

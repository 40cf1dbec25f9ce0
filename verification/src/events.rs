//! Presentation events. The update flow never talks to the dialog surface
//! directly: each step plans a short sequence of one-way `UiEvent` values,
//! and the platform layer renders them (as native dialogs where available,
//! or not at all). `EventModel` is the mathematical view of an event, over
//! character sequences and unbounded integers, that contracts speak of.

use vstd::prelude::*;

verus! {

/// One fire-and-forget notification to the presentation surface.
pub enum UiEvent {
    /// The "checking for updates" panel is shown.
    CheckingStarted,
    /// The current panel is dismissed.
    PanelDismissed,
    /// No newer release exists; shows the running application version.
    UpToDate { version: String },
    /// A newer release exists and will be installed.
    UpdateRequired { current_version: String, new_version: String },
    /// The update check failed; shows the failure message.
    UpdateError { message: String },
    /// The download panel is shown.
    DownloadStarted,
    /// One progress update: percent complete (`-1` when the total size is
    /// unknown), bytes downloaded so far, and the announced total, if any.
    DownloadProgress { percent: i32, downloaded_bytes: u64, total_bytes: Option<u64> },
    /// The download finished and installation began.
    InstallingStarted,
}

/// The announced total size of a transfer, as the model sees it.
pub open spec fn model_total(total: Option<u64>) -> Option<int> {
    match total {
        Option::Some(t) => Option::Some(t as int),
        Option::None => Option::None,
    }
}

/// The mathematical view of a `UiEvent`: string payloads as character
/// sequences, numeric payloads as unbounded integers.
pub enum EventModel {
    CheckingStarted,
    PanelDismissed,
    UpToDate { version: Seq<char> },
    UpdateRequired { current_version: Seq<char>, new_version: Seq<char> },
    UpdateError { message: Seq<char> },
    DownloadStarted,
    DownloadProgress { percent: int, downloaded_bytes: int, total_bytes: Option<int> },
    InstallingStarted,
}

impl View for UiEvent {
    type V = EventModel;

    open spec fn view(&self) -> EventModel {
        match self {
            UiEvent::CheckingStarted => EventModel::CheckingStarted,
            UiEvent::PanelDismissed => EventModel::PanelDismissed,
            UiEvent::UpToDate { version } => EventModel::UpToDate { version: version@ },
            UiEvent::UpdateRequired { current_version, new_version } => EventModel::UpdateRequired {
                current_version: current_version@,
                new_version: new_version@,
            },
            UiEvent::UpdateError { message } => EventModel::UpdateError { message: message@ },
            UiEvent::DownloadStarted => EventModel::DownloadStarted,
            UiEvent::DownloadProgress { percent, downloaded_bytes, total_bytes } => EventModel::DownloadProgress {
                percent: *percent as int,
                downloaded_bytes: *downloaded_bytes as int,
                total_bytes: model_total(*total_bytes),
            },
            UiEvent::InstallingStarted => EventModel::InstallingStarted,
        }
    }
}

/// An emitted event sequence realises an expected sequence of models exactly:
/// same length, and element by element the same model.
pub open spec fn events_match(events: Seq<UiEvent>, expected: Seq<EventModel>) -> bool {
    &&& events.len() == expected.len()
    &&& forall|i: int| 0 <= i < events.len() ==> #[trigger] events[i]@ == expected[i]
}

} // verus!

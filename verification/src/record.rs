//! One row of the download list, the request that creates a row, and the
//! change that an update makes to one.

use vstd::prelude::*;

verus! {

/// The value of `active` in a row that was inserted without one.
pub const DEFAULT_ACTIVE: bool = true;

/// The value of `failed` in a row that was inserted without one.
pub const DEFAULT_FAILED: bool = false;

/// The value of `completed` in a row that was inserted without one.
pub const DEFAULT_COMPLETED: bool = false;

/// The value of `isPaused` in a row that was inserted without one.
pub const DEFAULT_IS_PAUSED: bool = false;

/// One tracked download.
///
/// The four flags are independent of each other: no combination of them is
/// ruled out here, and keeping them consistent is left to whoever updates
/// the row.
#[derive(Clone, Debug, PartialEq, Eq)]
pub struct DownloadRecord {
    /// The row's identifier, given by the store when the row is inserted.
    pub id: i64,
    /// The caller's own key for the download job.
    pub unique_id: String,
    /// The download is queued or running.
    pub active: bool,
    /// The download has ended in an error.
    pub failed: bool,
    /// The download has finished.
    pub completed: bool,
    /// The chosen output format.
    pub format_id: Option<String>,
    /// Where the content is fetched from.
    pub web_url: Option<String>,
    /// The name shown for the download.
    pub title: Option<String>,
    /// The latest progress text.
    pub tracking_message: Option<String>,
    /// The user has paused the download (the column `isPaused`).
    pub is_paused: bool,
}

/// A row as a mathematical value.
pub struct RecordView {
    pub id: int,
    pub unique_id: Seq<char>,
    pub active: bool,
    pub failed: bool,
    pub completed: bool,
    pub format_id: Option<Seq<char>>,
    pub web_url: Option<Seq<char>>,
    pub title: Option<Seq<char>>,
    pub tracking_message: Option<Seq<char>>,
    pub is_paused: bool,
}

/// The characters of a text column, `None` where the column is null.
pub open spec fn text_view(text: Option<String>) -> Option<Seq<char>> {
    match text {
        Some(s) => Some(s@),
        None => None,
    }
}

/// The new value of a text column in an update, `None` where the update
/// leaves the column alone.
pub open spec fn text_change_view(change: Option<Option<String>>) -> Option<Option<Seq<char>>> {
    match change {
        Some(text) => Some(text_view(text)),
        None => None,
    }
}

/// The value that a column takes: the one given, or else the other.
pub open spec fn given_or<T>(given: Option<T>, otherwise: T) -> T {
    match given {
        Some(value) => value,
        None => otherwise,
    }
}

impl View for DownloadRecord {
    type V = RecordView;

    open spec fn view(&self) -> RecordView {
        RecordView {
            id: self.id as int,
            unique_id: self.unique_id@,
            active: self.active,
            failed: self.failed,
            completed: self.completed,
            format_id: text_view(self.format_id),
            web_url: text_view(self.web_url),
            title: text_view(self.title),
            tracking_message: text_view(self.tracking_message),
            is_paused: self.is_paused,
        }
    }
}

/// The values that an insert supplies. A flag that is `None` is left out of
/// the insert and takes the default of its column; a text that is `None`
/// stays null.
#[derive(Clone, Debug, PartialEq, Eq)]
pub struct NewDownload {
    pub unique_id: String,
    pub active: Option<bool>,
    pub failed: Option<bool>,
    pub completed: Option<bool>,
    pub format_id: Option<String>,
    pub web_url: Option<String>,
    pub title: Option<String>,
    pub tracking_message: Option<String>,
    pub is_paused: Option<bool>,
}

/// An insert as a mathematical value.
pub struct NewDownloadView {
    pub unique_id: Seq<char>,
    pub active: Option<bool>,
    pub failed: Option<bool>,
    pub completed: Option<bool>,
    pub format_id: Option<Seq<char>>,
    pub web_url: Option<Seq<char>>,
    pub title: Option<Seq<char>>,
    pub tracking_message: Option<Seq<char>>,
    pub is_paused: Option<bool>,
}

impl NewDownloadView {
    /// The insert that supplies `unique_id` and nothing else.
    pub open spec fn minimal(unique_id: Seq<char>) -> NewDownloadView {
        NewDownloadView {
            unique_id,
            active: None,
            failed: None,
            completed: None,
            format_id: None,
            web_url: None,
            title: None,
            tracking_message: None,
            is_paused: None,
        }
    }

    /// The row that this insert makes under the identifier `id`.
    pub open spec fn row(self, id: int) -> RecordView {
        RecordView {
            id,
            unique_id: self.unique_id,
            active: given_or(self.active, DEFAULT_ACTIVE),
            failed: given_or(self.failed, DEFAULT_FAILED),
            completed: given_or(self.completed, DEFAULT_COMPLETED),
            format_id: self.format_id,
            web_url: self.web_url,
            title: self.title,
            tracking_message: self.tracking_message,
            is_paused: given_or(self.is_paused, DEFAULT_IS_PAUSED),
        }
    }
}

impl View for NewDownload {
    type V = NewDownloadView;

    open spec fn view(&self) -> NewDownloadView {
        NewDownloadView {
            unique_id: self.unique_id@,
            active: self.active,
            failed: self.failed,
            completed: self.completed,
            format_id: text_view(self.format_id),
            web_url: text_view(self.web_url),
            title: text_view(self.title),
            tracking_message: text_view(self.tracking_message),
            is_paused: self.is_paused,
        }
    }
}

impl NewDownload {
    /// An insert that supplies `unique_id` and leaves every other column out.
    pub fn new(unique_id: String) -> (new: NewDownload)
        ensures
            new@ == NewDownloadView::minimal(unique_id@),
    {
        NewDownload {
            unique_id,
            active: None,
            failed: None,
            completed: None,
            format_id: None,
            web_url: None,
            title: None,
            tracking_message: None,
            is_paused: None,
        }
    }

    /// The row that this insert makes under the identifier `id`.
    pub fn into_record(self, id: i64) -> (record: DownloadRecord)
        ensures
            record@ == self@.row(id as int),
    {
        let active = match self.active {
            Some(flag) => flag,
            None => DEFAULT_ACTIVE,
        };
        let failed = match self.failed {
            Some(flag) => flag,
            None => DEFAULT_FAILED,
        };
        let completed = match self.completed {
            Some(flag) => flag,
            None => DEFAULT_COMPLETED,
        };
        let is_paused = match self.is_paused {
            Some(flag) => flag,
            None => DEFAULT_IS_PAUSED,
        };
        DownloadRecord {
            id,
            unique_id: self.unique_id,
            active,
            failed,
            completed,
            format_id: self.format_id,
            web_url: self.web_url,
            title: self.title,
            tracking_message: self.tracking_message,
            is_paused,
        }
    }
}

/// The columns that an update sets. A field that is `None` leaves its column
/// as it is; a text that is `Some(None)` sets its column to null. No update
/// sets `id`.
#[derive(Clone, Debug, PartialEq, Eq)]
pub struct RecordChange {
    pub unique_id: Option<String>,
    pub active: Option<bool>,
    pub failed: Option<bool>,
    pub completed: Option<bool>,
    pub format_id: Option<Option<String>>,
    pub web_url: Option<Option<String>>,
    pub title: Option<Option<String>>,
    pub tracking_message: Option<Option<String>>,
    pub is_paused: Option<bool>,
}

/// An update as a mathematical value.
pub struct ChangeView {
    pub unique_id: Option<Seq<char>>,
    pub active: Option<bool>,
    pub failed: Option<bool>,
    pub completed: Option<bool>,
    pub format_id: Option<Option<Seq<char>>>,
    pub web_url: Option<Option<Seq<char>>>,
    pub title: Option<Option<Seq<char>>>,
    pub tracking_message: Option<Option<Seq<char>>>,
    pub is_paused: Option<bool>,
}

impl ChangeView {
    /// The update that sets no column.
    pub open spec fn none() -> ChangeView {
        ChangeView {
            unique_id: None,
            active: None,
            failed: None,
            completed: None,
            format_id: None,
            web_url: None,
            title: None,
            tracking_message: None,
            is_paused: None,
        }
    }

    /// The row that `row` becomes under this update.
    pub open spec fn apply(self, row: RecordView) -> RecordView {
        RecordView {
            id: row.id,
            unique_id: given_or(self.unique_id, row.unique_id),
            active: given_or(self.active, row.active),
            failed: given_or(self.failed, row.failed),
            completed: given_or(self.completed, row.completed),
            format_id: given_or(self.format_id, row.format_id),
            web_url: given_or(self.web_url, row.web_url),
            title: given_or(self.title, row.title),
            tracking_message: given_or(self.tracking_message, row.tracking_message),
            is_paused: given_or(self.is_paused, row.is_paused),
        }
    }
}

impl View for RecordChange {
    type V = ChangeView;

    open spec fn view(&self) -> ChangeView {
        ChangeView {
            unique_id: text_view(self.unique_id),
            active: self.active,
            failed: self.failed,
            completed: self.completed,
            format_id: text_change_view(self.format_id),
            web_url: text_change_view(self.web_url),
            title: text_change_view(self.title),
            tracking_message: text_change_view(self.tracking_message),
            is_paused: self.is_paused,
        }
    }
}

impl RecordChange {
    /// The update that sets no column.
    pub fn none() -> (change: RecordChange)
        ensures
            change@ == ChangeView::none(),
    {
        RecordChange {
            unique_id: None,
            active: None,
            failed: None,
            completed: None,
            format_id: None,
            web_url: None,
            title: None,
            tracking_message: None,
            is_paused: None,
        }
    }
}

impl DownloadRecord {
    /// Sets the columns that `change` names and leaves the others, `id`
    /// among them, as they are.
    pub fn apply(&mut self, change: RecordChange)
        ensures
            final(self)@ == change@.apply(old(self)@),
    {
        match change.unique_id {
            Some(text) => {
                self.unique_id = text;
            },
            None => {},
        }
        match change.active {
            Some(flag) => {
                self.active = flag;
            },
            None => {},
        }
        match change.failed {
            Some(flag) => {
                self.failed = flag;
            },
            None => {},
        }
        match change.completed {
            Some(flag) => {
                self.completed = flag;
            },
            None => {},
        }
        match change.format_id {
            Some(text) => {
                self.format_id = text;
            },
            None => {},
        }
        match change.web_url {
            Some(text) => {
                self.web_url = text;
            },
            None => {},
        }
        match change.title {
            Some(text) => {
                self.title = text;
            },
            None => {},
        }
        match change.tracking_message {
            Some(text) => {
                self.tracking_message = text;
            },
            None => {},
        }
        match change.is_paused {
            Some(flag) => {
                self.is_paused = flag;
            },
            None => {},
        }
    }
}

/// A flag that an insert leaves out takes the default of its column:
/// `active` is set, `failed`, `completed` and `is_paused` are not. A text
/// that it leaves out is null, and what it supplies is stored as given.
pub proof fn omitted_columns_take_defaults(new: NewDownloadView, id: int)
    ensures
        new.row(id).id == id,
        new.row(id).unique_id == new.unique_id,
        new.row(id).active == (if new.active is Some { new.active->0 } else { true }),
        new.row(id).failed == (if new.failed is Some { new.failed->0 } else { false }),
        new.row(id).completed == (if new.completed is Some { new.completed->0 } else { false }),
        new.row(id).is_paused == (if new.is_paused is Some { new.is_paused->0 } else { false }),
        new.row(id).format_id == new.format_id,
        new.row(id).web_url == new.web_url,
        new.row(id).title == new.title,
        new.row(id).tracking_message == new.tracking_message,
{
}

/// An update that sets no column leaves a row as it is.
pub proof fn empty_change_changes_nothing(row: RecordView)
    ensures
        ChangeView::none().apply(row) == row,
{
}

} // verus!

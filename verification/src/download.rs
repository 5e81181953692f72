//! The download as a state machine. The caller sends the request, touches
//! the file system and reads the body; after each piece of that work it
//! reports what happened, and the machine answers with what to do next.

use crate::fetch::{
    archive_file, archive_path, artifact_of, download_request, send_request, DownloadError,
    DownloadErrorView, DownloadedFile, DownloadedFileView,
};
use crate::http::Request;
use crate::platform::{file_type_of, get_file_type, Platform};
use vstd::prelude::*;
use vstd::string::*;

verus! {

/// The only status with which the host hands out an archive.
pub const STATUS_OK: u16 = 200;

/// How far a download has come.
#[derive(Clone, Debug, PartialEq, Eq)]
pub enum DownloadState {
    /// The request is out; no answer yet.
    AwaitingResponse,
    /// The host declared `total` bytes; the managed directory is being looked up.
    LocatingDirectory { total: u64 },
    /// The managed directory is missing and is being created.
    CreatingDirectory { total: u64, directory: String },
    /// The local archive is being created inside `directory`.
    CreatingFile { total: u64, directory: String },
    /// The body is being read; `downloaded` of `total` bytes are accounted for.
    Streaming { total: u64, downloaded: u64, directory: String },
    /// The archive is complete.
    Finished,
    /// The download was given up.
    Failed,
}

/// The model of a [`DownloadState`].
pub enum DownloadStateView {
    AwaitingResponse,
    LocatingDirectory { total: nat },
    CreatingDirectory { total: nat, directory: Seq<char> },
    CreatingFile { total: nat, directory: Seq<char> },
    Streaming { total: nat, downloaded: nat, directory: Seq<char> },
    Finished,
    Failed,
}

impl View for DownloadState {
    type V = DownloadStateView;

    open spec fn view(&self) -> DownloadStateView {
        match self {
            DownloadState::AwaitingResponse => DownloadStateView::AwaitingResponse,
            DownloadState::LocatingDirectory { total } => DownloadStateView::LocatingDirectory {
                total: *total as nat,
            },
            DownloadState::CreatingDirectory {
                total,
                directory,
            } => DownloadStateView::CreatingDirectory { total: *total as nat, directory: directory@ },
            DownloadState::CreatingFile { total, directory } => DownloadStateView::CreatingFile {
                total: *total as nat,
                directory: directory@,
            },
            DownloadState::Streaming { total, downloaded, directory } => DownloadStateView::Streaming {
                total: *total as nat,
                downloaded: *downloaded as nat,
                directory: directory@,
            },
            DownloadState::Finished => DownloadStateView::Finished,
            DownloadState::Failed => DownloadStateView::Failed,
        }
    }
}

/// What the caller reports after a piece of outside work.
#[derive(Clone, Debug, PartialEq, Eq)]
pub enum DownloadEvent {
    /// The request could not be sent or answered.
    RequestFailed(String),
    /// The head of the response arrived.
    Response { status: u16, content_length: Option<u64> },
    /// The platform names no per-user data directory.
    DirectoryMissing,
    /// The managed directory is `directory`; `exists` tells whether it is there yet.
    DirectoryProbed { directory: String, exists: bool },
    /// The managed directory was created.
    DirectoryCreated,
    /// The managed directory could not be created.
    DirectoryNotCreated(String),
    /// The local archive was created, empty.
    FileCreated,
    /// The local archive could not be created or written.
    FileFailed(String),
    /// A chunk of this many bytes was read from the body.
    Chunk(usize),
    /// Reading the body failed.
    ChunkFailed(String),
    /// The body ended.
    EndOfStream,
}

/// The model of a [`DownloadEvent`].
pub enum DownloadEventView {
    RequestFailed(Seq<char>),
    Response { status: nat, content_length: Option<nat> },
    DirectoryMissing,
    DirectoryProbed { directory: Seq<char>, exists: bool },
    DirectoryCreated,
    DirectoryNotCreated(Seq<char>),
    FileCreated,
    FileFailed(Seq<char>),
    Chunk(nat),
    ChunkFailed(Seq<char>),
    EndOfStream,
}

impl View for DownloadEvent {
    type V = DownloadEventView;

    open spec fn view(&self) -> DownloadEventView {
        match self {
            DownloadEvent::RequestFailed(text) => DownloadEventView::RequestFailed(text@),
            DownloadEvent::Response { status, content_length } => DownloadEventView::Response {
                status: *status as nat,
                content_length: match content_length {
                    Some(length) => Some(*length as nat),
                    None => None,
                },
            },
            DownloadEvent::DirectoryMissing => DownloadEventView::DirectoryMissing,
            DownloadEvent::DirectoryProbed { directory, exists } => DownloadEventView::DirectoryProbed {
                directory: directory@,
                exists: *exists,
            },
            DownloadEvent::DirectoryCreated => DownloadEventView::DirectoryCreated,
            DownloadEvent::DirectoryNotCreated(text) => DownloadEventView::DirectoryNotCreated(text@),
            DownloadEvent::FileCreated => DownloadEventView::FileCreated,
            DownloadEvent::FileFailed(text) => DownloadEventView::FileFailed(text@),
            DownloadEvent::Chunk(length) => DownloadEventView::Chunk(*length as nat),
            DownloadEvent::ChunkFailed(text) => DownloadEventView::ChunkFailed(text@),
            DownloadEvent::EndOfStream => DownloadEventView::EndOfStream,
        }
    }
}

/// What the machine asks the caller to do next.
#[derive(Clone, Debug, PartialEq, Eq)]
pub enum DownloadAction {
    /// The event was not waited for: nothing to do.
    Nothing,
    /// Show progress as 0 of `total` bytes and look up the managed directory.
    LocateDirectory { total: u64 },
    /// Create the managed directory.
    CreateDirectory(String),
    /// Create the local archive at this path, emptying a file already there.
    CreateFile(String),
    /// Start reading the body.
    ReadBody,
    /// Write the chunk just read to the archive, show progress as
    /// `position` of `total` bytes, and go on reading.
    StoreChunk { position: u64, total: u64 },
    /// The archive is complete: this is its descriptor.
    Complete(DownloadedFile),
    /// Give up with this error; what was written so far stays.
    Abort(DownloadError),
}

/// The model of a [`DownloadAction`].
pub enum DownloadActionView {
    Nothing,
    LocateDirectory { total: nat },
    CreateDirectory(Seq<char>),
    CreateFile(Seq<char>),
    ReadBody,
    StoreChunk { position: nat, total: nat },
    Complete(DownloadedFileView),
    Abort(DownloadErrorView),
}

impl View for DownloadAction {
    type V = DownloadActionView;

    open spec fn view(&self) -> DownloadActionView {
        match self {
            DownloadAction::Nothing => DownloadActionView::Nothing,
            DownloadAction::LocateDirectory { total } => DownloadActionView::LocateDirectory {
                total: *total as nat,
            },
            DownloadAction::CreateDirectory(directory) => DownloadActionView::CreateDirectory(
                directory@,
            ),
            DownloadAction::CreateFile(path) => DownloadActionView::CreateFile(path@),
            DownloadAction::ReadBody => DownloadActionView::ReadBody,
            DownloadAction::StoreChunk { position, total } => DownloadActionView::StoreChunk {
                position: *position as nat,
                total: *total as nat,
            },
            DownloadAction::Complete(artifact) => DownloadActionView::Complete(artifact@),
            DownloadAction::Abort(error) => DownloadActionView::Abort(error@),
        }
    }
}

/// A download of one version for one platform.
#[derive(Clone, Debug, PartialEq, Eq)]
pub struct Download {
    pub version: String,
    pub platform: Platform,
    pub state: DownloadState,
}

/// The model of a [`Download`].
pub struct DownloadView {
    pub version: Seq<char>,
    pub platform: Platform,
    pub state: DownloadStateView,
}

impl View for Download {
    type V = DownloadView;

    open spec fn view(&self) -> DownloadView {
        DownloadView { version: self.version@, platform: self.platform, state: self.state@ }
    }
}

/// The byte count after a chunk of `length` bytes: it never passes the declared total.
pub open spec fn advanced(downloaded: nat, length: nat, total: nat) -> nat {
    if downloaded + length <= total {
        downloaded + length
    } else {
        total
    }
}

impl DownloadView {
    /// A download whose request has just been sent.
    pub open spec fn begin(version: Seq<char>, platform: Platform) -> DownloadView {
        DownloadView { version, platform, state: DownloadStateView::AwaitingResponse }
    }

    /// This download in another state.
    pub open spec fn in_state(self, state: DownloadStateView) -> DownloadView {
        DownloadView { state, ..self }
    }

    /// This download given up with `error`.
    pub open spec fn fail(self, error: DownloadErrorView) -> (DownloadView, DownloadActionView) {
        (self.in_state(DownloadStateView::Failed), DownloadActionView::Abort(error))
    }

    /// This download waiting for its archive to be created inside `directory`.
    pub open spec fn create_file(self, total: nat, directory: Seq<char>) -> (
        DownloadView,
        DownloadActionView,
    ) {
        (
            self.in_state(DownloadStateView::CreatingFile { total, directory }),
            DownloadActionView::CreateFile(archive_path(directory, self.version, self.platform)),
        )
    }

    /// The state after `event` and the action it calls for. An event that
    /// the state does not wait for changes nothing.
    pub open spec fn step(self, event: DownloadEventView) -> (DownloadView, DownloadActionView) {
        match (self.state, event) {
            (DownloadStateView::AwaitingResponse, DownloadEventView::RequestFailed(text)) => self.fail(
                DownloadErrorView::NetworkError(text),
            ),
            (
                DownloadStateView::AwaitingResponse,
                DownloadEventView::Response { status, content_length },
            ) => if status != STATUS_OK {
                self.fail(DownloadErrorView::VersionNotFound)
            } else {
                match content_length {
                    None => self.fail(DownloadErrorView::MissingContentLength),
                    Some(total) => (
                        self.in_state(DownloadStateView::LocatingDirectory { total }),
                        DownloadActionView::LocateDirectory { total },
                    ),
                }
            },
            (
                DownloadStateView::LocatingDirectory { total },
                DownloadEventView::DirectoryMissing,
            ) => self.fail(DownloadErrorView::NoDataDirectory),
            (
                DownloadStateView::LocatingDirectory { total },
                DownloadEventView::DirectoryProbed { directory, exists },
            ) => if exists {
                self.create_file(total, directory)
            } else {
                (
                    self.in_state(DownloadStateView::CreatingDirectory { total, directory }),
                    DownloadActionView::CreateDirectory(directory),
                )
            },
            (
                DownloadStateView::CreatingDirectory { total, directory },
                DownloadEventView::DirectoryCreated,
            ) => self.create_file(total, directory),
            (
                DownloadStateView::CreatingDirectory { total, directory },
                DownloadEventView::DirectoryNotCreated(text),
            ) => self.fail(DownloadErrorView::DirectoryCreation(text)),
            (
                DownloadStateView::CreatingFile { total, directory },
                DownloadEventView::FileCreated,
            ) => (
                self.in_state(DownloadStateView::Streaming { total, downloaded: 0, directory }),
                DownloadActionView::ReadBody,
            ),
            (
                DownloadStateView::CreatingFile { total, directory },
                DownloadEventView::FileFailed(text),
            ) => self.fail(DownloadErrorView::Filesystem(text)),
            (
                DownloadStateView::Streaming { total, downloaded, directory },
                DownloadEventView::Chunk(length),
            ) => {
                let position = advanced(downloaded, length, total);
                (
                    self.in_state(
                        DownloadStateView::Streaming { total, downloaded: position, directory },
                    ),
                    DownloadActionView::StoreChunk { position, total },
                )
            },
            (
                DownloadStateView::Streaming { total, downloaded, directory },
                DownloadEventView::ChunkFailed(text),
            ) => self.fail(DownloadErrorView::StreamError(text)),
            (
                DownloadStateView::Streaming { total, downloaded, directory },
                DownloadEventView::FileFailed(text),
            ) => self.fail(DownloadErrorView::Filesystem(text)),
            (
                DownloadStateView::Streaming { total, downloaded, directory },
                DownloadEventView::EndOfStream,
            ) => (
                self.in_state(DownloadStateView::Finished),
                DownloadActionView::Complete(artifact_of(directory, self.version, self.platform)),
            ),
            _ => (self, DownloadActionView::Nothing),
        }
    }

    /// The download after every event of `events`, in their order.
    pub open spec fn after(self, events: Seq<DownloadEventView>) -> DownloadView
        decreases events.len(),
    {
        if events.len() == 0 {
            self
        } else {
            self.after(events.drop_last()).step(events.last()).0
        }
    }

    /// The action that the event at `index` of `events` calls for.
    pub open spec fn action_at(self, events: Seq<DownloadEventView>, index: int) -> DownloadActionView
        recommends
            0 <= index < events.len(),
    {
        self.after(events.take(index)).step(events[index]).1
    }

    /// The download is well formed: no more bytes are accounted for than the host declared.
    pub open spec fn within_total(self) -> bool {
        self.state matches DownloadStateView::Streaming { total, downloaded, .. } ==> downloaded
            <= total
    }
}

impl DownloadEventView {
    /// Whether this is a response with status 200 and a declared length.
    pub open spec fn declares_size(self) -> bool {
        self matches DownloadEventView::Response { status, content_length } && status == STATUS_OK
            && content_length is Some
    }
}

impl DownloadStateView {
    /// The length that the host declared, from the moment it is known
    /// until the download ends.
    pub open spec fn declared_total(self) -> Option<nat> {
        match self {
            DownloadStateView::LocatingDirectory { total } => Some(total),
            DownloadStateView::CreatingDirectory { total, .. } => Some(total),
            DownloadStateView::CreatingFile { total, .. } => Some(total),
            DownloadStateView::Streaming { total, .. } => Some(total),
            _ => None,
        }
    }

    /// Whether a download in state `later` can lie behind one in this
    /// state: the body is never read twice, the declared total stays, and
    /// the byte count does not fall.
    spec fn precedes(self, later: DownloadStateView) -> bool {
        match self {
            DownloadStateView::Streaming { total, downloaded, .. } => match later {
                DownloadStateView::Streaming {
                    total: later_total,
                    downloaded: later_downloaded,
                    ..
                } => later_total == total && downloaded <= later_downloaded,
                DownloadStateView::Finished | DownloadStateView::Failed => true,
                _ => false,
            },
            DownloadStateView::Finished | DownloadStateView::Failed => later == self,
            _ => true,
        }
    }
}

/// Starts the download of `version` for `platform`: returns the machine,
/// waiting for the response, and the request to send.
pub fn download_version(version: &str, platform: Platform) -> (started: (Download, Request))
    ensures
        started.0@ == DownloadView::begin(version@, platform),
        started.0@.within_total(),
        started.1@ == download_request(version@, platform),
{
    let request = send_request(version, platform);
    let download = Download {
        version: String::from_str(version),
        platform,
        state: DownloadState::AwaitingResponse,
    };
    (download, request)
}

impl Download {
    fn failed(version: String, platform: Platform, error: DownloadError) -> (next: (
        Download,
        DownloadAction,
    ))
        ensures
            (next.0@, next.1@) == DownloadView::begin(version@, platform).fail(error@),
    {
        (
            Download { version, platform, state: DownloadState::Failed },
            DownloadAction::Abort(error),
        )
    }

    fn creating_file(version: String, platform: Platform, total: u64, directory: String) -> (next: (
        Download,
        DownloadAction,
    ))
        ensures
            (next.0@, next.1@) == DownloadView::begin(version@, platform).create_file(
                total as nat,
                directory@,
            ),
    {
        let path = archive_file(directory.as_str(), version.as_str(), platform);
        (
            Download { version, platform, state: DownloadState::CreatingFile { total, directory } },
            DownloadAction::CreateFile(path),
        )
    }

    fn unchanged(version: String, platform: Platform, state: DownloadState) -> (next: (
        Download,
        DownloadAction,
    ))
        ensures
            next.0@ == DownloadView::begin(version@, platform).in_state(state@),
            next.1@ == DownloadActionView::Nothing,
    {
        (Download { version, platform, state }, DownloadAction::Nothing)
    }

    /// Takes in what the caller reports and answers with the next action.
    pub fn step(self, event: DownloadEvent) -> (next: (Download, DownloadAction))
        ensures
            (next.0@, next.1@) == self@.step(event@),
            self@.within_total() ==> next.0@.within_total(),
    {
        let Download { version, platform, state } = self;
        match state {
            DownloadState::AwaitingResponse => match event {
                DownloadEvent::RequestFailed(text) => Download::failed(
                    version,
                    platform,
                    DownloadError::NetworkError(text),
                ),
                DownloadEvent::Response { status, content_length } => {
                    if status != STATUS_OK {
                        Download::failed(version, platform, DownloadError::VersionNotFound)
                    } else {
                        match content_length {
                            None => Download::failed(
                                version,
                                platform,
                                DownloadError::MissingContentLength,
                            ),
                            Some(total) => (
                                Download {
                                    version,
                                    platform,
                                    state: DownloadState::LocatingDirectory { total },
                                },
                                DownloadAction::LocateDirectory { total },
                            ),
                        }
                    }
                },
                _ => Download::unchanged(version, platform, DownloadState::AwaitingResponse),
            },
            DownloadState::LocatingDirectory { total } => match event {
                DownloadEvent::DirectoryMissing => Download::failed(
                    version,
                    platform,
                    DownloadError::NoDataDirectory,
                ),
                DownloadEvent::DirectoryProbed { directory, exists } => {
                    if exists {
                        Download::creating_file(version, platform, total, directory)
                    } else {
                        let target = directory.clone();
                        (
                            Download {
                                version,
                                platform,
                                state: DownloadState::CreatingDirectory { total, directory },
                            },
                            DownloadAction::CreateDirectory(target),
                        )
                    }
                },
                _ => Download::unchanged(
                    version,
                    platform,
                    DownloadState::LocatingDirectory { total },
                ),
            },
            DownloadState::CreatingDirectory { total, directory } => match event {
                DownloadEvent::DirectoryCreated => Download::creating_file(
                    version,
                    platform,
                    total,
                    directory,
                ),
                DownloadEvent::DirectoryNotCreated(text) => Download::failed(
                    version,
                    platform,
                    DownloadError::DirectoryCreation(text),
                ),
                _ => Download::unchanged(
                    version,
                    platform,
                    DownloadState::CreatingDirectory { total, directory },
                ),
            },
            DownloadState::CreatingFile { total, directory } => match event {
                DownloadEvent::FileCreated => (
                    Download {
                        version,
                        platform,
                        state: DownloadState::Streaming { total, downloaded: 0, directory },
                    },
                    DownloadAction::ReadBody,
                ),
                DownloadEvent::FileFailed(text) => Download::failed(
                    version,
                    platform,
                    DownloadError::Filesystem(text),
                ),
                _ => Download::unchanged(
                    version,
                    platform,
                    DownloadState::CreatingFile { total, directory },
                ),
            },
            DownloadState::Streaming { total, downloaded, directory } => match event {
                DownloadEvent::Chunk(length) => {
                    let position = advance(downloaded, length, total);
                    (
                        Download {
                            version,
                            platform,
                            state: DownloadState::Streaming { total, downloaded: position, directory },
                        },
                        DownloadAction::StoreChunk { position, total },
                    )
                },
                DownloadEvent::ChunkFailed(text) => Download::failed(
                    version,
                    platform,
                    DownloadError::StreamError(text),
                ),
                DownloadEvent::FileFailed(text) => Download::failed(
                    version,
                    platform,
                    DownloadError::Filesystem(text),
                ),
                DownloadEvent::EndOfStream => {
                    let artifact = DownloadedFile {
                        path: directory,
                        extension: get_file_type(platform),
                        name: version.clone(),
                    };
                    (
                        Download { version, platform, state: DownloadState::Finished },
                        DownloadAction::Complete(artifact),
                    )
                },
                _ => Download::unchanged(
                    version,
                    platform,
                    DownloadState::Streaming { total, downloaded, directory },
                ),
            },
            DownloadState::Finished => Download::unchanged(
                version,
                platform,
                DownloadState::Finished,
            ),
            DownloadState::Failed => Download::unchanged(version, platform, DownloadState::Failed),
        }
    }
}

/// Accounts for a chunk of `length` bytes: the new byte count is the old
/// one plus `length`, held at `total`.
pub fn advance(downloaded: u64, length: usize, total: u64) -> (position: u64)
    ensures
        position == advanced(downloaded as nat, length as nat, total as nat),
{
    match downloaded.checked_add(length as u64) {
        Some(sum) => if sum <= total {
            sum
        } else {
            total
        },
        None => total,
    }
}

proof fn step_keeps_order(download: DownloadView, event: DownloadEventView)
    requires
        download.within_total(),
    ensures
        download.step(event).0.within_total(),
        download.state.precedes(download.step(event).0.state),
{
}

proof fn run_keeps_order(download: DownloadView, events: Seq<DownloadEventView>)
    requires
        download.within_total(),
    ensures
        download.after(events).within_total(),
        download.state.precedes(download.after(events).state),
    decreases events.len(),
{
    if events.len() > 0 {
        run_keeps_order(download, events.drop_last());
        step_keeps_order(download.after(events.drop_last()), events.last());
    }
}

proof fn run_in_two_parts(download: DownloadView, events: Seq<DownloadEventView>, middle: int)
    requires
        0 <= middle <= events.len(),
    ensures
        download.after(events) == download.after(events.take(middle)).after(events.skip(middle)),
    decreases events.len(),
{
    if middle == events.len() {
        assert(events.take(middle) =~= events);
        assert(events.skip(middle) =~= Seq::<DownloadEventView>::empty());
    } else {
        run_in_two_parts(download, events.drop_last(), middle);
        assert(events.drop_last().take(middle) =~= events.take(middle));
        assert(events.drop_last().skip(middle) =~= events.skip(middle).drop_last());
        assert(events.skip(middle).last() == events.last());
    }
}

/// Progress never falls and never passes the declared total: of two
/// chunks of one download, the later one is stored at a position that is
/// no smaller, under the same total, and at most that total, however many
/// bytes arrive.
pub proof fn progress_is_monotone_and_bounded(
    version: Seq<char>,
    platform: Platform,
    events: Seq<DownloadEventView>,
    earlier: int,
    later: int,
)
    requires
        0 <= earlier <= later < events.len(),
    ensures
        ({
            let download = DownloadView::begin(version, platform);
            download.action_at(events, earlier) matches DownloadActionView::StoreChunk {
                position: first_position,
                total: first_total,
            } ==> (download.action_at(events, later) matches DownloadActionView::StoreChunk {
                position: second_position,
                total: second_total,
            } ==> first_position <= second_position <= second_total && first_total
                == second_total)
        }),
{
    let download = DownloadView::begin(version, platform);
    let before_first = download.after(events.take(earlier));
    let before_second = download.after(events.take(later));
    run_keeps_order(download, events.take(earlier));
    run_keeps_order(download, events.take(later));
    if earlier < later {
        let after_first = download.after(events.take(earlier + 1));
        assert(events.take(earlier + 1).drop_last() =~= events.take(earlier));
        assert(events.take(earlier + 1).last() == events[earlier]);
        assert(after_first == before_first.step(events[earlier]).0);
        step_keeps_order(before_first, events[earlier]);
        run_in_two_parts(download, events.take(later), earlier + 1);
        assert(events.take(later).take(earlier + 1) =~= events.take(earlier + 1));
        run_keeps_order(after_first, events.take(later).skip(earlier + 1));
    }
}

proof fn total_comes_from_the_response(
    version: Seq<char>,
    platform: Platform,
    events: Seq<DownloadEventView>,
    total: nat,
)
    requires
        DownloadView::begin(version, platform).after(events).state.declared_total() == Some(total),
    ensures
        exists|earlier: int|
            0 <= earlier < events.len() && #[trigger] events[earlier]
                == (DownloadEventView::Response {
                status: STATUS_OK as nat,
                content_length: Some(total),
            }),
    decreases events.len(),
{
    let download = DownloadView::begin(version, platform);
    if events.len() > 0 {
        let before = download.after(events.drop_last());
        if before.state.declared_total() == Some(total) {
            total_comes_from_the_response(version, platform, events.drop_last(), total);
            let earlier = choose|earlier: int|
                0 <= earlier < events.drop_last().len() && #[trigger] events.drop_last()[earlier]
                    == (DownloadEventView::Response {
                    status: STATUS_OK as nat,
                    content_length: Some(total),
                });
            assert(events[earlier] == events.drop_last()[earlier]);
        } else {
            assert(events[events.len() - 1] == events.last());
        }
    }
}

/// The total under which a chunk is stored is the length that the host
/// declared: a response with status 200 and that very length came in
/// before the chunk.
pub proof fn chunks_count_toward_the_declared_length(
    version: Seq<char>,
    platform: Platform,
    events: Seq<DownloadEventView>,
    index: int,
)
    requires
        0 <= index < events.len(),
    ensures
        DownloadView::begin(version, platform).action_at(events, index)
            matches DownloadActionView::StoreChunk { total, .. } ==> exists|earlier: int|
            0 <= earlier < index && #[trigger] events[earlier] == (DownloadEventView::Response {
                status: STATUS_OK as nat,
                content_length: Some(total),
            }),
{
    let download = DownloadView::begin(version, platform);
    if let DownloadActionView::StoreChunk { total, .. } = download.action_at(events, index) {
        total_comes_from_the_response(version, platform, events.take(index), total);
        let earlier = choose|earlier: int|
            0 <= earlier < events.take(index).len() && #[trigger] events.take(index)[earlier]
                == (DownloadEventView::Response {
                status: STATUS_OK as nat,
                content_length: Some(total),
            });
        assert(events[earlier] == events.take(index)[earlier]);
    }
}

/// Until a response with status 200 and a declared length has come in,
/// nothing is created or written: every action up to then is either
/// `Nothing` or gives the download up.
pub proof fn nothing_is_created_before_the_size_is_declared(
    version: Seq<char>,
    platform: Platform,
    events: Seq<DownloadEventView>,
    index: int,
)
    requires
        0 <= index < events.len(),
        forall|earlier: int| 0 <= earlier <= index ==> !(#[trigger] events[earlier]).declares_size(),
    ensures
        ({
            let download = DownloadView::begin(version, platform);
            let before = download.after(events.take(index)).state;
            &&& before is AwaitingResponse || before is Failed
            &&& match download.action_at(events, index) {
                DownloadActionView::Nothing => true,
                DownloadActionView::Abort(error) => error is NetworkError || error is VersionNotFound
                    || error is MissingContentLength,
                _ => false,
            }
        }),
    decreases index,
{
    let download = DownloadView::begin(version, platform);
    if index > 0 {
        nothing_is_created_before_the_size_is_declared(version, platform, events, index - 1);
        assert(events.take(index).drop_last() =~= events.take(index - 1));
        assert(events.take(index).last() == events[index - 1]);
    }
}

/// A response with any status but 200 gives the download up as
/// `VersionNotFound`, whatever length it declares.
pub proof fn other_status_means_version_not_found(
    version: Seq<char>,
    platform: Platform,
    status: nat,
    content_length: Option<nat>,
)
    requires
        status != STATUS_OK,
    ensures
        ({
            let download = DownloadView::begin(version, platform);
            download.step(DownloadEventView::Response { status, content_length }) == (
                download.in_state(DownloadStateView::Failed),
                DownloadActionView::Abort(DownloadErrorView::VersionNotFound),
            )
        }),
{
}

/// A response with status 200 that declares no length gives the download
/// up as `MissingContentLength`; by then nothing has been created.
pub proof fn undeclared_length_is_refused(version: Seq<char>, platform: Platform)
    ensures
        ({
            let download = DownloadView::begin(version, platform);
            download.step(
                DownloadEventView::Response { status: STATUS_OK as nat, content_length: None },
            ) == (
                download.in_state(DownloadStateView::Failed),
                DownloadActionView::Abort(DownloadErrorView::MissingContentLength),
            )
        }),
{
}

/// A descriptor is only handed out when the body has ended, and it names
/// the version that was asked for with the suffix of the platform.
pub proof fn artifact_comes_with_the_end_of_the_body(
    download: DownloadView,
    event: DownloadEventView,
)
    ensures
        download.step(event).1 matches DownloadActionView::Complete(artifact) ==> ({
            &&& event is EndOfStream
            &&& download.state is Streaming
            &&& download.step(event).0.state is Finished
            &&& artifact.name == download.version
            &&& artifact.extension == file_type_of(download.platform)
        }),
{
}

/// A download that is complete or given up stays so: no event moves it
/// and every later action is `Nothing`.
pub proof fn ended_download_stays_ended(download: DownloadView, events: Seq<DownloadEventView>)
    requires
        download.state is Finished || download.state is Failed,
    ensures
        download.after(events) == download,
        forall|index: int|
            0 <= index < events.len() ==> #[trigger] download.action_at(events, index)
                == DownloadActionView::Nothing,
    decreases events.len(),
{
    if events.len() > 0 {
        ended_download_stays_ended(download, events.drop_last());
        assert forall|index: int| 0 <= index < events.len() implies #[trigger] download.action_at(
            events,
            index,
        ) == DownloadActionView::Nothing by {
            ended_download_stays_ended(download, events.take(index));
        }
    }
}

} // verus!

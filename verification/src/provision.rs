//! The artifact provisioner: a file is fetched once, and never again while
//! it stays on disk.
//!
//! The provisioner does no I/O itself. It is a state machine: the caller
//! performs each action it asks for and reports what came of it.

use vstd::prelude::*;

verus! {

/// Why an artifact could not be provided.
#[derive(Clone, Copy, Debug, PartialEq, Eq, Structural)]
pub enum DownloadError {
    /// The request failed, the server refused it, or the body broke off.
    Transport,
    /// The directory or the file could not be created or written.
    Storage,
}

/// Where a download stands.
#[derive(Clone, Copy, Debug, PartialEq, Eq, Structural)]
pub enum DownloadPhase {
    /// The destination directory is being created.
    CreatingDir,
    /// The destination file is being looked for.
    Checking,
    /// The request is under way.
    Requesting,
    /// The destination file is being created.
    Creating,
    /// The body is being written to the file, chunk by chunk.
    Streaming,
    /// The file is in place.
    Succeeded,
    /// The download has failed.
    Failed(DownloadError),
}

/// One download: its phase and its progress in bytes.
#[derive(Clone, Copy, Debug, PartialEq, Eq)]
pub struct Download {
    pub phase: DownloadPhase,
    /// The length that the server announced; `None` while unknown.
    pub total: Option<u64>,
    /// The bytes written so far.
    pub written: u64,
}

/// What the caller reports back.
#[derive(Clone, Copy, Debug, PartialEq, Eq)]
pub enum DownloadEvent {
    /// The directory exists now (`true`), or could not be created.
    DirCreated(bool),
    /// Whether the destination file exists.
    Checked(bool),
    /// The request failed before any response.
    RequestFailed,
    /// A response arrived, with a success status or not, and maybe a length.
    Responded { success: bool, length: Option<u64> },
    /// The destination file was created (`true`), or could not be.
    Created(bool),
    /// A chunk of this many bytes arrived and was written.
    Chunk(u64),
    /// The body broke off, or the chunk could not be written.
    ChunkFailed(DownloadError),
    /// The body is complete.
    BodyEnded,
}

/// What the caller is to do next.
#[derive(Clone, Copy, Debug, PartialEq, Eq)]
pub enum DownloadAction {
    /// Create the destination directory and its parents.
    CreateDir,
    /// Look whether the destination file exists.
    CheckExists,
    /// Send the request.
    Request,
    /// Create the destination file.
    CreateFile,
    /// Take the next chunk of the body and write it to the file.
    NextChunk,
    /// Stop: the result is final.
    Finish(Result<(), DownloadError>),
    /// Nothing new: the event answers no action that is under way.
    Nothing,
}

/// The sum of `a` and `b`, held at the largest `u64` where it would pass it.
pub open spec fn saturating_sum(a: u64, b: u64) -> u64 {
    if a + b > u64::MAX {
        u64::MAX
    } else {
        (a + b) as u64
    }
}

/// The download that has not begun.
pub open spec fn download_start() -> Download {
    Download { phase: DownloadPhase::CreatingDir, total: None, written: 0 }
}

/// The download in the phase `phase`, with the progress of `download`.
pub open spec fn in_phase(download: Download, phase: DownloadPhase) -> Download {
    Download { phase, total: download.total, written: download.written }
}

/// The download after `event`, and the action that the event calls for.
pub open spec fn download_step(download: Download, event: DownloadEvent) -> (
    Download,
    DownloadAction,
) {
    let storage = (
        in_phase(download, DownloadPhase::Failed(DownloadError::Storage)),
        DownloadAction::Finish(Err(DownloadError::Storage)),
    );
    let transport = (
        in_phase(download, DownloadPhase::Failed(DownloadError::Transport)),
        DownloadAction::Finish(Err(DownloadError::Transport)),
    );
    let done = (in_phase(download, DownloadPhase::Succeeded), DownloadAction::Finish(Ok(())));
    match (download.phase, event) {
        (DownloadPhase::CreatingDir, DownloadEvent::DirCreated(true)) => (
            in_phase(download, DownloadPhase::Checking),
            DownloadAction::CheckExists,
        ),
        (DownloadPhase::CreatingDir, DownloadEvent::DirCreated(false)) => storage,
        (DownloadPhase::Checking, DownloadEvent::Checked(true)) => done,
        (DownloadPhase::Checking, DownloadEvent::Checked(false)) => (
            in_phase(download, DownloadPhase::Requesting),
            DownloadAction::Request,
        ),
        (DownloadPhase::Requesting, DownloadEvent::RequestFailed) => transport,
        (DownloadPhase::Requesting, DownloadEvent::Responded { success: false, length }) => transport,
        (DownloadPhase::Requesting, DownloadEvent::Responded { success: true, length }) => (
            Download { phase: DownloadPhase::Creating, total: length, written: 0 },
            DownloadAction::CreateFile,
        ),
        (DownloadPhase::Creating, DownloadEvent::Created(true)) => (
            in_phase(download, DownloadPhase::Streaming),
            DownloadAction::NextChunk,
        ),
        (DownloadPhase::Creating, DownloadEvent::Created(false)) => storage,
        (DownloadPhase::Streaming, DownloadEvent::Chunk(len)) => (
            Download {
                phase: DownloadPhase::Streaming,
                total: download.total,
                written: saturating_sum(download.written, len),
            },
            DownloadAction::NextChunk,
        ),
        (DownloadPhase::Streaming, DownloadEvent::ChunkFailed(error)) => (
            in_phase(download, DownloadPhase::Failed(error)),
            DownloadAction::Finish(Err(error)),
        ),
        (DownloadPhase::Streaming, DownloadEvent::BodyEnded) => done,
        _ => (download, DownloadAction::Nothing),
    }
}

/// The download of a file that is fetched whatever is on disk, at its
/// beginning: the request is under way.
pub open spec fn request_start() -> Download {
    Download { phase: DownloadPhase::Requesting, total: None, written: 0 }
}

/// The step of a download that shows its progress against the length that
/// the server announced. It differs from `download_step` in the response
/// alone: a response without a length is a transport error, and one with a
/// length is taken whatever its status.
pub open spec fn measured_step(download: Download, event: DownloadEvent) -> (
    Download,
    DownloadAction,
) {
    match (download.phase, event) {
        (DownloadPhase::Requesting, DownloadEvent::Responded { success, length: None }) => (
            in_phase(download, DownloadPhase::Failed(DownloadError::Transport)),
            DownloadAction::Finish(Err(DownloadError::Transport)),
        ),
        (DownloadPhase::Requesting, DownloadEvent::Responded { success, length: Some(total) }) => (
            Download { phase: DownloadPhase::Creating, total: Some(total), written: 0 },
            DownloadAction::CreateFile,
        ),
        _ => download_step(download, event),
    }
}

impl Download {
    /// A download that has not begun. Its first action is to create the
    /// destination directory.
    pub fn start() -> (begun: (Download, DownloadAction))
        ensures
            begun == (download_start(), DownloadAction::CreateDir),
    {
        (
            Download { phase: DownloadPhase::CreatingDir, total: None, written: 0 },
            DownloadAction::CreateDir,
        )
    }

    /// A download that fetches the file whatever is on disk. Its first
    /// action is the request.
    pub fn request() -> (begun: (Download, DownloadAction))
        ensures
            begun == (request_start(), DownloadAction::Request),
    {
        (
            Download { phase: DownloadPhase::Requesting, total: None, written: 0 },
            DownloadAction::Request,
        )
    }

    /// Whether the download has come to its end, well or badly.
    pub open spec fn is_done(self) -> bool {
        self.phase is Succeeded || self.phase is Failed
    }

    /// The result of the download once it has ended.
    pub fn result(&self) -> (r: Option<Result<(), DownloadError>>)
        ensures
            r == match self.phase {
                DownloadPhase::Succeeded => Some(Ok::<(), DownloadError>(())),
                DownloadPhase::Failed(error) => Some(Err::<(), DownloadError>(error)),
                _ => None,
            },
    {
        match self.phase {
            DownloadPhase::Succeeded => Some(Ok(())),
            DownloadPhase::Failed(error) => Some(Err(error)),
            _ => None,
        }
    }

    /// The position to show on a progress display: the bytes written, held at
    /// the announced length where one is known.
    pub fn position(&self) -> (shown: u64)
        ensures
            shown == match self.total {
                Some(total) => if self.written <= total {
                    self.written
                } else {
                    total
                },
                None => self.written,
            },
    {
        match self.total {
            Some(total) => advance_position(self.written, 0, total),
            None => self.written,
        }
    }
}

/// The position of a progress display after a chunk of `chunk` bytes, for a
/// body of `total` bytes of which `downloaded` were shown: their sum, held at
/// `total`.
pub fn advance_position(downloaded: u64, chunk: u64, total: u64) -> (position: u64)
    ensures
        position == if downloaded + chunk <= total {
            downloaded + chunk
        } else {
            total as int
        },
{
    match downloaded.checked_add(chunk) {
        Some(sum) => if sum <= total {
            sum
        } else {
            total
        },
        None => total,
    }
}

/// Makes sure that a file is in place, one step at a time: takes the download
/// and what the caller reports, and gives the download after it and the next
/// action.
///
/// The directory is created first. A file that exists is left as it is, and
/// the download ends well without a request. Otherwise the file is requested
/// and written chunk by chunk. A failed request, a status that is no success
/// and a body that breaks off are transport errors; a directory or a file
/// that cannot be created or written is a storage error. A response without
/// a length is no error: the total stays unknown.
pub fn try_download_file(download: Download, event: DownloadEvent) -> (next: (
    Download,
    DownloadAction,
))
    ensures
        next == download_step(download, event),
{
    let Download { phase, total, written } = download;
    match (phase, event) {
        (DownloadPhase::CreatingDir, DownloadEvent::DirCreated(true)) => (
            Download { phase: DownloadPhase::Checking, total, written },
            DownloadAction::CheckExists,
        ),
        (DownloadPhase::CreatingDir, DownloadEvent::DirCreated(false)) => fail(
            download,
            DownloadError::Storage,
        ),
        (DownloadPhase::Checking, DownloadEvent::Checked(true)) => succeed(download),
        (DownloadPhase::Checking, DownloadEvent::Checked(false)) => (
            Download { phase: DownloadPhase::Requesting, total, written },
            DownloadAction::Request,
        ),
        (DownloadPhase::Requesting, DownloadEvent::RequestFailed) => fail(
            download,
            DownloadError::Transport,
        ),
        (DownloadPhase::Requesting, DownloadEvent::Responded { success, length }) => {
            if success {
                (
                    Download { phase: DownloadPhase::Creating, total: length, written: 0 },
                    DownloadAction::CreateFile,
                )
            } else {
                fail(download, DownloadError::Transport)
            }
        },
        (DownloadPhase::Creating, DownloadEvent::Created(true)) => (
            Download { phase: DownloadPhase::Streaming, total, written },
            DownloadAction::NextChunk,
        ),
        (DownloadPhase::Creating, DownloadEvent::Created(false)) => fail(
            download,
            DownloadError::Storage,
        ),
        (DownloadPhase::Streaming, DownloadEvent::Chunk(len)) => {
            let sum: u64 = match written.checked_add(len) {
                Some(sum) => sum,
                None => u64::MAX,
            };
            (Download { phase: DownloadPhase::Streaming, total, written: sum }, DownloadAction::NextChunk)
        },
        (DownloadPhase::Streaming, DownloadEvent::ChunkFailed(error)) => fail(download, error),
        (DownloadPhase::Streaming, DownloadEvent::BodyEnded) => succeed(download),
        _ => (download, DownloadAction::Nothing),
    }
}

/// Fetches a file and shows the progress against its length, one step at a
/// time: takes the download and what the caller reports, and gives the
/// download after it and the next action.
///
/// The download begins with the request. The server has to announce the
/// length of the body, which the progress is measured against: a response
/// without one is an error. From there on the file is created and written
/// chunk by chunk.
pub fn download_file(download: Download, event: DownloadEvent) -> (next: (Download, DownloadAction))
    ensures
        next == measured_step(download, event),
{
    match (download.phase, event) {
        (DownloadPhase::Requesting, DownloadEvent::Responded { success: _, length }) => match length {
            Some(total) => (
                Download { phase: DownloadPhase::Creating, total: Some(total), written: 0 },
                DownloadAction::CreateFile,
            ),
            None => fail(download, DownloadError::Transport),
        },
        _ => try_download_file(download, event),
    }
}

/// The download ended by `error`.
fn fail(download: Download, error: DownloadError) -> (next: (Download, DownloadAction))
    ensures
        next == (
            in_phase(download, DownloadPhase::Failed(error)),
            DownloadAction::Finish(Err(error)),
        ),
{
    (
        Download {
            phase: DownloadPhase::Failed(error),
            total: download.total,
            written: download.written,
        },
        DownloadAction::Finish(Err(error)),
    )
}

/// The download ended well.
fn succeed(download: Download) -> (next: (Download, DownloadAction))
    ensures
        next == (in_phase(download, DownloadPhase::Succeeded), DownloadAction::Finish(Ok(()))),
{
    (
        Download {
            phase: DownloadPhase::Succeeded,
            total: download.total,
            written: download.written,
        },
        DownloadAction::Finish(Ok(())),
    )
}

/// The download after all of `events`, from `download` on.
pub open spec fn download_after(download: Download, events: Seq<DownloadEvent>) -> Download
    decreases events.len(),
{
    if events.len() == 0 {
        download
    } else {
        download_step(download_after(download, events.drop_last()), events.last()).0
    }
}

/// The actions that `events` call for, one for each event, from `download` on.
pub open spec fn download_actions(download: Download, events: Seq<DownloadEvent>) -> Seq<
    DownloadAction,
>
    decreases events.len(),
{
    if events.len() == 0 {
        Seq::empty()
    } else {
        download_actions(download, events.drop_last()).push(
            download_step(download_after(download, events.drop_last()), events.last()).1,
        )
    }
}

/// A download that has ended stays as it is, whatever is reported, and asks
/// for nothing more.
pub proof fn lemma_done_is_final(download: Download, events: Seq<DownloadEvent>)
    requires
        download.is_done(),
    ensures
        download_after(download, events) == download,
        forall|i: int|
            0 <= i < events.len() ==> #[trigger] download_actions(download, events)[i]
                == DownloadAction::Nothing,
        download_actions(download, events).len() == events.len(),
    decreases events.len(),
{
    if events.len() > 0 {
        lemma_done_is_final(download, events.drop_last());
    }
}

/// The download after `first` and then `rest` is the download after `rest`,
/// taken from where `first` led; the actions follow likewise.
pub proof fn lemma_download_split(
    download: Download,
    first: Seq<DownloadEvent>,
    rest: Seq<DownloadEvent>,
)
    ensures
        download_after(download, first + rest) == download_after(
            download_after(download, first),
            rest,
        ),
        download_actions(download, first + rest) == download_actions(download, first)
            + download_actions(download_after(download, first), rest),
    decreases rest.len(),
{
    let all = first + rest;
    if rest.len() == 0 {
        assert(all =~= first);
        assert(download_actions(download, first) + Seq::<DownloadAction>::empty()
            =~= download_actions(download, first));
    } else {
        lemma_download_split(download, first, rest.drop_last());
        assert(all.drop_last() =~= first + rest.drop_last());
        assert(all.last() == rest.last());
        let mid = download_after(download, first);
        assert(download_actions(download, all) =~= download_actions(download, first)
            + download_actions(mid, rest));
    }
}

/// Where the destination file exists already, the download ends well and no
/// request is ever made: none of the actions, however many events follow,
/// touches the network or the file.
pub proof fn lemma_existing_file_is_kept(events: Seq<DownloadEvent>)
    requires
        events.len() >= 2,
        events[0] == DownloadEvent::DirCreated(true),
        events[1] == DownloadEvent::Checked(true),
    ensures
        download_after(download_start(), events).phase == DownloadPhase::Succeeded,
        download_actions(download_start(), events).len() == events.len(),
        download_actions(download_start(), events)[1] == DownloadAction::Finish(Ok(())),
        forall|i: int|
            0 <= i < events.len() ==> {
                let action = #[trigger] download_actions(download_start(), events)[i];
                action != DownloadAction::Request && action != DownloadAction::CreateFile
                    && action != DownloadAction::NextChunk
            },
{
    let first = events.subrange(0, 2);
    let rest = events.subrange(2, events.len() as int);
    assert(events =~= first + rest);
    let start = download_start();
    assert(first.drop_last() =~= seq![events[0]]);
    assert(first.drop_last().drop_last() =~= Seq::<DownloadEvent>::empty());
    assert(first.last() == events[1]);
    assert(first.drop_last().last() == events[0]);
    let one = download_after(start, first.drop_last());
    assert(download_after(start, first.drop_last().drop_last()) == start);
    assert(one == in_phase(start, DownloadPhase::Checking));
    let two = download_after(start, first);
    assert(two == in_phase(start, DownloadPhase::Succeeded));
    assert(download_actions(start, first.drop_last().drop_last()) =~= Seq::<DownloadAction>::empty());
    assert(download_actions(start, first.drop_last()) =~= seq![DownloadAction::CheckExists]);
    assert(download_actions(start, first) =~= seq![
        DownloadAction::CheckExists,
        DownloadAction::Finish(Ok(())),
    ]);
    lemma_download_split(start, first, rest);
    lemma_done_is_final(two, rest);
    assert forall|i: int| 0 <= i < events.len() implies {
        let action = #[trigger] download_actions(start, events)[i];
        action != DownloadAction::Request && action != DownloadAction::CreateFile && action
            != DownloadAction::NextChunk
    } by {
        if i >= 2 {
            assert(download_actions(start, events)[i] == download_actions(two, rest)[i - 2]);
        }
    }
}

} // verus!

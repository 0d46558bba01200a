use azalea_viaversion::provision::{
    advance_position, download_file, try_download_file, Download, DownloadAction, DownloadError,
    DownloadEvent, DownloadPhase,
};

fn run(events: &[DownloadEvent]) -> (Download, Vec<DownloadAction>) {
    let (mut download, first) = Download::start();
    let mut actions = vec![first];
    for event in events {
        let (next, action) = try_download_file(download, *event);
        download = next;
        actions.push(action);
    }
    (download, actions)
}

#[test]
fn download_begins_with_the_directory() {
    let (download, action) = Download::start();
    assert_eq!(download, Download { phase: DownloadPhase::CreatingDir, total: None, written: 0 });
    assert_eq!(action, DownloadAction::CreateDir);
    assert_eq!(download.result(), None);
}

#[test]
fn existing_file_needs_no_request() {
    let (download, actions) = run(&[DownloadEvent::DirCreated(true), DownloadEvent::Checked(true)]);
    assert_eq!(download.phase, DownloadPhase::Succeeded);
    assert_eq!(download.result(), Some(Ok(())));
    assert_eq!(
        actions,
        vec![DownloadAction::CreateDir, DownloadAction::CheckExists, DownloadAction::Finish(Ok(()))]
    );
}

#[test]
fn existing_file_stays_untouched_whatever_follows() {
    let (download, actions) = run(&[
        DownloadEvent::DirCreated(true),
        DownloadEvent::Checked(true),
        DownloadEvent::Checked(false),
        DownloadEvent::Responded { success: true, length: Some(3) },
        DownloadEvent::Chunk(3),
        DownloadEvent::BodyEnded,
    ]);
    assert_eq!(download.phase, DownloadPhase::Succeeded);
    assert_eq!(download.written, 0);
    assert!(!actions.contains(&DownloadAction::Request));
    assert!(!actions.contains(&DownloadAction::CreateFile));
    assert!(!actions.contains(&DownloadAction::NextChunk));
    assert_eq!(&actions[3..], &[DownloadAction::Nothing; 4]);
}

#[test]
fn missing_file_is_fetched_chunk_by_chunk() {
    let (download, actions) = run(&[
        DownloadEvent::DirCreated(true),
        DownloadEvent::Checked(false),
        DownloadEvent::Responded { success: true, length: Some(10) },
        DownloadEvent::Created(true),
        DownloadEvent::Chunk(4),
        DownloadEvent::Chunk(6),
        DownloadEvent::BodyEnded,
    ]);
    assert_eq!(
        download,
        Download { phase: DownloadPhase::Succeeded, total: Some(10), written: 10 }
    );
    assert_eq!(
        actions,
        vec![
            DownloadAction::CreateDir,
            DownloadAction::CheckExists,
            DownloadAction::Request,
            DownloadAction::CreateFile,
            DownloadAction::NextChunk,
            DownloadAction::NextChunk,
            DownloadAction::NextChunk,
            DownloadAction::Finish(Ok(())),
        ]
    );
}

#[test]
fn missing_length_is_no_error() {
    let (download, _) = run(&[
        DownloadEvent::DirCreated(true),
        DownloadEvent::Checked(false),
        DownloadEvent::Responded { success: true, length: None },
        DownloadEvent::Created(true),
        DownloadEvent::Chunk(7),
    ]);
    assert_eq!(download, Download { phase: DownloadPhase::Streaming, total: None, written: 7 });
    assert_eq!(download.position(), 7);
    assert_eq!(download.result(), None);
}

#[test]
fn directory_failure_is_a_storage_error() {
    let (download, actions) = run(&[DownloadEvent::DirCreated(false)]);
    assert_eq!(download.result(), Some(Err(DownloadError::Storage)));
    assert_eq!(actions[1], DownloadAction::Finish(Err(DownloadError::Storage)));
}

#[test]
fn request_failure_is_a_transport_error() {
    let (download, actions) = run(&[
        DownloadEvent::DirCreated(true),
        DownloadEvent::Checked(false),
        DownloadEvent::RequestFailed,
    ]);
    assert_eq!(download.result(), Some(Err(DownloadError::Transport)));
    assert_eq!(actions[3], DownloadAction::Finish(Err(DownloadError::Transport)));
}

#[test]
fn refused_request_is_a_transport_error() {
    let (download, actions) = run(&[
        DownloadEvent::DirCreated(true),
        DownloadEvent::Checked(false),
        DownloadEvent::Responded { success: false, length: Some(9) },
    ]);
    assert_eq!(download.result(), Some(Err(DownloadError::Transport)));
    assert_eq!(download.total, None);
    assert_eq!(actions[3], DownloadAction::Finish(Err(DownloadError::Transport)));
}

#[test]
fn file_that_cannot_be_created_is_a_storage_error() {
    let (download, _) = run(&[
        DownloadEvent::DirCreated(true),
        DownloadEvent::Checked(false),
        DownloadEvent::Responded { success: true, length: Some(9) },
        DownloadEvent::Created(false),
    ]);
    assert_eq!(download.result(), Some(Err(DownloadError::Storage)));
}

#[test]
fn failure_in_the_body_keeps_its_kind() {
    let begin = [
        DownloadEvent::DirCreated(true),
        DownloadEvent::Checked(false),
        DownloadEvent::Responded { success: true, length: Some(9) },
        DownloadEvent::Created(true),
        DownloadEvent::Chunk(5),
    ];
    let mut broken = begin.to_vec();
    broken.push(DownloadEvent::ChunkFailed(DownloadError::Transport));
    let (download, _) = run(&broken);
    assert_eq!(
        download,
        Download {
            phase: DownloadPhase::Failed(DownloadError::Transport),
            total: Some(9),
            written: 5,
        }
    );
    let mut full = begin.to_vec();
    full.push(DownloadEvent::ChunkFailed(DownloadError::Storage));
    let (download, _) = run(&full);
    assert_eq!(download.result(), Some(Err(DownloadError::Storage)));
}

#[test]
fn event_out_of_turn_changes_nothing() {
    let (download, first) = Download::start();
    assert_eq!(first, DownloadAction::CreateDir);
    let (next, action) = try_download_file(download, DownloadEvent::Chunk(5));
    assert_eq!(next, download);
    assert_eq!(action, DownloadAction::Nothing);
    let (next, action) = try_download_file(download, DownloadEvent::Checked(true));
    assert_eq!(next, download);
    assert_eq!(action, DownloadAction::Nothing);
}

#[test]
fn written_bytes_stop_at_the_largest_number() {
    let streaming = Download { phase: DownloadPhase::Streaming, total: None, written: u64::MAX - 1 };
    let (next, action) = try_download_file(streaming, DownloadEvent::Chunk(5));
    assert_eq!(next.written, u64::MAX);
    assert_eq!(action, DownloadAction::NextChunk);
}

#[test]
fn position_stops_at_the_total() {
    assert_eq!(advance_position(0, 4, 10), 4);
    assert_eq!(advance_position(4, 6, 10), 10);
    assert_eq!(advance_position(8, 6, 10), 10);
    assert_eq!(advance_position(u64::MAX, 1, 10), 10);
    assert_eq!(advance_position(0, 0, 0), 0);
    let ahead = Download { phase: DownloadPhase::Streaming, total: Some(8), written: 12 };
    assert_eq!(ahead.position(), 8);
    let behind = Download { phase: DownloadPhase::Streaming, total: Some(8), written: 3 };
    assert_eq!(behind.position(), 3);
}

fn run_measured(events: &[DownloadEvent]) -> (Download, Vec<DownloadAction>) {
    let (mut download, first) = Download::request();
    let mut actions = vec![first];
    for event in events {
        let (next, action) = download_file(download, *event);
        download = next;
        actions.push(action);
    }
    (download, actions)
}

#[test]
fn measured_download_begins_with_the_request() {
    let (download, action) = Download::request();
    assert_eq!(download, Download { phase: DownloadPhase::Requesting, total: None, written: 0 });
    assert_eq!(action, DownloadAction::Request);
}

#[test]
fn measured_download_needs_a_length() {
    let (download, actions) = run_measured(&[DownloadEvent::Responded { success: true, length: None }]);
    assert_eq!(download.result(), Some(Err(DownloadError::Transport)));
    assert_eq!(actions[1], DownloadAction::Finish(Err(DownloadError::Transport)));
}

#[test]
fn measured_download_does_not_look_at_the_status() {
    let (download, actions) =
        run_measured(&[DownloadEvent::Responded { success: false, length: Some(5) }]);
    assert_eq!(download, Download { phase: DownloadPhase::Creating, total: Some(5), written: 0 });
    assert_eq!(actions[1], DownloadAction::CreateFile);
}

#[test]
fn measured_download_runs_to_the_end() {
    let (download, actions) = run_measured(&[
        DownloadEvent::Responded { success: true, length: Some(5) },
        DownloadEvent::Created(true),
        DownloadEvent::Chunk(3),
        DownloadEvent::Chunk(4),
        DownloadEvent::BodyEnded,
    ]);
    assert_eq!(download, Download { phase: DownloadPhase::Succeeded, total: Some(5), written: 7 });
    assert_eq!(download.position(), 5);
    assert_eq!(
        actions,
        vec![
            DownloadAction::Request,
            DownloadAction::CreateFile,
            DownloadAction::NextChunk,
            DownloadAction::NextChunk,
            DownloadAction::NextChunk,
            DownloadAction::Finish(Ok(())),
        ]
    );
}

#[test]
fn measured_download_fails_as_the_other_does() {
    let (download, _) = run_measured(&[DownloadEvent::RequestFailed]);
    assert_eq!(download.result(), Some(Err(DownloadError::Transport)));
    let (download, _) = run_measured(&[
        DownloadEvent::Responded { success: true, length: Some(5) },
        DownloadEvent::Created(false),
    ]);
    assert_eq!(download.result(), Some(Err(DownloadError::Storage)));
}

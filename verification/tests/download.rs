use bob::download::{
    advance, download_version, Download, DownloadAction, DownloadEvent, DownloadState, STATUS_OK,
};
use bob::fetch::{DownloadError, DownloadedFile};
use bob::platform::Platform;

fn started() -> Download {
    download_version("v0.9.2", Platform::Linux).0
}

fn accepted(total: u64) -> Download {
    let (download, action) =
        started().step(DownloadEvent::Response { status: 200, content_length: Some(total) });
    assert_eq!(action, DownloadAction::LocateDirectory { total });
    download
}

fn streaming(total: u64) -> Download {
    let (download, action) = accepted(total).step(DownloadEvent::DirectoryProbed {
        directory: String::from("/data/bob"),
        exists: true,
    });
    assert_eq!(action, DownloadAction::CreateFile(String::from("/data/bob/v0.9.2.tar.gz")));
    let (download, action) = download.step(DownloadEvent::FileCreated);
    assert_eq!(action, DownloadAction::ReadBody);
    download
}

fn positions(mut download: Download, chunks: &[usize]) -> Vec<u64> {
    let mut seen = Vec::new();
    for length in chunks {
        let (next, action) = download.step(DownloadEvent::Chunk(*length));
        match action {
            DownloadAction::StoreChunk { position, .. } => seen.push(position),
            other => panic!("unexpected action {:?}", other),
        }
        download = next;
    }
    seen
}

#[test]
fn download_starts_by_waiting_for_the_response() {
    let (download, request) = download_version("v0.9.2", Platform::Linux);
    assert_eq!(download.state, DownloadState::AwaitingResponse);
    assert_eq!(download.version, "v0.9.2");
    assert_eq!(download.platform, Platform::Linux);
    assert_eq!(
        request.url,
        "https://github.com/neovim/neovim/releases/download/v0.9.2/nvim-linux64.tar.gz"
    );
    assert_eq!(request.user_agent, "bob");
}

#[test]
fn status_constant_is_200() {
    assert_eq!(STATUS_OK, 200);
}

#[test]
fn advance_adds_up_to_the_total() {
    assert_eq!(advance(0, 0, 10), 0);
    assert_eq!(advance(0, 4, 10), 4);
    assert_eq!(advance(4, 6, 10), 10);
    assert_eq!(advance(4, 7, 10), 10);
    assert_eq!(advance(10, 1, 10), 10);
    assert_eq!(advance(0, 5, 0), 0);
}

#[test]
fn advance_does_not_overflow() {
    assert_eq!(advance(u64::MAX - 1, usize::MAX, u64::MAX), u64::MAX);
    assert_eq!(advance(u64::MAX, 1, u64::MAX), u64::MAX);
}

#[test]
fn progress_rises_and_stops_at_the_total() {
    assert_eq!(positions(streaming(10), &[4, 4, 4, 4]), vec![4, 8, 10, 10]);
}

#[test]
fn progress_with_more_bytes_than_declared() {
    let seen = positions(streaming(100), &[30, 0, 50, 1000, 7]);
    assert_eq!(seen, vec![30, 30, 80, 100, 100]);
    for pair in seen.windows(2) {
        assert!(pair[0] <= pair[1]);
    }
    assert!(seen.iter().all(|position| *position <= 100));
}

#[test]
fn chunk_reports_the_declared_total() {
    let (_, action) = streaming(2048).step(DownloadEvent::Chunk(1024));
    assert_eq!(action, DownloadAction::StoreChunk { position: 1024, total: 2048 });
}

#[test]
fn other_status_is_version_not_found() {
    for status in [404u16, 403, 500, 301, 201, 204, 0] {
        for content_length in [None, Some(0u64), Some(1234)] {
            let (download, action) =
                started().step(DownloadEvent::Response { status, content_length });
            assert_eq!(action, DownloadAction::Abort(DownloadError::VersionNotFound));
            assert_eq!(download.state, DownloadState::Failed);
        }
    }
}

#[test]
fn missing_length_is_refused_before_any_file() {
    let (download, action) =
        started().step(DownloadEvent::Response { status: 200, content_length: None });
    assert_eq!(action, DownloadAction::Abort(DownloadError::MissingContentLength));
    assert_eq!(download.state, DownloadState::Failed);
    let (download, action) = download.step(DownloadEvent::DirectoryProbed {
        directory: String::from("/data/bob"),
        exists: true,
    });
    assert_eq!(action, DownloadAction::Nothing);
    assert_eq!(download.state, DownloadState::Failed);
}

#[test]
fn failed_request_is_a_network_error() {
    let (download, action) =
        started().step(DownloadEvent::RequestFailed(String::from("connection reset")));
    assert_eq!(
        action,
        DownloadAction::Abort(DownloadError::NetworkError(String::from("connection reset")))
    );
    assert_eq!(download.state, DownloadState::Failed);
}

#[test]
fn empty_body_is_accepted() {
    let download = accepted(0);
    assert_eq!(download.state, DownloadState::LocatingDirectory { total: 0 });
}

#[test]
fn missing_data_directory_ends_the_download() {
    let (download, action) = accepted(10).step(DownloadEvent::DirectoryMissing);
    assert_eq!(action, DownloadAction::Abort(DownloadError::NoDataDirectory));
    assert_eq!(download.state, DownloadState::Failed);
}

#[test]
fn absent_directory_is_created_first() {
    let (download, action) = accepted(10).step(DownloadEvent::DirectoryProbed {
        directory: String::from("/data/bob"),
        exists: false,
    });
    assert_eq!(action, DownloadAction::CreateDirectory(String::from("/data/bob")));
    assert_eq!(
        download.state,
        DownloadState::CreatingDirectory { total: 10, directory: String::from("/data/bob") }
    );
    let (download, action) = download.step(DownloadEvent::DirectoryCreated);
    assert_eq!(action, DownloadAction::CreateFile(String::from("/data/bob/v0.9.2.tar.gz")));
    assert_eq!(
        download.state,
        DownloadState::CreatingFile { total: 10, directory: String::from("/data/bob") }
    );
}

#[test]
fn directory_that_cannot_be_created_ends_the_download() {
    let (download, _) = accepted(10).step(DownloadEvent::DirectoryProbed {
        directory: String::from("/data/bob"),
        exists: false,
    });
    let (download, action) =
        download.step(DownloadEvent::DirectoryNotCreated(String::from("permission denied")));
    assert_eq!(
        action,
        DownloadAction::Abort(DownloadError::DirectoryCreation(String::from("permission denied")))
    );
    assert_eq!(download.state, DownloadState::Failed);
}

#[test]
fn file_that_cannot_be_created_ends_the_download() {
    let (download, _) = accepted(10).step(DownloadEvent::DirectoryProbed {
        directory: String::from("/data/bob"),
        exists: true,
    });
    let (download, action) = download.step(DownloadEvent::FileFailed(String::from("read-only")));
    assert_eq!(action, DownloadAction::Abort(DownloadError::Filesystem(String::from("read-only"))));
    assert_eq!(download.state, DownloadState::Failed);
}

#[test]
fn windows_archive_is_a_zip() {
    let (download, _) = download_version("nightly", Platform::Windows);
    let (download, _) =
        download.step(DownloadEvent::Response { status: 200, content_length: Some(1) });
    let (_, action) = download.step(DownloadEvent::DirectoryProbed {
        directory: String::from("C:/data/bob"),
        exists: true,
    });
    assert_eq!(action, DownloadAction::CreateFile(String::from("C:/data/bob/nightly.zip")));
}

#[test]
fn broken_body_is_a_stream_error() {
    let (download, _) = streaming(10).step(DownloadEvent::Chunk(3));
    let (download, action) = download.step(DownloadEvent::ChunkFailed(String::from("reset")));
    assert_eq!(action, DownloadAction::Abort(DownloadError::StreamError(String::from("reset"))));
    assert_eq!(download.state, DownloadState::Failed);
}

#[test]
fn failed_write_is_a_filesystem_error() {
    let (download, _) = streaming(10).step(DownloadEvent::Chunk(3));
    let (download, action) = download.step(DownloadEvent::FileFailed(String::from("disk full")));
    assert_eq!(action, DownloadAction::Abort(DownloadError::Filesystem(String::from("disk full"))));
    assert_eq!(download.state, DownloadState::Failed);
}

#[test]
fn end_of_stream_completes_the_artifact() {
    let (download, _) = streaming(10).step(DownloadEvent::Chunk(10));
    let (download, action) = download.step(DownloadEvent::EndOfStream);
    assert_eq!(
        action,
        DownloadAction::Complete(DownloadedFile {
            path: String::from("/data/bob"),
            extension: String::from("tar.gz"),
            name: String::from("v0.9.2"),
        })
    );
    assert_eq!(download.state, DownloadState::Finished);
}

#[test]
fn short_body_still_completes() {
    let (download, _) = streaming(10).step(DownloadEvent::Chunk(2));
    let (download, action) = download.step(DownloadEvent::EndOfStream);
    assert!(matches!(action, DownloadAction::Complete(_)));
    assert_eq!(download.state, DownloadState::Finished);
}

#[test]
fn events_not_waited_for_change_nothing() {
    let (download, action) = started().step(DownloadEvent::Chunk(5));
    assert_eq!(action, DownloadAction::Nothing);
    assert_eq!(download.state, DownloadState::AwaitingResponse);
    let (download, action) = download.step(DownloadEvent::FileCreated);
    assert_eq!(action, DownloadAction::Nothing);
    assert_eq!(download.state, DownloadState::AwaitingResponse);
    let (download, action) =
        accepted(10).step(DownloadEvent::Response { status: 404, content_length: None });
    assert_eq!(action, DownloadAction::Nothing);
    assert_eq!(download.state, DownloadState::LocatingDirectory { total: 10 });
    let (download, action) = streaming(10).step(DownloadEvent::DirectoryCreated);
    assert_eq!(action, DownloadAction::Nothing);
    assert_eq!(
        download.state,
        DownloadState::Streaming {
            total: 10,
            downloaded: 0,
            directory: String::from("/data/bob")
        }
    );
}

#[test]
fn ended_download_ignores_everything() {
    let (finished, _) = streaming(10).step(DownloadEvent::EndOfStream);
    let (failed, _) = started().step(DownloadEvent::Response { status: 404, content_length: None });
    for mut download in [finished, failed] {
        let state = download.state.clone();
        let events = [
            DownloadEvent::Response { status: 200, content_length: Some(10) },
            DownloadEvent::DirectoryProbed { directory: String::from("/d"), exists: false },
            DownloadEvent::FileCreated,
            DownloadEvent::Chunk(5),
            DownloadEvent::EndOfStream,
            DownloadEvent::RequestFailed(String::from("late")),
        ];
        for event in events {
            let (next, action) = download.step(event);
            assert_eq!(action, DownloadAction::Nothing);
            assert_eq!(next.state, state);
            download = next;
        }
    }
}

#[test]
fn nothing_is_created_without_a_declared_size() {
    let events = [
        DownloadEvent::FileCreated,
        DownloadEvent::DirectoryProbed { directory: String::from("/d"), exists: false },
        DownloadEvent::Chunk(5),
        DownloadEvent::Response { status: 200, content_length: None },
        DownloadEvent::DirectoryProbed { directory: String::from("/d"), exists: true },
        DownloadEvent::Response { status: 200, content_length: Some(10) },
    ];
    let mut download = started();
    for event in events {
        let (next, action) = download.step(event);
        assert!(
            matches!(action, DownloadAction::Nothing | DownloadAction::Abort(_)),
            "{:?}",
            action
        );
        download = next;
    }
    assert_eq!(download.state, DownloadState::Failed);
}

use bob::download::{download_version, DownloadAction, DownloadEvent, DownloadState};
use bob::fetch::{DownloadError, DownloadedFile};
use bob::install::{InstallError, ProcessOutput};
use bob::pipeline::{
    start, Pipeline, PipelineAction, PipelineError, PipelineEvent, PipelineState,
};
use bob::platform::Platform;
use bob::version::{
    parse_version, MetadataResponse, ResolveError, StableVersion, VersionRequest,
};

fn artifact() -> DownloadedFile {
    DownloadedFile {
        path: String::from("/data/bob"),
        extension: String::from("tar.gz"),
        name: String::from("v0.9.2"),
    }
}

fn downloading() -> Pipeline {
    start(Some("v0.9.2"), Platform::Linux).0
}

fn installing() -> Pipeline {
    downloading().step(PipelineEvent::Downloaded(artifact())).0
}

#[test]
fn no_token_is_an_error_of_its_own() {
    let (pipeline, action) = start(None, Platform::Linux);
    assert_eq!(action, PipelineAction::Fail(PipelineError::NoVersionSpecified));
    assert_eq!(pipeline.state, PipelineState::Failed);
}

#[test]
fn numbered_token_goes_straight_to_the_download() {
    let (pipeline, action) = start(Some("0.9.2"), Platform::Linux);
    assert_eq!(action, PipelineAction::Download { version: String::from("v0.9.2") });
    assert_eq!(pipeline.state, PipelineState::Downloading { version: String::from("v0.9.2") });
    assert_eq!(pipeline.platform, Platform::Linux);
}

#[test]
fn nightly_needs_no_request() {
    let (pipeline, action) = start(Some("nightly"), Platform::MacOs);
    assert_eq!(action, PipelineAction::Download { version: String::from("nightly") });
    assert_eq!(pipeline.state, PipelineState::Downloading { version: String::from("nightly") });
}

#[test]
fn stable_fetches_the_latest_release_first() {
    let (pipeline, action) = start(Some("stable"), Platform::Linux);
    match action {
        PipelineAction::FetchLatestRelease(request) => {
            assert_eq!(request.url, "https://api.github.com/repos/neovim/neovim/releases/latest");
            assert_eq!(request.user_agent, "bob");
            assert_eq!(request.accept, Some(String::from("application/vnd.github.v3+json")));
        }
        other => panic!("unexpected action {:?}", other),
    }
    assert_eq!(pipeline.state, PipelineState::Resolving);
    let release = MetadataResponse::Release(StableVersion { tag_name: String::from("v0.9.5") });
    let (pipeline, action) = pipeline.step(PipelineEvent::Metadata(release));
    assert_eq!(action, PipelineAction::Download { version: String::from("v0.9.5") });
    assert_eq!(pipeline.state, PipelineState::Downloading { version: String::from("v0.9.5") });
}

#[test]
fn stable_fails_when_the_host_is_unreachable() {
    let (pipeline, _) = start(Some("stable"), Platform::Linux);
    let (pipeline, action) =
        pipeline.step(PipelineEvent::Metadata(MetadataResponse::Unreachable(String::from("dns"))));
    assert_eq!(
        action,
        PipelineAction::Fail(PipelineError::Resolution(ResolveError::NetworkError(String::from(
            "dns"
        ))))
    );
    assert_eq!(pipeline.state, PipelineState::Failed);
}

#[test]
fn stable_fails_on_malformed_metadata() {
    let (pipeline, _) = start(Some("stable"), Platform::Linux);
    let (pipeline, action) = pipeline
        .step(PipelineEvent::Metadata(MetadataResponse::Malformed(String::from("expected value"))));
    assert_eq!(
        action,
        PipelineAction::Fail(PipelineError::Resolution(ResolveError::ParseError(String::from(
            "expected value"
        ))))
    );
    assert_eq!(pipeline.state, PipelineState::Failed);
}

#[test]
fn begin_takes_a_checked_token() {
    let (pipeline, action) =
        Pipeline::begin(Some(Err(ResolveError::InvalidVersionFormat)), Platform::Linux);
    assert_eq!(
        action,
        PipelineAction::Fail(PipelineError::Resolution(ResolveError::InvalidVersionFormat))
    );
    assert_eq!(pipeline.state, PipelineState::Failed);
    let (pipeline, action) = Pipeline::begin(
        Some(Ok(VersionRequest::Canonical(String::from("v1.2.3")))),
        Platform::Windows,
    );
    assert_eq!(action, PipelineAction::Download { version: String::from("v1.2.3") });
    assert_eq!(pipeline.platform, Platform::Windows);
    let (pipeline, _) = Pipeline::begin(Some(Ok(VersionRequest::LatestStable)), Platform::Linux);
    assert_eq!(pipeline.state, PipelineState::Resolving);
    let (pipeline, action) = Pipeline::begin(None, Platform::Linux);
    assert_eq!(action, PipelineAction::Fail(PipelineError::NoVersionSpecified));
    assert_eq!(pipeline.state, PipelineState::Failed);
}

#[test]
fn finished_download_is_installed() {
    let (pipeline, action) = downloading().step(PipelineEvent::Downloaded(artifact()));
    match action {
        PipelineAction::Extract(command) => {
            assert_eq!(command.program, "bash");
            assert_eq!(
                command.arguments,
                vec![String::from("-c"), String::from("tar -xf v0.9.2.tar.gz")]
            );
            assert_eq!(command.working_directory, "/data/bob");
        }
        other => panic!("unexpected action {:?}", other),
    }
    assert_eq!(pipeline.state, PipelineState::Installing { artifact: artifact() });
}

#[test]
fn failed_download_stops_the_pipeline() {
    let (pipeline, action) =
        downloading().step(PipelineEvent::DownloadFailed(DownloadError::MissingContentLength));
    assert_eq!(
        action,
        PipelineAction::Fail(PipelineError::Download(DownloadError::MissingContentLength))
    );
    assert_eq!(pipeline.state, PipelineState::Failed);
}

#[test]
fn successful_extraction_finishes() {
    let output = ProcessOutput { success: true, stderr: Vec::new() };
    let (pipeline, action) = installing().step(PipelineEvent::Extracted(output));
    assert_eq!(action, PipelineAction::Finish);
    assert_eq!(pipeline.state, PipelineState::Done);
}

#[test]
fn failed_extraction_stops_the_pipeline() {
    let output = ProcessOutput { success: false, stderr: b"tar: short read".to_vec() };
    let (pipeline, action) = installing().step(PipelineEvent::Extracted(output));
    assert_eq!(
        action,
        PipelineAction::Fail(PipelineError::Installation(InstallError::ExtractionFailed {
            name: String::from("v0.9.2"),
            stderr: String::from("tar: short read"),
        }))
    );
    assert_eq!(pipeline.state, PipelineState::Failed);
}

#[test]
fn subprocess_that_cannot_start_stops_the_pipeline() {
    let (pipeline, action) =
        installing().step(PipelineEvent::ExtractionNotStarted(String::from("bash: not found")));
    assert_eq!(
        action,
        PipelineAction::Fail(PipelineError::Installation(InstallError::ProcessLaunchError(
            String::from("bash: not found")
        )))
    );
    assert_eq!(pipeline.state, PipelineState::Failed);
}

#[test]
fn stages_do_not_run_out_of_order() {
    let output = ProcessOutput { success: true, stderr: Vec::new() };
    let (pipeline, action) = downloading().step(PipelineEvent::Extracted(output));
    assert_eq!(action, PipelineAction::Nothing);
    assert_eq!(pipeline.state, PipelineState::Downloading { version: String::from("v0.9.2") });
    let (pipeline, action) = installing().step(PipelineEvent::Downloaded(artifact()));
    assert_eq!(action, PipelineAction::Nothing);
    assert_eq!(pipeline.state, PipelineState::Installing { artifact: artifact() });
    let release = MetadataResponse::Release(StableVersion { tag_name: String::from("v0.9.5") });
    let (pipeline, action) = downloading().step(PipelineEvent::Metadata(release));
    assert_eq!(action, PipelineAction::Nothing);
    assert_eq!(pipeline.state, PipelineState::Downloading { version: String::from("v0.9.2") });
}

#[test]
fn ended_pipeline_ignores_everything() {
    let done = installing()
        .step(PipelineEvent::Extracted(ProcessOutput { success: true, stderr: Vec::new() }))
        .0;
    let failed = start(None, Platform::Linux).0;
    for mut pipeline in [done, failed] {
        let state = pipeline.state.clone();
        let events = [
            PipelineEvent::Metadata(MetadataResponse::Release(StableVersion {
                tag_name: String::from("v1.0.0"),
            })),
            PipelineEvent::Downloaded(artifact()),
            PipelineEvent::DownloadFailed(DownloadError::VersionNotFound),
            PipelineEvent::Extracted(ProcessOutput { success: false, stderr: Vec::new() }),
            PipelineEvent::ExtractionNotStarted(String::from("late")),
        ];
        for event in events {
            let (next, action) = pipeline.step(event);
            assert_eq!(action, PipelineAction::Nothing);
            assert_eq!(next.state, state);
            pipeline = next;
        }
    }
}

#[test]
fn pipeline_errors_keep_the_words_of_their_cause() {
    assert_eq!(PipelineError::NoVersionSpecified.message(), "Please specify a version to use");
    let resolution = PipelineError::Resolution(ResolveError::InvalidVersionFormat);
    assert_eq!(resolution.message(), ResolveError::InvalidVersionFormat.message());
    let download = PipelineError::Download(DownloadError::VersionNotFound);
    assert_eq!(download.message(), "Please provide an existing neovim version");
    let cause =
        InstallError::ExtractionFailed { name: String::from("v0.9.2"), stderr: String::from("x") };
    assert_eq!(PipelineError::Installation(cause.clone()).message(), cause.message());
    let network = PipelineError::Resolution(ResolveError::NetworkError(String::from("timed out")));
    assert_eq!(network.message(), "timed out");
}

#[test]
fn version_is_resolved_downloaded_and_installed() {
    assert_eq!(parse_version("v0.9.2"), Ok(VersionRequest::Canonical(String::from("v0.9.2"))));
    let (pipeline, action) = start(Some("v0.9.2"), Platform::Linux);
    let version = match action {
        PipelineAction::Download { version } => version,
        other => panic!("unexpected action {:?}", other),
    };
    assert_eq!(version, "v0.9.2");

    let (download, request) = download_version(&version, pipeline.platform);
    assert_eq!(
        request.url,
        "https://github.com/neovim/neovim/releases/download/v0.9.2/nvim-linux64.tar.gz"
    );
    let (download, action) =
        download.step(DownloadEvent::Response { status: 200, content_length: Some(3000) });
    assert_eq!(action, DownloadAction::LocateDirectory { total: 3000 });
    let (download, action) = download.step(DownloadEvent::DirectoryProbed {
        directory: String::from("/home/alice/.local/share/bob"),
        exists: false,
    });
    assert_eq!(
        action,
        DownloadAction::CreateDirectory(String::from("/home/alice/.local/share/bob"))
    );
    let (download, action) = download.step(DownloadEvent::DirectoryCreated);
    assert_eq!(
        action,
        DownloadAction::CreateFile(String::from("/home/alice/.local/share/bob/v0.9.2.tar.gz"))
    );
    let (mut download, action) = download.step(DownloadEvent::FileCreated);
    assert_eq!(action, DownloadAction::ReadBody);
    let mut last = 0;
    for length in [1024usize, 1024, 952] {
        let (next, action) = download.step(DownloadEvent::Chunk(length));
        match action {
            DownloadAction::StoreChunk { position, total } => {
                assert!(last <= position && position <= total);
                assert_eq!(total, 3000);
                last = position;
            }
            other => panic!("unexpected action {:?}", other),
        }
        download = next;
    }
    assert_eq!(last, 3000);
    let (download, action) = download.step(DownloadEvent::EndOfStream);
    assert_eq!(download.state, DownloadState::Finished);
    let downloaded = match action {
        DownloadAction::Complete(artifact) => artifact,
        other => panic!("unexpected action {:?}", other),
    };
    assert_eq!(
        downloaded,
        DownloadedFile {
            path: String::from("/home/alice/.local/share/bob"),
            extension: String::from("tar.gz"),
            name: String::from("v0.9.2"),
        }
    );

    let (pipeline, action) = pipeline.step(PipelineEvent::Downloaded(downloaded));
    match action {
        PipelineAction::Extract(command) => {
            assert_eq!(command.working_directory, "/home/alice/.local/share/bob");
            assert_eq!(
                command.arguments,
                vec![String::from("-c"), String::from("tar -xf v0.9.2.tar.gz")]
            );
        }
        other => panic!("unexpected action {:?}", other),
    }
    let output = ProcessOutput { success: true, stderr: Vec::new() };
    let (pipeline, action) = pipeline.step(PipelineEvent::Extracted(output));
    assert_eq!(action, PipelineAction::Finish);
    assert_eq!(pipeline.state, PipelineState::Done);
}

#[test]
fn windows_version_is_downloaded_as_zip() {
    let (pipeline, _) = start(Some("0.9.2"), Platform::Windows);
    let (download, request) = download_version("v0.9.2", pipeline.platform);
    assert_eq!(
        request.url,
        "https://github.com/neovim/neovim/releases/download/v0.9.2/nvim-win64.zip"
    );
    let (download, _) =
        download.step(DownloadEvent::Response { status: 200, content_length: Some(8) });
    let (download, action) = download
        .step(DownloadEvent::DirectoryProbed { directory: String::from("C:/bob"), exists: true });
    assert_eq!(action, DownloadAction::CreateFile(String::from("C:/bob/v0.9.2.zip")));
    let (download, _) = download.step(DownloadEvent::FileCreated);
    let (download, action) = download.step(DownloadEvent::Chunk(8));
    assert_eq!(action, DownloadAction::StoreChunk { position: 8, total: 8 });
    let (_, action) = download.step(DownloadEvent::EndOfStream);
    let downloaded = match action {
        DownloadAction::Complete(artifact) => artifact,
        other => panic!("unexpected action {:?}", other),
    };
    let (_, action) = pipeline.step(PipelineEvent::Downloaded(downloaded));
    match action {
        PipelineAction::Extract(command) => {
            assert_eq!(command.program, "powershell");
            assert!(command.arguments[1].contains("ExtractToDirectory(\"v0.9.2.zip\", \"./v0.9.2\")"));
            assert_eq!(command.working_directory, "C:/bob");
        }
        other => panic!("unexpected action {:?}", other),
    }
}

#[test]
fn unknown_word_fails_before_any_request() {
    let (pipeline, action) = start(Some("doesnotexist"), Platform::Linux);
    assert_eq!(
        action,
        PipelineAction::Fail(PipelineError::Resolution(ResolveError::InvalidVersionFormat))
    );
    assert_eq!(pipeline.state, PipelineState::Failed);
    match action {
        PipelineAction::Fail(error) => {
            assert_eq!(error.message(), "Please provide a proper version string")
        }
        other => panic!("unexpected action {:?}", other),
    }
}

#[test]
fn missing_release_fails_without_a_file() {
    let (pipeline, action) = start(Some("v9.9.9"), Platform::Linux);
    assert_eq!(action, PipelineAction::Download { version: String::from("v9.9.9") });
    let (download, _) = download_version("v9.9.9", pipeline.platform);
    let (download, action) =
        download.step(DownloadEvent::Response { status: 404, content_length: Some(9) });
    let error = match action {
        DownloadAction::Abort(error) => error,
        other => panic!("unexpected action {:?}", other),
    };
    assert_eq!(error, DownloadError::VersionNotFound);
    assert_eq!(download.state, DownloadState::Failed);
    let (pipeline, action) = pipeline.step(PipelineEvent::DownloadFailed(error));
    assert_eq!(action, PipelineAction::Fail(PipelineError::Download(DownloadError::VersionNotFound)));
    assert_eq!(pipeline.state, PipelineState::Failed);
}

//! The pipeline: resolve, download, install, one after the other, stopping
//! at the first failure. The caller does the outside work of each stage and
//! reports how it ended.

use crate::fetch::{DownloadError, DownloadErrorView, DownloadedFile, DownloadedFileView};
use crate::http::{Request, RequestView};
use crate::install::{
    extraction_command, install_version, installation_outcome, installation_result, outcome_view,
    ExtractionCommand, ExtractionCommandView, InstallError, InstallErrorView, ProcessOutput,
    ProcessOutputView,
};
use crate::platform::Platform;
use crate::version::{
    latest_release_request, latest_release_request_view, latest_stable, parse_version,
    regex_search, request_view, requested_version, stable_version, version_view,
    MetadataResponse, MetadataResponseView, ResolveError, ResolveErrorView, VersionRequest,
    VersionRequestView, VERSION_PATTERN,
};
use vstd::prelude::*;
use vstd::string::*;

verus! {

/// The one error the pipeline hands to its caller, whichever stage failed.
#[derive(Clone, Debug, PartialEq, Eq)]
pub enum PipelineError {
    /// No version token was given.
    NoVersionSpecified,
    /// The token could not be resolved.
    Resolution(ResolveError),
    /// The archive could not be fetched.
    Download(DownloadError),
    /// The archive could not be unpacked.
    Installation(InstallError),
}

/// The model of a [`PipelineError`].
pub enum PipelineErrorView {
    NoVersionSpecified,
    Resolution(ResolveErrorView),
    Download(DownloadErrorView),
    Installation(InstallErrorView),
}

impl View for PipelineError {
    type V = PipelineErrorView;

    open spec fn view(&self) -> PipelineErrorView {
        match self {
            PipelineError::NoVersionSpecified => PipelineErrorView::NoVersionSpecified,
            PipelineError::Resolution(error) => PipelineErrorView::Resolution(error@),
            PipelineError::Download(error) => PipelineErrorView::Download(error@),
            PipelineError::Installation(error) => PipelineErrorView::Installation(error@),
        }
    }
}

impl PipelineErrorView {
    /// The explanation shown to the user: that of the stage that failed.
    pub open spec fn message(self) -> Seq<char> {
        match self {
            PipelineErrorView::NoVersionSpecified => "Please specify a version to use"@,
            PipelineErrorView::Resolution(error) => error.message(),
            PipelineErrorView::Download(error) => error.message(),
            PipelineErrorView::Installation(error) => error.message(),
        }
    }
}

impl PipelineError {
    /// The explanation shown to the user. The words of the stage that
    /// failed are kept as they are.
    pub fn message(&self) -> (text: String)
        ensures
            text@ == self@.message(),
    {
        match self {
            PipelineError::NoVersionSpecified => String::from_str("Please specify a version to use"),
            PipelineError::Resolution(error) => error.message(),
            PipelineError::Download(error) => error.message(),
            PipelineError::Installation(error) => error.message(),
        }
    }
}

/// The stage a pipeline is in.
#[derive(Clone, Debug, PartialEq, Eq)]
pub enum PipelineState {
    /// The latest release's metadata has been asked for.
    Resolving,
    /// The archive of `version` is being fetched.
    Downloading { version: String },
    /// The archive is being unpacked.
    Installing { artifact: DownloadedFile },
    /// The version is installed.
    Done,
    /// A stage failed.
    Failed,
}

/// The model of a [`PipelineState`].
pub enum PipelineStateView {
    Resolving,
    Downloading { version: Seq<char> },
    Installing { artifact: DownloadedFileView },
    Done,
    Failed,
}

impl PipelineStateView {
    /// The place of this state in the order of the stages.
    pub open spec fn stage(self) -> nat {
        match self {
            PipelineStateView::Resolving => 0,
            PipelineStateView::Downloading { .. } => 1,
            PipelineStateView::Installing { .. } => 2,
            PipelineStateView::Done => 3,
            PipelineStateView::Failed => 3,
        }
    }
}

impl View for PipelineState {
    type V = PipelineStateView;

    open spec fn view(&self) -> PipelineStateView {
        match self {
            PipelineState::Resolving => PipelineStateView::Resolving,
            PipelineState::Downloading { version } => PipelineStateView::Downloading {
                version: version@,
            },
            PipelineState::Installing { artifact } => PipelineStateView::Installing {
                artifact: artifact@,
            },
            PipelineState::Done => PipelineStateView::Done,
            PipelineState::Failed => PipelineStateView::Failed,
        }
    }
}

/// How the outside work of a stage ended.
#[derive(Clone, Debug, PartialEq, Eq)]
pub enum PipelineEvent {
    /// The metadata request ended.
    Metadata(MetadataResponse),
    /// The archive is complete.
    Downloaded(DownloadedFile),
    /// The download was given up.
    DownloadFailed(DownloadError),
    /// The extraction subprocess ran and ended.
    Extracted(ProcessOutput),
    /// The extraction subprocess could not be started.
    ExtractionNotStarted(String),
}

/// The model of a [`PipelineEvent`].
pub enum PipelineEventView {
    Metadata(MetadataResponseView),
    Downloaded(DownloadedFileView),
    DownloadFailed(DownloadErrorView),
    Extracted(ProcessOutputView),
    ExtractionNotStarted(Seq<char>),
}

impl View for PipelineEvent {
    type V = PipelineEventView;

    open spec fn view(&self) -> PipelineEventView {
        match self {
            PipelineEvent::Metadata(response) => PipelineEventView::Metadata(response@),
            PipelineEvent::Downloaded(artifact) => PipelineEventView::Downloaded(artifact@),
            PipelineEvent::DownloadFailed(error) => PipelineEventView::DownloadFailed(error@),
            PipelineEvent::Extracted(output) => PipelineEventView::Extracted(output@),
            PipelineEvent::ExtractionNotStarted(text) => PipelineEventView::ExtractionNotStarted(
                text@,
            ),
        }
    }
}

/// What the pipeline asks its caller to do next.
#[derive(Clone, Debug, PartialEq, Eq)]
pub enum PipelineAction {
    /// The event was not waited for: nothing to do.
    Nothing,
    /// Send this request for the latest release's metadata.
    FetchLatestRelease(Request),
    /// Fetch the archive of this version.
    Download { version: String },
    /// Run this subprocess.
    Extract(ExtractionCommand),
    /// The version is installed.
    Finish,
    /// Report this error.
    Fail(PipelineError),
}

/// The model of a [`PipelineAction`].
pub enum PipelineActionView {
    Nothing,
    FetchLatestRelease(RequestView),
    Download { version: Seq<char> },
    Extract(ExtractionCommandView),
    Finish,
    Fail(PipelineErrorView),
}

impl View for PipelineAction {
    type V = PipelineActionView;

    open spec fn view(&self) -> PipelineActionView {
        match self {
            PipelineAction::Nothing => PipelineActionView::Nothing,
            PipelineAction::FetchLatestRelease(request) => PipelineActionView::FetchLatestRelease(
                request@,
            ),
            PipelineAction::Download { version } => PipelineActionView::Download {
                version: version@,
            },
            PipelineAction::Extract(command) => PipelineActionView::Extract(command@),
            PipelineAction::Finish => PipelineActionView::Finish,
            PipelineAction::Fail(error) => PipelineActionView::Fail(error@),
        }
    }
}

/// One run of the pipeline for one platform.
#[derive(Clone, Debug, PartialEq, Eq)]
pub struct Pipeline {
    pub platform: Platform,
    pub state: PipelineState,
}

/// The model of a [`Pipeline`].
pub struct PipelineView {
    pub platform: Platform,
    pub state: PipelineStateView,
}

impl View for Pipeline {
    type V = PipelineView;

    open spec fn view(&self) -> PipelineView {
        PipelineView { platform: self.platform, state: self.state@ }
    }
}

impl PipelineView {
    /// A pipeline for `platform` in `state`.
    pub open spec fn at(platform: Platform, state: PipelineStateView) -> PipelineView {
        PipelineView { platform, state }
    }

    /// A pipeline stopped by `error`.
    pub open spec fn fail(platform: Platform, error: PipelineErrorView) -> (
        PipelineView,
        PipelineActionView,
    ) {
        (PipelineView::at(platform, PipelineStateView::Failed), PipelineActionView::Fail(error))
    }

    /// A pipeline that goes on to fetch `version`, or stops at the error
    /// that kept the version from being resolved.
    pub open spec fn resolved(platform: Platform, version: Result<Seq<char>, ResolveErrorView>) -> (
        PipelineView,
        PipelineActionView,
    ) {
        match version {
            Ok(version) => (
                PipelineView::at(platform, PipelineStateView::Downloading { version }),
                PipelineActionView::Download { version },
            ),
            Err(error) => PipelineView::fail(platform, PipelineErrorView::Resolution(error)),
        }
    }

    /// The first state and action of a pipeline. `checked` is the checked
    /// token, or `None` where no token was given.
    pub open spec fn begin(
        checked: Option<Result<VersionRequestView, ResolveErrorView>>,
        platform: Platform,
    ) -> (PipelineView, PipelineActionView) {
        match checked {
            None => PipelineView::fail(platform, PipelineErrorView::NoVersionSpecified),
            Some(Err(error)) => PipelineView::fail(platform, PipelineErrorView::Resolution(error)),
            Some(Ok(VersionRequestView::Canonical(version))) => PipelineView::resolved(
                platform,
                Ok(version),
            ),
            Some(Ok(VersionRequestView::LatestStable)) => (
                PipelineView::at(platform, PipelineStateView::Resolving),
                PipelineActionView::FetchLatestRelease(latest_release_request_view()),
            ),
        }
    }

    /// A pipeline that is done, or stopped at the error that kept the
    /// archive from being unpacked.
    pub open spec fn installed(platform: Platform, outcome: Result<(), InstallErrorView>) -> (
        PipelineView,
        PipelineActionView,
    ) {
        match outcome {
            Ok(()) => (
                PipelineView::at(platform, PipelineStateView::Done),
                PipelineActionView::Finish,
            ),
            Err(error) => PipelineView::fail(platform, PipelineErrorView::Installation(error)),
        }
    }

    /// The state after `event` and the action it calls for. An event that
    /// the state does not wait for changes nothing.
    pub open spec fn step(self, event: PipelineEventView) -> (PipelineView, PipelineActionView) {
        match (self.state, event) {
            (
                PipelineStateView::Resolving,
                PipelineEventView::Metadata(response),
            ) => PipelineView::resolved(self.platform, stable_version(response)),
            (
                PipelineStateView::Downloading { version },
                PipelineEventView::Downloaded(artifact),
            ) => (
                PipelineView::at(self.platform, PipelineStateView::Installing { artifact }),
                PipelineActionView::Extract(extraction_command(artifact, self.platform)),
            ),
            (
                PipelineStateView::Downloading { version },
                PipelineEventView::DownloadFailed(error),
            ) => PipelineView::fail(self.platform, PipelineErrorView::Download(error)),
            (
                PipelineStateView::Installing { artifact },
                PipelineEventView::Extracted(output),
            ) => PipelineView::installed(
                self.platform,
                installation_result(artifact.name, Ok(output)),
            ),
            (
                PipelineStateView::Installing { artifact },
                PipelineEventView::ExtractionNotStarted(text),
            ) => PipelineView::installed(
                self.platform,
                installation_result(artifact.name, Err(text)),
            ),
            _ => (self, PipelineActionView::Nothing),
        }
    }

    /// The pipeline after every event of `events`, in their order.
    pub open spec fn after(self, events: Seq<PipelineEventView>) -> PipelineView
        decreases events.len(),
    {
        if events.len() == 0 {
            self
        } else {
            self.after(events.drop_last()).step(events.last()).0
        }
    }

    /// The action that the event at `index` of `events` calls for.
    pub open spec fn action_at(self, events: Seq<PipelineEventView>, index: int) -> PipelineActionView
        recommends
            0 <= index < events.len(),
    {
        self.after(events.take(index)).step(events[index]).1
    }
}

/// The view of an optional checked token.
pub open spec fn checked_view(checked: Option<Result<VersionRequest, ResolveError>>) -> Option<
    Result<VersionRequestView, ResolveErrorView>,
> {
    match checked {
        Some(outcome) => Some(request_view(outcome)),
        None => None,
    }
}

/// The view of an optional token.
pub open spec fn token_view(token: Option<&str>) -> Option<Seq<char>> {
    match token {
        Some(token) => Some(token@),
        None => None,
    }
}

/// The first state and action of the pipeline for the token given on the
/// command line, if any.
pub open spec fn pipeline_start(token: Option<Seq<char>>, platform: Platform) -> (
    PipelineView,
    PipelineActionView,
) {
    match token {
        Some(token) => PipelineView::begin(
            Some(requested_version(token, regex_search(VERSION_PATTERN@, token))),
            platform,
        ),
        None => PipelineView::begin(None, platform),
    }
}

impl Pipeline {
    fn failed(platform: Platform, error: PipelineError) -> (next: (Pipeline, PipelineAction))
        ensures
            (next.0@, next.1@) == PipelineView::fail(platform, error@),
    {
        (Pipeline { platform, state: PipelineState::Failed }, PipelineAction::Fail(error))
    }

    fn resolved(platform: Platform, version: Result<String, ResolveError>) -> (next: (
        Pipeline,
        PipelineAction,
    ))
        ensures
            (next.0@, next.1@) == PipelineView::resolved(platform, version_view(version)),
    {
        match version {
            Ok(version) => {
                let wanted = version.clone();
                (
                    Pipeline { platform, state: PipelineState::Downloading { version } },
                    PipelineAction::Download { version: wanted },
                )
            },
            Err(error) => Pipeline::failed(platform, PipelineError::Resolution(error)),
        }
    }

    fn installed(platform: Platform, outcome: Result<(), InstallError>) -> (next: (
        Pipeline,
        PipelineAction,
    ))
        ensures
            (next.0@, next.1@) == PipelineView::installed(platform, outcome_view(outcome)),
    {
        match outcome {
            Ok(()) => (Pipeline { platform, state: PipelineState::Done }, PipelineAction::Finish),
            Err(error) => Pipeline::failed(platform, PipelineError::Installation(error)),
        }
    }

    /// Opens a pipeline on a token whose form has been checked already:
    /// without a token it fails at once, with `stable` it asks for the
    /// latest release, with a canonical identifier it goes on to the download.
    pub fn begin(checked: Option<Result<VersionRequest, ResolveError>>, platform: Platform) -> (next: (
        Pipeline,
        PipelineAction,
    ))
        ensures
            (next.0@, next.1@) == PipelineView::begin(checked_view(checked), platform),
    {
        match checked {
            None => Pipeline::failed(platform, PipelineError::NoVersionSpecified),
            Some(Err(error)) => Pipeline::failed(platform, PipelineError::Resolution(error)),
            Some(Ok(VersionRequest::Canonical(version))) => Pipeline::resolved(platform, Ok(version)),
            Some(Ok(VersionRequest::LatestStable)) => (
                Pipeline { platform, state: PipelineState::Resolving },
                PipelineAction::FetchLatestRelease(latest_release_request()),
            ),
        }
    }

    /// Takes in how the outside work of the current stage ended and
    /// answers with the next action.
    pub fn step(self, event: PipelineEvent) -> (next: (Pipeline, PipelineAction))
        ensures
            (next.0@, next.1@) == self@.step(event@),
    {
        let Pipeline { platform, state } = self;
        match state {
            PipelineState::Resolving => match event {
                PipelineEvent::Metadata(response) => Pipeline::resolved(
                    platform,
                    latest_stable(response),
                ),
                _ => (Pipeline { platform, state: PipelineState::Resolving }, PipelineAction::Nothing),
            },
            PipelineState::Downloading { version } => match event {
                PipelineEvent::Downloaded(artifact) => {
                    let command = install_version(&artifact, platform);
                    (
                        Pipeline { platform, state: PipelineState::Installing { artifact } },
                        PipelineAction::Extract(command),
                    )
                },
                PipelineEvent::DownloadFailed(error) => Pipeline::failed(
                    platform,
                    PipelineError::Download(error),
                ),
                _ => (
                    Pipeline { platform, state: PipelineState::Downloading { version } },
                    PipelineAction::Nothing,
                ),
            },
            PipelineState::Installing { artifact } => match event {
                PipelineEvent::Extracted(output) => Pipeline::installed(
                    platform,
                    installation_outcome(artifact.name.as_str(), Ok(output)),
                ),
                PipelineEvent::ExtractionNotStarted(text) => Pipeline::installed(
                    platform,
                    installation_outcome(artifact.name.as_str(), Err(text)),
                ),
                _ => (
                    Pipeline { platform, state: PipelineState::Installing { artifact } },
                    PipelineAction::Nothing,
                ),
            },
            PipelineState::Done => (
                Pipeline { platform, state: PipelineState::Done },
                PipelineAction::Nothing,
            ),
            PipelineState::Failed => (
                Pipeline { platform, state: PipelineState::Failed },
                PipelineAction::Nothing,
            ),
        }
    }
}

/// Starts the pipeline on the token given on the command line, if any:
/// checks its form and opens the pipeline on the outcome. Without a token
/// the pipeline fails before anything is resolved.
pub fn start(token: Option<&str>, platform: Platform) -> (next: (Pipeline, PipelineAction))
    ensures
        (next.0@, next.1@) == pipeline_start(token_view(token), platform),
{
    match token {
        Some(token) => Pipeline::begin(Some(parse_version(token)), platform),
        None => Pipeline::begin(None, platform),
    }
}

proof fn step_moves_forward(pipeline: PipelineView, event: PipelineEventView)
    ensures
        pipeline.state.stage() <= pipeline.step(event).0.state.stage(),
        pipeline.step(event).1 is Download ==> pipeline.state.stage() == 0 && pipeline.step(
            event,
        ).0.state.stage() == 1,
        pipeline.step(event).1 is Extract ==> pipeline.state.stage() == 1 && pipeline.step(
            event,
        ).0.state.stage() == 2,
{
}

proof fn run_moves_forward(pipeline: PipelineView, events: Seq<PipelineEventView>)
    ensures
        pipeline.state.stage() <= pipeline.after(events).state.stage(),
    decreases events.len(),
{
    if events.len() > 0 {
        run_moves_forward(pipeline, events.drop_last());
        step_moves_forward(pipeline.after(events.drop_last()), events.last());
    }
}

proof fn run_in_two_parts(pipeline: PipelineView, events: Seq<PipelineEventView>, middle: int)
    requires
        0 <= middle <= events.len(),
    ensures
        pipeline.after(events) == pipeline.after(events.take(middle)).after(events.skip(middle)),
    decreases events.len(),
{
    if middle == events.len() {
        assert(events.take(middle) =~= events);
        assert(events.skip(middle) =~= Seq::<PipelineEventView>::empty());
    } else {
        run_in_two_parts(pipeline, events.drop_last(), middle);
        assert(events.drop_last().take(middle) =~= events.take(middle));
        assert(events.drop_last().skip(middle) =~= events.skip(middle).drop_last());
        assert(events.skip(middle).last() == events.last());
    }
}

/// The stages run in their order and none runs twice: the pipeline never
/// falls back to an earlier stage, a download is asked for at most once
/// and never after the pipeline has left the resolving stage, and an
/// extraction is asked for at most once and never before a download.
pub proof fn stages_run_once_and_in_order(
    pipeline: PipelineView,
    events: Seq<PipelineEventView>,
    earlier: int,
    later: int,
)
    requires
        0 <= earlier < later < events.len(),
    ensures
        pipeline.after(events.take(earlier)).state.stage() <= pipeline.after(
            events.take(later),
        ).state.stage(),
        pipeline.state.stage() >= 1 ==> !(pipeline.action_at(events, later) is Download),
        pipeline.action_at(events, earlier) is Download ==> !(pipeline.action_at(events, later)
            is Download),
        pipeline.action_at(events, earlier) is Extract ==> !(pipeline.action_at(events, later)
            is Download) && !(pipeline.action_at(events, later) is Extract),
        pipeline.action_at(events, later) is Download ==> !(pipeline.action_at(events, earlier)
            is Extract),
{
    let before_first = pipeline.after(events.take(earlier));
    let after_first = pipeline.after(events.take(earlier + 1));
    let before_second = pipeline.after(events.take(later));
    assert(events.take(earlier + 1).drop_last() =~= events.take(earlier));
    assert(events.take(earlier + 1).last() == events[earlier]);
    assert(after_first == before_first.step(events[earlier]).0);
    step_moves_forward(before_first, events[earlier]);
    step_moves_forward(before_second, events[later]);
    run_moves_forward(pipeline, events.take(earlier));
    run_in_two_parts(pipeline, events.take(later), earlier + 1);
    assert(events.take(later).take(earlier + 1) =~= events.take(earlier + 1));
    run_moves_forward(after_first, events.take(later).skip(earlier + 1));
}

/// The pipeline stops at the first failure: once it is done or has
/// failed, no event moves it and every later action is `Nothing`.
pub proof fn ended_pipeline_stays_ended(pipeline: PipelineView, events: Seq<PipelineEventView>)
    requires
        pipeline.state is Done || pipeline.state is Failed,
    ensures
        pipeline.after(events) == pipeline,
        forall|index: int|
            0 <= index < events.len() ==> #[trigger] pipeline.action_at(events, index)
                == PipelineActionView::Nothing,
    decreases events.len(),
{
    if events.len() > 0 {
        ended_pipeline_stays_ended(pipeline, events.drop_last());
        assert forall|index: int| 0 <= index < events.len() implies #[trigger] pipeline.action_at(
            events,
            index,
        ) == PipelineActionView::Nothing by {
            ended_pipeline_stays_ended(pipeline, events.take(index));
        }
    }
}

/// Whichever stage fails, the pipeline's error shows the words of that
/// stage's own error.
pub proof fn cause_keeps_its_message(error: PipelineErrorView)
    ensures
        error matches PipelineErrorView::Resolution(cause) ==> error.message() == cause.message(),
        error matches PipelineErrorView::Download(cause) ==> error.message() == cause.message(),
        error matches PipelineErrorView::Installation(cause) ==> error.message()
            == cause.message(),
{
}

} // verus!

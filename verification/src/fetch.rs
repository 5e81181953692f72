//! What the archive fetcher asks for and hands on: the download request,
//! the managed directory, the local archive's place and the artifact
//! descriptor.

use crate::http::{Request, RequestView, USER_AGENT};
use crate::platform::{file_type_of, get_file_type, host_segment, host_segment_of, Platform};
use vstd::prelude::*;
use vstd::string::*;

verus! {

/// Where the release host keeps the archives of every version.
pub const DOWNLOAD_ROOT: &'static str = "https://github.com/neovim/neovim/releases/download/";

/// A completed download: the archive `name.extension` lies in `path`.
#[derive(Clone, Debug, PartialEq, Eq)]
pub struct DownloadedFile {
    /// The directory that holds the archive.
    pub path: String,
    /// The archive's suffix, `zip` or `tar.gz`.
    pub extension: String,
    /// The canonical version identifier, which is the archive's base name.
    pub name: String,
}

/// The model of a [`DownloadedFile`].
pub struct DownloadedFileView {
    pub path: Seq<char>,
    pub extension: Seq<char>,
    pub name: Seq<char>,
}

impl View for DownloadedFile {
    type V = DownloadedFileView;

    open spec fn view(&self) -> DownloadedFileView {
        DownloadedFileView { path: self.path@, extension: self.extension@, name: self.name@ }
    }
}

/// Why a download did not complete.
#[derive(Clone, Debug, PartialEq, Eq)]
pub enum DownloadError {
    /// The request could not be sent or answered.
    NetworkError(String),
    /// The host answered with a status other than 200: it has no such version for this platform.
    VersionNotFound,
    /// The host did not declare the size of the body.
    MissingContentLength,
    /// The platform names no per-user data directory.
    NoDataDirectory,
    /// The managed directory could not be created.
    DirectoryCreation(String),
    /// The local archive could not be created or written.
    Filesystem(String),
    /// The body broke off.
    StreamError(String),
}

/// The model of a [`DownloadError`].
pub enum DownloadErrorView {
    NetworkError(Seq<char>),
    VersionNotFound,
    MissingContentLength,
    NoDataDirectory,
    DirectoryCreation(Seq<char>),
    Filesystem(Seq<char>),
    StreamError(Seq<char>),
}

impl View for DownloadError {
    type V = DownloadErrorView;

    open spec fn view(&self) -> DownloadErrorView {
        match self {
            DownloadError::NetworkError(text) => DownloadErrorView::NetworkError(text@),
            DownloadError::VersionNotFound => DownloadErrorView::VersionNotFound,
            DownloadError::MissingContentLength => DownloadErrorView::MissingContentLength,
            DownloadError::NoDataDirectory => DownloadErrorView::NoDataDirectory,
            DownloadError::DirectoryCreation(text) => DownloadErrorView::DirectoryCreation(text@),
            DownloadError::Filesystem(text) => DownloadErrorView::Filesystem(text@),
            DownloadError::StreamError(text) => DownloadErrorView::StreamError(text@),
        }
    }
}

impl DownloadErrorView {
    /// The explanation shown to the user.
    pub open spec fn message(self) -> Seq<char> {
        match self {
            DownloadErrorView::NetworkError(text) => text,
            DownloadErrorView::VersionNotFound => "Please provide an existing neovim version"@,
            DownloadErrorView::MissingContentLength => "The server did not declare the size of the download"@,
            DownloadErrorView::NoDataDirectory => "Couldn't get data folder"@,
            DownloadErrorView::DirectoryCreation(text) => text,
            DownloadErrorView::Filesystem(text) => text,
            DownloadErrorView::StreamError(text) => text,
        }
    }
}

impl DownloadError {
    /// The explanation shown to the user; a failure reported from outside keeps its own words.
    pub fn message(&self) -> (text: String)
        ensures
            text@ == self@.message(),
    {
        match self {
            DownloadError::NetworkError(text) => text.clone(),
            DownloadError::VersionNotFound => String::from_str(
                "Please provide an existing neovim version",
            ),
            DownloadError::MissingContentLength => String::from_str(
                "The server did not declare the size of the download",
            ),
            DownloadError::NoDataDirectory => String::from_str("Couldn't get data folder"),
            DownloadError::DirectoryCreation(text) => text.clone(),
            DownloadError::Filesystem(text) => text.clone(),
            DownloadError::StreamError(text) => text.clone(),
        }
    }
}

/// The address of the archive of `version` for `platform`.
pub open spec fn download_url(version: Seq<char>, platform: Platform) -> Seq<char> {
    DOWNLOAD_ROOT@ + version + "/nvim-"@ + host_segment_of(platform) + "."@ + file_type_of(
        platform,
    )
}

/// The request that fetches the archive of `version` for `platform`.
pub open spec fn download_request(version: Seq<char>, platform: Platform) -> RequestView {
    RequestView { url: download_url(version, platform), user_agent: USER_AGENT@, accept: None }
}

/// The managed directory below the per-user data directory `data_directory`.
pub open spec fn managed_directory(data_directory: Seq<char>) -> Seq<char> {
    data_directory + "/bob"@
}

/// The place of the local archive of `version` inside `directory`.
pub open spec fn archive_path(directory: Seq<char>, version: Seq<char>, platform: Platform) -> Seq<
    char,
> {
    directory + "/"@ + version + "."@ + file_type_of(platform)
}

/// The descriptor of the archive of `version` once it lies complete in `directory`.
pub open spec fn artifact_of(
    directory: Seq<char>,
    version: Seq<char>,
    platform: Platform,
) -> DownloadedFileView {
    DownloadedFileView { path: directory, extension: file_type_of(platform), name: version }
}

/// The label of the progress indicator while `version` is being fetched.
pub open spec fn progress_label(version: Seq<char>) -> Seq<char> {
    "Downloading version: "@ + version
}

/// The label the progress indicator is left with once `artifact` is complete.
pub open spec fn completion_label(artifact: DownloadedFileView) -> Seq<char> {
    "Downloaded version "@ + artifact.name + " to "@ + artifact.path + "/"@ + artifact.name + "."@
        + artifact.extension
}

/// Describes the GET request for the archive of `version` on `platform`.
/// Sending it is left to the caller.
pub fn send_request(version: &str, platform: Platform) -> (request: Request)
    ensures
        request@ == download_request(version@, platform),
{
    let segment = host_segment(platform);
    let extension = get_file_type(platform);
    let url = String::from_str(DOWNLOAD_ROOT).concat(version).concat("/nvim-").concat(
        segment.as_str(),
    ).concat(".").concat(extension.as_str());
    Request { url, user_agent: String::from_str(USER_AGENT), accept: None }
}

/// Asks `dirs::data_local_dir` for the per-user local data directory and
/// hands it on as text. The answer depends on the platform and on the
/// environment of the process, so nothing is promised of it; `None` also
/// stands for a directory whose name is not valid Unicode.
#[verifier::external_body]
fn local_data_directory() -> (directory: Option<String>) {
    match dirs::data_local_dir() {
        Some(path) => path.into_os_string().into_string().ok(),
        None => None,
    }
}

/// Places the managed directory below the per-user data directory, if the
/// platform names one.
pub fn downloads_folder_in(data_directory: Option<String>) -> (outcome: Result<
    String,
    DownloadError,
>)
    ensures
        match data_directory {
            Some(base) => outcome matches Ok(directory) && directory@ == managed_directory(base@),
            None => outcome matches Err(error) && error@ == DownloadErrorView::NoDataDirectory,
        },
{
    match data_directory {
        Some(base) => Ok(base.concat("/bob")),
        None => Err(DownloadError::NoDataDirectory),
    }
}

/// Names the managed directory of this user. Whether it exists, and
/// creating it, is left to the caller.
pub fn get_downloads_folder() -> (outcome: Result<String, DownloadError>)
    ensures
        match outcome {
            Ok(directory) => exists|base: Seq<char>| directory@ == managed_directory(base),
            Err(error) => error@ == DownloadErrorView::NoDataDirectory,
        },
{
    downloads_folder_in(local_data_directory())
}

/// Names the local archive of `version` inside `directory`.
pub fn archive_file(directory: &str, version: &str, platform: Platform) -> (path: String)
    ensures
        path@ == archive_path(directory@, version@, platform),
{
    let extension = get_file_type(platform);
    String::from_str(directory).concat("/").concat(version).concat(".").concat(
        extension.as_str(),
    )
}

/// The label of the progress indicator while `version` is being fetched.
pub fn downloading_message(version: &str) -> (label: String)
    ensures
        label@ == progress_label(version@),
{
    String::from_str("Downloading version: ").concat(version)
}

/// The label the progress indicator is left with once `artifact` is complete.
pub fn downloaded_message(artifact: &DownloadedFile) -> (label: String)
    ensures
        label@ == completion_label(artifact@),
{
    String::from_str("Downloaded version ").concat(artifact.name.as_str()).concat(" to ").concat(
        artifact.path.as_str(),
    ).concat("/").concat(artifact.name.as_str()).concat(".").concat(artifact.extension.as_str())
}

} // verus!

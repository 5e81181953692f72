//! Installation: the command that unpacks a downloaded archive, and the
//! reading of how that command ended.

use crate::fetch::{archive_path, artifact_of, DownloadedFile, DownloadedFileView};
use crate::platform::Platform;
use vstd::prelude::*;
use vstd::string::*;

verus! {

/// A subprocess to run, described by plain values.
#[derive(Clone, Debug, PartialEq, Eq)]
pub struct ExtractionCommand {
    pub program: String,
    pub arguments: Vec<String>,
    /// The directory the subprocess is started in.
    pub working_directory: String,
}

/// The model of an [`ExtractionCommand`].
pub struct ExtractionCommandView {
    pub program: Seq<char>,
    pub arguments: Seq<Seq<char>>,
    pub working_directory: Seq<char>,
}

impl View for ExtractionCommand {
    type V = ExtractionCommandView;

    open spec fn view(&self) -> ExtractionCommandView {
        ExtractionCommandView {
            program: self.program@,
            arguments: self.arguments@.map_values(|argument: String| argument@),
            working_directory: self.working_directory@,
        }
    }
}

/// How a subprocess ended.
#[derive(Clone, Debug, PartialEq, Eq)]
pub struct ProcessOutput {
    /// Whether the exit status was zero.
    pub success: bool,
    /// Everything the subprocess wrote to its standard error.
    pub stderr: Vec<u8>,
}

/// The model of a [`ProcessOutput`].
pub struct ProcessOutputView {
    pub success: bool,
    pub stderr: Seq<u8>,
}

impl View for ProcessOutput {
    type V = ProcessOutputView;

    open spec fn view(&self) -> ProcessOutputView {
        ProcessOutputView { success: self.success, stderr: self.stderr@ }
    }
}

/// Why an archive was not unpacked.
#[derive(Clone, Debug, PartialEq, Eq)]
pub enum InstallError {
    /// The subprocess could not be started.
    ProcessLaunchError(String),
    /// The subprocess ended with a non-zero status; `stderr` is what it wrote to its standard error.
    ExtractionFailed { name: String, stderr: String },
}

/// The model of an [`InstallError`].
pub enum InstallErrorView {
    ProcessLaunchError(Seq<char>),
    ExtractionFailed { name: Seq<char>, stderr: Seq<char> },
}

impl View for InstallError {
    type V = InstallErrorView;

    open spec fn view(&self) -> InstallErrorView {
        match self {
            InstallError::ProcessLaunchError(text) => InstallErrorView::ProcessLaunchError(text@),
            InstallError::ExtractionFailed { name, stderr } => InstallErrorView::ExtractionFailed {
                name: name@,
                stderr: stderr@,
            },
        }
    }
}

impl InstallErrorView {
    /// The explanation shown to the user.
    pub open spec fn message(self) -> Seq<char> {
        match self {
            InstallErrorView::ProcessLaunchError(text) => text,
            InstallErrorView::ExtractionFailed { name, stderr } => "Failed to uncompress "@ + name
                + " "@ + stderr,
        }
    }
}

impl InstallError {
    /// The explanation shown to the user. A failed extraction is explained
    /// by the archive's name followed by what the subprocess wrote to its
    /// standard error.
    pub fn message(&self) -> (text: String)
        ensures
            text@ == self@.message(),
    {
        match self {
            InstallError::ProcessLaunchError(text) => text.clone(),
            InstallError::ExtractionFailed { name, stderr } => String::from_str(
                "Failed to uncompress ",
            ).concat(name.as_str()).concat(" ").concat(stderr.as_str()),
        }
    }
}

/// The file name of the archive that `artifact` describes.
pub open spec fn archive_name(artifact: DownloadedFileView) -> Seq<char> {
    artifact.name + "."@ + artifact.extension
}

/// The script handed to PowerShell to unpack a zip archive into a
/// directory named after the version.
pub open spec fn zip_script(artifact: DownloadedFileView) -> Seq<char> {
    "Add-Type -AssemblyName System.IO.Compression.FileSystem\n[System.IO.Compression.ZipFile]::ExtractToDirectory(\""@
        + archive_name(artifact) + "\", \"./"@ + artifact.name + "\")"@
}

/// The script handed to the shell to unpack a tar archive in place.
pub open spec fn tar_script(artifact: DownloadedFileView) -> Seq<char> {
    "tar -xf "@ + archive_name(artifact)
}

/// The one subprocess that unpacks `artifact` on `platform`. It runs
/// inside the directory that holds the archive.
pub open spec fn extraction_command(
    artifact: DownloadedFileView,
    platform: Platform,
) -> ExtractionCommandView {
    if platform == Platform::Windows {
        ExtractionCommandView {
            program: "powershell"@,
            arguments: seq!["-c"@, zip_script(artifact)],
            working_directory: artifact.path,
        }
    } else {
        ExtractionCommandView {
            program: "bash"@,
            arguments: seq!["-c"@, tar_script(artifact)],
            working_directory: artifact.path,
        }
    }
}

/// The text that `bytes` decode to when every malformed sequence is
/// replaced by U+FFFD.
pub uninterp spec fn utf8_lossy(bytes: Seq<u8>) -> Seq<char>;

/// Decodes `bytes` with `String::from_utf8_lossy`. The text is a function
/// of the bytes alone, so the contract only names it.
#[verifier::external_body]
fn lossy_text(bytes: &Vec<u8>) -> (text: String)
    ensures
        text@ == utf8_lossy(bytes@),
{
    String::from_utf8_lossy(bytes).into_owned()
}

/// What an extraction that ended in `success`, with `stderr` as the text
/// of its standard error, means for the archive called `name`.
pub open spec fn extraction_verdict(name: Seq<char>, success: bool, stderr: Seq<char>) -> Result<
    (),
    InstallErrorView,
> {
    if success {
        Ok(())
    } else {
        Err(InstallErrorView::ExtractionFailed { name, stderr })
    }
}

/// What the report of the extraction subprocess means for the archive
/// called `name`: `Err` in the report stands for a subprocess that could
/// not be started.
pub open spec fn installation_result(
    name: Seq<char>,
    report: Result<ProcessOutputView, Seq<char>>,
) -> Result<(), InstallErrorView> {
    match report {
        Err(text) => Err(InstallErrorView::ProcessLaunchError(text)),
        Ok(output) => extraction_verdict(name, output.success, utf8_lossy(output.stderr)),
    }
}

/// The view of a subprocess report.
pub open spec fn report_view(report: Result<ProcessOutput, String>) -> Result<
    ProcessOutputView,
    Seq<char>,
> {
    match report {
        Ok(output) => Ok(output@),
        Err(text) => Err(text@),
    }
}

/// The view of an installation's outcome.
pub open spec fn outcome_view(outcome: Result<(), InstallError>) -> Result<(), InstallErrorView> {
    match outcome {
        Ok(()) => Ok(()),
        Err(error) => Err(error@),
    }
}

fn script_arguments(script: String) -> (arguments: Vec<String>)
    ensures
        arguments@.map_values(|argument: String| argument@) == seq!["-c"@, script@],
{
    let mut arguments: Vec<String> = Vec::new();
    arguments.push(String::from_str("-c"));
    arguments.push(script);
    assert(arguments@.map_values(|argument: String| argument@) =~= seq!["-c"@, script@]);
    arguments
}

/// Plans the installation of `artifact`: the one subprocess to run, with
/// the archive's directory as its working directory. Running it is left to
/// the caller.
pub fn install_version(artifact: &DownloadedFile, platform: Platform) -> (command:
    ExtractionCommand)
    ensures
        command@ == extraction_command(artifact@, platform),
        command@.working_directory == artifact@.path,
{
    match platform {
        Platform::Windows => {
            let script = String::from_str(
                "Add-Type -AssemblyName System.IO.Compression.FileSystem\n[System.IO.Compression.ZipFile]::ExtractToDirectory(\"",
            ).concat(artifact.name.as_str()).concat(".").concat(artifact.extension.as_str()).concat(
                "\", \"./",
            ).concat(artifact.name.as_str()).concat("\")");
            assert(script@ =~= zip_script(artifact@));
            ExtractionCommand {
                program: String::from_str("powershell"),
                arguments: script_arguments(script),
                working_directory: artifact.path.clone(),
            }
        },
        _ => {
            let script = String::from_str("tar -xf ").concat(artifact.name.as_str()).concat(
                ".",
            ).concat(artifact.extension.as_str());
            assert(script@ =~= tar_script(artifact@));
            ExtractionCommand {
                program: String::from_str("bash"),
                arguments: script_arguments(script),
                working_directory: artifact.path.clone(),
            }
        },
    }
}

/// Judges an extraction by its exit status: success installs the
/// archive, anything else fails with the text of the standard error.
pub fn extraction_outcome(name: &str, success: bool, stderr: String) -> (outcome: Result<
    (),
    InstallError,
>)
    ensures
        outcome_view(outcome) == extraction_verdict(name@, success, stderr@),
{
    if success {
        Ok(())
    } else {
        Err(InstallError::ExtractionFailed { name: String::from_str(name), stderr })
    }
}

/// Reads the report of the extraction subprocess for the archive called
/// `name`. A subprocess that did not start is a launch error; one that
/// ended with a non-zero status is a failed extraction that carries its
/// standard error as text.
pub fn installation_outcome(name: &str, report: Result<ProcessOutput, String>) -> (outcome: Result<
    (),
    InstallError,
>)
    ensures
        outcome_view(outcome) == installation_result(name@, report_view(report)),
{
    match report {
        Err(text) => Err(InstallError::ProcessLaunchError(text)),
        Ok(output) => {
            let stderr = lossy_text(&output.stderr);
            extraction_outcome(name, output.success, stderr)
        },
    }
}

/// A subprocess that ends with a non-zero status always fails the
/// installation with `ExtractionFailed`, and the error and its message
/// carry the text of the subprocess's standard error.
pub proof fn failed_extraction_carries_stderr(name: Seq<char>, output: ProcessOutputView)
    requires
        !output.success,
    ensures
        installation_result(name, Ok(output)) matches Err(error) && ({
            &&& error == InstallErrorView::ExtractionFailed {
                name,
                stderr: utf8_lossy(output.stderr),
            }
            &&& utf8_lossy(output.stderr) == error.message().subrange(
                error.message().len() - utf8_lossy(output.stderr).len(),
                error.message().len() as int,
            )
        }),
{
    let stderr = utf8_lossy(output.stderr);
    let message = InstallErrorView::ExtractionFailed { name, stderr }.message();
    assert(message.subrange(message.len() - stderr.len(), message.len() as int) =~= stderr);
}

/// On every platform the extraction is one subprocess, started in the
/// directory that holds the archive, with the shell's `-c` and one script.
pub proof fn extraction_runs_in_the_archive_directory(
    artifact: DownloadedFileView,
    platform: Platform,
)
    ensures
        extraction_command(artifact, platform).working_directory == artifact.path,
        extraction_command(artifact, platform).arguments.len() == 2,
        extraction_command(artifact, platform).arguments[0] == "-c"@,
{
}

/// The archive that the extraction names is the file that the download
/// created: the descriptor of a completed download leads the subprocess
/// into the directory of that file and to its file name.
pub proof fn extraction_names_the_downloaded_archive(
    directory: Seq<char>,
    version: Seq<char>,
    platform: Platform,
)
    ensures
        ({
            let artifact = artifact_of(directory, version, platform);
            let command = extraction_command(artifact, platform);
            &&& archive_path(directory, version, platform) == command.working_directory + "/"@
                + archive_name(artifact)
            &&& platform != Platform::Windows ==> command.arguments[1] == "tar -xf "@
                + archive_name(artifact)
            &&& platform == Platform::Windows ==> command.arguments[1] == zip_script(artifact)
        }),
{
    let artifact = artifact_of(directory, version, platform);
    assert(archive_path(directory, version, platform) =~= directory + "/"@ + archive_name(
        artifact,
    ));
}

} // verus!

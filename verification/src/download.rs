//! The download-and-unpack run, as a sequence of decisions.
//!
//! The library performs no I/O. A run is a value: starting one gives the
//! first action; the caller carries the action out, reports what happened as
//! an event, and gets the next action or the run's result. What is decided
//! at each point depends on the run and the event alone.

use crate::command::{
    archive_format_of, binary_name_of, curl_to_file_invocation, extraction_invocation,
    Invocation, InvocationView,
};
use crate::error::{ArchiveFormat, Binary, DownloadError};
use crate::path::{file_name, file_name_of, join, joined};
use crate::platform::{download_url, PlatformTarget};
use vstd::prelude::*;
use vstd::string::*;

pub use crate::command::{curl, curl_output, curl_to_file};
pub use crate::manifest::{check_latest_version, parse_linux_version, parse_macos_version};
pub use crate::platform::{ffmpeg_download_url, ffmpeg_manifest_url};

verus! {

/// Name of the directory, below the installation directory, that an archive
/// is unpacked into. It exists only during a run.
pub const UNPACK_DIRNAME: &'static str = "ffmpeg_release_temp";

/// What a run is for.
#[derive(Clone, Copy, Debug, PartialEq, Eq, Structural)]
pub enum Goal {
    /// Make sure that the binaries are installed: download and unpack them
    /// unless they are there already.
    Install,
    /// Unpack an archive that is there already.
    Unpack,
}

/// The action whose outcome a run is waiting for.
#[derive(Clone, Copy, Debug, PartialEq, Eq, Structural)]
pub enum Stage {
    /// Asking whether the binaries are installed, before anything is done.
    Probing,
    /// Asking for the installation directory.
    Locating,
    /// Downloading the archive.
    Downloading,
    /// Creating the staging directory.
    CreatingStaging,
    /// Listing the staging directory.
    ListingStaging,
    /// Running the extraction tool.
    Extracting,
    /// Asking whether this binary is among the extracted files.
    Finding(Binary),
    /// Moving this binary into the installation directory.
    Moving(Binary),
    /// Asking whether the staging directory is still there.
    CheckingStaging,
    /// Removing the staging directory.
    RemovingStaging,
    /// Asking whether the archive is still there.
    CheckingArchive,
    /// Removing the archive.
    RemovingArchive,
    /// Asking whether the binaries are installed, after the installation.
    Verifying,
}

/// A run that is under way.
#[derive(Debug, PartialEq, Eq)]
pub struct Run {
    pub goal: Goal,
    pub target: PlatformTarget,
    pub stage: Stage,
    /// Path of the archive; empty until it is known.
    pub archive: String,
    /// The installation directory; empty until it is known.
    pub folder: String,
}

/// A run as plain values.
pub struct RunView {
    pub goal: Goal,
    pub target: PlatformTarget,
    pub stage: Stage,
    pub archive: Seq<char>,
    pub folder: Seq<char>,
}

impl View for Run {
    type V = RunView;

    open spec fn view(&self) -> RunView {
        RunView {
            goal: self.goal,
            target: self.target,
            stage: self.stage,
            archive: self.archive@,
            folder: self.folder@,
        }
    }
}

/// What the caller is to do next.
#[derive(Debug, PartialEq, Eq)]
pub enum Action {
    /// Find out whether the binaries are installed and usable; answer with
    /// [`Event::Answer`].
    ProbeInstalled,
    /// Find out the installation directory; answer with [`Event::Located`].
    LocateInstallDir,
    /// Start the process and wait for its end; answer with
    /// [`Event::Exited`].
    Run(Invocation),
    /// Create the directory and its missing parents; answer with
    /// [`Event::Completed`].
    CreateDirAll(String),
    /// List what the directory holds; answer with [`Event::Completed`].
    ReadDir(String),
    /// Find out whether anything exists at the path; answer with
    /// [`Event::Answer`].
    Exists(String),
    /// Find out whether a directory exists at the path; answer with
    /// [`Event::Answer`].
    IsDir(String),
    /// Move the file, replacing what is at its new place; answer with
    /// [`Event::Completed`].
    Rename { from: String, to: String },
    /// Remove the directory and all it holds; answer with
    /// [`Event::Completed`].
    RemoveDirAll(String),
    /// Remove the file; answer with [`Event::Completed`].
    RemoveFile(String),
}

/// An action as plain values.
pub enum ActionView {
    ProbeInstalled,
    LocateInstallDir,
    Run(InvocationView),
    CreateDirAll(Seq<char>),
    ReadDir(Seq<char>),
    Exists(Seq<char>),
    IsDir(Seq<char>),
    Rename { from: Seq<char>, to: Seq<char> },
    RemoveDirAll(Seq<char>),
    RemoveFile(Seq<char>),
}

impl View for Action {
    type V = ActionView;

    open spec fn view(&self) -> ActionView {
        match self {
            Action::ProbeInstalled => ActionView::ProbeInstalled,
            Action::LocateInstallDir => ActionView::LocateInstallDir,
            Action::Run(command) => ActionView::Run(command@),
            Action::CreateDirAll(path) => ActionView::CreateDirAll(path@),
            Action::ReadDir(path) => ActionView::ReadDir(path@),
            Action::Exists(path) => ActionView::Exists(path@),
            Action::IsDir(path) => ActionView::IsDir(path@),
            Action::Rename { from, to } => ActionView::Rename { from: from@, to: to@ },
            Action::RemoveDirAll(path) => ActionView::RemoveDirAll(path@),
            Action::RemoveFile(path) => ActionView::RemoveFile(path@),
        }
    }
}

/// What came of an action.
#[derive(Debug, PartialEq, Eq)]
pub enum Event {
    /// The answer to a question.
    Answer(bool),
    /// The installation directory.
    Located(String),
    /// The process ran to its end; `success` tells whether its exit status
    /// was zero.
    Exited { success: bool },
    /// The action was carried out.
    Completed,
    /// The action could not be carried out.
    Failed,
}

/// An event as plain values.
pub enum EventView {
    Answer(bool),
    Located(Seq<char>),
    Exited { success: bool },
    Completed,
    Failed,
}

impl View for Event {
    type V = EventView;

    open spec fn view(&self) -> EventView {
        match self {
            Event::Answer(yes) => EventView::Answer(*yes),
            Event::Located(dir) => EventView::Located(dir@),
            Event::Exited { success } => EventView::Exited { success: *success },
            Event::Completed => EventView::Completed,
            Event::Failed => EventView::Failed,
        }
    }
}

/// How a run goes on after an event.
#[derive(Debug, PartialEq, Eq)]
pub enum Step {
    /// The caller is to carry out `action` and to hand its outcome to `run`.
    Continue { run: Run, action: Action },
    /// The run is over, with this result.
    Done(Result<(), DownloadError>),
}

/// A step as plain values.
pub enum StepView {
    Continue { run: RunView, action: ActionView },
    Done(Result<(), DownloadError>),
}

impl View for Step {
    type V = StepView;

    open spec fn view(&self) -> StepView {
        match self {
            Step::Continue { run, action } => StepView::Continue { run: run@, action: action@ },
            Step::Done(result) => StepView::Done(*result),
        }
    }
}

/// A download that has been planned: where the archive will lie, and the
/// command line that fetches it.
#[derive(Debug, PartialEq, Eq)]
pub struct Download {
    pub archive_path: String,
    pub command: Invocation,
}

/// A planned download as plain values.
pub struct DownloadView {
    pub archive_path: Seq<char>,
    pub command: InvocationView,
}

impl View for Download {
    type V = DownloadView;

    open spec fn view(&self) -> DownloadView {
        DownloadView { archive_path: self.archive_path@, command: self.command@ }
    }
}

/// The download of `url` into `download_dir`: the archive keeps the file
/// name that the URL ends in. A URL without file name cannot be downloaded.
pub open spec fn download_plan(
    target: PlatformTarget,
    url: Seq<char>,
    download_dir: Seq<char>,
) -> Result<DownloadView, DownloadError> {
    match file_name_of(url, target.os) {
        None => Err(DownloadError::DownloadFailed),
        Some(name) => {
            let archive_path = joined(download_dir, name, target.os);
            Ok(
                DownloadView {
                    archive_path,
                    command: curl_to_file_invocation(url, archive_path),
                },
            )
        },
    }
}

/// What a download comes to once its command line has been run: the
/// archive's path if the transfer tool ran and reported success.
pub open spec fn download_result(plan: DownloadView, event: EventView) -> Result<
    Seq<char>,
    DownloadError,
> {
    match event {
        EventView::Exited { success: true } => Ok(plan.archive_path),
        EventView::Exited { success: false } => Err(DownloadError::DownloadFailed),
        _ => Err(DownloadError::TransferFailed),
    }
}

/// The staging directory of a run.
pub open spec fn staging_dir(run: RunView) -> Seq<char> {
    joined(run.folder, UNPACK_DIRNAME@, run.target.os)
}

/// Where `binary` lies after the extraction.
pub open spec fn staged(run: RunView, binary: Binary) -> Seq<char> {
    joined(staging_dir(run), binary_name_of(binary, run.target.os), run.target.os)
}

/// Where `binary` lies once it is installed.
pub open spec fn installed(run: RunView, binary: Binary) -> Seq<char> {
    joined(run.folder, binary_name_of(binary, run.target.os), run.target.os)
}

/// The run `run` at another stage.
pub open spec fn at_stage(run: RunView, stage: Stage) -> RunView {
    RunView { stage, ..run }
}

/// The first step of unpacking: creating the staging directory.
pub open spec fn begin_unpack(run: RunView) -> StepView {
    StepView::Continue {
        run: at_stage(run, Stage::CreatingStaging),
        action: ActionView::CreateDirAll(staging_dir(run)),
    }
}

/// The step after a binary has been moved: on to the next binary, or to the
/// cleanup.
pub open spec fn after_move(run: RunView, binary: Binary) -> StepView {
    match binary {
        Binary::Ffmpeg => StepView::Continue {
            run: at_stage(run, Stage::Finding(Binary::Ffprobe)),
            action: ActionView::Exists(staged(run, Binary::Ffprobe)),
        },
        Binary::Ffprobe => StepView::Continue {
            run: at_stage(run, Stage::CheckingStaging),
            action: ActionView::IsDir(staging_dir(run)),
        },
    }
}

/// The second part of the cleanup: the archive.
pub open spec fn check_archive(run: RunView) -> StepView {
    StepView::Continue {
        run: at_stage(run, Stage::CheckingArchive),
        action: ActionView::Exists(run.archive),
    }
}

/// The step after the cleanup: an unpacking is over, an installation is
/// verified first.
pub open spec fn after_cleanup(run: RunView) -> StepView {
    match run.goal {
        Goal::Unpack => StepView::Done(Ok(())),
        Goal::Install => StepView::Continue {
            run: at_stage(run, Stage::Verifying),
            action: ActionView::ProbeInstalled,
        },
    }
}

/// The step after the installation directory has been found: the download.
pub open spec fn begin_download(run: RunView, folder: Seq<char>) -> StepView {
    match download_url(run.target) {
        Err(error) => StepView::Done(Err(error)),
        Ok(url) => match download_plan(run.target, url, folder) {
            Err(error) => StepView::Done(Err(error)),
            Ok(plan) => StepView::Continue {
                run: RunView {
                    stage: Stage::Downloading,
                    archive: plan.archive_path,
                    folder,
                    ..run
                },
                action: ActionView::Run(plan.command),
            },
        },
    }
}

/// How `run` goes on after `event`.
///
/// An event of another kind than the action asked for counts as the
/// action's failure. A failure ends the run at once: what was made before
/// stays as it is, so a run that fails for the second binary has moved the
/// first already, and leaves the staging directory and the archive behind.
/// The cleanup, which begins once both binaries are moved, never fails a
/// run: whatever comes of its actions, the run goes on.
pub open spec fn next_step(run: RunView, event: EventView) -> StepView {
    let format = archive_format_of(run.archive, run.target.os);
    match run.stage {
        Stage::Probing => match event {
            EventView::Answer(true) => StepView::Done(Ok(())),
            EventView::Answer(false) => match download_url(run.target) {
                Err(error) => StepView::Done(Err(error)),
                Ok(_) => StepView::Continue {
                    run: at_stage(run, Stage::Locating),
                    action: ActionView::LocateInstallDir,
                },
            },
            _ => StepView::Done(Err(DownloadError::IOFailure)),
        },
        Stage::Locating => match event {
            EventView::Located(folder) => begin_download(run, folder),
            _ => StepView::Done(Err(DownloadError::IOFailure)),
        },
        Stage::Downloading => match event {
            EventView::Exited { success: true } => begin_unpack(run),
            EventView::Exited { success: false } => StepView::Done(
                Err(DownloadError::DownloadFailed),
            ),
            _ => StepView::Done(Err(DownloadError::TransferFailed)),
        },
        Stage::CreatingStaging => match (event, format) {
            (EventView::Completed, Some(_)) => StepView::Continue {
                run: at_stage(run, Stage::ListingStaging),
                action: ActionView::ReadDir(staging_dir(run)),
            },
            (EventView::Completed, None) => StepView::Done(
                Err(DownloadError::UnsupportedArchiveFormat),
            ),
            _ => StepView::Done(Err(DownloadError::IOFailure)),
        },
        Stage::ListingStaging => match (event, format) {
            (EventView::Completed, Some(format)) => StepView::Continue {
                run: at_stage(run, Stage::Extracting),
                action: ActionView::Run(
                    extraction_invocation(format, run.archive, staging_dir(run)),
                ),
            },
            (EventView::Completed, None) => StepView::Done(
                Err(DownloadError::UnsupportedArchiveFormat),
            ),
            _ => StepView::Done(Err(DownloadError::IOFailure)),
        },
        Stage::Extracting => match (event, format) {
            (EventView::Exited { success: true }, _) => StepView::Continue {
                run: at_stage(run, Stage::Finding(Binary::Ffmpeg)),
                action: ActionView::Exists(staged(run, Binary::Ffmpeg)),
            },
            (EventView::Exited { success: false }, Some(format)) => StepView::Done(
                Err(DownloadError::ExtractionFailed(format)),
            ),
            (EventView::Exited { success: false }, None) => StepView::Done(
                Err(DownloadError::UnsupportedArchiveFormat),
            ),
            _ => StepView::Done(Err(DownloadError::IOFailure)),
        },
        Stage::Finding(binary) => match event {
            EventView::Answer(true) => StepView::Continue {
                run: at_stage(run, Stage::Moving(binary)),
                action: ActionView::Rename {
                    from: staged(run, binary),
                    to: installed(run, binary),
                },
            },
            EventView::Answer(false) => StepView::Done(
                Err(DownloadError::BinaryNotFound(binary)),
            ),
            _ => StepView::Done(Err(DownloadError::IOFailure)),
        },
        Stage::Moving(binary) => match event {
            EventView::Completed => after_move(run, binary),
            _ => StepView::Done(Err(DownloadError::IOFailure)),
        },
        Stage::CheckingStaging => match event {
            EventView::Answer(true) => StepView::Continue {
                run: at_stage(run, Stage::RemovingStaging),
                action: ActionView::RemoveDirAll(staging_dir(run)),
            },
            _ => check_archive(run),
        },
        Stage::RemovingStaging => check_archive(run),
        Stage::CheckingArchive => match event {
            EventView::Answer(true) => StepView::Continue {
                run: at_stage(run, Stage::RemovingArchive),
                action: ActionView::RemoveFile(run.archive),
            },
            _ => after_cleanup(run),
        },
        Stage::RemovingArchive => after_cleanup(run),
        Stage::Verifying => match event {
            EventView::Answer(true) => StepView::Done(Ok(())),
            _ => StepView::Done(Err(DownloadError::InstallVerificationFailed)),
        },
    }
}

/// The run that `auto_download` starts, as plain values.
pub open spec fn install_run(target: PlatformTarget) -> RunView {
    RunView {
        goal: Goal::Install,
        target,
        stage: Stage::Probing,
        archive: Seq::empty(),
        folder: Seq::empty(),
    }
}

/// The run that `unpack_ffmpeg` starts, as plain values.
pub open spec fn unpack_run(
    target: PlatformTarget,
    from_archive: Seq<char>,
    binary_folder: Seq<char>,
) -> RunView {
    RunView {
        goal: Goal::Unpack,
        target,
        stage: Stage::CreatingStaging,
        archive: from_archive,
        folder: binary_folder,
    }
}

/// Plans the download of the archive at `url` into the directory
/// `download_dir`. Running the plan's command line is the caller's part;
/// [`Download::complete`] tells what came of it.
pub fn download_ffmpeg_package(target: PlatformTarget, url: &str, download_dir: &str) -> (plan:
    Result<Download, DownloadError>)
    ensures
        match plan {
            Ok(download) => download_plan(target, url@, download_dir@) == Ok::<
                DownloadView,
                DownloadError,
            >(download@),
            Err(error) => download_plan(target, url@, download_dir@) == Err::<
                DownloadView,
                DownloadError,
            >(error),
        },
{
    match file_name(url, target.os) {
        None => Err(DownloadError::DownloadFailed),
        Some(name) => {
            let archive_path = join(download_dir, name.as_str(), target.os);
            let command = curl_to_file(url, archive_path.as_str());
            Ok(Download { archive_path, command })
        },
    }
}

impl Download {
    /// What the download came to, given what came of its command line: the
    /// path of the archive if the transfer tool ran and reported success.
    pub fn complete(self, event: &Event) -> (archive: Result<String, DownloadError>)
        ensures
            match archive {
                Ok(path) => download_result(self@, event@) == Ok::<Seq<char>, DownloadError>(
                    path@,
                ),
                Err(error) => download_result(self@, event@) == Err::<Seq<char>, DownloadError>(
                    error,
                ),
            },
    {
        match event {
            Event::Exited { success: true } => Ok(self.archive_path),
            Event::Exited { success: false } => Err(DownloadError::DownloadFailed),
            _ => Err(DownloadError::TransferFailed),
        }
    }
}

/// Starts a run that makes sure the binaries for `target` are installed. It
/// begins by asking whether they are: nothing is fetched before that is
/// answered.
pub fn auto_download(target: PlatformTarget) -> (start: (Run, Action))
    ensures
        start.0@ == install_run(target),
        start.1@ == ActionView::ProbeInstalled,
{
    let run = Run {
        goal: Goal::Install,
        target,
        stage: Stage::Probing,
        archive: String::new(),
        folder: String::new(),
    };
    (run, Action::ProbeInstalled)
}

/// Starts a run that unpacks the archive `from_archive`, moves the two
/// binaries into `binary_folder` and removes the archive and what else was
/// unpacked. It begins by creating the staging directory.
pub fn unpack_ffmpeg(
    target: PlatformTarget,
    from_archive: &str,
    binary_folder: &str,
) -> (start: (Run, Action))
    ensures
        start.0@ == unpack_run(target, from_archive@, binary_folder@),
        start.1@ == ActionView::CreateDirAll(staging_dir(start.0@)),
{
    let run = Run {
        goal: Goal::Unpack,
        target,
        stage: Stage::CreatingStaging,
        archive: String::from_str(from_archive),
        folder: String::from_str(binary_folder),
    };
    let staging = run.staging();
    (run, Action::CreateDirAll(staging))
}

impl Run {
    /// The staging directory of the run.
    pub fn staging(&self) -> (path: String)
        ensures
            path@ == staging_dir(self@),
    {
        join(self.folder.as_str(), UNPACK_DIRNAME, self.target.os)
    }

    /// Where `binary` lies after the extraction.
    pub fn staged_binary(&self, binary: Binary) -> (path: String)
        ensures
            path@ == staged(self@, binary),
    {
        let staging = self.staging();
        join(staging.as_str(), binary.file_name(self.target.os), self.target.os)
    }

    /// Where `binary` lies once it is installed.
    pub fn installed_binary(&self, binary: Binary) -> (path: String)
        ensures
            path@ == installed(self@, binary),
    {
        join(self.folder.as_str(), binary.file_name(self.target.os), self.target.os)
    }

    /// The run at another stage, about to carry out `action`.
    fn proceed(self, stage: Stage, action: Action) -> (step: Step)
        ensures
            step@ == (StepView::Continue { run: at_stage(self@, stage), action: action@ }),
    {
        Step::Continue { run: Run { stage, ..self }, action }
    }

    /// The first step of unpacking.
    fn unpack(self) -> (step: Step)
        ensures
            step@ == begin_unpack(self@),
    {
        let staging = self.staging();
        self.proceed(Stage::CreatingStaging, Action::CreateDirAll(staging))
    }

    /// The step after `binary` has been moved.
    fn moved(self, binary: Binary) -> (step: Step)
        ensures
            step@ == after_move(self@, binary),
    {
        match binary {
            Binary::Ffmpeg => {
                let next = self.staged_binary(Binary::Ffprobe);
                self.proceed(Stage::Finding(Binary::Ffprobe), Action::Exists(next))
            },
            Binary::Ffprobe => {
                let staging = self.staging();
                self.proceed(Stage::CheckingStaging, Action::IsDir(staging))
            },
        }
    }

    /// The second part of the cleanup.
    fn archive_check(self) -> (step: Step)
        ensures
            step@ == check_archive(self@),
    {
        let archive = self.archive.clone();
        self.proceed(Stage::CheckingArchive, Action::Exists(archive))
    }

    /// The step after the cleanup.
    fn cleaned_up(self) -> (step: Step)
        ensures
            step@ == after_cleanup(self@),
    {
        match self.goal {
            Goal::Unpack => Step::Done(Ok(())),
            Goal::Install => self.proceed(Stage::Verifying, Action::ProbeInstalled),
        }
    }

    /// The step after the installation directory has been found.
    fn download(self, folder: String) -> (step: Step)
        ensures
            step@ == begin_download(self@, folder@),
    {
        match ffmpeg_download_url(self.target) {
            Err(error) => Step::Done(Err(error)),
            Ok(url) => match download_ffmpeg_package(self.target, url, folder.as_str()) {
                Err(error) => Step::Done(Err(error)),
                Ok(plan) => Step::Continue {
                    run: Run {
                        stage: Stage::Downloading,
                        archive: plan.archive_path,
                        folder,
                        ..self
                    },
                    action: Action::Run(plan.command),
                },
            },
        }
    }

    /// Takes the outcome of the action that the run was waiting for and
    /// decides how the run goes on.
    pub fn advance(self, event: Event) -> (step: Step)
        ensures
            step@ == next_step(self@, event@),
    {
        let os = self.target.os;
        match self.stage {
            Stage::Probing => match event {
                Event::Answer(true) => Step::Done(Ok(())),
                Event::Answer(false) => match ffmpeg_download_url(self.target) {
                    Err(error) => Step::Done(Err(error)),
                    Ok(_) => self.proceed(Stage::Locating, Action::LocateInstallDir),
                },
                _ => Step::Done(Err(DownloadError::IOFailure)),
            },
            Stage::Locating => match event {
                Event::Located(folder) => self.download(folder),
                _ => Step::Done(Err(DownloadError::IOFailure)),
            },
            Stage::Downloading => match event {
                Event::Exited { success: true } => self.unpack(),
                Event::Exited { success: false } => Step::Done(
                    Err(DownloadError::DownloadFailed),
                ),
                _ => Step::Done(Err(DownloadError::TransferFailed)),
            },
            Stage::CreatingStaging => match event {
                Event::Completed => match ArchiveFormat::of_archive(self.archive.as_str(), os) {
                    Some(_) => {
                        let staging = self.staging();
                        self.proceed(Stage::ListingStaging, Action::ReadDir(staging))
                    },
                    None => Step::Done(Err(DownloadError::UnsupportedArchiveFormat)),
                },
                _ => Step::Done(Err(DownloadError::IOFailure)),
            },
            Stage::ListingStaging => match event {
                Event::Completed => match ArchiveFormat::of_archive(self.archive.as_str(), os) {
                    Some(format) => {
                        let staging = self.staging();
                        let command = format.extraction(self.archive.as_str(), staging.as_str());
                        self.proceed(Stage::Extracting, Action::Run(command))
                    },
                    None => Step::Done(Err(DownloadError::UnsupportedArchiveFormat)),
                },
                _ => Step::Done(Err(DownloadError::IOFailure)),
            },
            Stage::Extracting => match event {
                Event::Exited { success: true } => {
                    let first = self.staged_binary(Binary::Ffmpeg);
                    self.proceed(Stage::Finding(Binary::Ffmpeg), Action::Exists(first))
                },
                Event::Exited { success: false } => match ArchiveFormat::of_archive(
                    self.archive.as_str(),
                    os,
                ) {
                    Some(format) => Step::Done(Err(DownloadError::ExtractionFailed(format))),
                    None => Step::Done(Err(DownloadError::UnsupportedArchiveFormat)),
                },
                _ => Step::Done(Err(DownloadError::IOFailure)),
            },
            Stage::Finding(binary) => match event {
                Event::Answer(true) => {
                    let from = self.staged_binary(binary);
                    let to = self.installed_binary(binary);
                    self.proceed(Stage::Moving(binary), Action::Rename { from, to })
                },
                Event::Answer(false) => Step::Done(Err(DownloadError::BinaryNotFound(binary))),
                _ => Step::Done(Err(DownloadError::IOFailure)),
            },
            Stage::Moving(binary) => match event {
                Event::Completed => self.moved(binary),
                _ => Step::Done(Err(DownloadError::IOFailure)),
            },
            Stage::CheckingStaging => match event {
                Event::Answer(true) => {
                    let staging = self.staging();
                    self.proceed(Stage::RemovingStaging, Action::RemoveDirAll(staging))
                },
                _ => self.archive_check(),
            },
            Stage::RemovingStaging => self.archive_check(),
            Stage::CheckingArchive => match event {
                Event::Answer(true) => {
                    let archive = self.archive.clone();
                    self.proceed(Stage::RemovingArchive, Action::RemoveFile(archive))
                },
                _ => self.cleaned_up(),
            },
            Stage::RemovingArchive => self.cleaned_up(),
            Stage::Verifying => match event {
                Event::Answer(true) => Step::Done(Ok(())),
                _ => Step::Done(Err(DownloadError::InstallVerificationFailed)),
            },
        }
    }
}

} // verus!

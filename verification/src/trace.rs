//! What holds of whole runs: the actions that a run asks for and the result
//! it comes to, over every sequence of events.

use crate::command::{
    archive_format_of, extraction_invocation, has_download, lemma_download_url_names_an_archive,
};
use crate::download::{
    installed, install_run, next_step, staged, staging_dir, unpack_run, ActionView, EventView,
    Goal, RunView, Stage, StepView,
};
use crate::error::{Binary, DownloadError};
use crate::path::{file_name_of, lemma_file_name_of_joined};
use crate::platform::{download_url, PlatformTarget};
use vstd::prelude::*;

verus! {

/// The actions that `run` asks for in answer to `events`, one after each
/// event, until the run is over or the events are used up.
pub open spec fn actions_after(run: RunView, events: Seq<EventView>) -> Seq<ActionView>
    decreases events.len(),
{
    if events.len() == 0 {
        Seq::empty()
    } else {
        match next_step(run, events[0]) {
            StepView::Done(_) => Seq::empty(),
            StepView::Continue { run: next, action } => seq![action] + actions_after(
                next,
                events.drop_first(),
            ),
        }
    }
}

/// The result that `run` comes to in answer to `events`, if they bring it to
/// its end.
pub open spec fn result_after(run: RunView, events: Seq<EventView>) -> Option<
    Result<(), DownloadError>,
>
    decreases events.len(),
{
    if events.len() == 0 {
        None
    } else {
        match next_step(run, events[0]) {
            StepView::Done(result) => Some(result),
            StepView::Continue { run: next, .. } => result_after(next, events.drop_first()),
        }
    }
}

/// Whether the run has moved both binaries and is cleaning up.
pub open spec fn cleaning_up(stage: Stage) -> bool {
    stage == Stage::CheckingStaging || stage == Stage::RemovingStaging || stage
        == Stage::CheckingArchive || stage == Stage::RemovingArchive
}

/// The number of actions that a cleanup at `stage` has left at most.
pub open spec fn cleanup_left(stage: Stage) -> nat {
    match stage {
        Stage::CheckingStaging => 4,
        Stage::RemovingStaging => 3,
        Stage::CheckingArchive => 2,
        Stage::RemovingArchive => 1,
        _ => 0,
    }
}

/// The events of an unpacking in which every action succeeds and everything
/// asked for is there.
pub open spec fn all_goes_well() -> Seq<EventView> {
    seq![
        EventView::Completed,
        EventView::Completed,
        EventView::Exited { success: true },
        EventView::Answer(true),
        EventView::Completed,
        EventView::Answer(true),
        EventView::Completed,
        EventView::Answer(true),
        EventView::Completed,
        EventView::Answer(true),
        EventView::Completed,
    ]
}

/// When the binaries are installed already, an installation is over at once
/// and with success: it asks for nothing, so nothing is fetched.
pub proof fn lemma_installed_already(target: PlatformTarget, events: Seq<EventView>)
    requires
        events.len() > 0,
        events[0] == EventView::Answer(true),
    ensures
        actions_after(install_run(target), events) == Seq::<ActionView>::empty(),
        result_after(install_run(target), events) == Some(Ok::<(), DownloadError>(())),
{
}

/// Where archives are published for a target, an installation that has
/// found its directory goes on to download, whatever the directory is, and
/// the archive that it downloads is one that it can unpack.
pub proof fn lemma_download_can_be_unpacked(run: RunView, folder: Seq<char>)
    requires
        has_download(run.target),
        run.stage == Stage::Locating,
    ensures
        match next_step(run, EventView::Located(folder)) {
            StepView::Continue { run: next, action } => {
                &&& next.stage == Stage::Downloading
                &&& next.folder == folder
                &&& action is Run
                &&& archive_format_of(next.archive, next.target.os) is Some
            },
            StepView::Done(_) => false,
        },
{
    let os = run.target.os;
    lemma_download_url_names_an_archive(run.target);
    let url = download_url(run.target)->Ok_0;
    let name = file_name_of(url, os)->0;
    lemma_file_name_of_joined(folder, name, os);
}

/// An archive whose extension selects no extraction tool is refused as soon
/// as the staging directory is made: the unpacking is over after its first
/// event, whatever the event is, without having asked for anything more, so
/// no process is started.
pub proof fn lemma_unsupported_archive_fails_fast(
    target: PlatformTarget,
    archive: Seq<char>,
    folder: Seq<char>,
    events: Seq<EventView>,
)
    requires
        archive_format_of(archive, target.os) is None,
        events.len() > 0,
    ensures
        actions_after(unpack_run(target, archive, folder), events) == Seq::<ActionView>::empty(),
        result_after(unpack_run(target, archive, folder), events) == Some(
            if events[0] == EventView::Completed {
                Err::<(), DownloadError>(DownloadError::UnsupportedArchiveFormat)
            } else {
                Err::<(), DownloadError>(DownloadError::IOFailure)
            },
        ),
{
}

/// A run starts the extraction tool only for an archive whose extension
/// selects one, and then with the command line of that format.
pub proof fn lemma_extraction_needs_format(run: RunView, event: EventView)
    ensures
        match next_step(run, event) {
            StepView::Continue { run: next, action } => next.stage == Stage::Extracting ==> (
            archive_format_of(run.archive, run.target.os) matches Some(format) && action
                == ActionView::Run(extraction_invocation(format, run.archive, staging_dir(run)))),
            StepView::Done(_) => true,
        },
{
}

/// A binary that is missing from the extracted files ends the run with
/// `BinaryNotFound`, naming it; nothing is cleaned up after that.
pub proof fn lemma_missing_binary(run: RunView, binary: Binary)
    requires
        run.stage == Stage::Finding(binary),
    ensures
        next_step(run, EventView::Answer(false)) == StepView::Done(
            Err(DownloadError::BinaryNotFound(binary)),
        ),
{
}

/// The cleanup never fails an unpacking: once both binaries are moved, the
/// run ends with success whatever comes of the cleanup's actions.
pub proof fn lemma_cleanup_never_fails(run: RunView, events: Seq<EventView>)
    requires
        run.goal == Goal::Unpack,
        cleaning_up(run.stage),
        events.len() >= cleanup_left(run.stage),
    ensures
        result_after(run, events) == Some(Ok::<(), DownloadError>(())),
    decreases events.len(),
{
    match next_step(run, events[0]) {
        StepView::Done(result) => {},
        StepView::Continue { run: next, .. } => {
            lemma_cleanup_never_fails(next, events.drop_first());
        },
    }
}

/// After the cleanup of an installation only the second probe decides: the
/// run succeeds if the binaries are found installed, and fails with
/// `InstallVerificationFailed` if not.
pub proof fn lemma_installation_is_verified(run: RunView, event: EventView)
    requires
        run.stage == Stage::Verifying,
    ensures
        next_step(run, event) == StepView::Done(
            if event == EventView::Answer(true) {
                Ok::<(), DownloadError>(())
            } else {
                Err::<(), DownloadError>(DownloadError::InstallVerificationFailed)
            },
        ),
{
}

/// Where no archive is published for the target, an installation that finds
/// the binaries missing ends at once with `UnsupportedPlatform`.
pub proof fn lemma_unsupported_platform_stops_installation(target: PlatformTarget)
    requires
        !has_download(target),
    ensures
        next_step(install_run(target), EventView::Answer(false)) == StepView::Done(
            Err(DownloadError::UnsupportedPlatform),
        ),
{
    lemma_download_url_names_an_archive(target);
}

/// Whether the first seven events tell that the staging directory was made
/// and listed, that the extraction tool reported success, and that each
/// binary was found and moved.
pub open spec fn installs_both(events: Seq<EventView>) -> bool {
    &&& events.len() >= 7
    &&& events[0] == EventView::Completed
    &&& events[1] == EventView::Completed
    &&& events[2] == (EventView::Exited { success: true })
    &&& events[3] == EventView::Answer(true)
    &&& events[4] == EventView::Completed
    &&& events[5] == EventView::Answer(true)
    &&& events[6] == EventView::Completed
}

/// An unpacking succeeds if and only if the archive's extension selects an
/// extraction tool and every step up to the move of the second binary
/// succeeds. What comes of the cleanup makes no difference.
pub proof fn lemma_unpacking_succeeds_iff(
    target: PlatformTarget,
    archive: Seq<char>,
    folder: Seq<char>,
    events: Seq<EventView>,
)
    requires
        events.len() >= 11,
    ensures
        result_after(unpack_run(target, archive, folder), events) is Some,
        result_after(unpack_run(target, archive, folder), events) == Some(
            Ok::<(), DownloadError>(()),
        ) <==> archive_format_of(archive, target.os) is Some && installs_both(events),
{
    let run = unpack_run(target, archive, folder);
    reveal_with_fuel(result_after, 8);
    let e1 = events.drop_first();
    let e2 = e1.drop_first();
    let e3 = e2.drop_first();
    let e4 = e3.drop_first();
    let e5 = e4.drop_first();
    let e6 = e5.drop_first();
    let e7 = e6.drop_first();
    assert(e1[0] == events[1]);
    assert(e2[0] == events[2]);
    assert(e3[0] == events[3]);
    assert(e4[0] == events[4]);
    assert(e5[0] == events[5]);
    assert(e6[0] == events[6]);
    if archive_format_of(archive, target.os) is Some && installs_both(events) {
        let cleanup = RunView { stage: Stage::CheckingStaging, ..run };
        lemma_cleanup_never_fails(cleanup, e7);
    }
}

/// An unpacking in which all goes well asks, in this order, to create the
/// staging directory, to list it, to run the extraction tool, to look for
/// and move each binary, to remove the staging directory and to remove the
/// archive, and then ends with success.
pub proof fn lemma_unpacking_in_order(
    target: PlatformTarget,
    archive: Seq<char>,
    folder: Seq<char>,
)
    requires
        archive_format_of(archive, target.os) is Some,
    ensures
        ({
            let run = unpack_run(target, archive, folder);
            let staging = staging_dir(run);
            let format = archive_format_of(archive, target.os)->0;
            &&& actions_after(run, all_goes_well()) == seq![
                ActionView::ReadDir(staging),
                ActionView::Run(extraction_invocation(format, archive, staging)),
                ActionView::Exists(staged(run, Binary::Ffmpeg)),
                ActionView::Rename {
                    from: staged(run, Binary::Ffmpeg),
                    to: installed(run, Binary::Ffmpeg),
                },
                ActionView::Exists(staged(run, Binary::Ffprobe)),
                ActionView::Rename {
                    from: staged(run, Binary::Ffprobe),
                    to: installed(run, Binary::Ffprobe),
                },
                ActionView::IsDir(staging),
                ActionView::RemoveDirAll(staging),
                ActionView::Exists(archive),
                ActionView::RemoveFile(archive),
            ]
            &&& result_after(run, all_goes_well()) == Some(Ok::<(), DownloadError>(()))
        }),
{
    let run = unpack_run(target, archive, folder);
    let events = all_goes_well();
    reveal_with_fuel(actions_after, 12);
    reveal_with_fuel(result_after, 12);
    let e1 = events.drop_first();
    let e2 = e1.drop_first();
    let e3 = e2.drop_first();
    let e4 = e3.drop_first();
    let e5 = e4.drop_first();
    let e6 = e5.drop_first();
    let e7 = e6.drop_first();
    let e8 = e7.drop_first();
    let e9 = e8.drop_first();
    let e10 = e9.drop_first();
    let e11 = e10.drop_first();
    assert(e11.len() == 0);
    assert(e10[0] == EventView::Completed);
    assert(e9[0] == EventView::Answer(true));
    assert(e8[0] == EventView::Completed);
    assert(e7[0] == EventView::Answer(true));
    assert(e6[0] == EventView::Completed);
    assert(e5[0] == EventView::Answer(true));
    assert(e4[0] == EventView::Completed);
    assert(e3[0] == EventView::Answer(true));
    assert(e2[0] == (EventView::Exited { success: true }));
    assert(e1[0] == EventView::Completed);
    assert(events[0] == EventView::Completed);
}

} // verus!

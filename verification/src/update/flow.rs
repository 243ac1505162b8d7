//! The course of an update.
//!
//! Each step takes what came of the last action and says which action is next. The actions
//! themselves (fetching, asking, downloading, installing) are performed by the caller.

use vstd::prelude::*;
use vstd::string::*;
use vstd::utf8::*;

use crate::text::{cat2, cat4, same_text};
use crate::update::archive::{
    ends_search, extract, extraction, law_first_match, searched, shown,
};
use crate::update::gzip::inflated;
use crate::update::path::file_name;
use crate::update::release::{
    binary_name, decide, decided, decision, get_binary_name, release_url, release_url_text,
    target_version, CommandView, Decision, DecisionView, Installation, InstallationView,
    LatestRelease, PlanView, ReleaseView, UpdateCommand, UpdatePlan,
};
use crate::update::tarball::{read_bytes, tar_contents, tar_listing, walkable_part};
use crate::update::version::{version_precedence, Precedence};

verus! {

/// How far an update has come.
#[derive(Debug)]
pub enum Update {
    /// The release's description was asked for.
    Fetching(UpdateCommand, Installation),
    /// The user was asked.
    Confirming(UpdatePlan),
    /// The archive was asked for.
    Downloading(UpdatePlan),
    /// The program was handed over for installation.
    Installing(UpdatePlan),
    /// Nothing is left to do.
    Finished,
}

/// What came of an action.
#[derive(Debug)]
pub enum UpdateEvent {
    /// The release's description, or why it could not be fetched.
    Fetched(Result<LatestRelease, String>),
    /// The user's answer, or why there is none.
    Answered(Result<bool, String>),
    /// The archive, or why it could not be downloaded.
    Downloaded(Result<Vec<u8>, String>),
    /// Whether the program could be put in place.
    Installed(Result<(), String>),
}

/// What to do next.
#[derive(Debug)]
pub enum UpdateAction {
    /// Fetch the description of a release.
    FetchRelease { url: String },
    /// Ask the user, with yes as the answer offered.
    Confirm { prompt: String },
    /// Download an archive.
    Download { url: String },
    /// Put these bytes in the place of the running program.
    Install { binary: Vec<u8> },
    /// End with a line for the user, or with an error.
    Finish(Result<String, String>),
}

/// How far an update has come.
pub enum UpdateView {
    Fetching(CommandView, InstallationView),
    Confirming(PlanView),
    Downloading(PlanView),
    Installing(PlanView),
    Finished,
}

impl View for Update {
    type V = UpdateView;

    open spec fn view(&self) -> UpdateView {
        match *self {
            Update::Fetching(command, running) => UpdateView::Fetching(command@, running@),
            Update::Confirming(plan) => UpdateView::Confirming(plan@),
            Update::Downloading(plan) => UpdateView::Downloading(plan@),
            Update::Installing(plan) => UpdateView::Installing(plan@),
            Update::Finished => UpdateView::Finished,
        }
    }
}

/// What came of an action.
pub enum UpdateEventView {
    Fetched(Result<ReleaseView, Seq<char>>),
    Answered(Result<bool, Seq<char>>),
    Downloaded(Result<Seq<u8>, Seq<char>>),
    Installed(Result<(), Seq<char>>),
}

impl View for UpdateEvent {
    type V = UpdateEventView;

    open spec fn view(&self) -> UpdateEventView {
        match *self {
            UpdateEvent::Fetched(Ok(release)) => UpdateEventView::Fetched(Ok(release@)),
            UpdateEvent::Fetched(Err(e)) => UpdateEventView::Fetched(Err(e@)),
            UpdateEvent::Answered(Ok(yes)) => UpdateEventView::Answered(Ok(yes)),
            UpdateEvent::Answered(Err(e)) => UpdateEventView::Answered(Err(e@)),
            UpdateEvent::Downloaded(Ok(bytes)) => UpdateEventView::Downloaded(Ok(bytes@)),
            UpdateEvent::Downloaded(Err(e)) => UpdateEventView::Downloaded(Err(e@)),
            UpdateEvent::Installed(Ok(())) => UpdateEventView::Installed(Ok(())),
            UpdateEvent::Installed(Err(e)) => UpdateEventView::Installed(Err(e@)),
        }
    }
}

/// What to do next.
pub enum UpdateActionView {
    FetchRelease { url: Seq<char> },
    Confirm { prompt: Seq<char> },
    Download { url: Seq<char> },
    Install { binary: Seq<u8> },
    Finish(Result<Seq<char>, Seq<char>>),
}

impl View for UpdateAction {
    type V = UpdateActionView;

    open spec fn view(&self) -> UpdateActionView {
        match *self {
            UpdateAction::FetchRelease { url } => UpdateActionView::FetchRelease { url: url@ },
            UpdateAction::Confirm { prompt } => UpdateActionView::Confirm { prompt: prompt@ },
            UpdateAction::Download { url } => UpdateActionView::Download { url: url@ },
            UpdateAction::Install { binary } => UpdateActionView::Install { binary: binary@ },
            UpdateAction::Finish(Ok(line)) => UpdateActionView::Finish(Ok(line@)),
            UpdateAction::Finish(Err(e)) => UpdateActionView::Finish(Err(e@)),
        }
    }
}

/// Whether an event is an answer to the action that the update waits for.
pub open spec fn answers(state: UpdateView, event: UpdateEventView) -> bool {
    match state {
        UpdateView::Fetching(_, _) => event is Fetched,
        UpdateView::Confirming(_) => event is Answered,
        UpdateView::Downloading(_) => event is Downloaded,
        UpdateView::Installing(_) => event is Installed,
        UpdateView::Finished => false,
    }
}

/// What follows from a decision about the release.
pub open spec fn after_decision(
    skip_confirm: bool,
    decision: Result<DecisionView, Seq<char>>,
) -> (UpdateView, UpdateActionView) {
    match decision {
        Err(e) => (UpdateView::Finished, UpdateActionView::Finish(Err(e))),
        Ok(DecisionView::UpToDate(version)) => (
            UpdateView::Finished,
            UpdateActionView::Finish(Ok("Already on the latest version "@ + version)),
        ),
        Ok(DecisionView::Proceed(plan)) => if skip_confirm {
            (UpdateView::Downloading(plan), UpdateActionView::Download { url: plan.url })
        } else {
            (
                UpdateView::Confirming(plan),
                UpdateActionView::Confirm {
                    prompt: "Update surfpool from "@ + plan.from + " to "@ + plan.to,
                },
            )
        },
    }
}

/// What follows from extracting the program from the archive.
pub open spec fn after_extraction(
    plan: PlanView,
    extracted: Result<Seq<u8>, Seq<char>>,
) -> (UpdateView, UpdateActionView) {
    match extracted {
        Err(e) => (UpdateView::Finished, UpdateActionView::Finish(Err(e))),
        Ok(binary) => (UpdateView::Installing(plan), UpdateActionView::Install { binary }),
    }
}

/// The next state and the next action, for what came of the last action.
pub open spec fn next_step(state: UpdateView, event: UpdateEventView) -> (
    UpdateView,
    UpdateActionView,
) {
    match (state, event) {
        (UpdateView::Fetching(command, running), UpdateEventView::Fetched(Ok(release))) =>
            after_decision(
                command.skip_confirm,
                decision(command.version is Some, running, release),
            ),
        (UpdateView::Confirming(plan), UpdateEventView::Answered(Ok(yes))) => if yes {
            (UpdateView::Downloading(plan), UpdateActionView::Download { url: plan.url })
        } else {
            (UpdateView::Finished, UpdateActionView::Finish(Ok("Update cancelled"@)))
        },
        (UpdateView::Confirming(_), UpdateEventView::Answered(Err(e))) => (
            UpdateView::Finished,
            UpdateActionView::Finish(Err("Failed to read confirmation: "@ + e)),
        ),
        (UpdateView::Downloading(plan), UpdateEventView::Downloaded(Ok(archive))) =>
            after_extraction(
                plan,
                extraction(archive, binary_name(plan.os), plan.os == "windows"@),
            ),
        (UpdateView::Installing(plan), UpdateEventView::Installed(Ok(_))) => (
            UpdateView::Finished,
            UpdateActionView::Finish(
                Ok("Surfpool updated from "@ + plan.from + " to "@ + plan.to),
            ),
        ),
        (_, UpdateEventView::Fetched(Err(e))) => (
            UpdateView::Finished,
            UpdateActionView::Finish(Err(e)),
        ),
        (_, UpdateEventView::Downloaded(Err(e))) => (
            UpdateView::Finished,
            UpdateActionView::Finish(Err(e)),
        ),
        (_, UpdateEventView::Installed(Err(e))) => (
            UpdateView::Finished,
            UpdateActionView::Finish(Err(e)),
        ),
        _ => (UpdateView::Finished, UpdateActionView::Finish(Ok(Seq::empty()))),
    }
}

/// Says what follows from a decision about the release.
pub fn follow_decision(skip_confirm: bool, decision: Result<Decision, String>) -> (r: (
    Update,
    UpdateAction,
))
    ensures
        (r.0@, r.1@) == after_decision(skip_confirm, decided(decision)),
{
    match decision {
        Err(e) => (Update::Finished, UpdateAction::Finish(Err(e))),
        Ok(Decision::UpToDate(version)) => (
            Update::Finished,
            UpdateAction::Finish(Ok(cat2("Already on the latest version ", version.as_str()))),
        ),
        Ok(Decision::Proceed(plan)) => if skip_confirm {
            let url: String = plan.url.clone();
            (Update::Downloading(plan), UpdateAction::Download { url })
        } else {
            let prompt: String = cat4(
                "Update surfpool from ",
                plan.from.as_str(),
                " to ",
                plan.to.as_str(),
            );
            (Update::Confirming(plan), UpdateAction::Confirm { prompt })
        },
    }
}

/// Says what follows from extracting the program from the archive.
pub fn follow_extraction(plan: UpdatePlan, extracted: Result<Vec<u8>, String>) -> (r: (
    Update,
    UpdateAction,
))
    ensures
        (r.0@, r.1@) == after_extraction(plan@, read_bytes(extracted)),
{
    match extracted {
        Err(e) => (Update::Finished, UpdateAction::Finish(Err(e))),
        Ok(binary) => (Update::Installing(plan), UpdateAction::Install { binary }),
    }
}

impl Update {
    /// Starts an update: the first action fetches the release that the command asks for.
    pub fn begin(command: UpdateCommand, running: Installation) -> (r: (Update, UpdateAction))
        ensures
            r.0@ == UpdateView::Fetching(command@, running@),
            r.1@ == (UpdateActionView::FetchRelease { url: release_url_text(command@.version) }),
    {
        let url: String = release_url(&command.version);
        (Update::Fetching(command, running), UpdateAction::FetchRelease { url })
    }

    /// Takes what came of the last action and says what to do next.
    pub fn step(self, event: UpdateEvent) -> (r: (Update, UpdateAction))
        requires
            answers(self@, event@),
        ensures
            (r.0@, r.1@) == next_step(self@, event@),
    {
        match (self, event) {
            (Update::Fetching(command, running), UpdateEvent::Fetched(Ok(release))) =>
                follow_decision(
                    command.skip_confirm,
                    decide(command.version.is_some(), &running, &release),
                ),
            (Update::Confirming(plan), UpdateEvent::Answered(Ok(yes))) => if yes {
                let url: String = plan.url.clone();
                (Update::Downloading(plan), UpdateAction::Download { url })
            } else {
                (Update::Finished, UpdateAction::Finish(Ok("Update cancelled".to_owned())))
            },
            (Update::Confirming(_), UpdateEvent::Answered(Err(e))) => (
                Update::Finished,
                UpdateAction::Finish(Err(cat2("Failed to read confirmation: ", e.as_str()))),
            ),
            (Update::Downloading(plan), UpdateEvent::Downloaded(Ok(archive))) => {
                let windows: bool = same_text(plan.os.as_str(), "windows");
                let extracted: Result<Vec<u8>, String> = extract(
                    archive.as_slice(),
                    get_binary_name(plan.os.as_str()),
                    windows,
                );
                follow_extraction(plan, extracted)
            },
            (Update::Installing(plan), UpdateEvent::Installed(Ok(_))) => (
                Update::Finished,
                UpdateAction::Finish(
                    Ok(
                        cat4(
                            "Surfpool updated from ",
                            plan.from.as_str(),
                            " to ",
                            plan.to.as_str(),
                        ),
                    ),
                ),
            ),
            (_, UpdateEvent::Fetched(Err(e))) => (Update::Finished, UpdateAction::Finish(Err(e))),
            (_, UpdateEvent::Downloaded(Err(e))) => (
                Update::Finished,
                UpdateAction::Finish(Err(e)),
            ),
            (_, UpdateEvent::Installed(Err(e))) => (Update::Finished, UpdateAction::Finish(Err(e))),
            _ => (Update::Finished, UpdateAction::Finish(Ok(String::new()))),
        }
    }
}

/// The state that a series of events leads to.
pub open spec fn course(state: UpdateView, events: Seq<UpdateEventView>) -> UpdateView
    decreases events.len(),
{
    if events.len() == 0 {
        state
    } else {
        next_step(course(state, events.drop_last()), events.last()).0
    }
}

/// Where no version was asked for, a release that is not newer than the running program is never
/// downloaded; where it is the running version, it is not downloaded even on request.
pub proof fn law_no_unasked_downgrade(
    command: CommandView,
    running: InstallationView,
    release: ReleaseView,
)
    requires
        version_precedence(running.version, target_version(release.tag)) == Precedence::Same || (
        command.version is None && version_precedence(running.version, target_version(release.tag))
            == Precedence::Higher),
    ensures
        next_step(
            UpdateView::Fetching(command, running),
            UpdateEventView::Fetched(Ok(release)),
        ).0 == UpdateView::Finished,
        next_step(
            UpdateView::Fetching(command, running),
            UpdateEventView::Fetched(Ok(release)),
        ).1 is Finish,
{
}

/// Nothing is downloaded or installed without consent: the command waived the question, or the
/// user said yes.
pub proof fn law_consent(
    command: CommandView,
    running: InstallationView,
    events: Seq<UpdateEventView>,
)
    requires
        course(UpdateView::Fetching(command, running), events) is Downloading || course(
            UpdateView::Fetching(command, running),
            events,
        ) is Installing,
    ensures
        command.skip_confirm || events.contains(UpdateEventView::Answered(Ok(true))),
    decreases events.len(),
{
    let start = UpdateView::Fetching(command, running);
    lemma_fetching_keeps_command(command, running, events.drop_last());
    let before = course(start, events.drop_last());
    if before is Downloading || before is Installing {
        law_consent(command, running, events.drop_last());
        if !command.skip_confirm {
            let i = choose|i: int|
                0 <= i < events.drop_last().len() && events.drop_last()[i]
                    == UpdateEventView::Answered(Ok(true));
            assert(events[i] == UpdateEventView::Answered(Ok(true)));
        }
    } else if before is Confirming {
        assert(events[events.len() - 1] == UpdateEventView::Answered(Ok(true)));
    }
}

proof fn lemma_fetching_keeps_command(
    command: CommandView,
    running: InstallationView,
    events: Seq<UpdateEventView>,
)
    ensures
        course(UpdateView::Fetching(command, running), events) is Fetching ==> course(
            UpdateView::Fetching(command, running),
            events,
        ) == UpdateView::Fetching(command, running),
    decreases events.len(),
{
    if events.len() > 0 {
        lemma_fetching_keeps_command(command, running, events.drop_last());
    }
}

/// Whether `binary` is the contents of the entry at `index`, whole unless the archive itself ends
/// early, that entry has the program's file name, and no entry before it has the name, could not be
/// read or cannot be used.
pub open spec fn is_program_entry(
    archive: Seq<u8>,
    os: Seq<char>,
    index: int,
    binary: Seq<u8>,
) -> bool {
    let (bytes, fault) = inflated(archive);
    let entries = tar_listing(walkable_part(shown(bytes, fault))).entries;
    let windows = os == "windows"@;
    &&& 0 <= index < entries.len()
    &&& entries[index] matches Ok(entry) && {
        &&& file_name(entry.path, windows) == Some(encode_utf8(binary_name(os)))
        &&& fault is Some ==> binary.len() >= entry.size
    }
    &&& tar_contents(bytes, index as nat) == Ok::<Seq<u8>, Seq<char>>(binary)
    &&& forall|i: int|
        0 <= i < index ==> !#[trigger] ends_search(entries[i], binary_name(os), windows)
}

/// What is installed is the first entry of the downloaded archive whose file name is the
/// program's, and every entry before it could be read.
pub proof fn law_installs_the_program(plan: PlanView, archive: Seq<u8>, binary: Seq<u8>)
    requires
        next_step(
            UpdateView::Downloading(plan),
            UpdateEventView::Downloaded(Ok(archive)),
        ).1 == (UpdateActionView::Install { binary }),
    ensures
        exists|index: int| is_program_entry(archive, plan.os, index, binary),
{
    let windows = plan.os == "windows"@;
    let (bytes, fault) = inflated(archive);
    let entries = tar_listing(walkable_part(shown(bytes, fault))).entries;
    law_first_match(entries, binary_name(plan.os), windows, 0);
    let index = searched(entries, binary_name(plan.os), windows, 0)->Found_0;
    assert(is_program_entry(archive, plan.os, index, binary));
}

/// Whether an action is the one that a state waits for.
pub open spec fn in_step(state: UpdateView, action: UpdateActionView) -> bool {
    match state {
        UpdateView::Fetching(_, _) => action is FetchRelease,
        UpdateView::Confirming(_) => action is Confirm,
        UpdateView::Downloading(_) => action is Download,
        UpdateView::Installing(_) => action is Install,
        UpdateView::Finished => action is Finish,
    }
}

/// The update always waits for the action that it asked for: what comes of that action is an
/// acceptable event.
pub proof fn law_update_stays_in_step(state: UpdateView, event: UpdateEventView)
    requires
        answers(state, event),
    ensures
        in_step(next_step(state, event).0, next_step(state, event).1),
{
}

} // verus!

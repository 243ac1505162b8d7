//! What an update decides, asks, downloads and installs.
//!
//! Each law speaks of whatever a call hands back.

use vstd::prelude::*;

use crate::text::lemma_trimmed_start;
use crate::update::archive::extract;
use crate::update::flow::{
    answers, course, next_step, Update, UpdateAction, UpdateEvent, UpdateEventView, UpdateView,
};
use crate::update::release::{
    asset_url, assets_view, decide, decide_for, find_asset_url, get_asset_name, get_binary_name,
    release_url, target_version, Asset, CommandView, Decision, Installation, InstallationView,
    LatestRelease, UpdateCommand, UpdatePlan,
};
use crate::update::version::{version_from_text, version_precedence, Precedence};

verus! {

/// The description of a release is looked for under its version, or under the latest one where no
/// version is named.
pub proof fn law_release_url(version: &Option<String>, r: String)
    requires
        call_ensures(release_url, (version,), r),
    ensures
        *version matches Some(named) ==> r@
            == "https://api.github.com/repos/solana-foundation/surfpool/releases/tags/v"@ + named@,
        *version is None ==> r@
            == "https://api.github.com/repos/solana-foundation/surfpool/releases/latest"@,
{
}

proof fn lemma_platforms()
    ensures
        "macos"@ != "linux"@,
        "macos"@ != "windows"@,
        "linux"@ != "windows"@,
        "aarch64"@ != "x86_64"@,
{
    reveal_strlit("macos");
    reveal_strlit("linux");
    reveal_strlit("windows");
    reveal_strlit("aarch64");
    reveal_strlit("x86_64");
    assert("macos"@[0] != "linux"@[0]);
    assert("macos"@.len() != "windows"@.len());
    assert("linux"@.len() != "windows"@.len());
    assert("aarch64"@.len() != "x86_64"@.len());
}

/// There is an archive for macOS on both processors and for Linux and Windows on one, and for no
/// other platform.
pub proof fn law_platforms(os: &str, arch: &str, r: Result<String, String>)
    requires
        call_ensures(get_asset_name, (os, arch), r),
    ensures
        r is Ok <==> (os@ == "macos"@ && (arch@ == "aarch64"@ || arch@ == "x86_64"@)) || ((os@
            == "linux"@ || os@ == "windows"@) && arch@ == "x86_64"@),
        r matches Ok(name) ==> {
            &&& os@ == "macos"@ && arch@ == "aarch64"@ ==> name@ == "surfpool-darwin-arm64.tar.gz"@
            &&& os@ == "macos"@ && arch@ == "x86_64"@ ==> name@ == "surfpool-darwin-x64.tar.gz"@
            &&& os@ == "linux"@ ==> name@ == "surfpool-linux-x64.tar.gz"@
            &&& os@ == "windows"@ ==> name@ == "surfpool-windows-x64.tar.gz"@
        },
        r matches Err(message) ==> message@ == "Unsupported platform: "@ + os@ + "-"@ + arch@,
{
    lemma_platforms();
}

/// The program's file has the ending of Windows there and none elsewhere.
pub proof fn law_program_name(os: &str, r: &'static str)
    requires
        call_ensures(get_binary_name, (os,), r),
    ensures
        os@ == "windows"@ ==> r@ == "surfpool.exe"@,
        os@ != "windows"@ ==> r@ == "surfpool"@,
{
}

/// Whether the file at a position is the first with a name.
pub open spec fn is_first_named(assets: Seq<Asset>, name: Seq<char>, index: int) -> bool {
    &&& 0 <= index < assets.len()
    &&& assets[index].name@ == name
    &&& forall|i: int| 0 <= i < index ==> (#[trigger] assets[i]).name@ != name
}

proof fn lemma_asset_url(assets: Seq<Asset>, name: Seq<char>, from: int)
    requires
        0 <= from <= assets.len(),
        forall|i: int| 0 <= i < from ==> (#[trigger] assets[i]).name@ != name,
    ensures
        match asset_url(assets_view(assets), name, from) {
            Some(url) => exists|i: int|
                #[trigger] is_first_named(assets, name, i) && assets[i].browser_download_url@
                    == url,
            None => forall|i: int| 0 <= i < assets.len() ==> (#[trigger] assets[i]).name@ != name,
        },
    decreases assets.len() - from,
{
    if from < assets.len() {
        assert(assets_view(assets)[from] == assets[from]@);
        if assets[from].name@ == name {
            assert(is_first_named(assets, name, from));
        } else {
            lemma_asset_url(assets, name, from + 1);
        }
    }
}

/// The address of a file is that of the first file with its name, and there is none exactly where no
/// file has the name.
pub proof fn law_first_file_with_the_name(assets: &Vec<Asset>, name: &str, r: Option<String>)
    requires
        call_ensures(find_asset_url, (assets, name), r),
    ensures
        r matches Some(url) ==> exists|i: int|
            #[trigger] is_first_named(assets@, name@, i) && assets@[i].browser_download_url@ == url@,
        r is None ==> forall|i: int|
            0 <= i < assets@.len() ==> (#[trigger] assets@[i]).name@ != name@,
{
    lemma_asset_url(assets@, name@, 0);
}

/// Whether a decision ends with this complaint.
pub open spec fn complains(r: Result<Decision, String>, message: Seq<char>) -> bool {
    r matches Err(text) && text@ == message
}

/// Whether a text is a tag without the `v`s at its start.
pub open spec fn is_tag_without_v(text: Seq<char>, tag: Seq<char>) -> bool {
    &&& text.len() <= tag.len()
    &&& text == tag.skip(tag.len() - text.len())
    &&& forall|i: int| 0 <= i < tag.len() - text.len() ==> #[trigger] tag[i] == 'v'
    &&& text.len() > 0 ==> text[0] != 'v'
}

proof fn lemma_one_tag_without_v(a: Seq<char>, b: Seq<char>, tag: Seq<char>)
    requires
        is_tag_without_v(a, tag),
        is_tag_without_v(b, tag),
    ensures
        a == b,
{
    if a.len() < b.len() {
        assert(tag[tag.len() - b.len()] == b[0]);
    } else if b.len() < a.len() {
        assert(tag[tag.len() - a.len()] == a[0]);
    }
}

/// Whether a decision about a release is the right one, for how the two versions parse and stand to
/// each other, the archive's name for the platform and the address of that archive in the release.
pub open spec fn is_right_decision(
    r: Result<Decision, String>,
    current: Result<Seq<char>, Seq<char>>,
    target: Result<Seq<char>, Seq<char>>,
    precedence: Precedence,
    explicit: bool,
    running: Installation,
    release: LatestRelease,
    name: Result<String, String>,
    url: Option<String>,
) -> bool {
    match (current, target, name, url) {
        (Err(e), _, _, _) => complains(r, "Failed to parse current version: "@ + e),
        (_, Err(e), _, _) => complains(r, "Failed to parse target version: "@ + e),
        (_, _, Err(e), _) => complains(r, e@),
        (_, _, Ok(archive), None) => complains(
            r,
            "No asset name found matching the user's platform: "@ + archive@,
        ),
        (Ok(version), Ok(_), Ok(_), Some(address)) => {
            let newer = precedence == Precedence::Lower;
            let older = precedence == Precedence::Higher;
            &&& newer || (older && explicit) ==> (r matches Ok(Decision::Proceed(plan)) && {
                &&& plan.from@ == running.version@
                &&& is_tag_without_v(plan.to@, release.tag_name@)
                &&& plan.url@ == address@
                &&& plan.os@ == running.os@
            })
            &&& !newer && !(older && explicit) ==> (r matches Ok(Decision::UpToDate(shown))
                && shown@ == version)
        },
    }
}

/// A release is installed if it is newer than the running program, or if it is older and was asked
/// for by its version; otherwise there is nothing to do. The plan leads from the running version to
/// the release's, and to the address of the platform's archive.
pub proof fn law_decision_on_parsed_versions(
    current: Result<String, String>,
    target: Result<String, String>,
    precedence: Precedence,
    explicit: bool,
    running: &Installation,
    release: &LatestRelease,
    os: &str,
    arch: &str,
    name: Result<String, String>,
    archive: &str,
    url: Option<String>,
    r: Result<Decision, String>,
)
    requires
        call_ensures(
            decide_for,
            (current, target, precedence, explicit, running, release),
            r,
        ),
        os@ == running.os@,
        arch@ == running.arch@,
        call_ensures(get_asset_name, (os, arch), name),
        name matches Ok(known) ==> archive@ == known@,
        call_ensures(find_asset_url, (&release.assets, archive), url),
    ensures
        is_right_decision(
            r,
            match current {
                Ok(text) => Ok(text@),
                Err(e) => Err(e@),
            },
            match target {
                Ok(text) => Ok(text@),
                Err(e) => Err(e@),
            },
            precedence,
            explicit,
            *running,
            *release,
            name,
            url,
        ),
{
    lemma_trimmed_start(release.tag_name@, 'v');
}

/// The release's version is its tag without the `v`s at its start, and it is that version and the
/// running one that are parsed and compared.
pub proof fn law_decision(
    explicit: bool,
    running: &Installation,
    release: &LatestRelease,
    version: Seq<char>,
    os: &str,
    arch: &str,
    name: Result<String, String>,
    archive: &str,
    url: Option<String>,
    r: Result<Decision, String>,
)
    requires
        call_ensures(decide, (explicit, running, release), r),
        is_tag_without_v(version, release.tag_name@),
        os@ == running.os@,
        arch@ == running.arch@,
        call_ensures(get_asset_name, (os, arch), name),
        name matches Ok(known) ==> archive@ == known@,
        call_ensures(find_asset_url, (&release.assets, archive), url),
    ensures
        is_right_decision(
            r,
            version_from_text(running.version@),
            version_from_text(version),
            version_precedence(running.version@, version),
            explicit,
            *running,
            *release,
            name,
            url,
        ),
{
    lemma_trimmed_start(release.tag_name@, 'v');
    let target = target_version(release.tag_name@);
    assert(is_tag_without_v(target, release.tag_name@));
    lemma_one_tag_without_v(version, target, release.tag_name@);
}

/// Whether two plans are the same.
pub open spec fn same_plan(a: UpdatePlan, b: UpdatePlan) -> bool {
    a.from@ == b.from@ && a.to@ == b.to@ && a.url@ == b.url@ && a.os@ == b.os@
}

/// Whether an update is over with a line for the user.
pub open spec fn is_over_with(r: (Update, UpdateAction), line: Seq<char>) -> bool {
    r.0 is Finished && (r.1 matches UpdateAction::Finish(Ok(text)) && text@ == line)
}

/// Whether an update is over with an error.
pub open spec fn fails_with(r: (Update, UpdateAction), message: Seq<char>) -> bool {
    r.0 is Finished && (r.1 matches UpdateAction::Finish(Err(text)) && text@ == message)
}

/// Whether an update downloads the archive of a plan.
pub open spec fn downloads(r: (Update, UpdateAction), plan: UpdatePlan) -> bool {
    &&& r.0 matches Update::Downloading(kept) && same_plan(kept, plan)
    &&& r.1 matches UpdateAction::Download { url } && url@ == plan.url@
}

/// An update begins by fetching the description of the release that the command names, and keeps the
/// command and what is known of the running program.
pub proof fn law_update_begins(
    command: UpdateCommand,
    running: Installation,
    url: String,
    r: (Update, UpdateAction),
)
    requires
        call_ensures(Update::begin, (command, running), r),
        call_ensures(release_url, (&command.version,), url),
    ensures
        r.1 matches UpdateAction::FetchRelease { url: asked } && asked@ == url@,
        r.0 matches Update::Fetching(kept, known) && {
            &&& kept.skip_confirm == command.skip_confirm
            &&& kept.version is Some <==> command.version is Some
            &&& command.version matches Some(named) ==> kept.version->Some_0@ == named@
            &&& known.version@ == running.version@
            &&& known.os@ == running.os@
            &&& known.arch@ == running.arch@
        },
{
}

/// Where the decision about the fetched release is to proceed, the plan's archive is downloaded at
/// once if the command waives the question, whether or not a version was named; otherwise the user
/// is asked, with both versions in the question. Where there is nothing to do, the user is told the
/// running version, and a complaint ends the update. A version counts as asked for exactly if the
/// command names one.
pub proof fn law_release_fetched(
    command: UpdateCommand,
    running: Installation,
    release: LatestRelease,
    decision: Result<Decision, String>,
    r: (Update, UpdateAction),
)
    requires
        call_ensures(
            Update::step,
            (Update::Fetching(command, running), UpdateEvent::Fetched(Ok(release))),
            r,
        ),
        call_ensures(decide, (command.version is Some, &running, &release), decision),
    ensures
        match decision {
            Ok(Decision::Proceed(plan)) => if command.skip_confirm {
                downloads(r, plan)
            } else {
                &&& r.0 matches Update::Confirming(kept) && same_plan(kept, plan)
                &&& r.1 matches UpdateAction::Confirm { prompt } && prompt@
                    == "Update surfpool from "@ + plan.from@ + " to "@ + plan.to@
            },
            Ok(Decision::UpToDate(version)) => is_over_with(
                r,
                "Already on the latest version "@ + version@,
            ),
            Err(e) => fails_with(r, e@),
        },
{
}

/// No state that is reached from a command which waives the question is one in which the user was
/// asked.
pub proof fn law_waived_question_is_never_asked(
    command: CommandView,
    running: InstallationView,
    events: Seq<UpdateEventView>,
)
    requires
        command.skip_confirm,
    ensures
        !(course(UpdateView::Fetching(command, running), events) is Confirming),
        course(UpdateView::Fetching(command, running), events) matches UpdateView::Fetching(
            kept,
            _,
        ) ==> kept.skip_confirm,
    decreases events.len(),
{
    if events.len() > 0 {
        law_waived_question_is_never_asked(command, running, events.drop_last());
    }
}

/// The user's yes downloads the plan's archive, their no ends the update without an error, and no
/// answer is an error.
pub proof fn law_answer(plan: UpdatePlan, answer: Result<bool, String>, r: (Update, UpdateAction))
    requires
        call_ensures(
            Update::step,
            (Update::Confirming(plan), UpdateEvent::Answered(answer)),
            r,
        ),
    ensures
        match answer {
            Ok(true) => downloads(r, plan),
            Ok(false) => is_over_with(r, "Update cancelled"@),
            Err(e) => fails_with(r, "Failed to read confirmation: "@ + e@),
        },
{
}

/// From a downloaded archive the program is extracted, under the name that it has on the plan's
/// system, and those bytes are installed, no others; a complaint of the extraction ends the update.
pub proof fn law_downloaded(
    plan: UpdatePlan,
    archive: Vec<u8>,
    bytes: &[u8],
    name: &str,
    extracted: Result<Vec<u8>, String>,
    r: (Update, UpdateAction),
)
    requires
        call_ensures(
            Update::step,
            (Update::Downloading(plan), UpdateEvent::Downloaded(Ok(archive))),
            r,
        ),
        bytes@ == archive@,
        plan.os@ == "windows"@ ==> name@ == "surfpool.exe"@,
        plan.os@ != "windows"@ ==> name@ == "surfpool"@,
        call_ensures(extract, (bytes, name, plan.os@ == "windows"@), extracted),
    ensures
        match extracted {
            Ok(program) => {
                &&& r.0 matches Update::Installing(kept) && same_plan(kept, plan)
                &&& r.1 matches UpdateAction::Install { binary } && binary@ == program@
            },
            Err(e) => fails_with(r, e@),
        },
{
}

/// An installed program ends the update with both versions; whatever could not be fetched,
/// downloaded or installed ends it with its own complaint.
pub proof fn law_end_of_update(
    plan: UpdatePlan,
    state: Update,
    e: String,
    done: (Update, UpdateAction),
    not_fetched: (Update, UpdateAction),
    not_downloaded: (Update, UpdateAction),
    not_installed: (Update, UpdateAction),
)
    requires
        call_ensures(
            Update::step,
            (Update::Installing(plan), UpdateEvent::Installed(Ok(()))),
            done,
        ),
        call_ensures(Update::step, (state, UpdateEvent::Fetched(Err(e))), not_fetched),
        call_ensures(Update::step, (state, UpdateEvent::Downloaded(Err(e))), not_downloaded),
        call_ensures(Update::step, (state, UpdateEvent::Installed(Err(e))), not_installed),
    ensures
        is_over_with(done, "Surfpool updated from "@ + plan.from@ + " to "@ + plan.to@),
        fails_with(not_fetched, e@),
        fails_with(not_downloaded, e@),
        fails_with(not_installed, e@),
{
}

/// A program is installed only from an archive that was downloaded, an archive is downloaded only
/// after a decision or a yes, and the user is asked only after a decision.
pub proof fn law_order_of_actions(state: Update, event: UpdateEvent, r: (Update, UpdateAction))
    requires
        answers(state@, event@),
        call_ensures(Update::step, (state, event), r),
    ensures
        r.1 is Install ==> state is Downloading && (event matches UpdateEvent::Downloaded(archive)
            && archive is Ok),
        r.1 is Download ==> (state is Fetching && (event matches UpdateEvent::Fetched(release)
            && release is Ok)) || (state is Confirming && event == UpdateEvent::Answered(Ok(true))),
        r.1 is Confirm ==> state is Fetching && (event matches UpdateEvent::Fetched(release)
            && release is Ok),
        !(r.1 is FetchRelease),
        (r.0@, r.1@) == next_step(state@, event@),
{
}

} // verus!

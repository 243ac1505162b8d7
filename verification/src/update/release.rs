//! What a published release means for the running program.

use vstd::prelude::*;
use vstd::string::*;

use crate::text::{cat2, cat4, option_text, same_text, trim_start, trimmed_start};
use crate::update::version::{
    compare_versions, parse_version, parsed_text, version_from_text, version_precedence, Precedence,
};

verus! {

/// A file attached to a release.
#[derive(Debug)]
pub struct Asset {
    pub name: String,
    pub browser_download_url: String,
}

/// A published release.
#[derive(Debug)]
pub struct LatestRelease {
    pub tag_name: String,
    pub assets: Vec<Asset>,
}

/// What the user asked for.
#[derive(Debug)]
pub struct UpdateCommand {
    /// The version to update to, or the latest one.
    pub version: Option<String>,
    /// Update without asking.
    pub skip_confirm: bool,
}

/// The running program: its version and the platform that it was built for.
#[derive(Debug)]
pub struct Installation {
    pub version: String,
    pub os: String,
    pub arch: String,
}

/// A settled update: which version replaces which, and where its archive is.
#[derive(Debug)]
pub struct UpdatePlan {
    pub from: String,
    pub to: String,
    pub url: String,
    pub os: String,
}

/// What a release means for the running program.
#[derive(Debug)]
pub enum Decision {
    /// Nothing to do: this version is the latest one.
    UpToDate(String),
    /// The release can be installed.
    Proceed(UpdatePlan),
}

/// A file attached to a release.
pub struct AssetView {
    pub name: Seq<char>,
    pub url: Seq<char>,
}

impl View for Asset {
    type V = AssetView;

    open spec fn view(&self) -> AssetView {
        AssetView { name: self.name@, url: self.browser_download_url@ }
    }
}

/// The files attached to a release, in order.
pub open spec fn assets_view(assets: Seq<Asset>) -> Seq<AssetView> {
    Seq::new(assets.len(), |i: int| assets[i]@)
}

/// A published release.
pub struct ReleaseView {
    pub tag: Seq<char>,
    pub assets: Seq<AssetView>,
}

impl View for LatestRelease {
    type V = ReleaseView;

    open spec fn view(&self) -> ReleaseView {
        ReleaseView { tag: self.tag_name@, assets: assets_view(self.assets@) }
    }
}

/// What the user asked for.
pub struct CommandView {
    pub version: Option<Seq<char>>,
    pub skip_confirm: bool,
}

impl View for UpdateCommand {
    type V = CommandView;

    open spec fn view(&self) -> CommandView {
        CommandView { version: option_text(self.version), skip_confirm: self.skip_confirm }
    }
}

/// The running program.
pub struct InstallationView {
    pub version: Seq<char>,
    pub os: Seq<char>,
    pub arch: Seq<char>,
}

impl View for Installation {
    type V = InstallationView;

    open spec fn view(&self) -> InstallationView {
        InstallationView { version: self.version@, os: self.os@, arch: self.arch@ }
    }
}

/// A settled update.
pub struct PlanView {
    pub from: Seq<char>,
    pub to: Seq<char>,
    pub url: Seq<char>,
    pub os: Seq<char>,
}

impl View for UpdatePlan {
    type V = PlanView;

    open spec fn view(&self) -> PlanView {
        PlanView { from: self.from@, to: self.to@, url: self.url@, os: self.os@ }
    }
}

/// What a release means for the running program.
pub enum DecisionView {
    UpToDate(Seq<char>),
    Proceed(PlanView),
}

impl View for Decision {
    type V = DecisionView;

    open spec fn view(&self) -> DecisionView {
        match *self {
            Decision::UpToDate(version) => DecisionView::UpToDate(version@),
            Decision::Proceed(plan) => DecisionView::Proceed(plan@),
        }
    }
}

/// A decision, or why there is none.
pub open spec fn decided(decision: Result<Decision, String>) -> Result<DecisionView, Seq<char>> {
    match decision {
        Ok(decision) => Ok(decision@),
        Err(message) => Err(message@),
    }
}

/// Where a release is described: the one with the given version, or the latest one.
pub open spec fn release_url_text(version: Option<Seq<char>>) -> Seq<char> {
    match version {
        Some(version) =>
            "https://api.github.com/repos/solana-foundation/surfpool/releases/tags/v"@ + version,
        None => "https://api.github.com/repos/solana-foundation/surfpool/releases/latest"@,
    }
}

/// Where the release that the command asks for is described.
pub fn release_url(version: &Option<String>) -> (r: String)
    ensures
        r@ == release_url_text(option_text(*version)),
{
    match version {
        Some(version) => cat2(
            "https://api.github.com/repos/solana-foundation/surfpool/releases/tags/v",
            version.as_str(),
        ),
        None => "https://api.github.com/repos/solana-foundation/surfpool/releases/latest".to_owned(),
    }
}

/// The archive published for a platform, if there is one.
pub open spec fn platform_asset(os: Seq<char>, arch: Seq<char>) -> Option<Seq<char>> {
    if os == "macos"@ && arch == "aarch64"@ {
        Some("surfpool-darwin-arm64.tar.gz"@)
    } else if os == "macos"@ && arch == "x86_64"@ {
        Some("surfpool-darwin-x64.tar.gz"@)
    } else if os == "linux"@ && arch == "x86_64"@ {
        Some("surfpool-linux-x64.tar.gz"@)
    } else if os == "windows"@ && arch == "x86_64"@ {
        Some("surfpool-windows-x64.tar.gz"@)
    } else {
        None
    }
}

/// The name of the archive published for a platform.
pub fn get_asset_name(os: &str, arch: &str) -> (r: Result<String, String>)
    ensures
        parsed_text(r) == match platform_asset(os@, arch@) {
            Some(name) => Ok(name),
            None => Err("Unsupported platform: "@ + os@ + "-"@ + arch@),
        },
{
    if same_text(os, "macos") && same_text(arch, "aarch64") {
        Ok("surfpool-darwin-arm64.tar.gz".to_owned())
    } else if same_text(os, "macos") && same_text(arch, "x86_64") {
        Ok("surfpool-darwin-x64.tar.gz".to_owned())
    } else if same_text(os, "linux") && same_text(arch, "x86_64") {
        Ok("surfpool-linux-x64.tar.gz".to_owned())
    } else if same_text(os, "windows") && same_text(arch, "x86_64") {
        Ok("surfpool-windows-x64.tar.gz".to_owned())
    } else {
        Err(cat4("Unsupported platform: ", os, "-", arch))
    }
}

/// The name of the program's file on a platform.
pub open spec fn binary_name(os: Seq<char>) -> Seq<char> {
    if os == "windows"@ {
        "surfpool.exe"@
    } else {
        "surfpool"@
    }
}

/// The name of the program's file in the archive for the operating system `os`.
pub fn get_binary_name(os: &str) -> (r: &'static str)
    ensures
        r@ == binary_name(os@),
{
    if same_text(os, "windows") {
        "surfpool.exe"
    } else {
        "surfpool"
    }
}

/// The download address of the first file from `from` on that has the given name.
pub open spec fn asset_url(assets: Seq<AssetView>, name: Seq<char>, from: int) -> Option<Seq<char>>
    decreases assets.len() - from,
{
    if from < 0 || from >= assets.len() {
        None
    } else if assets[from].name == name {
        Some(assets[from].url)
    } else {
        asset_url(assets, name, from + 1)
    }
}

/// The download address of the first file with the given name.
pub fn find_asset_url(assets: &Vec<Asset>, name: &str) -> (r: Option<String>)
    ensures
        option_text(r) == asset_url(assets_view(assets@), name@, 0),
{
    for i in 0..assets.len()
        invariant
            asset_url(assets_view(assets@), name@, 0) == asset_url(
                assets_view(assets@),
                name@,
                i as int,
            ),
    {
        if same_text(assets[i].name.as_str(), name) {
            return Some(assets[i].browser_download_url.clone());
        }
    }
    None
}

/// The version that a release's tag names: the tag without the `v`s at its start.
pub open spec fn target_version(tag: Seq<char>) -> Seq<char> {
    trimmed_start(tag, 'v')
}

/// Whether there is nothing to do: the release is the running version, or, where no version was
/// asked for, an older one.
pub open spec fn up_to_date(explicit: bool, precedence: Precedence) -> bool {
    precedence == Precedence::Same || (!explicit && precedence == Precedence::Higher)
}

/// What a release means for the running program, for what the two version texts parse to and how
/// they stand to each other. Problems are reported in this order: the running version does not
/// parse, the release's version does not parse, the platform is not supported, the release has no
/// archive for it.
pub open spec fn decision_for(
    current: Result<Seq<char>, Seq<char>>,
    target: Result<Seq<char>, Seq<char>>,
    precedence: Precedence,
    explicit: bool,
    running: InstallationView,
    release: ReleaseView,
) -> Result<DecisionView, Seq<char>> {
    match (current, target, platform_asset(running.os, running.arch)) {
        (Err(e), _, _) => Err("Failed to parse current version: "@ + e),
        (_, Err(e), _) => Err("Failed to parse target version: "@ + e),
        (_, _, None) => Err("Unsupported platform: "@ + running.os + "-"@ + running.arch),
        (Ok(version), Ok(_), Some(asset)) => match asset_url(release.assets, asset, 0) {
            None => Err("No asset name found matching the user's platform: "@ + asset),
            Some(url) => if up_to_date(explicit, precedence) {
                Ok(DecisionView::UpToDate(version))
            } else {
                Ok(
                    DecisionView::Proceed(
                        PlanView {
                            from: running.version,
                            to: target_version(release.tag),
                            url,
                            os: running.os,
                        },
                    ),
                )
            },
        },
    }
}

/// Decides what a release means, for given outcomes of parsing and comparing the two versions.
pub fn decide_for(
    current: Result<String, String>,
    target: Result<String, String>,
    precedence: Precedence,
    explicit: bool,
    running: &Installation,
    release: &LatestRelease,
) -> (r: Result<Decision, String>)
    ensures
        decided(r) == decision_for(
            parsed_text(current),
            parsed_text(target),
            precedence,
            explicit,
            running@,
            release@,
        ),
{
    let version: String = match current {
        Err(e) => {
            return Err(cat2("Failed to parse current version: ", e.as_str()));
        },
        Ok(version) => version,
    };
    if let Err(e) = target {
        return Err(cat2("Failed to parse target version: ", e.as_str()));
    }
    let asset: String = match get_asset_name(running.os.as_str(), running.arch.as_str()) {
        Err(e) => {
            return Err(e);
        },
        Ok(asset) => asset,
    };
    let url: String = match find_asset_url(&release.assets, asset.as_str()) {
        None => {
            return Err(
                cat2("No asset name found matching the user's platform: ", asset.as_str()),
            );
        },
        Some(url) => url,
    };
    let same: bool = matches!(precedence, Precedence::Same);
    let higher: bool = matches!(precedence, Precedence::Higher);
    if same || (!explicit && higher) {
        return Ok(Decision::UpToDate(version));
    }
    Ok(
        Decision::Proceed(
            UpdatePlan {
                from: running.version.clone(),
                to: trim_start(release.tag_name.as_str(), 'v'),
                url,
                os: running.os.clone(),
            },
        ),
    )
}

/// What a release means for the running program.
pub open spec fn decision(
    explicit: bool,
    running: InstallationView,
    release: ReleaseView,
) -> Result<DecisionView, Seq<char>> {
    decision_for(
        version_from_text(running.version),
        version_from_text(target_version(release.tag)),
        version_precedence(running.version, target_version(release.tag)),
        explicit,
        running,
        release,
    )
}

/// Decides what a release means for the running program. `explicit` tells that the user named the
/// version.
pub fn decide(explicit: bool, running: &Installation, release: &LatestRelease) -> (r: Result<
    Decision,
    String,
>)
    ensures
        decided(r) == decision(explicit, running@, release@),
        running@.version == target_version(release@.tag) ==> !(r matches Ok(Decision::Proceed(_))),
{
    let tag: String = trim_start(release.tag_name.as_str(), 'v');
    let current: Result<String, String> = parse_version(running.version.as_str());
    let target: Result<String, String> = parse_version(tag.as_str());
    let precedence: Precedence = if current.is_ok() && target.is_ok() {
        compare_versions(running.version.as_str(), tag.as_str())
    } else {
        Precedence::Same
    };
    decide_for(current, target, precedence, explicit, running, release)
}

} // verus!

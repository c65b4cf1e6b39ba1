//! Release-update decisions: semantic versions, picking the release asset
//! that fits this build, and what an update check concludes.
//!
//! Parsing and ordering versions is the `semver` crate's work; the items
//! that call it are marked below, and everything around them is verified.

use vstd::prelude::*;
use crate::text::{chars_of, concat_str, contains_seq, chars_contain, str_eq, string_of, sub_chars};

verus! {

#[verifier::external_type_specification]
#[verifier::external_body]
pub struct ExSemverVersion(semver::Version);

/// The mathematical value of a semantic version: its three numbers, its
/// pre-release part and its build metadata (each empty when absent).
pub struct VersionView {
    pub major: u64,
    pub minor: u64,
    pub patch: u64,
    pub pre: Seq<char>,
    pub build: Seq<char>,
}

/// A semantic version, as `semver` parsed it.
///
/// Its fields are private: a value is only made by the parser below (or
/// copied from one), so the plain fields always describe `inner`.
#[derive(Debug)]
pub struct SemVersion {
    major: u64,
    minor: u64,
    patch: u64,
    pre: String,
    build: String,
    inner: semver::Version,
}

impl View for SemVersion {
    type V = VersionView;

    closed spec fn view(&self) -> VersionView {
        VersionView {
            major: self.major,
            minor: self.minor,
            patch: self.patch,
            pre: self.pre@,
            build: self.build@,
        }
    }
}

/// What `semver::Version::parse` gives for a text: the version, or the
/// text of its error.
pub uninterp spec fn semver_parse(text: Seq<char>) -> Result<VersionView, Seq<char>>;

/// Whether `semver` orders version `a` after version `b`.
pub uninterp spec fn semver_greater(a: VersionView, b: VersionView) -> bool;

/// Whether the three version numbers of `a` and `b` differ.
pub open spec fn numbers_differ(a: VersionView, b: VersionView) -> bool {
    a.major != b.major || a.minor != b.minor || a.patch != b.patch
}

/// Whether the numbers of `a` come after those of `b`, compared in order
/// major, minor, patch.
pub open spec fn numbers_greater(a: VersionView, b: VersionView) -> bool {
    ||| a.major > b.major
    ||| (a.major == b.major && a.minor > b.minor)
    ||| (a.major == b.major && a.minor == b.minor && a.patch > b.patch)
}

/// Parses a semantic version with `semver::Version::parse`.
///
/// The contract says that the result is what `semver_parse` names for the
/// text, the error carried by its message; the grammar itself is not
/// restated here.
#[verifier::external_body]
fn parse_semver(text: &str) -> (r: Result<SemVersion, String>)
    ensures
        match r {
            Ok(v) => semver_parse(text@) == Ok::<VersionView, Seq<char>>(v@),
            Err(e) => semver_parse(text@) == Err::<VersionView, Seq<char>>(e@),
        },
{
    match semver::Version::parse(text) {
        Ok(v) => Ok(SemVersion {
            major: v.major,
            minor: v.minor,
            patch: v.patch,
            pre: v.pre.as_str().to_string(),
            build: v.build.as_str().to_string(),
            inner: v,
        }),
        Err(e) => Err(e.to_string()),
    }
}

/// Compares two versions with `semver::Version`'s `>`.
///
/// `Version` derives its order from its fields in the order major, minor,
/// patch, pre-release, build; the pre-release order puts an empty
/// pre-release after any other and equal texts equal. The contract states
/// those facts and names the rest.
#[verifier::external_body]
fn version_greater(a: &SemVersion, b: &SemVersion) -> (r: bool)
    ensures
        r == semver_greater(a@, b@),
        numbers_differ(a@, b@) ==> r == numbers_greater(a@, b@),
        !numbers_differ(a@, b@) && a@.pre == b@.pre && a@.build == b@.build ==> !r,
        !numbers_differ(a@, b@) && a@.pre.len() == 0 && b@.pre.len() > 0 ==> r,
        !numbers_differ(a@, b@) && a@.pre.len() > 0 && b@.pre.len() == 0 ==> !r,
{
    a.inner > b.inner
}

/// A copy of a `semver::Version` (`Clone::clone`); nothing of the copy is
/// stated, since the type is opaque here.
#[verifier::external_body]
fn clone_version(v: &semver::Version) -> semver::Version {
    v.clone()
}

/// The text `Display` gives for a version: `major.minor.patch`, then
/// `-pre` and `+build` where those parts are not empty.
pub open spec fn version_text(v: VersionView) -> Seq<char> {
    let core = crate::text::decimal(v.major as nat) + seq!['.'] + crate::text::decimal(v.minor as nat)
        + seq!['.'] + crate::text::decimal(v.patch as nat);
    let with_pre = if v.pre.len() > 0 { core + seq!['-'] + v.pre } else { core };
    if v.build.len() > 0 { with_pre + seq!['+'] + v.build } else { with_pre }
}

impl SemVersion {
    /// The major number.
    pub fn major(&self) -> (r: u64)
        ensures
            r == self@.major,
    {
        self.major
    }

    /// The minor number.
    pub fn minor(&self) -> (r: u64)
        ensures
            r == self@.minor,
    {
        self.minor
    }

    /// The patch number.
    pub fn patch(&self) -> (r: u64)
        ensures
            r == self@.patch,
    {
        self.patch
    }

    /// A copy of this version.
    pub fn duplicate(&self) -> (r: SemVersion)
        ensures
            r@ == self@,
    {
        SemVersion {
            major: self.major,
            minor: self.minor,
            patch: self.patch,
            pre: self.pre.clone(),
            build: self.build.clone(),
            inner: clone_version(&self.inner),
        }
    }

    /// The version as text, as `Display` writes it.
    pub fn to_text(&self) -> (r: String)
        ensures
            r@ == version_text(self@),
    {
        let mut s = crate::text::u64_to_decimal(self.major);
        crate::text::push_char(&mut s, '.');
        let minor = crate::text::u64_to_decimal(self.minor);
        s.append(minor.as_str());
        crate::text::push_char(&mut s, '.');
        let patch = crate::text::u64_to_decimal(self.patch);
        s.append(patch.as_str());
        if self.pre.as_str().unicode_len() > 0 {
            crate::text::push_char(&mut s, '-');
            s.append(self.pre.as_str());
        }
        if self.build.as_str().unicode_len() > 0 {
            crate::text::push_char(&mut s, '+');
            s.append(self.build.as_str());
        }
        s
    }

    /// Whether this version comes after `other`.
    pub fn is_newer_than(&self, other: &SemVersion) -> (r: bool)
        ensures
            r == semver_greater(self@, other@),
            numbers_differ(self@, other@) ==> r == numbers_greater(self@, other@),
            !numbers_differ(self@, other@) && self@.pre == other@.pre && self@.build == other@.build
                ==> !r,
    {
        version_greater(self, other)
    }
}

/// Parses a version text.
pub fn parse_version(text: &str) -> (r: Result<SemVersion, String>)
    ensures
        match r {
            Ok(v) => semver_parse(text@) == Ok::<VersionView, Seq<char>>(v@),
            Err(e) => semver_parse(text@) == Err::<VersionView, Seq<char>>(e@),
        },
{
    parse_semver(text)
}


/// A file attached to a release.
#[derive(Clone, Debug)]
pub struct ReleaseAsset {
    pub name: String,
    pub browser_download_url: String,
}

/// The mathematical value of a `ReleaseAsset`.
pub struct AssetView {
    pub name: Seq<char>,
    pub url: Seq<char>,
}

impl View for ReleaseAsset {
    type V = AssetView;

    open spec fn view(&self) -> AssetView {
        AssetView { name: self.name@, url: self.browser_download_url@ }
    }
}

impl ReleaseAsset {
    /// A copy of this asset.
    pub fn duplicate(&self) -> (r: ReleaseAsset)
        ensures
            r@ == self@,
    {
        ReleaseAsset { name: self.name.clone(), browser_download_url: self.browser_download_url.clone() }
    }
}

/// The newest published release, as the release service describes it.
#[derive(Clone, Debug)]
pub struct LatestRelease {
    pub tag_name: String,
    pub html_url: String,
    pub prerelease: bool,
    pub draft: bool,
    pub assets: Vec<ReleaseAsset>,
}

/// The mathematical value of a `LatestRelease`.
pub struct ReleaseView {
    pub tag: Seq<char>,
    pub url: Seq<char>,
    pub prerelease: bool,
    pub draft: bool,
    pub assets: Seq<AssetView>,
}

/// The views of a sequence of assets.
pub open spec fn assets_view(v: Seq<ReleaseAsset>) -> Seq<AssetView> {
    v.map_values(|a: ReleaseAsset| a@)
}

impl View for LatestRelease {
    type V = ReleaseView;

    open spec fn view(&self) -> ReleaseView {
        ReleaseView {
            tag: self.tag_name@,
            url: self.html_url@,
            prerelease: self.prerelease,
            draft: self.draft,
            assets: assets_view(self.assets@),
        }
    }
}

/// The suffix of a release archive's name.
pub open spec fn archive_suffix() -> Seq<char> {
    seq!['.', 't', 'a', 'r', '.', 'g', 'z']
}

/// Whether `s` ends with `suffix`.
pub open spec fn ends_with(s: Seq<char>, suffix: Seq<char>) -> bool {
    suffix.len() <= s.len() && s.subrange(s.len() - suffix.len(), s.len() as int) == suffix
}

/// Whether an asset is the archive built for `target`.
pub open spec fn is_archive_for(a: AssetView, target: Seq<char>) -> bool {
    contains_seq(a.name, target) && ends_with(a.name, archive_suffix())
}

/// The first asset in `assets` that is the archive for `target`.
pub open spec fn first_archive(assets: Seq<AssetView>, target: Seq<char>) -> Option<AssetView>
    decreases assets.len(),
{
    if assets.len() == 0 {
        None
    } else if is_archive_for(assets[0], target) {
        Some(assets[0])
    } else {
        first_archive(assets.drop_first(), target)
    }
}

/// Whether an asset is a checksum list.
pub open spec fn is_checksum_list(a: AssetView) -> bool {
    a.name == "SHA256SUMS"@ || a.name == "stassh-checksums.txt"@
}

/// The first checksum list in `assets`.
pub open spec fn first_checksum_list(assets: Seq<AssetView>) -> Option<AssetView>
    decreases assets.len(),
{
    if assets.len() == 0 {
        None
    } else if is_checksum_list(assets[0]) {
        Some(assets[0])
    } else {
        first_checksum_list(assets.drop_first())
    }
}

/// The error given when no asset fits `target`.
pub open spec fn no_asset_error(target: Seq<char>) -> Seq<char> {
    "no matching update asset for target "@ + target
}

/// Whether `s` ends with `suffix`, on character slices.
pub fn chars_end_with(s: &[char], suffix: &[char]) -> (r: bool)
    ensures
        r == ends_with(s@, suffix@),
{
    if suffix.len() > s.len() {
        return false;
    }
    let start = s.len() - suffix.len();
    let tail = sub_chars(s, start, s.len());
    crate::text::chars_eq(&tail, suffix)
}

proof fn lemma_first_archive_skip(assets: Seq<AssetView>, target: Seq<char>, i: int)
    requires
        0 <= i < assets.len(),
        !is_archive_for(assets[i], target),
    ensures
        first_archive(assets.subrange(i, assets.len() as int), target)
            == first_archive(assets.subrange(i + 1, assets.len() as int), target),
{
    let t = assets.subrange(i, assets.len() as int);
    assert(t.drop_first() =~= assets.subrange(i + 1, assets.len() as int));
}

proof fn lemma_first_checksum_skip(assets: Seq<AssetView>, i: int)
    requires
        0 <= i < assets.len(),
        !is_checksum_list(assets[i]),
    ensures
        first_checksum_list(assets.subrange(i, assets.len() as int))
            == first_checksum_list(assets.subrange(i + 1, assets.len() as int)),
{
    let t = assets.subrange(i, assets.len() as int);
    assert(t.drop_first() =~= assets.subrange(i + 1, assets.len() as int));
}

/// The build target of the release archives for an operating system and
/// processor (as `std::env::consts` names them); empty for others.
pub open spec fn platform_target(os: Seq<char>, arch: Seq<char>) -> Seq<char> {
    if os == "linux"@ && arch == "x86_64"@ {
        "x86_64-unknown-linux-gnu"@
    } else if os == "linux"@ && arch == "aarch64"@ {
        "aarch64-unknown-linux-gnu"@
    } else if os == "macos"@ && arch == "x86_64"@ {
        "x86_64-apple-darwin"@
    } else if os == "macos"@ && arch == "aarch64"@ {
        "aarch64-apple-darwin"@
    } else {
        ""@
    }
}

/// The build target updates are looked up for: the one the build was
/// configured with when it is not empty, otherwise the platform's.
pub fn target_triple(configured: Option<&str>, os: &str, arch: &str) -> (r: String)
    ensures
        r@ == (match configured {
            Some(t) => if t@.len() > 0 { t@ } else { platform_target(os@, arch@) },
            None => platform_target(os@, arch@),
        }),
{
    if let Some(t) = configured {
        if t.unicode_len() > 0 {
            return t.to_string();
        }
    }
    if str_eq(os, "linux") && str_eq(arch, "x86_64") {
        "x86_64-unknown-linux-gnu".to_string()
    } else if str_eq(os, "linux") && str_eq(arch, "aarch64") {
        "aarch64-unknown-linux-gnu".to_string()
    } else if str_eq(os, "macos") && str_eq(arch, "x86_64") {
        "x86_64-apple-darwin".to_string()
    } else if str_eq(os, "macos") && str_eq(arch, "aarch64") {
        "aarch64-apple-darwin".to_string()
    } else {
        "".to_string()
    }
}

/// Picks the release archive built for `target`: the first asset whose name
/// contains `target` and ends with `.tar.gz`.
pub fn select_archive_asset(assets: &[ReleaseAsset], target: &str) -> (r: Result<ReleaseAsset, String>)
    ensures
        match first_archive(assets_view(assets@), target@) {
            Some(a) => r matches Ok(x) && x@ == a,
            None => r matches Err(e) && e@ == no_asset_error(target@),
        },
{
    let ghost all = assets_view(assets@);
    let tgt = chars_of(target);
    let suffix_text = ".tar.gz";
    proof {
        reveal_strlit(".tar.gz");
    }
    let suffix = chars_of(suffix_text);
    assert(suffix@ =~= archive_suffix());
    let n = assets.len();
    let mut i: usize = 0;
    assert(all.subrange(0, n as int) =~= all);
    while i < n
        invariant
            n == assets@.len(),
            all == assets_view(assets@),
            i <= n,
            tgt@ == target@,
            suffix@ == archive_suffix(),
            first_archive(all, target@) == first_archive(all.subrange(i as int, n as int), target@),
        decreases n - i,
    {
        let name = chars_of(assets[i].name.as_str());
        let fits = chars_contain(&name, &tgt) && chars_end_with(&name, &suffix);
        if fits {
            let ghost t = all.subrange(i as int, n as int);
            assert(t[0] == all[i as int]);
            return Ok(assets[i].duplicate());
        }
        proof {
            lemma_first_archive_skip(all, target@, i as int);
        }
        i = i + 1;
    }
    assert(all.subrange(n as int, n as int) =~= Seq::<AssetView>::empty());
    Err(concat_str("no matching update asset for target ", target))
}

/// Picks the checksum list of a release, if it has one: the first asset
/// named `SHA256SUMS` or `stassh-checksums.txt`.
pub fn select_checksum_asset(assets: &[ReleaseAsset]) -> (r: Option<ReleaseAsset>)
    ensures
        match first_checksum_list(assets_view(assets@)) {
            Some(a) => r matches Some(x) && x@ == a,
            None => r is None,
        },
{
    let ghost all = assets_view(assets@);
    let n = assets.len();
    let mut i: usize = 0;
    assert(all.subrange(0, n as int) =~= all);
    while i < n
        invariant
            n == assets@.len(),
            all == assets_view(assets@),
            i <= n,
            first_checksum_list(all) == first_checksum_list(all.subrange(i as int, n as int)),
        decreases n - i,
    {
        let name = assets[i].name.as_str();
        if str_eq(name, "SHA256SUMS") || str_eq(name, "stassh-checksums.txt") {
            let ghost t = all.subrange(i as int, n as int);
            assert(t[0] == all[i as int]);
            return Some(assets[i].duplicate());
        }
        proof {
            lemma_first_checksum_skip(all, i as int);
        }
        i = i + 1;
    }
    assert(all.subrange(n as int, n as int) =~= Seq::<AssetView>::empty());
    None
}

/// A release tag without its leading `v`, if it has one.
pub open spec fn tag_version_text(tag: Seq<char>) -> Seq<char> {
    if tag.len() > 0 && tag[0] == 'v' { tag.drop_first() } else { tag }
}

/// The version a release tag names (`v1.2.3` or `1.2.3`).
pub fn version_from_tag(tag: &str) -> (r: Result<SemVersion, String>)
    ensures
        match r {
            Ok(v) => semver_parse(tag_version_text(tag@)) == Ok::<VersionView, Seq<char>>(v@),
            Err(e) => semver_parse(tag_version_text(tag@)) == Err::<VersionView, Seq<char>>(e@),
        },
{
    let cs = chars_of(tag);
    let n = cs.len();
    let normalized = if n > 0 && cs[0] == 'v' {
        let rest = sub_chars(&cs, 1, n);
        assert(rest@ =~= tag@.drop_first());
        string_of(&rest)
    } else {
        string_of(&cs)
    };
    parse_semver(normalized.as_str())
}


/// What an update check concluded.
#[derive(Debug)]
pub enum UpdateCheckStatus {
    NoUpdate {
        current: SemVersion,
    },
    UpdateAvailable {
        current: SemVersion,
        latest: SemVersion,
        release_url: String,
        asset: ReleaseAsset,
        checksum_asset: Option<ReleaseAsset>,
    },
    Error(String),
}

/// The mathematical value of an `UpdateCheckStatus`.
pub enum UpdateCheckView {
    NoUpdate {
        current: VersionView,
    },
    UpdateAvailable {
        current: VersionView,
        latest: VersionView,
        release_url: Seq<char>,
        asset: AssetView,
        checksum_asset: Option<AssetView>,
    },
    Error(Seq<char>),
}

/// The view of an optional asset.
pub open spec fn opt_asset_view(a: Option<ReleaseAsset>) -> Option<AssetView> {
    match a {
        Some(x) => Some(x@),
        None => None,
    }
}

impl View for UpdateCheckStatus {
    type V = UpdateCheckView;

    open spec fn view(&self) -> UpdateCheckView {
        match self {
            UpdateCheckStatus::NoUpdate { current } => UpdateCheckView::NoUpdate { current: current@ },
            UpdateCheckStatus::UpdateAvailable { current, latest, release_url, asset, checksum_asset } =>
                UpdateCheckView::UpdateAvailable {
                current: current@,
                latest: latest@,
                release_url: release_url@,
                asset: asset@,
                checksum_asset: opt_asset_view(*checksum_asset),
            },
            UpdateCheckStatus::Error(e) => UpdateCheckView::Error(e@),
        }
    }
}

/// The view of a check's result.
pub open spec fn check_result_view(r: Result<UpdateCheckStatus, String>) -> Result<UpdateCheckView, Seq<char>> {
    match r {
        Ok(s) => Ok(s@),
        Err(e) => Err(e@),
    }
}

/// What a release means for this build, once its version is known and
/// compared with the running one.
pub open spec fn outcome_spec(
    current: VersionView,
    latest: VersionView,
    latest_is_newer: bool,
    release: ReleaseView,
    target: Seq<char>,
) -> Result<UpdateCheckView, Seq<char>> {
    if release.draft || release.prerelease || !latest_is_newer {
        Ok(UpdateCheckView::NoUpdate { current })
    } else {
        match first_archive(release.assets, target) {
            None => Err(no_asset_error(target)),
            Some(asset) => Ok(UpdateCheckView::UpdateAvailable {
                current,
                latest,
                release_url: release.url,
                asset,
                checksum_asset: first_checksum_list(release.assets),
            }),
        }
    }
}

/// What a release means for this build, given the running version.
pub open spec fn release_decision(current: VersionView, release: ReleaseView, target: Seq<char>) -> Result<
    UpdateCheckView,
    Seq<char>,
> {
    match semver_parse(tag_version_text(release.tag)) {
        Err(e) => Err(e),
        Ok(latest) => outcome_spec(current, latest, semver_greater(latest, current), release, target),
    }
}

/// The error given for a running version that does not parse.
pub open spec fn invalid_current_error(text: Seq<char>) -> Seq<char> {
    "invalid current version: "@ + text
}

/// What a whole update check concludes from the running version's text
/// and what fetching the newest release gave.
pub open spec fn update_check_spec(
    current_text: Seq<char>,
    fetched: Result<ReleaseView, Seq<char>>,
    target: Seq<char>,
) -> Result<UpdateCheckView, Seq<char>> {
    match semver_parse(current_text) {
        Err(_) => Err(invalid_current_error(current_text)),
        Ok(current) => match fetched {
            Err(e) => Err(e),
            Ok(release) => release_decision(current, release, target),
        },
    }
}

/// Decides what a release means for this build, given the running version,
/// the release's version and whether it is the newer one.
///
/// A draft, a pre-release or a release that is not newer offers no update;
/// otherwise the release must carry an archive for `target`.
pub fn release_outcome(
    current: SemVersion,
    latest: SemVersion,
    latest_is_newer: bool,
    release: &LatestRelease,
    target: &str,
) -> (r: Result<UpdateCheckStatus, String>)
    ensures
        check_result_view(r) == outcome_spec(current@, latest@, latest_is_newer, release@, target@),
{
    if release.draft || release.prerelease || !latest_is_newer {
        return Ok(UpdateCheckStatus::NoUpdate { current });
    }
    let asset = match select_archive_asset(release.assets.as_slice(), target) {
        Ok(a) => a,
        Err(e) => return Err(e),
    };
    let checksum_asset = select_checksum_asset(release.assets.as_slice());
    Ok(UpdateCheckStatus::UpdateAvailable {
        current,
        latest,
        release_url: release.html_url.clone(),
        asset,
        checksum_asset,
    })
}

/// Decides what a fetched release means for the running version.
pub fn decide_update(current: SemVersion, release: &LatestRelease, target: &str) -> (r: Result<
    UpdateCheckStatus,
    String,
>)
    ensures
        check_result_view(r) == release_decision(current@, release@, target@),
{
    let latest = match version_from_tag(release.tag_name.as_str()) {
        Ok(v) => v,
        Err(e) => return Err(e),
    };
    let newer = latest.is_newer_than(&current);
    release_outcome(current, latest, newer, release, target)
}

/// Checks for an update: parses the running version, then weighs what
/// fetching the newest release gave (`fetched`) against it, for the build
/// target `target`.
pub fn check_for_updates(current_version: &str, fetched: Result<LatestRelease, String>, target: &str) -> (r: Result<
    UpdateCheckStatus,
    String,
>)
    ensures
        check_result_view(r) == update_check_spec(
            current_version@,
            match fetched {
                Ok(rel) => Ok(rel@),
                Err(e) => Err(e@),
            },
            target@,
        ),
{
    let current = match parse_semver(current_version) {
        Ok(v) => v,
        Err(_) => return Err(concat_str("invalid current version: ", current_version)),
    };
    match fetched {
        Err(e) => Err(e),
        Ok(release) => decide_update(current, &release, target),
    }
}

/// An update is offered only for a published, non-pre-release version that
/// is newer than the running one, with an archive built for the target.
pub proof fn update_offered_only_when_newer(current: VersionView, release: ReleaseView, target: Seq<char>)
    ensures
        release_decision(current, release, target) matches Ok(UpdateCheckView::UpdateAvailable { current: c, latest, asset, .. })
            ==> {
            &&& c == current
            &&& semver_parse(tag_version_text(release.tag)) == Ok::<VersionView, Seq<char>>(latest)
            &&& semver_greater(latest, current)
            &&& !release.draft
            &&& !release.prerelease
            &&& is_archive_for(asset, target)
        },
{
    lemma_first_archive_fits(release.assets, target);
}

proof fn lemma_first_archive_fits(assets: Seq<AssetView>, target: Seq<char>)
    ensures
        first_archive(assets, target) matches Some(a) ==> is_archive_for(a, target),
    decreases assets.len(),
{
    if assets.len() > 0 {
        lemma_first_archive_fits(assets.drop_first(), target);
    }
}

} // verus!

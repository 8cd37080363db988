//! Updating the program: which release, whether it is newer, and whether its
//! archive is the published one.
use crate::args::UpdateArgs;
use crate::digest::{sha256_hex, sha256_of};
use crate::download::text_result;
use crate::error::{ErrorView, FabCliError};
use crate::json::{str_view, Json, JsonView};
use crate::text;
use crate::text::{
    all_digits, contains_spec, debug_text, decimal_spec, digits_value, free_of, lines_spec,
    lookup_spec, lower_text, opt_text, split_spec, splits_once, texts, trim_spec,
    trim_start_char_spec, words_spec,
};
use vstd::prelude::*;

verus! {

/// The repository that releases come from.
pub const DEFAULT_REMOTE: &'static str = "zirklerite/FabCLI";

/// The repository that releases come from: what the environment says, where it
/// says anything.
pub fn remote_name(env: Option<&str>) -> (r: String)
    ensures
        r@ == remote_name_spec(text::opt_str(env)),
{
    match env {
        Some(name) => {
            if !name.is_empty() {
                return name.to_owned();
            }
        },
        None => {},
    }
    DEFAULT_REMOTE.to_owned()
}

/// The owner and the name of a repository written `<owner>/<repo>`. The first
/// slash parts the two.
pub fn split_remote(s: &str) -> (r: Result<(String, String), FabCliError>)
    ensures
        r is Err <==> free_of(s@, '/'),
        r matches Ok(p) ==> splits_once(s@, '/', p.0@, p.1@),
        r matches Err(e) ==> e@ == ErrorView::InvalidArgs(
            "FABCLI_UPDATE_REMOTE must be `<owner>/<repo>`, got "@ + debug_text(s@),
        ),
{
    match text::split_once(s, '/') {
        Some(p) => Ok(p),
        None => {
            let mut m = "FABCLI_UPDATE_REMOTE must be `<owner>/<repo>`, got ".to_owned();
            m.append(text::quoted(s).as_str());
            Err(FabCliError::InvalidArgs(m))
        },
    }
}

// ---------------------------------------------------------------------------
// Versions
// ---------------------------------------------------------------------------

/// Whether version `a` comes after version `b`, where both are versions: what
/// `semver::Version` says.
pub uninterp spec fn semver_after(a: Seq<char>, b: Seq<char>) -> Option<bool>;

/// A number of a version: digits, without a zero in front of others, of a value
/// that fits in 64 bits.
pub open spec fn is_version_number(s: Seq<char>) -> bool {
    &&& s.len() > 0
    &&& all_digits(s)
    &&& s[0] == '0' ==> s.len() == 1
    &&& digits_value(s) <= u64::MAX
}

/// The three numbers of a version that has nothing else.
pub open spec fn plain_version(s: Seq<char>) -> Option<(nat, nat, nat)> {
    let p = split_spec(s, '.');
    if p.len() == 3 && is_version_number(p[0]) && is_version_number(p[1]) && is_version_number(
        p[2],
    ) {
        Some((digits_value(p[0]), digits_value(p[1]), digits_value(p[2])))
    } else {
        None
    }
}

/// The numbers of `a` come after those of `b`: the first that differs decides.
pub open spec fn numbers_after(a: (nat, nat, nat), b: (nat, nat, nat)) -> bool {
    a.0 > b.0 || (a.0 == b.0 && (a.1 > b.1 || (a.1 == b.1 && a.2 > b.2)))
}

/// `r` is what the numbers of two plain versions say.
pub open spec fn agrees_on_plain(a: Seq<char>, b: Seq<char>, r: Option<bool>) -> bool {
    match (plain_version(a), plain_version(b)) {
        (Some(x), Some(y)) => r == Some(numbers_after(x, y)),
        _ => true,
    }
}

/// Whether version `a` comes after version `b`, by `semver::Version::parse` and
/// the order of `semver::Version`; nothing where either is no version. A
/// function of the two texts. Versions of three numbers compare by their
/// numbers, and none comes after itself.
#[verifier::external_body]
fn version_after(a: &str, b: &str) -> (r: Option<bool>)
    ensures
        r == semver_after(a@, b@),
        agrees_on_plain(a@, b@, r),
        a@ == b@ ==> r != Some(true),
{
    let left = semver::Version::parse(a).ok()?;
    let right = semver::Version::parse(b).ok()?;
    Some(left > right)
}

/// Whether `latest` is a version after `running`; false where either is no
/// version.
pub fn is_newer(latest: &str, running: &str) -> (r: bool)
    ensures
        r == (semver_after(latest@, running@) == Some(true)),
        plain_version(latest@) is Some && plain_version(running@) is Some ==> r == numbers_after(
            plain_version(latest@)->0,
            plain_version(running@)->0,
        ),
        latest@ == running@ ==> !r,
{
    match version_after(latest, running) {
        Some(b) => b,
        None => false,
    }
}

/// The report of a check for updates.
pub open spec fn check_json_spec(running: Seq<char>, latest: Seq<char>, newer: bool) -> JsonView {
    JsonView::Object(
        map![
            "running"@ => str_view(running),
            "latest"@ => str_view(latest),
            "newer_available"@ => JsonView::Bool(newer),
        ],
    )
}

/// The report of a check for updates; `newer` says whether the latest release
/// comes after the running one.
pub fn check_report(running: &str, latest: &str, newer: bool) -> (r: Json)
    ensures
        r@ == check_json_spec(running@, latest@, newer),
{
    Json::object().with("running", Json::text(running)).with("latest", Json::text(latest)).with(
        "newer_available",
        Json::Bool(newer),
    )
}

/// The tag that the caller asks for, without the letter `v` in front.
pub fn wanted_tag(to: &str) -> (r: String)
    ensures
        r@ == trim_start_char_spec(to@, 'v'),
{
    text::trim_start_char(to, 'v')
}

/// The newest release of a list, the newest first.
pub open spec fn latest_spec(
    versions: Seq<String>,
    owner: Seq<char>,
    repo: Seq<char>,
) -> Result<Seq<char>, ErrorView> {
    if versions.len() > 0 {
        Ok(versions[0]@)
    } else {
        Err(ErrorView::NotFound("no releases on "@ + owner + "/"@ + repo))
    }
}

/// The newest release of a list, the newest first.
pub fn latest_release(versions: &Vec<String>, owner: &str, repo: &str) -> (r: Result<
    String,
    FabCliError,
>)
    ensures
        text_result(r) == latest_spec(versions@, owner@, repo@),
{
    if versions.len() > 0 {
        return Ok(versions[0].clone());
    }
    let mut m = "no releases on ".to_owned();
    m.append(owner);
    m.append("/");
    m.append(repo);
    Err(FabCliError::NotFound(m))
}

/// The report that nothing is to be done.
pub open spec fn unchanged_json_spec(running: Seq<char>, latest: Seq<char>) -> JsonView {
    JsonView::Object(
        map![
            "updated"@ => JsonView::Bool(false),
            "running"@ => str_view(running),
            "latest"@ => str_view(latest),
            "unchanged"@ => JsonView::Bool(true),
        ],
    )
}

/// The report that nothing is to be done; `None` where an update goes on. It
/// does where it is forced, where a release was asked for, or where the
/// release is not the running one.
pub fn unchanged_report(running: &str, target: &str, asked_for: bool, force: bool) -> (r: Option<
    Json,
>)
    ensures
        r is Some <==> !force && !asked_for && target@ == running@,
        r matches Some(j) ==> j@ == unchanged_json_spec(running@, target@),
{
    if !force && !asked_for && text::same(target, running) {
        return Some(
            Json::object().with("updated", Json::Bool(false)).with(
                "running",
                Json::text(running),
            ).with("latest", Json::text(target)).with("unchanged", Json::Bool(true)),
        );
    }
    None
}

/// The report of an update.
pub open spec fn updated_json_spec(
    updated: bool,
    from: Seq<char>,
    to: Seq<char>,
    asset: Seq<char>,
) -> JsonView {
    JsonView::Object(
        map![
            "updated"@ => JsonView::Bool(updated),
            "from"@ => str_view(from),
            "to"@ => str_view(to),
            "asset"@ => str_view(asset),
        ],
    )
}

/// The report of an update.
pub fn updated_report(updated: bool, from: &str, to: &str, asset: &str) -> (r: Json)
    ensures
        r@ == updated_json_spec(updated, from@, to@, asset@),
{
    Json::object().with("updated", Json::Bool(updated)).with("from", Json::text(from)).with(
        "to",
        Json::text(to),
    ).with("asset", Json::text(asset))
}

/// The name of the archive of a release for a platform.
pub open spec fn asset_name_spec(version: Seq<char>, windows: bool) -> Seq<char> {
    "fabcli-v"@ + version + (if windows {
        "-windows64.zip"@
    } else {
        "-linux64.tar.gz"@
    })
}

/// The name of the archive of a release for a platform.
pub fn asset_name_for_host(version: &str, windows: bool) -> (r: String)
    ensures
        r@ == asset_name_spec(version@, windows),
{
    let mut name = "fabcli-v".to_owned();
    name.append(version);
    name.append(
        if windows {
            "-windows64.zip"
        } else {
            "-linux64.tar.gz"
        },
    );
    name
}

/// A failure that the updater reports.
#[derive(Debug)]
pub enum UpdateError {
    Network(String),
    Update(String),
    Io(String),
    Json(String),
    SemVer(String),
    Reqwest(String),
    Other(String),
}

/// The error that a failure of the updater is reported as; `lower` is the
/// message in lower case.
pub open spec fn update_error_spec(e: UpdateError, lower: Seq<char>) -> ErrorView {
    match e {
        UpdateError::Network(m) => ErrorView::Network(m@),
        UpdateError::Update(m) => if contains_spec(lower, "not found"@) {
            ErrorView::NotFound(m@)
        } else {
            ErrorView::Generic(m@)
        },
        UpdateError::Io(m) => ErrorView::Generic("io: "@ + m@),
        UpdateError::Json(m) => ErrorView::Generic("json: "@ + m@),
        UpdateError::SemVer(m) => ErrorView::Generic("semver: "@ + m@),
        UpdateError::Reqwest(m) => ErrorView::Network(m@),
        UpdateError::Other(m) => ErrorView::Generic(m@),
    }
}

/// The message of a failure of the updater.
pub open spec fn update_message(e: UpdateError) -> Seq<char> {
    match e {
        UpdateError::Network(m) => m@,
        UpdateError::Update(m) => m@,
        UpdateError::Io(m) => m@,
        UpdateError::Json(m) => m@,
        UpdateError::SemVer(m) => m@,
        UpdateError::Reqwest(m) => m@,
        UpdateError::Other(m) => m@,
    }
}

fn prefixed(prefix: &str, message: &str) -> (r: FabCliError)
    ensures
        r@ == ErrorView::Generic(prefix@ + message@),
{
    let mut m = prefix.to_owned();
    m.append(message);
    FabCliError::Generic(m)
}

/// The error that a failure of the updater is reported as, where `lower` is its
/// message in lower case.
pub fn update_error(e: UpdateError, lower: &str) -> (r: FabCliError)
    ensures
        r@ == update_error_spec(e, lower@),
{
    match e {
        UpdateError::Network(m) => FabCliError::Network(m),
        UpdateError::Update(m) => {
            if text::contains(lower, "not found") {
                FabCliError::NotFound(m)
            } else {
                FabCliError::Generic(m)
            }
        },
        UpdateError::Io(m) => prefixed("io: ", m.as_str()),
        UpdateError::Json(m) => prefixed("json: ", m.as_str()),
        UpdateError::SemVer(m) => prefixed("semver: ", m.as_str()),
        UpdateError::Reqwest(m) => FabCliError::Network(m),
        UpdateError::Other(m) => FabCliError::Generic(m),
    }
}

/// The error that a failure of the updater is reported as. A message that says
/// that something was not found, in whatever case, is that kind of error.
pub fn map_update_err(e: UpdateError) -> (r: FabCliError)
    ensures
        r@ == update_error_spec(e, lower_text(update_message(e))),
{
    let lower = match &e {
        UpdateError::Network(m) => text::lower(m.as_str()),
        UpdateError::Update(m) => text::lower(m.as_str()),
        UpdateError::Io(m) => text::lower(m.as_str()),
        UpdateError::Json(m) => text::lower(m.as_str()),
        UpdateError::SemVer(m) => text::lower(m.as_str()),
        UpdateError::Reqwest(m) => text::lower(m.as_str()),
        UpdateError::Other(m) => text::lower(m.as_str()),
    };
    update_error(e, lower.as_str())
}

// ---------------------------------------------------------------------------
// Checksums
// ---------------------------------------------------------------------------

/// A line that says nothing: empty, or a remark.
pub open spec fn is_skipped_line(line: Seq<char>) -> bool {
    trim_spec(line).len() == 0 || trim_spec(line)[0] == '#'
}

/// The checksum that `lines` give for `asset`: the first word of the first line
/// whose second word, without stars in front, is that name. A line with fewer
/// than two words ends the search.
pub open spec fn sum_in_lines(lines: Seq<Seq<char>>, asset: Seq<char>) -> Option<Seq<char>>
    decreases lines.len(),
{
    if lines.len() == 0 {
        None
    } else if is_skipped_line(lines[0]) {
        sum_in_lines(lines.skip(1), asset)
    } else {
        let words = words_spec(trim_spec(lines[0]));
        if words.len() < 2 {
            None
        } else if trim_start_char_spec(words[1], '*') == asset {
            Some(words[0])
        } else {
            sum_in_lines(lines.skip(1), asset)
        }
    }
}

/// The checksum that a list of checksums gives for `asset_name`.
pub fn parse_sha256sums(content: &str, asset_name: &str) -> (r: Option<String>)
    ensures
        opt_text(r) == sum_in_lines(lines_spec(content@), asset_name@),
{
    let lines = text::lines(content);
    let ghost all = texts(lines@);
    let mut i: usize = 0;
    assert(all.skip(0) =~= all);
    while i < lines.len()
        invariant
            i <= lines@.len(),
            all == texts(lines@),
            all == lines_spec(content@),
            sum_in_lines(all, asset_name@) == sum_in_lines(all.skip(i as int), asset_name@),
        decreases lines.len() - i,
    {
        assert(all.skip(i as int)[0] == lines@[i as int]@);
        assert(all.skip(i as int).skip(1) =~= all.skip(i + 1));
        let line = text::trim(lines[i].as_str());
        let chars = text::to_chars(line.as_str());
        if chars.len() > 0 && chars[0] != '#' {
            let words = text::words(line.as_str());
            assert(texts(words@).len() == words@.len());
            if words.len() < 2 {
                return None;
            }
            assert(texts(words@)[0] == words@[0]@ && texts(words@)[1] == words@[1]@);
            let name = text::trim_start_char(words[1].as_str(), '*');
            if text::same(name.as_str(), asset_name) {
                return Some(words[0].clone());
            }
        }
        i = i + 1;
    }
    None
}

/// What the check of a release has got so far.
#[derive(Debug)]
pub struct ChecksumAnswers {
    /// The files of the release: names and URLs.
    pub assets: Vec<(String, String)>,
    /// The list of checksums.
    pub sums: Option<String>,
    /// The archive.
    pub archive: Option<Vec<u8>>,
}

/// What the check of a release does next.
#[derive(Debug)]
pub enum ChecksumAction {
    FetchSums { url: String },
    FetchArchive { url: String },
    Verified,
    Fail(FabCliError),
}

/// The mathematical value of a [`ChecksumAction`].
#[verifier::ext_equal]
pub enum ChecksumView {
    FetchSums { url: Seq<char> },
    FetchArchive { url: Seq<char> },
    Verified,
    Fail(ErrorView),
}

impl View for ChecksumAction {
    type V = ChecksumView;

    open spec fn view(&self) -> ChecksumView {
        match self {
            ChecksumAction::FetchSums { url } => ChecksumView::FetchSums { url: url@ },
            ChecksumAction::FetchArchive { url } => ChecksumView::FetchArchive { url: url@ },
            ChecksumAction::Verified => ChecksumView::Verified,
            ChecksumAction::Fail(e) => ChecksumView::Fail(e@),
        }
    }
}

/// What is said of an archive whose checksum is `actual`.
pub open spec fn compare_spec(
    asset: Seq<char>,
    expected: Seq<char>,
    actual: Seq<char>,
) -> ChecksumView {
    if actual != expected {
        ChecksumView::Fail(
            ErrorView::Generic(
                "checksum mismatch for "@ + asset + ": expected "@ + expected + ", got "@ + actual,
            ),
        )
    } else {
        ChecksumView::Verified
    }
}

/// What the check of the archive `asset` of release `version` does next, by
/// what it has got so far.
pub open spec fn checksum_next_spec(
    version: Seq<char>,
    asset: Seq<char>,
    a: ChecksumAnswers,
) -> ChecksumView {
    match lookup_spec(a.assets@, "SHA256SUMS.txt"@) {
        None => ChecksumView::Fail(
            ErrorView::Network(
                "release v"@ + version
                    + " predates checksum verification (no SHA256SUMS.txt asset); pass --allow-unverified to override"@,
            ),
        ),
        Some(sums_url) => match a.sums {
            None => ChecksumView::FetchSums { url: sums_url },
            Some(sums) => match lookup_spec(a.assets@, asset) {
                None => ChecksumView::Fail(
                    ErrorView::NotFound(
                        "asset "@ + asset + " not found on release v"@ + version,
                    ),
                ),
                Some(url) => match sum_in_lines(lines_spec(sums@), asset) {
                    None => ChecksumView::Fail(
                        ErrorView::Generic(
                            "SHA256SUMS.txt has no line for "@ + asset + " on release v"@ + version,
                        ),
                    ),
                    Some(expected) => match a.archive {
                        None => ChecksumView::FetchArchive { url },
                        Some(archive) => compare_spec(asset, expected, sha256_hex(archive@)),
                    },
                },
            },
        },
    }
}

/// Holds the checksum `actual` of an archive against the expected one.
pub fn compare_checksum(asset: &str, expected: &str, actual: &str) -> (r: ChecksumAction)
    ensures
        r@ == compare_spec(asset@, expected@, actual@),
{
    if !text::same(actual, expected) {
        let mut m = "checksum mismatch for ".to_owned();
        m.append(asset);
        m.append(": expected ");
        m.append(expected);
        m.append(", got ");
        m.append(actual);
        return ChecksumAction::Fail(FabCliError::Generic(m));
    }
    ChecksumAction::Verified
}

/// What the check of the archive `asset` of release `version` does next: fetch
/// the list of checksums, fetch the archive, or say how it ended.
pub fn verify_release_checksum(version: &str, asset: &str, a: &ChecksumAnswers) -> (r: ChecksumAction)
    ensures
        r@ == checksum_next_spec(version@, asset@, *a),
{
    let sums_url = match text::lookup(&a.assets, "SHA256SUMS.txt") {
        Some(url) => url,
        None => {
            let mut m = "release v".to_owned();
            m.append(version);
            m.append(
                " predates checksum verification (no SHA256SUMS.txt asset); pass --allow-unverified to override",
            );
            return ChecksumAction::Fail(FabCliError::Network(m));
        },
    };
    match &a.sums {
        None => ChecksumAction::FetchSums { url: sums_url },
        Some(sums) => {
            let url = match text::lookup(&a.assets, asset) {
                Some(url) => url,
                None => {
                    let mut m = "asset ".to_owned();
                    m.append(asset);
                    m.append(" not found on release v");
                    m.append(version);
                    return ChecksumAction::Fail(FabCliError::NotFound(m));
                },
            };
            let expected = match parse_sha256sums(sums.as_str(), asset) {
                Some(sum) => sum,
                None => {
                    let mut m = "SHA256SUMS.txt has no line for ".to_owned();
                    m.append(asset);
                    m.append(" on release v");
                    m.append(version);
                    return ChecksumAction::Fail(FabCliError::Generic(m));
                },
            };
            match &a.archive {
                None => ChecksumAction::FetchArchive { url },
                Some(archive) => {
                    let actual = sha256_of(archive.as_slice());
                    compare_checksum(asset, expected.as_str(), actual.as_str())
                },
            }
        },
    }
}

/// A release is accepted only where its list of checksums gives for its archive
/// the SHA-256 of what was fetched.
pub proof fn accepted_releases_match_their_checksum(
    version: Seq<char>,
    asset: Seq<char>,
    a: ChecksumAnswers,
)
    requires
        checksum_next_spec(version, asset, a) is Verified,
    ensures
        a.sums is Some && a.archive is Some,
        sum_in_lines(lines_spec(a.sums->0@), asset) == Some(sha256_hex(a.archive->0@)),
{
}

/// The URL that describes the release of a version.
pub fn release_url(owner: &str, repo: &str, version: &str) -> (r: String)
    ensures
        r@ == "https://api.github.com/repos/"@ + owner@ + "/"@ + repo@ + "/releases/tags/v"@
            + version@,
{
    let mut url = "https://api.github.com/repos/".to_owned();
    url.append(owner);
    url.append("/");
    url.append(repo);
    url.append("/releases/tags/v");
    url.append(version);
    url
}

// ---------------------------------------------------------------------------
// The course of an update
// ---------------------------------------------------------------------------

/// Where an update runs, and from where it is fetched.
#[derive(Debug)]
pub struct Host {
    /// The running version.
    pub running: String,
    pub owner: String,
    pub repo: String,
    pub windows: bool,
}

/// How far an update has come.
#[derive(Debug)]
pub struct UpdateProgress {
    /// The releases that there are, the newest first.
    pub releases: Option<Vec<String>>,
    /// The release's archive was held against its checksum.
    pub verified: bool,
    /// Whether the updater changed anything, and the version it came to.
    pub installed: Option<(bool, String)>,
}

/// What an update does next.
#[derive(Debug)]
#[allow(inconsistent_fields)]
pub enum UpdateAction {
    /// Ask for the releases.
    FetchReleases,
    /// Hold the release's archive against its checksum.
    Verify { tag: String, asset: String },
    /// Put the release in the place of the running program.
    Install { tag: String, asset: String },
    Report(Json),
    Fail(FabCliError),
}

/// The mathematical value of an [`UpdateAction`].
#[allow(inconsistent_fields)]
#[verifier::ext_equal]
pub enum UpdateView {
    FetchReleases,
    Verify { tag: Seq<char>, asset: Seq<char> },
    Install { tag: Seq<char>, asset: Seq<char> },
    Report(JsonView),
    Fail(ErrorView),
}

impl View for UpdateAction {
    type V = UpdateView;

    open spec fn view(&self) -> UpdateView {
        match self {
            UpdateAction::FetchReleases => UpdateView::FetchReleases,
            UpdateAction::Verify { tag, asset } => UpdateView::Verify { tag: tag@, asset: asset@ },
            UpdateAction::Install { tag, asset } => UpdateView::Install {
                tag: tag@,
                asset: asset@,
            },
            UpdateAction::Report(j) => UpdateView::Report(j@),
            UpdateAction::Fail(e) => UpdateView::Fail(e@),
        }
    }
}

/// What an update to the release `tag` does next.
pub open spec fn update_to_spec(
    args: UpdateArgs,
    host: Host,
    p: UpdateProgress,
    tag: Seq<char>,
) -> UpdateView {
    let asset = asset_name_spec(tag, host.windows);
    if !args.force && args.to is None && tag == host.running@ {
        UpdateView::Report(unchanged_json_spec(host.running@, tag))
    } else if !args.allow_unverified && !p.verified {
        UpdateView::Verify { tag, asset }
    } else {
        match p.installed {
            None => UpdateView::Install { tag, asset },
            Some((updated, version)) => UpdateView::Report(
                updated_json_spec(updated, host.running@, version@, asset),
            ),
        }
    }
}

/// What an update does next.
pub open spec fn update_next_spec(args: UpdateArgs, host: Host, p: UpdateProgress) -> UpdateView {
    if args.check {
        match p.releases {
            None => UpdateView::FetchReleases,
            Some(list) => match latest_spec(list@, host.owner@, host.repo@) {
                Err(e) => UpdateView::Fail(e),
                Ok(latest) => UpdateView::Report(
                    check_json_spec(
                        host.running@,
                        latest,
                        semver_after(latest, host.running@) == Some(true),
                    ),
                ),
            },
        }
    } else {
        match args.to {
            Some(v) => update_to_spec(args, host, p, trim_start_char_spec(v@, 'v')),
            None => match p.releases {
                None => UpdateView::FetchReleases,
                Some(list) => match latest_spec(list@, host.owner@, host.repo@) {
                    Err(e) => UpdateView::Fail(e),
                    Ok(latest) => update_to_spec(args, host, p, latest),
                },
            },
        }
    }
}

fn update_to(args: &UpdateArgs, host: &Host, p: &UpdateProgress, tag: String) -> (r: UpdateAction)
    ensures
        r@ == update_to_spec(*args, *host, *p, tag@),
{
    let running = host.running.as_str();
    match unchanged_report(running, tag.as_str(), args.to.is_some(), args.force) {
        Some(report) => {
            return UpdateAction::Report(report);
        },
        None => {},
    }
    let asset = asset_name_for_host(tag.as_str(), host.windows);
    if !args.allow_unverified && !p.verified {
        return UpdateAction::Verify { tag, asset };
    }
    match &p.installed {
        None => UpdateAction::Install { tag, asset },
        Some((updated, version)) => UpdateAction::Report(
            updated_report(*updated, running, version.as_str(), asset.as_str()),
        ),
    }
}

/// What an update does next: it finds the release that is asked for or the
/// newest one, does nothing where that is the running one, and else holds its
/// archive against its checksum before it installs it. With `check` it only
/// reports.
pub fn update_next(args: &UpdateArgs, host: &Host, p: &UpdateProgress) -> (r: UpdateAction)
    ensures
        r@ == update_next_spec(*args, *host, *p),
{
    if !args.check {
        if let Some(v) = &args.to {
            return update_to(args, host, p, wanted_tag(v.as_str()));
        }
    }
    match &p.releases {
        None => UpdateAction::FetchReleases,
        Some(list) => {
            let found = latest_release(list, host.owner.as_str(), host.repo.as_str());
            assert(text_result(found) == latest_spec(list@, host.owner@, host.repo@));
            match found {
                Err(e) => UpdateAction::Fail(e),
                Ok(latest) => {
                    if args.check {
                        let newer = is_newer(latest.as_str(), host.running.as_str());
                        return UpdateAction::Report(
                            check_report(host.running.as_str(), latest.as_str(), newer),
                        );
                    }
                    update_to(args, host, p, latest)
                },
            }
        },
    }
}

/// No release is installed that was not held against its checksum, unless the
/// caller asked for that; and a check installs nothing.
pub proof fn installs_are_verified(args: UpdateArgs, host: Host, p: UpdateProgress)
    requires
        update_next_spec(args, host, p) is Install,
    ensures
        args.allow_unverified || p.verified,
        !args.check,
{
}

// ---------------------------------------------------------------------------
// Versions, checksums and releases
// ---------------------------------------------------------------------------

proof fn lemma_update_keys()
    ensures
        "running"@ != "latest"@,
        "running"@ != "newer_available"@,
        "running"@ != "updated"@,
        "running"@ != "unchanged"@,
        "running"@ != "from"@,
        "running"@ != "to"@,
        "running"@ != "asset"@,
        "latest"@ != "newer_available"@,
        "latest"@ != "updated"@,
        "latest"@ != "unchanged"@,
        "latest"@ != "from"@,
        "latest"@ != "to"@,
        "latest"@ != "asset"@,
        "newer_available"@ != "updated"@,
        "newer_available"@ != "unchanged"@,
        "newer_available"@ != "from"@,
        "newer_available"@ != "to"@,
        "newer_available"@ != "asset"@,
        "updated"@ != "unchanged"@,
        "updated"@ != "from"@,
        "updated"@ != "to"@,
        "updated"@ != "asset"@,
        "unchanged"@ != "from"@,
        "unchanged"@ != "to"@,
        "unchanged"@ != "asset"@,
        "from"@ != "to"@,
        "from"@ != "asset"@,
        "to"@ != "asset"@,
{
    reveal_strlit("running");
    reveal_strlit("latest");
    reveal_strlit("newer_available");
    reveal_strlit("updated");
    reveal_strlit("unchanged");
    reveal_strlit("from");
    reveal_strlit("to");
    reveal_strlit("asset");
    assert("running"@.len() == 7);
    assert("latest"@.len() == 6);
    assert("newer_available"@.len() == 15);
    assert("updated"@.len() == 7);
    assert("unchanged"@.len() == 9);
    assert("from"@.len() == 4);
    assert("to"@.len() == 2);
    assert("asset"@.len() == 5);
    assert("running"@[0] != "updated"@[0]);
}

/// The repository whose releases are looked at.
pub open spec fn remote_name_spec(env: Option<Seq<char>>) -> Seq<char> {
    match env {
        Some(name) => if name.len() > 0 {
            name
        } else {
            DEFAULT_REMOTE@
        },
        None => DEFAULT_REMOTE@,
    }
}

/// The environment can name another repository, and an empty name counts for
/// none.
pub proof fn the_environment_names_the_repository(name: Seq<char>)
    ensures
        name.len() > 0 ==> remote_name_spec(Some(name)) == name,
        name.len() == 0 ==> remote_name_spec(Some(name)) == remote_name_spec(None),
        remote_name_spec(None) == "zirklerite/FabCLI"@,
{
}

/// Of two versions the one with the greater first number is later, then that
/// with the greater second, then that with the greater third; no version is
/// later than itself, and of two different ones exactly one is.
pub proof fn versions_are_ordered(a: (nat, nat, nat), b: (nat, nat, nat))
    ensures
        a.0 > b.0 ==> numbers_after(a, b),
        a.0 == b.0 && a.1 > b.1 ==> numbers_after(a, b),
        a.0 == b.0 && a.1 == b.1 && a.2 > b.2 ==> numbers_after(a, b),
        numbers_after(a, b) ==> !numbers_after(b, a),
        a != b ==> numbers_after(a, b) || numbers_after(b, a),
        !numbers_after(a, a),
{
}

/// Three numbers with points between them are a version, and it has those
/// numbers.
pub proof fn versions_read_back(a: u64, b: u64, c: u64)
    ensures
        plain_version(
            decimal_spec(a as nat).push('.') + (decimal_spec(b as nat).push('.') + decimal_spec(
                c as nat,
            )),
        ) == Some((a as nat, b as nat, c as nat)),
{
    let x = decimal_spec(a as nat);
    let y = decimal_spec(b as nat);
    let z = decimal_spec(c as nat);
    lemma_version_number(a);
    lemma_version_number(b);
    lemma_version_number(c);
    crate::text::pieces_end_at_the_separator(z, '.', Seq::empty());
    crate::text::pieces_end_at_the_separator(y, '.', z);
    crate::text::pieces_end_at_the_separator(x, '.', y.push('.') + z);
    let s = x.push('.') + (y.push('.') + z);
    assert(split_spec(s, '.') =~= seq![x, y, z]);
}

proof fn lemma_version_number(n: u64)
    ensures
        is_version_number(decimal_spec(n as nat)),
        digits_value(decimal_spec(n as nat)) == n,
        crate::text::free_of(decimal_spec(n as nat), '.'),
{
    let d = decimal_spec(n as nat);
    crate::text::decimal_then_parse(n);
    crate::text::decimal_has_no_space(n as nat);
    lemma_no_leading_zero(n as nat);
    assert forall|i: int| 0 <= i < d.len() implies d[i] != '.' by {
        assert('0' <= d[i]);
    }
    assert(crate::text::without_plus(d) == d);
}

proof fn lemma_no_leading_zero(n: nat)
    ensures
        decimal_spec(n).len() > 0,
        n > 0 ==> decimal_spec(n)[0] != '0',
        n == 0 ==> decimal_spec(n).len() == 1,
    decreases n,
{
    if n >= 10 {
        lemma_no_leading_zero(n / 10);
        assert(decimal_spec(n)[0] == decimal_spec(n / 10)[0]);
    }
}

/// The report of a check names the running version and the latest and says
/// whether the latest is newer; that of an update which two versions it went
/// from and to, and by which file.
pub proof fn reports_name_the_versions(
    running: Seq<char>,
    latest: Seq<char>,
    asset: Seq<char>,
    flag: bool,
)
    ensures
        crate::json::get_spec(check_json_spec(running, latest, flag), "running"@) == Some(
            JsonView::Str(running),
        ),
        crate::json::get_spec(check_json_spec(running, latest, flag), "latest"@) == Some(
            JsonView::Str(latest),
        ),
        crate::json::get_spec(check_json_spec(running, latest, flag), "newer_available"@) == Some(
            JsonView::Bool(flag),
        ),
        crate::json::get_spec(unchanged_json_spec(running, latest), "updated"@) == Some(
            JsonView::Bool(false),
        ),
        crate::json::get_spec(unchanged_json_spec(running, latest), "unchanged"@) == Some(
            JsonView::Bool(true),
        ),
        crate::json::get_spec(unchanged_json_spec(running, latest), "running"@) == Some(
            JsonView::Str(running),
        ),
        crate::json::get_spec(unchanged_json_spec(running, latest), "latest"@) == Some(
            JsonView::Str(latest),
        ),
        crate::json::get_spec(updated_json_spec(flag, running, latest, asset), "updated"@) == Some(
            JsonView::Bool(flag),
        ),
        crate::json::get_spec(updated_json_spec(flag, running, latest, asset), "from"@) == Some(
            JsonView::Str(running),
        ),
        crate::json::get_spec(updated_json_spec(flag, running, latest, asset), "to"@) == Some(
            JsonView::Str(latest),
        ),
        crate::json::get_spec(updated_json_spec(flag, running, latest, asset), "asset"@) == Some(
            JsonView::Str(asset),
        ),
{
    lemma_update_keys();
}

/// The latest release is the first of the list; without releases there is none.
pub proof fn the_first_release_is_the_latest(
    versions: Seq<String>,
    owner: Seq<char>,
    repo: Seq<char>,
)
    ensures
        versions.len() > 0 ==> latest_spec(versions, owner, repo) == Ok::<Seq<char>, ErrorView>(
            versions[0]@,
        ),
        versions.len() == 0 ==> latest_spec(versions, owner, repo) matches Err(
            ErrorView::NotFound(_),
        ),
{
}

/// A release's file is named after the version and the platform: a zip archive
/// for Windows, a tar archive else.
pub proof fn files_are_named_after_the_platform(version: Seq<char>)
    ensures
        asset_name_spec(version, true) == "fabcli-v"@ + version + "-windows64.zip"@,
        asset_name_spec(version, false) == "fabcli-v"@ + version + "-linux64.tar.gz"@,
{
}

/// Blank lines of a list of checksums and its remarks are passed over.
pub proof fn remarks_are_passed_over(line: Seq<char>, rest: Seq<Seq<char>>, asset: Seq<char>)
    requires
        trim_spec(line).len() == 0 || trim_spec(line)[0] == '#',
    ensures
        sum_in_lines(seq![line] + rest, asset) == sum_in_lines(rest, asset),
{
    assert((seq![line] + rest)[0] == line);
    assert((seq![line] + rest).skip(1) =~= rest);
}

/// A line of a list of checksums is a checksum and a file's name, which a star
/// may precede: where the name is the file's the checksum is taken, and where it
/// is another the next line is looked at. A line without a name ends the search.
pub proof fn checksums_are_found_by_name(
    line: Seq<char>,
    rest: Seq<Seq<char>>,
    asset: Seq<char>,
)
    requires
        trim_spec(line).len() > 0,
        trim_spec(line)[0] != '#',
    ensures
        words_spec(trim_spec(line)).len() >= 2 ==> {
            let words = words_spec(trim_spec(line));
            &&& words[1] == asset && (asset.len() > 0 ==> asset[0] != '*') ==> sum_in_lines(
                seq![line] + rest,
                asset,
            ) == Some(words[0])
            &&& words[1] == seq!['*'] + asset && (asset.len() > 0 ==> asset[0] != '*')
                ==> sum_in_lines(seq![line] + rest, asset) == Some(words[0])
            &&& trim_start_char_spec(words[1], '*') != asset ==> sum_in_lines(
                seq![line] + rest,
                asset,
            ) == sum_in_lines(rest, asset)
        },
        words_spec(trim_spec(line)).len() < 2 ==> sum_in_lines(seq![line] + rest, asset) is None,
{
    assert((seq![line] + rest)[0] == line);
    assert((seq![line] + rest).skip(1) =~= rest);
    if asset.len() > 0 ==> asset[0] != '*' {
        crate::text::leading_characters_come_off(0, '*', asset);
        crate::text::leading_characters_come_off(1, '*', asset);
        assert(Seq::new(0nat, |i: int| '*') + asset =~= asset);
        assert(Seq::new(1nat, |i: int| '*') + asset =~= seq!['*'] + asset);
    }
}

/// An archive is accepted exactly where its checksum is the one that the list
/// gives for it.
pub proof fn archives_are_held_against_the_list(
    asset: Seq<char>,
    expected: Seq<char>,
    actual: Seq<char>,
)
    ensures
        compare_spec(asset, expected, actual) is Verified <==> actual == expected,
        compare_spec(asset, expected, actual) is Fail <==> actual != expected,
{
}

/// The course of a verification: the list is fetched from where the release has
/// it, then the archive from where the release has that; where the release has
/// no list or no archive, or the list no line for it, it fails.
pub proof fn verifications_take_their_course(
    version: Seq<char>,
    asset: Seq<char>,
    a: ChecksumAnswers,
    list_url: Seq<char>,
    url: Seq<char>,
    sum: Seq<char>,
)
    ensures
        lookup_spec(a.assets@, "SHA256SUMS.txt"@) is None ==> (checksum_next_spec(version, asset, a)
            matches ChecksumView::Fail(e) && e is Network),
        lookup_spec(a.assets@, "SHA256SUMS.txt"@) == Some(list_url) && a.sums is None
            ==> checksum_next_spec(version, asset, a) == (ChecksumView::FetchSums {
            url: list_url,
        }),
        lookup_spec(a.assets@, "SHA256SUMS.txt"@) is Some ==> (a.sums matches Some(sums) ==> {
            &&& lookup_spec(a.assets@, asset) is None ==> (checksum_next_spec(version, asset, a)
                matches ChecksumView::Fail(e) && e is NotFound)
            &&& lookup_spec(a.assets@, asset) == Some(url) && sum_in_lines(lines_spec(sums@), asset)
                is None ==> (checksum_next_spec(version, asset, a) matches ChecksumView::Fail(e)
                && e is Generic)
            &&& lookup_spec(a.assets@, asset) == Some(url) && sum_in_lines(lines_spec(sums@), asset)
                == Some(sum) && a.archive is None ==> checksum_next_spec(version, asset, a) == (
            ChecksumView::FetchArchive { url })
            &&& lookup_spec(a.assets@, asset) == Some(url) && sum_in_lines(lines_spec(sums@), asset)
                == Some(sum) ==> (a.archive matches Some(bytes) ==> (checksum_next_spec(
                version,
                asset,
                a,
            ) is Verified <==> sha256_hex(bytes@) == sum))
        }),
{
}

/// The course of an update. A check only looks at the releases. Else the version
/// that is asked for is taken, without the letter before it, or the latest; it
/// is installed unless it runs already, which neither a forced update nor one to
/// a version looks at; and it is verified first, unless the caller waives that.
pub proof fn updates_take_their_course(
    args: UpdateArgs,
    host: Host,
    p: UpdateProgress,
    tag: Seq<char>,
)
    ensures
        (args.check || args.to is None) && p.releases is None ==> update_next_spec(args, host, p)
            is FetchReleases,
        (args.check || args.to is None) ==> (p.releases matches Some(list) ==> (list@.len() == 0
            ==> update_next_spec(args, host, p) is Fail)),
        args.check ==> (p.releases matches Some(list) ==> (list@.len() > 0 ==> update_next_spec(
            args,
            host,
            p,
        ) == UpdateView::Report(
            check_json_spec(
                host.running@,
                list@[0]@,
                semver_after(list@[0]@, host.running@) == Some(true),
            ),
        ))),
        !args.check && is_wanted(args, p, tag) ==> {
            &&& !args.force && args.to is None && tag == host.running@ ==> update_next_spec(
                args,
                host,
                p,
            ) == UpdateView::Report(unchanged_json_spec(host.running@, tag))
            &&& args.force || args.to is Some || tag != host.running@ ==> {
                &&& !args.allow_unverified && !p.verified ==> update_next_spec(args, host, p) == (
                UpdateView::Verify { tag, asset: asset_name_spec(tag, host.windows) })
                &&& (args.allow_unverified || p.verified) && p.installed is None
                    ==> update_next_spec(args, host, p) == (UpdateView::Install {
                    tag,
                    asset: asset_name_spec(tag, host.windows),
                })
                &&& args.allow_unverified || p.verified ==> (p.installed matches Some(done)
                    ==> update_next_spec(args, host, p) == UpdateView::Report(
                    updated_json_spec(
                        done.0,
                        host.running@,
                        done.1@,
                        asset_name_spec(tag, host.windows),
                    ),
                ))
            }
        },
{
    if args.to is Some && is_wanted(args, p, tag) {
        let n = choose|n: nat|
            args.to->0@ == #[trigger] letters(n) + tag && (tag.len() > 0 ==> tag[0] != 'v');
        crate::text::leading_characters_come_off(n, 'v', tag);
    }
}

/// So many letters v.
pub open spec fn letters(n: nat) -> Seq<char> {
    Seq::new(n, |i: int| 'v')
}

/// `tag` is the version that an update is to: the one that is asked for, without
/// the letters v before it, else that of the first release.
pub open spec fn is_wanted(args: UpdateArgs, p: UpdateProgress, tag: Seq<char>) -> bool {
    match args.to {
        Some(v) => exists|n: nat|
            v@ == #[trigger] letters(n) + tag && (tag.len() > 0 ==> tag[0] != 'v'),
        None => p.releases matches Some(list) && list@.len() > 0 && list@[0]@ == tag,
    }
}

/// What goes wrong with an update: trouble with the network stays that, a
/// message that says not found is a missing thing, and the rest is a failure.
pub proof fn update_errors_are_told_apart(e: UpdateError, lower: Seq<char>)
    ensures
        update_error_spec(e, lower) is Network <==> e is Network || e is Reqwest,
        update_error_spec(e, lower) is NotFound <==> e is Update && contains_spec(
            lower,
            "not found"@,
        ),
        update_error_spec(e, lower) is Generic <==> e is Io || e is Json || e is SemVer || e
            is Other || (e is Update && !contains_spec(lower, "not found"@)),
        e is Network || e is Reqwest || e is Update || e is Other ==> crate::error::message_spec(
            update_error_spec(e, lower),
        ) == update_message(e),
        e is Io ==> crate::error::message_spec(update_error_spec(e, lower)) == "io: "@
            + update_message(e),
        e is Json ==> crate::error::message_spec(update_error_spec(e, lower)) == "json: "@
            + update_message(e),
        e is SemVer ==> crate::error::message_spec(update_error_spec(e, lower)) == "semver: "@
            + update_message(e),
{
}

proof fn lemma_digits_read_back(s: Seq<char>)
    requires
        s.len() > 0,
        all_digits(s),
        s[0] == '0' ==> s.len() == 1,
    ensures
        decimal_spec(digits_value(s)) == s,
        s.len() > 1 ==> digits_value(s) >= 10,
    decreases s.len(),
{
    let less = s.drop_last();
    let d = crate::text::digit_value(s.last());
    assert(crate::text::is_digit_spec(s[s.len() - 1]));
    assert(d < 10 && crate::text::digit(d) == s.last());
    if s.len() == 1 {
        assert(less =~= Seq::<char>::empty());
        assert(digits_value(less) == 0);
        assert(digits_value(s) == d);
        assert(decimal_spec(d) =~= s);
    } else {
        assert forall|i: int| 0 <= i < less.len() implies crate::text::is_digit_spec(
            #[trigger] less[i],
        ) by {
            assert(less[i] == s[i]);
        }
        assert(less[0] == s[0]);
        lemma_digits_read_back(less);
        let v = digits_value(less);
        if less.len() == 1 {
            assert(less.drop_last() =~= Seq::<char>::empty());
            assert(digits_value(less.drop_last()) == 0);
            assert(v == crate::text::digit_value(less.last()));
            assert(crate::text::is_digit_spec(less[0]));
            assert(v > 0);
        }
        assert(digits_value(s) == v * 10 + d);
        assert((v * 10 + d) / 10 == v && (v * 10 + d) % 10 == d);
        assert(decimal_spec(digits_value(s)) == decimal_spec(v).push(crate::text::digit(d)));
        assert(less.push(s.last()) =~= s);
    }
}

/// What is read as a version is three numbers with points between them, written
/// as numbers are, and nothing else.
pub proof fn versions_are_three_numbers(s: Seq<char>, v: (nat, nat, nat))
    requires
        plain_version(s) == Some(v),
    ensures
        s == decimal_spec(v.0) + "."@ + decimal_spec(v.1) + "."@ + decimal_spec(v.2),
{
    let p = split_spec(s, '.');
    lemma_digits_read_back(p[0]);
    lemma_digits_read_back(p[1]);
    lemma_digits_read_back(p[2]);
    crate::text::split_then_join(s, '.');
    reveal_strlit(".");
    assert("."@ =~= seq!['.']);
    let two = p.drop_last();
    let one = two.drop_last();
    assert(one.len() == 1 && one[0] == p[0]);
    assert(two.last() == p[1]);
    assert(crate::text::join_spec(one, "."@) == p[0]);
    assert(crate::text::join_spec(two, "."@) == p[0] + "."@ + p[1]);
    assert(crate::text::join_spec(p, "."@) == p[0] + "."@ + p[1] + "."@ + p[2]);
}

} // verus!

//! From a listing's identifier to the coordinates of what is downloaded.
//!
//! The caller's library is the source of truth: an owned listing has an entry
//! there whose `ListingIdentifier` attribute, or whose URL of a listing, gives
//! the listing's identifier.
use crate::args::DownloadArgs;
use crate::error::{variants_view, AvailableVariant, ErrorView, FabCliError, VariantView};
use crate::text;
use crate::text::{
    decimal_spec, free_of, join_spec, opt_str, opt_text, sorted_unique_spec, strip_prefix_spec,
    texts,
};
use vstd::prelude::*;

verus! {

/// One downloadable version of an owned asset.
#[derive(Debug)]
pub struct ProjectVersion {
    pub artifact_id: String,
    pub engine_versions: Vec<String>,
    pub target_platforms: Vec<String>,
}

/// One owned asset.
#[derive(Debug)]
pub struct FabAsset {
    pub asset_id: String,
    pub asset_namespace: String,
    /// Groups of named attributes.
    pub custom_attributes: Vec<Vec<(String, String)>>,
    pub url: String,
    pub project_versions: Vec<ProjectVersion>,
}

/// The caller's library.
#[derive(Debug)]
pub struct FabLibrary {
    pub results: Vec<FabAsset>,
}

/// What identifies a download.
#[derive(Debug, PartialEq)]
pub struct ResolvedCoords {
    pub artifact_id: String,
    pub namespace: String,
    pub asset_id: String,
    pub platform: Option<String>,
}

/// The mathematical value of a [`ProjectVersion`].
#[verifier::ext_equal]
pub struct VersionView {
    pub artifact_id: Seq<char>,
    pub engine_versions: Seq<Seq<char>>,
    pub target_platforms: Seq<Seq<char>>,
}

impl View for ProjectVersion {
    type V = VersionView;

    open spec fn view(&self) -> VersionView {
        VersionView {
            artifact_id: self.artifact_id@,
            engine_versions: texts(self.engine_versions@),
            target_platforms: texts(self.target_platforms@),
        }
    }
}

/// The values of a list of versions.
pub open spec fn versions_view(v: Seq<ProjectVersion>) -> Seq<VersionView> {
    v.map_values(|x: ProjectVersion| x@)
}

/// Some group of `attributes` holds the attribute `name` with the value `value`.
pub open spec fn has_attribute(
    attributes: Seq<Vec<(String, String)>>,
    name: Seq<char>,
    value: Seq<char>,
) -> bool {
    exists|i: int, j: int|
        0 <= i < attributes.len() && 0 <= j < attributes[i]@.len()
            && #[trigger] attributes[i]@[j].0@ == name && attributes[i]@[j].1@ == value
}

/// What the URL of a listing begins with.
pub const LISTING_URL: &'static str = "https://www.fab.com/listings/";

/// The identifier in the URL of a listing: all that stands behind its
/// beginning, where that is one segment. Other URLs have none.
pub open spec fn uid_from_url_spec(url: Seq<char>) -> Option<Seq<char>> {
    match strip_prefix_spec(url, LISTING_URL@) {
        Some(uid) => if uid.len() > 0 && free_of(uid, '/') {
            Some(uid)
        } else {
            None
        },
        None => None,
    }
}

/// The URL of a listing gives its identifier back, and is the only URL that
/// gives it.
pub proof fn listing_urls_name_their_listing(url: Seq<char>, uid: Seq<char>)
    requires
        uid.len() > 0,
        free_of(uid, '/'),
    ensures
        uid_from_url_spec(url) == Some(uid) <==> url == LISTING_URL@ + uid,
{
    let n = LISTING_URL@.len() as int;
    if url == LISTING_URL@ + uid {
        assert(url.take(n) =~= LISTING_URL@);
        assert(url.skip(n) =~= uid);
    }
    if uid_from_url_spec(url) == Some(uid) {
        assert(url =~= url.take(n) + url.skip(n));
    }
}

/// `entry` is the listing `uid`: by its attribute, or by its URL.
pub open spec fn matches_uid_spec(entry: FabAsset, uid: Seq<char>) -> bool {
    has_attribute(entry.custom_attributes@, "ListingIdentifier"@, uid) || uid_from_url_spec(
        entry.url@,
    ) == Some(uid)
}

/// The variants that a caller can choose from.
pub open spec fn available_spec(versions: Seq<VersionView>) -> Seq<VariantView> {
    versions.map_values(
        |v: VersionView|
            VariantView { engine_versions: v.engine_versions, target_platforms: v.target_platforms },
    )
}

/// The engine versions of all of `versions`, one behind the other.
pub open spec fn all_engines(versions: Seq<VersionView>) -> Seq<Seq<char>>
    decreases versions.len(),
{
    if versions.len() == 0 {
        Seq::empty()
    } else {
        all_engines(versions.drop_last()) + versions.last().engine_versions
    }
}

/// The engine versions of all of `versions`, each once, in order.
pub open spec fn engines_summary_spec(versions: Seq<VersionView>) -> Seq<char> {
    join_spec(sorted_unique_spec(all_engines(versions)), ", "@)
}

/// Those of `versions` that support the engine `engine`.
pub open spec fn supporting(versions: Seq<VersionView>, engine: Seq<char>) -> Seq<VersionView>
    decreases versions.len(),
{
    if versions.len() == 0 {
        Seq::empty()
    } else if versions.last().engine_versions.contains(engine) {
        supporting(versions.drop_last(), engine).push(versions.last())
    } else {
        supporting(versions.drop_last(), engine)
    }
}

/// The version that is downloaded: the only one, or the only one that
/// supports the wanted engine.
pub open spec fn select_version_spec(
    versions: Seq<VersionView>,
    uid: Seq<char>,
    engine: Option<Seq<char>>,
) -> Result<VersionView, ErrorView> {
    let available = available_spec(versions);
    if versions.len() == 0 {
        Err(
            ErrorView::AmbiguousArtifact {
                message: "library entry has no project versions"@,
                uid,
                available: Seq::empty(),
            },
        )
    } else {
        match engine {
            Some(eng) => {
                let found = supporting(versions, eng);
                if found.len() == 0 {
                    Err(
                        ErrorView::AmbiguousArtifact {
                            message: "--engine "@ + eng
                                + " matches none of the listing's project versions; available: "@
                                + engines_summary_spec(versions),
                            uid,
                            available,
                        },
                    )
                } else if found.len() == 1 {
                    Ok(found[0])
                } else {
                    Err(
                        ErrorView::AmbiguousArtifact {
                            message: "--engine "@ + eng + " matches "@ + decimal_spec(found.len())
                                + " project versions; refine with --platform or pick a more specific engine"@,
                            uid,
                            available,
                        },
                    )
                }
            },
            None => if versions.len() == 1 {
                Ok(versions[0])
            } else {
                Err(
                    ErrorView::AmbiguousArtifact {
                        message: "listing has "@ + decimal_spec(versions.len())
                            + " project versions; specify --engine"@,
                        uid,
                        available,
                    },
                )
            },
        }
    }
}

/// The platform that is downloaded for: none where the version names none, the
/// only one, or the wanted one.
pub open spec fn select_platform_spec(
    platforms: Seq<Seq<char>>,
    versions: Seq<VersionView>,
    uid: Seq<char>,
    platform: Option<Seq<char>>,
) -> Result<Option<Seq<char>>, ErrorView> {
    let available = available_spec(versions);
    if platforms.len() == 0 {
        Ok(None)
    } else if platforms.len() == 1 {
        Ok(Some(platforms[0]))
    } else {
        match platform {
            Some(p) => if platforms.contains(p) {
                Ok(Some(p))
            } else {
                Err(
                    ErrorView::AmbiguousArtifact {
                        message: "--platform "@ + p
                            + " not available for the selected version; available: "@
                            + join_spec(platforms, ", "@),
                        uid,
                        available,
                    },
                )
            },
            None => Err(
                ErrorView::AmbiguousArtifact {
                    message: "selected version supports "@ + decimal_spec(platforms.len())
                        + " platforms; specify --platform"@,
                    uid,
                    available,
                },
            ),
        }
    }
}

/// The mathematical value of a [`ResolvedCoords`].
#[verifier::ext_equal]
pub struct CoordsView {
    pub artifact_id: Seq<char>,
    pub namespace: Seq<char>,
    pub asset_id: Seq<char>,
    pub platform: Option<Seq<char>>,
}

impl View for ResolvedCoords {
    type V = CoordsView;

    open spec fn view(&self) -> CoordsView {
        CoordsView {
            artifact_id: self.artifact_id@,
            namespace: self.namespace@,
            asset_id: self.asset_id@,
            platform: opt_text(self.platform),
        }
    }
}

/// The first entry of the library that is the listing `uid`.
pub open spec fn first_entry(results: Seq<FabAsset>, uid: Seq<char>) -> Option<FabAsset>
    decreases results.len(),
{
    if results.len() == 0 {
        None
    } else if matches_uid_spec(results[0], uid) {
        Some(results[0])
    } else {
        first_entry(results.skip(1), uid)
    }
}

/// The error for a listing that is not in the library.
pub open spec fn not_owned_error(uid: Seq<char>) -> ErrorView {
    ErrorView::NotOwned {
        message: "listing "@ + uid + " is not in your library; run `fabcli claim "@ + uid
            + "` if it's free, or purchase it on Fab"@,
        uid,
    }
}

/// What the listing `uid` resolves to.
pub open spec fn resolve_spec(
    uid: Seq<char>,
    engine: Option<Seq<char>>,
    platform: Option<Seq<char>>,
    results: Seq<FabAsset>,
) -> Result<CoordsView, ErrorView> {
    match first_entry(results, uid) {
        None => Err(not_owned_error(uid)),
        Some(entry) => {
            let versions = versions_view(entry.project_versions@);
            match select_version_spec(versions, uid, engine) {
                Err(e) => Err(e),
                Ok(v) => match select_platform_spec(v.target_platforms, versions, uid, platform) {
                    Err(e) => Err(e),
                    Ok(p) => Ok(
                        CoordsView {
                            artifact_id: v.artifact_id,
                            namespace: entry.asset_namespace@,
                            asset_id: entry.asset_id@,
                            platform: p,
                        },
                    ),
                },
            }
        },
    }
}

/// A resolution, by its value.
pub open spec fn resolution_view(r: Result<ResolvedCoords, FabCliError>) -> Result<
    CoordsView,
    ErrorView,
> {
    match r {
        Ok(c) => Ok(c@),
        Err(e) => Err(e@),
    }
}

/// The identifier in the URL of a listing; `None` for URLs of another shape.
pub fn uid_from_url(url: &str) -> (r: Option<String>)
    ensures
        opt_text(r) == uid_from_url_spec(url@),
{
    match text::strip_prefix(url, LISTING_URL) {
        Some(uid) => {
            if uid.as_str().is_empty() || text::split_once(uid.as_str(), '/').is_some() {
                None
            } else {
                Some(uid)
            }
        },
        None => None,
    }
}

fn holds_attribute(attributes: &Vec<Vec<(String, String)>>, name: &str, value: &str) -> (r: bool)
    ensures
        r == has_attribute(attributes@, name@, value@),
{
    let mut i: usize = 0;
    while i < attributes.len()
        invariant
            i <= attributes@.len(),
            forall|a: int, b: int|
                0 <= a < i && 0 <= b < attributes@[a]@.len() && #[trigger] attributes@[a]@[b].0@
                    == name@ ==> attributes@[a]@[b].1@ != value@,
        decreases attributes.len() - i,
    {
        let group = &attributes[i];
        let mut j: usize = 0;
        while j < group.len()
            invariant
                i < attributes@.len(),
                *group == attributes@[i as int],
                j <= group@.len(),
                forall|a: int, b: int|
                    0 <= a < i && 0 <= b < attributes@[a]@.len()
                        && #[trigger] attributes@[a]@[b].0@ == name@ ==> attributes@[a]@[b].1@
                        != value@,
                forall|b: int|
                    0 <= b < j && #[trigger] attributes@[i as int]@[b].0@ == name@
                        ==> attributes@[i as int]@[b].1@ != value@,
            decreases group.len() - j,
        {
            if text::same(group[j].0.as_str(), name) && text::same(group[j].1.as_str(), value) {
                assert(attributes@[i as int]@[j as int].0@ == name@);
                return true;
            }
            j = j + 1;
        }
        assert forall|a: int, b: int|
            0 <= a < i + 1 && 0 <= b < attributes@[a]@.len() && #[trigger] attributes@[a]@[b].0@
                == name@ implies attributes@[a]@[b].1@ != value@ by {
            if a == i {
                assert(attributes@[i as int]@[b].0@ == name@);
            }
        }
        i = i + 1;
    }
    false
}

/// Whether `entry` is the listing `uid`.
pub fn entry_matches_uid(entry: &FabAsset, uid: &str) -> (r: bool)
    ensures
        r == matches_uid_spec(*entry, uid@),
{
    if holds_attribute(&entry.custom_attributes, "ListingIdentifier", uid) {
        return true;
    }
    match uid_from_url(entry.url.as_str()) {
        Some(segment) => text::same(segment.as_str(), uid),
        None => false,
    }
}

fn available_variants(versions: &Vec<ProjectVersion>) -> (r: Vec<AvailableVariant>)
    ensures
        variants_view(r@) == available_spec(versions_view(versions@)),
{
    let mut out: Vec<AvailableVariant> = Vec::new();
    let mut i: usize = 0;
    let ghost whole = available_spec(versions_view(versions@));
    while i < versions.len()
        invariant
            i <= versions@.len(),
            whole == available_spec(versions_view(versions@)),
            variants_view(out@) == whole.take(i as int),
        decreases versions.len() - i,
    {
        let row = AvailableVariant {
            engine_versions: text::copy_texts(&versions[i].engine_versions),
            target_platforms: text::copy_texts(&versions[i].target_platforms),
        };
        let ghost prior = out@;
        out.push(row);
        assert(variants_view(out@) =~= variants_view(prior).push(row@));
        assert(whole.take(i + 1) =~= whole.take(i as int).push(row@));
        i = i + 1;
    }
    assert(whole.take(versions@.len() as int) =~= whole);
    out
}

fn available_engines_summary(versions: &Vec<ProjectVersion>) -> (r: String)
    ensures
        r@ == engines_summary_spec(versions_view(versions@)),
{
    let mut all: Vec<String> = Vec::new();
    let mut i: usize = 0;
    let ghost views = versions_view(versions@);
    assert(texts(all@) =~= all_engines(views.take(0)));
    while i < versions.len()
        invariant
            i <= versions@.len(),
            views == versions_view(versions@),
            texts(all@) == all_engines(views.take(i as int)),
        decreases versions.len() - i,
    {
        let mut more = text::copy_texts(&versions[i].engine_versions);
        let ghost prior = all@;
        let ghost added = more@;
        all.append(&mut more);
        assert(texts(all@) =~= texts(prior) + texts(added));
        assert(views.take(i + 1).drop_last() =~= views.take(i as int));
        assert(views.take(i + 1).last() == views[i as int]);
        i = i + 1;
    }
    assert(views.take(views.len() as int) =~= views);
    let unique = text::sorted_unique(&all);
    text::join(&unique, ", ")
}

/// A chosen version, by its value.
pub open spec fn choice_view(
    versions: Seq<ProjectVersion>,
    r: Result<usize, FabCliError>,
) -> Result<VersionView, ErrorView> {
    match r {
        Ok(i) => Ok(versions[i as int]@),
        Err(e) => Err(e@),
    }
}

/// The index of the version that is downloaded.
pub fn select_project_version(
    versions: &Vec<ProjectVersion>,
    uid: &str,
    engine: Option<&str>,
) -> (r: Result<usize, FabCliError>)
    ensures
        r matches Ok(i) ==> i < versions@.len(),
        choice_view(versions@, r) == select_version_spec(
            versions_view(versions@),
            uid@,
            opt_str(engine),
        ),
{
    let ghost views = versions_view(versions@);
    if versions.len() == 0 {
        let none: Vec<AvailableVariant> = Vec::new();
        assert(variants_view(none@) =~= Seq::<VariantView>::empty());
        return Err(
            FabCliError::AmbiguousArtifact {
                message: "library entry has no project versions".to_owned(),
                uid: uid.to_owned(),
                available: none,
            },
        );
    }
    match engine {
        Some(eng) => {
            let mut count: usize = 0;
            let mut first: usize = 0;
            let mut i: usize = 0;
            while i < versions.len()
                invariant
                    i <= versions@.len(),
                    count <= i,
                    views == versions_view(versions@),
                    count == supporting(views.take(i as int), eng@).len(),
                    count > 0 ==> first < versions@.len() && supporting(
                        views.take(i as int),
                        eng@,
                    )[0] == views[first as int],
                decreases versions.len() - i,
            {
                assert(views.take(i + 1).drop_last() =~= views.take(i as int));
                assert(views.take(i + 1).last() == views[i as int]);
                if text::is_one_of(&versions[i].engine_versions, eng) {
                    if count == 0 {
                        first = i;
                    }
                    count = count + 1;
                }
                i = i + 1;
            }
            assert(views.take(views.len() as int) =~= views);
            if count == 0 {
                let mut message = "--engine ".to_owned();
                message.append(eng);
                message.append(" matches none of the listing's project versions; available: ");
                message.append(available_engines_summary(versions).as_str());
                Err(
                    FabCliError::AmbiguousArtifact {
                        message,
                        uid: uid.to_owned(),
                        available: available_variants(versions),
                    },
                )
            } else if count == 1 {
                Ok(first)
            } else {
                let mut message = "--engine ".to_owned();
                message.append(eng);
                message.append(" matches ");
                message.append(text::decimal(count as u64).as_str());
                message.append(
                    " project versions; refine with --platform or pick a more specific engine",
                );
                Err(
                    FabCliError::AmbiguousArtifact {
                        message,
                        uid: uid.to_owned(),
                        available: available_variants(versions),
                    },
                )
            }
        },
        None => {
            if versions.len() == 1 {
                Ok(0)
            } else {
                let mut message = "listing has ".to_owned();
                message.append(text::decimal(versions.len() as u64).as_str());
                message.append(" project versions; specify --engine");
                Err(
                    FabCliError::AmbiguousArtifact {
                        message,
                        uid: uid.to_owned(),
                        available: available_variants(versions),
                    },
                )
            }
        },
    }
}

/// A chosen platform, by its value.
pub open spec fn platform_view(r: Result<Option<String>, FabCliError>) -> Result<
    Option<Seq<char>>,
    ErrorView,
> {
    match r {
        Ok(p) => Ok(opt_text(p)),
        Err(e) => Err(e@),
    }
}

/// The platform that is downloaded for.
pub fn select_platform(
    platforms: &Vec<String>,
    versions: &Vec<ProjectVersion>,
    uid: &str,
    platform: Option<&str>,
) -> (r: Result<Option<String>, FabCliError>)
    ensures
        platform_view(r) == select_platform_spec(
            texts(platforms@),
            versions_view(versions@),
            uid@,
            opt_str(platform),
        ),
{
    if platforms.len() == 0 {
        return Ok(None);
    }
    if platforms.len() == 1 {
        return Ok(Some(platforms[0].clone()));
    }
    match platform {
        Some(p) => {
            if text::is_one_of(platforms, p) {
                return Ok(Some(p.to_owned()));
            }
            let mut message = "--platform ".to_owned();
            message.append(p);
            message.append(" not available for the selected version; available: ");
            message.append(text::join(platforms, ", ").as_str());
            Err(
                FabCliError::AmbiguousArtifact {
                    message,
                    uid: uid.to_owned(),
                    available: available_variants(versions),
                },
            )
        },
        None => {
            let mut message = "selected version supports ".to_owned();
            message.append(text::decimal(platforms.len() as u64).as_str());
            message.append(" platforms; specify --platform");
            Err(
                FabCliError::AmbiguousArtifact {
                    message,
                    uid: uid.to_owned(),
                    available: available_variants(versions),
                },
            )
        },
    }
}

/// Resolves the listing `uid` against a fetched library.
pub fn resolve(
    uid: &str,
    engine: Option<&str>,
    platform: Option<&str>,
    library: &FabLibrary,
) -> (r: Result<ResolvedCoords, FabCliError>)
    ensures
        resolution_view(r) == resolve_spec(
            uid@,
            opt_str(engine),
            opt_str(platform),
            library.results@,
        ),
{
    let results = &library.results;
    let mut i: usize = 0;
    assert(results@.skip(0) =~= results@);
    while i < results.len() && !entry_matches_uid(&results[i], uid)
        invariant
            i <= results@.len(),
            first_entry(results@, uid@) == first_entry(results@.skip(i as int), uid@),
        decreases results.len() - i,
    {
        assert(results@.skip(i as int).skip(1) =~= results@.skip(i + 1));
        i = i + 1;
    }
    if i == results.len() {
        let mut message = "listing ".to_owned();
        message.append(uid);
        message.append(" is not in your library; run `fabcli claim ");
        message.append(uid);
        message.append("` if it's free, or purchase it on Fab");
        return Err(FabCliError::NotOwned { message, uid: uid.to_owned() });
    }
    let entry = &results[i];
    match select_project_version(&entry.project_versions, uid, engine) {
        Err(e) => Err(e),
        Ok(at) => {
            let version = &entry.project_versions[at];
            match select_platform(
                &version.target_platforms,
                &entry.project_versions,
                uid,
                platform,
            ) {
                Err(e) => Err(e),
                Ok(p) => Ok(
                    ResolvedCoords {
                        artifact_id: version.artifact_id.clone(),
                        namespace: entry.asset_namespace.clone(),
                        asset_id: entry.asset_id.clone(),
                        platform: p,
                    },
                ),
            }
        },
    }
}

proof fn lemma_first_entry(results: Seq<FabAsset>, uid: Seq<char>)
    ensures
        first_entry(results, uid) is None <==> (forall|i: int|
            0 <= i < results.len() ==> !matches_uid_spec(#[trigger] results[i], uid)),
    decreases results.len(),
{
    if results.len() > 0 {
        lemma_first_entry(results.skip(1), uid);
        assert forall|i: int| 1 <= i < results.len() implies results[i] == results.skip(1)[i
            - 1] by {}
        if !matches_uid_spec(results[0], uid) {
            if first_entry(results, uid) is None {
                assert forall|i: int| 0 <= i < results.len() implies !matches_uid_spec(
                    #[trigger] results[i],
                    uid,
                ) by {
                    if i > 0 {
                        assert(results.skip(1)[i - 1] == results[i]);
                    }
                }
            } else {
                let k = choose|k: int|
                    0 <= k < results.skip(1).len() && matches_uid_spec(
                        #[trigger] results.skip(1)[k],
                        uid,
                    );
                assert(results[k + 1] == results.skip(1)[k]);
            }
        }
    }
}

/// The coordinates that a command line gives itself: all three identifiers, and
/// the platform as it stands.
pub open spec fn explicit_coords_spec(args: DownloadArgs) -> Option<CoordsView> {
    match (args.artifact_id, args.namespace, args.asset_id) {
        (Some(artifact_id), Some(namespace), Some(asset_id)) => Some(
            CoordsView {
                artifact_id: artifact_id@,
                namespace: namespace@,
                asset_id: asset_id@,
                platform: opt_text(args.platform),
            },
        ),
        _ => None,
    }
}

/// The mathematical value of coordinates that may be missing.
pub open spec fn opt_coords(r: Option<ResolvedCoords>) -> Option<CoordsView> {
    match r {
        Some(c) => Some(c@),
        None => None,
    }
}

/// The coordinates that a command line gives itself.
pub fn explicit_coords(args: &DownloadArgs) -> (r: Option<ResolvedCoords>)
    ensures
        opt_coords(r) == explicit_coords_spec(*args),
{
    match (&args.artifact_id, &args.namespace, &args.asset_id) {
        (Some(artifact_id), Some(namespace), Some(asset_id)) => {
            let platform = match &args.platform {
                Some(p) => Some(p.clone()),
                None => None,
            };
            Some(
                ResolvedCoords {
                    artifact_id: artifact_id.clone(),
                    namespace: namespace.clone(),
                    asset_id: asset_id.clone(),
                    platform,
                },
            )
        },
        _ => None,
    }
}

/// A listing is reported as not owned exactly where no entry of the library is
/// that listing.
pub proof fn not_owned_iff_no_entry(
    uid: Seq<char>,
    engine: Option<Seq<char>>,
    platform: Option<Seq<char>>,
    results: Seq<FabAsset>,
)
    ensures
        resolve_spec(uid, engine, platform, results) matches Err(ErrorView::NotOwned { .. })
            <==> (forall|i: int|
            0 <= i < results.len() ==> !matches_uid_spec(#[trigger] results[i], uid)),
{
    lemma_first_entry(results, uid);
}

/// A download is never chosen among several candidates: where a version is
/// chosen it is the listing's only one, or the only one with the wanted engine.
pub proof fn chosen_version_is_unique(
    versions: Seq<VersionView>,
    uid: Seq<char>,
    engine: Option<Seq<char>>,
)
    ensures
        select_version_spec(versions, uid, engine) matches Ok(v) ==> match engine {
            Some(eng) => supporting(versions, eng) == seq![v],
            None => versions == seq![v],
        },
{
    match engine {
        Some(eng) => {
            if supporting(versions, eng).len() == 1 {
                assert(supporting(versions, eng) =~= seq![supporting(versions, eng)[0]]);
            }
        },
        None => {
            if versions.len() == 1 {
                assert(versions =~= seq![versions[0]]);
            }
        },
    }
}

// ---------------------------------------------------------------------------
// What is chosen
// ---------------------------------------------------------------------------

/// Which platform is taken: none of none, the only one of one, and of several
/// the one that was asked for where it is among them. Else nothing is chosen,
/// and the error names the listing with each version's engines and platforms.
pub proof fn platforms_are_taken_as_asked(
    platforms: Seq<Seq<char>>,
    versions: Seq<VersionView>,
    uid: Seq<char>,
    platform: Option<Seq<char>>,
)
    ensures
        platforms.len() == 0 ==> select_platform_spec(platforms, versions, uid, platform) == Ok::<
            Option<Seq<char>>,
            ErrorView,
        >(None),
        platforms.len() == 1 ==> select_platform_spec(platforms, versions, uid, platform) == Ok::<
            Option<Seq<char>>,
            ErrorView,
        >(Some(platforms[0])),
        platforms.len() > 1 ==> (platform matches Some(p) ==> (platforms.contains(p)
            ==> select_platform_spec(platforms, versions, uid, platform) == Ok::<
            Option<Seq<char>>,
            ErrorView,
        >(Some(p)))),
        platforms.len() > 1 ==> (platform matches Some(p) ==> (!platforms.contains(p)
            ==> select_platform_spec(platforms, versions, uid, platform) is Err)),
        platforms.len() > 1 && platform is None ==> select_platform_spec(
            platforms,
            versions,
            uid,
            platform,
        ) is Err,
        select_platform_spec(platforms, versions, uid, platform) matches Err(e)
            ==> names_the_versions(e, uid, versions),
{
}

/// `e` is the error that something has to be chosen, for the listing `uid`, and
/// says of each version which engines and platforms it is for.
pub open spec fn names_the_versions(
    e: ErrorView,
    uid: Seq<char>,
    versions: Seq<VersionView>,
) -> bool {
    e matches ErrorView::AmbiguousArtifact { message, uid: named, available } && named == uid
        && available.len() == versions.len() && forall|i: int|
        0 <= i < versions.len() ==> (#[trigger] available[i]).engine_versions
            == versions[i].engine_versions && available[i].target_platforms
            == versions[i].target_platforms
}

proof fn lemma_supporting_none(versions: Seq<VersionView>, engine: Seq<char>)
    requires
        forall|j: int|
            0 <= j < versions.len() ==> !(#[trigger] versions[j]).engine_versions.contains(engine),
    ensures
        supporting(versions, engine) == Seq::<VersionView>::empty(),
    decreases versions.len(),
{
    if versions.len() > 0 {
        let head = versions.drop_last();
        assert forall|j: int| 0 <= j < head.len() implies !(
        #[trigger] head[j]).engine_versions.contains(engine) by {
            assert(head[j] == versions[j]);
        }
        assert(!versions[versions.len() - 1].engine_versions.contains(engine));
        lemma_supporting_none(head, engine);
    }
}

proof fn lemma_supporting_one(versions: Seq<VersionView>, engine: Seq<char>, i: int)
    requires
        0 <= i < versions.len(),
        versions[i].engine_versions.contains(engine),
        forall|j: int|
            0 <= j < versions.len() && j != i ==> !(
            #[trigger] versions[j]).engine_versions.contains(engine),
    ensures
        supporting(versions, engine) == seq![versions[i]],
    decreases versions.len(),
{
    let head = versions.drop_last();
    assert forall|j: int| 0 <= j < head.len() && j != i implies !(
    #[trigger] head[j]).engine_versions.contains(engine) by {
        assert(head[j] == versions[j]);
    }
    if i == versions.len() - 1 {
        lemma_supporting_none(head, engine);
        assert(supporting(versions, engine) =~= seq![versions[i]]);
    } else {
        assert(head[i] == versions[i]);
        assert(!versions[versions.len() - 1].engine_versions.contains(engine));
        lemma_supporting_one(head, engine, i);
    }
}

proof fn lemma_supporting_some(versions: Seq<VersionView>, engine: Seq<char>, i: int)
    requires
        0 <= i < versions.len(),
        versions[i].engine_versions.contains(engine),
    ensures
        supporting(versions, engine).len() >= 1,
    decreases versions.len(),
{
    if i < versions.len() - 1 {
        assert(versions.drop_last()[i] == versions[i]);
        lemma_supporting_some(versions.drop_last(), engine, i);
    }
}

proof fn lemma_supporting_two(versions: Seq<VersionView>, engine: Seq<char>, i: int, j: int)
    requires
        0 <= i < j < versions.len(),
        versions[i].engine_versions.contains(engine),
        versions[j].engine_versions.contains(engine),
    ensures
        supporting(versions, engine).len() >= 2,
    decreases versions.len(),
{
    let head = versions.drop_last();
    assert(head[i] == versions[i]);
    if j == versions.len() - 1 {
        lemma_supporting_some(head, engine, i);
    } else {
        assert(head[j] == versions[j]);
        lemma_supporting_two(head, engine, i, j);
    }
}

/// Where an engine is asked for, version `i` is taken if and only if it is the
/// only one for that engine; and the error where none or several are names the
/// listing and every version.
pub proof fn versions_are_taken_by_engine(
    versions: Seq<VersionView>,
    uid: Seq<char>,
    engine: Seq<char>,
    i: int,
    j: int,
)
    requires
        0 <= i < versions.len(),
        0 <= j < versions.len(),
    ensures
        versions[i].engine_versions.contains(engine) && (forall|k: int|
            0 <= k < versions.len() && k != i ==> !(
            #[trigger] versions[k]).engine_versions.contains(engine)) ==> select_version_spec(
            versions,
            uid,
            Some(engine),
        ) == Ok::<VersionView, ErrorView>(versions[i]),
        i < j && versions[i].engine_versions.contains(engine)
            && versions[j].engine_versions.contains(engine) ==> select_version_spec(
            versions,
            uid,
            Some(engine),
        ) is Err,
        (forall|k: int|
            0 <= k < versions.len() ==> !(#[trigger] versions[k]).engine_versions.contains(
                engine,
            )) ==> select_version_spec(versions, uid, Some(engine)) is Err,
        select_version_spec(versions, uid, Some(engine)) matches Err(e) ==> names_the_versions(
            e,
            uid,
            versions,
        ),
{
    if versions[i].engine_versions.contains(engine) && (forall|k: int|
        0 <= k < versions.len() && k != i ==> !(#[trigger] versions[k]).engine_versions.contains(
            engine,
        )) {
        lemma_supporting_one(versions, engine, i);
    }
    if i < j && versions[i].engine_versions.contains(engine)
        && versions[j].engine_versions.contains(engine) {
        lemma_supporting_two(versions, engine, i, j);
    }
    if forall|k: int|
        0 <= k < versions.len() ==> !(#[trigger] versions[k]).engine_versions.contains(engine) {
        lemma_supporting_none(versions, engine);
    }
}

/// Where no engine is asked for, the only version is taken, and of none or
/// several none is.
pub proof fn a_single_version_needs_no_engine(versions: Seq<VersionView>, uid: Seq<char>)
    ensures
        versions.len() == 1 ==> select_version_spec(versions, uid, None) == Ok::<
            VersionView,
            ErrorView,
        >(versions[0]),
        versions.len() != 1 ==> select_version_spec(versions, uid, None) is Err,
        select_version_spec(versions, uid, None) matches Err(e) ==> names_the_versions(
            e,
            uid,
            versions,
        ),
{
}

/// An entry is the listing's where one of its attributes is named
/// ListingIdentifier and has the uid for a value, or where its address is that
/// of the listing's page; and nowhere else.
pub proof fn entries_are_found_by_attribute_or_page(entry: FabAsset, uid: Seq<char>)
    ensures
        matches_uid_spec(entry, uid) <==> (exists|i: int, j: int|
            0 <= i < entry.custom_attributes@.len() && 0 <= j
                < entry.custom_attributes@[i]@.len()
                && #[trigger] entry.custom_attributes@[i]@[j].0@ == "ListingIdentifier"@
                && entry.custom_attributes@[i]@[j].1@ == uid) || (entry.url@
            == "https://www.fab.com/listings/"@ + uid && uid.len() > 0 && free_of(uid, '/')),
{
    let page = "https://www.fab.com/listings/"@;
    crate::text::stripped_prefixes_go_back(entry.url@, page);
    crate::text::prefixes_come_off(page, uid);
}

proof fn lemma_entry_at(results: Seq<FabAsset>, uid: Seq<char>, i: int)
    requires
        0 <= i < results.len(),
        matches_uid_spec(results[i], uid),
        forall|j: int| 0 <= j < i ==> !matches_uid_spec(#[trigger] results[j], uid),
    ensures
        first_entry(results, uid) == Some(results[i]),
    decreases results.len(),
{
    if i > 0 {
        let rest = results.skip(1);
        assert(!matches_uid_spec(results[0], uid));
        assert forall|j: int| 0 <= j < i - 1 implies !matches_uid_spec(
            #[trigger] rest[j],
            uid,
        ) by {
            assert(rest[j] == results[j + 1]);
        }
        assert(rest[i - 1] == results[i]);
        lemma_entry_at(rest, uid, i - 1);
    }
}

/// A download takes its asset and its namespace from the first entry of the
/// library that is the listing's, and artifact and platform from one version of
/// that entry, which is for the engine that was asked for.
pub proof fn downloads_are_of_the_first_entry(
    uid: Seq<char>,
    engine: Option<Seq<char>>,
    platform: Option<Seq<char>>,
    results: Seq<FabAsset>,
    i: int,
)
    requires
        0 <= i < results.len(),
        matches_uid_spec(results[i], uid),
        forall|j: int| 0 <= j < i ==> !matches_uid_spec(#[trigger] results[j], uid),
    ensures
        resolve_spec(uid, engine, platform, results) matches Ok(c) ==> {
            &&& c.asset_id == results[i].asset_id@
            &&& c.namespace == results[i].asset_namespace@
            &&& exists|k: int|
                0 <= k < results[i].project_versions@.len() && is_of_version(
                    c,
                    (#[trigger] results[i].project_versions@[k])@,
                    engine,
                    platform,
                )
        },
        resolve_spec(uid, engine, platform, results) is Ok <==> (select_version_spec(
            versions_view(results[i].project_versions@),
            uid,
            engine,
        ) matches Ok(v) && select_platform_spec(
            v.target_platforms,
            versions_view(results[i].project_versions@),
            uid,
            platform,
        ) is Ok),
        resolve_spec(uid, engine, platform, results) matches Err(e) ==> names_the_versions(
            e,
            uid,
            versions_view(results[i].project_versions@),
        ),
{
    lemma_entry_at(results, uid, i);
    let versions = versions_view(results[i].project_versions@);
    match select_version_spec(versions, uid, engine) {
        Ok(v) => {
            chosen_version_is_unique(versions, uid, engine);
            match engine {
                Some(eng) => {
                    lemma_supporting_members(versions, eng);
                    assert(seq![v][0] == v);
                    assert(supporting(versions, eng).contains(v));
                },
                None => {
                    assert(seq![v][0] == v);
                },
            }
            assert(versions.contains(v));
            let k = choose|k: int| 0 <= k < versions.len() && versions[k] == v;
            assert(results[i].project_versions@[k]@ == v);
            platforms_are_taken_as_asked(v.target_platforms, versions, uid, platform);
        },
        Err(e) => {},
    }
}

proof fn lemma_supporting_members(versions: Seq<VersionView>, engine: Seq<char>)
    ensures
        forall|v: VersionView| #[trigger]
            supporting(versions, engine).contains(v) ==> versions.contains(v)
                && v.engine_versions.contains(engine),
    decreases versions.len(),
{
    if versions.len() > 0 {
        let head = versions.drop_last();
        let before = supporting(head, engine);
        lemma_supporting_members(head, engine);
        assert forall|v: VersionView| #[trigger]
            supporting(versions, engine).contains(v) implies versions.contains(v)
            && v.engine_versions.contains(engine) by {
            let all = supporting(versions, engine);
            let k = choose|k: int| 0 <= k < all.len() && all[k] == v;
            if k < before.len() {
                assert(before[k] == v);
                assert(before.contains(v));
                let h = choose|h: int| 0 <= h < head.len() && head[h] == v;
                assert(versions[h] == v);
            } else {
                assert(versions[versions.len() - 1] == v);
            }
        }
    }
}

/// Artifact and platform of `c` are those of the version `v`: it is for the
/// engine that was asked for; of no platforms none is taken, of one that one,
/// and of several the one that was asked for.
pub open spec fn is_of_version(
    c: CoordsView,
    v: VersionView,
    engine: Option<Seq<char>>,
    platform: Option<Seq<char>>,
) -> bool {
    &&& c.artifact_id == v.artifact_id
    &&& engine matches Some(e) ==> v.engine_versions.contains(e)
    &&& v.target_platforms.len() == 0 ==> c.platform is None
    &&& v.target_platforms.len() == 1 ==> c.platform == Some(v.target_platforms[0])
    &&& v.target_platforms.len() > 1 ==> c.platform is Some && c.platform == platform
        && v.target_platforms.contains(c.platform->0)
}

/// A listing that no entry of the library is of is not owned, and the error
/// says so of it.
pub proof fn missing_listings_are_not_owned(
    uid: Seq<char>,
    engine: Option<Seq<char>>,
    platform: Option<Seq<char>>,
    results: Seq<FabAsset>,
)
    requires
        forall|j: int| 0 <= j < results.len() ==> !matches_uid_spec(#[trigger] results[j], uid),
    ensures
        resolve_spec(uid, engine, platform, results) matches Err(
            ErrorView::NotOwned { uid: named, .. },
        ) && named == uid,
    decreases results.len(),
{
    if results.len() > 0 {
        let rest = results.skip(1);
        assert(!matches_uid_spec(results[0], uid));
        assert forall|j: int| 0 <= j < rest.len() implies !matches_uid_spec(
            #[trigger] rest[j],
            uid,
        ) by {
            assert(rest[j] == results[j + 1]);
        }
        missing_listings_are_not_owned(uid, engine, platform, rest);
        assert(first_entry(results, uid) == first_entry(rest, uid));
    }
}

/// Coordinates given by the caller are taken as they are, and only where all
/// three are given.
pub proof fn given_coordinates_are_kept(args: DownloadArgs)
    ensures
        explicit_coords_spec(args) is Some <==> args.artifact_id is Some && args.namespace is Some
            && args.asset_id is Some,
        explicit_coords_spec(args) matches Some(c) ==> {
            &&& opt_text(args.artifact_id) == Some(c.artifact_id)
            &&& opt_text(args.namespace) == Some(c.namespace)
            &&& opt_text(args.asset_id) == Some(c.asset_id)
            &&& opt_text(args.platform) == c.platform
        },
{
}

/// The engines that an error lists are all those of all versions, each once and
/// in order.
pub proof fn engines_are_listed_once(versions: Seq<VersionView>, engine: Seq<char>)
    ensures
        sorted_unique_spec(all_engines(versions)).contains(engine) <==> exists|i: int|
            0 <= i < versions.len() && (#[trigger] versions[i]).engine_versions.contains(engine),
        crate::text::strictly_ordered(sorted_unique_spec(all_engines(versions))),
{
    lemma_all_engines(versions, engine);
    crate::text::sorted_lists_hold_everything_once(all_engines(versions), engine);
}

proof fn lemma_all_engines(versions: Seq<VersionView>, engine: Seq<char>)
    ensures
        all_engines(versions).contains(engine) <==> exists|i: int|
            0 <= i < versions.len() && (#[trigger] versions[i]).engine_versions.contains(engine),
    decreases versions.len(),
{
    if versions.len() > 0 {
        let head = versions.drop_last();
        let a = all_engines(head);
        let b = versions.last().engine_versions;
        lemma_all_engines(head, engine);
        if (a + b).contains(engine) {
            let k = choose|k: int| 0 <= k < (a + b).len() && (a + b)[k] == engine;
            if k < a.len() {
                assert(a[k] == engine);
                let i = choose|i: int|
                    0 <= i < head.len() && (#[trigger] head[i]).engine_versions.contains(engine);
                assert(versions[i] == head[i]);
            } else {
                assert(b[k - a.len()] == engine);
                assert(versions[versions.len() - 1].engine_versions.contains(engine));
            }
        }
        if exists|i: int|
            0 <= i < versions.len() && (#[trigger] versions[i]).engine_versions.contains(engine) {
            let i = choose|i: int|
                0 <= i < versions.len() && (#[trigger] versions[i]).engine_versions.contains(
                    engine,
                );
            if i < head.len() {
                assert(head[i] == versions[i]);
                let k = choose|k: int| 0 <= k < a.len() && a[k] == engine;
                assert((a + b)[k] == engine);
            } else {
                let k = choose|k: int| 0 <= k < b.len() && b[k] == engine;
                assert((a + b)[a.len() + k] == engine);
            }
        }
    }
}

/// What an error about a choice says: which engine or platform was asked for,
/// what there is instead, or how many there are; and of a listing that is not
/// owned, which.
pub proof fn errors_say_what_was_asked(
    versions: Seq<VersionView>,
    uid: Seq<char>,
    engine: Seq<char>,
    platforms: Seq<Seq<char>>,
    platform: Seq<char>,
)
    ensures
        versions.len() > 0 ==> (select_version_spec(versions, uid, Some(engine)) matches Err(e)
            ==> crate::text::contains_spec(crate::error::message_spec(e), engine)),
        versions.len() > 1 ==> (select_version_spec(versions, uid, None) matches Err(e)
            ==> crate::text::contains_spec(
            crate::error::message_spec(e),
            decimal_spec(versions.len()),
        )),
        select_platform_spec(platforms, versions, uid, Some(platform)) matches Err(e)
            ==> crate::text::contains_spec(crate::error::message_spec(e), platform)
            && crate::text::contains_spec(
            crate::error::message_spec(e),
            join_spec(platforms, ", "@),
        ),
        select_platform_spec(platforms, versions, uid, None) matches Err(e)
            ==> crate::text::contains_spec(
            crate::error::message_spec(e),
            decimal_spec(platforms.len()),
        ),
        crate::text::contains_spec(crate::error::message_spec(not_owned_error(uid)), uid),
{
    let none = Seq::<char>::empty();
    let found = supporting(versions, engine);
    let t1 = " matches none of the listing's project versions; available: "@;
    let t2 = " matches "@;
    let t3 = " project versions; refine with --platform or pick a more specific engine"@;
    let s1 = t1 + engines_summary_spec(versions);
    let s2 = t2 + decimal_spec(found.len()) + t3;
    crate::text::parts_are_found("--engine "@, engine, s1, none);
    crate::text::parts_are_found("--engine "@, engine, s2, none);
    assert("--engine "@ + engine + t1 + engines_summary_spec(versions) =~= "--engine "@ + engine
        + s1);
    assert("--engine "@ + engine + t2 + decimal_spec(found.len()) + t3 =~= "--engine "@ + engine
        + s2);
    crate::text::parts_are_found(
        "listing has "@,
        decimal_spec(versions.len()),
        " project versions; specify --engine"@,
        none,
    );
    let joined = join_spec(platforms, ", "@);
    let t4 = " not available for the selected version; available: "@;
    crate::text::parts_are_found("--platform "@, platform, t4 + joined, none);
    assert("--platform "@ + platform + t4 + joined =~= "--platform "@ + platform + (t4 + joined));
    crate::text::parts_are_found("--platform "@ + platform + t4, joined, none, none);
    assert("--platform "@ + platform + t4 + joined + none =~= "--platform "@ + platform + t4
        + joined);
    crate::text::parts_are_found(
        "selected version supports "@,
        decimal_spec(platforms.len()),
        " platforms; specify --platform"@,
        none,
    );
    let t5 = " is not in your library; run `fabcli claim "@;
    let t6 = "` if it's free, or purchase it on Fab"@;
    crate::text::parts_are_found("listing "@, uid, t5 + uid + t6, none);
    assert("listing "@ + uid + t5 + uid + t6 =~= "listing "@ + uid + (t5 + uid + t6));
}

} // verus!

//! The course of a download: what is fetched, looked at and written, in which
//! order, and that the scratch directory goes again however it ends.
use crate::download;
use crate::download::{
    all_guids, announcement_spec, check_space_spec, jobs_result, jobs_spec, jobs_view,
    manifest_url_spec, no_files_error, ChunkJob, FileManifest, JobView, OverwriteMode,
};
use crate::error::{ErrorView, FabCliError};
use crate::text::{opt_text, sorted_unique_spec};
use vstd::prelude::*;

verus! {

/// What a manifest says.
#[derive(Debug)]
pub struct Manifest {
    pub files: Vec<FileManifest>,
    /// The pairs of chunk and SHA-1.
    pub shas: Vec<(String, String)>,
    /// The size of everything that is fetched.
    pub total_size: u64,
}

/// How far a download has come.
#[derive(Debug)]
pub struct DownloadProgress {
    pub mode: OverwriteMode,
    /// The manifest URLs of each answer on the asset.
    pub infos: Option<Vec<Vec<String>>>,
    pub manifest: Option<Manifest>,
    /// The output directory, made and resolved.
    pub output_dir: Option<String>,
    /// Every file has a place in the output directory.
    pub planned: bool,
    /// Nothing stands in the way.
    pub checked: bool,
    /// The free space, where it could be measured.
    pub space: Option<Option<u64>>,
    /// The scratch directory is there.
    pub scratch: bool,
    /// Whether all chunks were fetched.
    pub fetched: Option<bool>,
    /// Whether all files were made.
    pub made: Option<bool>,
    /// The scratch directory is gone again.
    pub cleaned: bool,
}

/// What a download does next.
#[derive(Debug)]
pub enum DownloadAction {
    /// Ask where the asset's manifests are.
    FetchInfos,
    /// Fetch the manifest.
    FetchManifest { url: String },
    /// Make the output directory and resolve its path.
    OpenOutput,
    /// Find each file's place in the output directory.
    PlanTargets,
    /// Look at what stands in the output directory.
    Preflight,
    /// Measure the free space.
    MeasureSpace,
    /// Say what is coming, and make the scratch directory.
    Begin { note: Option<String>, line: String },
    /// Fetch the chunks.
    FetchChunks { jobs: Vec<ChunkJob> },
    /// Make the files of the chunks.
    MakeFiles,
    /// Remove the scratch directory.
    CleanUp,
    /// All is written: report it.
    Report,
    /// Give up with the error that fetching or writing met.
    GiveUp,
    Fail(FabCliError),
}

/// The mathematical value of a [`DownloadAction`].
#[verifier::ext_equal]
pub enum DownloadActionView {
    FetchInfos,
    FetchManifest { url: Seq<char> },
    OpenOutput,
    PlanTargets,
    Preflight,
    MeasureSpace,
    Begin { note: Option<Seq<char>>, line: Seq<char> },
    FetchChunks { jobs: Seq<JobView> },
    MakeFiles,
    CleanUp,
    Report,
    GiveUp,
    Fail(ErrorView),
}

impl View for DownloadAction {
    type V = DownloadActionView;

    open spec fn view(&self) -> DownloadActionView {
        match self {
            DownloadAction::FetchInfos => DownloadActionView::FetchInfos,
            DownloadAction::FetchManifest { url } => DownloadActionView::FetchManifest {
                url: url@,
            },
            DownloadAction::OpenOutput => DownloadActionView::OpenOutput,
            DownloadAction::PlanTargets => DownloadActionView::PlanTargets,
            DownloadAction::Preflight => DownloadActionView::Preflight,
            DownloadAction::MeasureSpace => DownloadActionView::MeasureSpace,
            DownloadAction::Begin { note, line } => DownloadActionView::Begin {
                note: opt_text(*note),
                line: line@,
            },
            DownloadAction::FetchChunks { jobs } => DownloadActionView::FetchChunks {
                jobs: jobs_view(jobs@),
            },
            DownloadAction::MakeFiles => DownloadActionView::MakeFiles,
            DownloadAction::CleanUp => DownloadActionView::CleanUp,
            DownloadAction::Report => DownloadActionView::Report,
            DownloadAction::GiveUp => DownloadActionView::GiveUp,
            DownloadAction::Fail(e) => DownloadActionView::Fail(e@),
        }
    }
}

/// What a download does once the scratch directory is there. However it ends,
/// the scratch directory is removed first.
pub open spec fn scratch_next_spec(p: DownloadProgress, m: Manifest) -> DownloadActionView {
    match p.fetched {
        None => match jobs_spec(m.files@, m.shas@, sorted_unique_spec(all_guids(m.files@))) {
            Ok(jobs) => DownloadActionView::FetchChunks { jobs },
            Err(e) => if p.cleaned {
                DownloadActionView::Fail(e)
            } else {
                DownloadActionView::CleanUp
            },
        },
        Some(false) => if p.cleaned {
            DownloadActionView::GiveUp
        } else {
            DownloadActionView::CleanUp
        },
        Some(true) => match p.made {
            None => DownloadActionView::MakeFiles,
            Some(all) => if !p.cleaned {
                DownloadActionView::CleanUp
            } else if all {
                DownloadActionView::Report
            } else {
                DownloadActionView::GiveUp
            },
        },
    }
}

/// What a download does with the output directory `dir`.
pub open spec fn output_next_spec(
    p: DownloadProgress,
    m: Manifest,
    dir: Seq<char>,
) -> DownloadActionView {
    if !p.planned {
        DownloadActionView::PlanTargets
    } else if p.mode != OverwriteMode::Force && !p.checked {
        DownloadActionView::Preflight
    } else {
        match p.space {
            None => DownloadActionView::MeasureSpace,
            Some(free) => match check_space_spec(m.total_size as nat, free, dir) {
                Err(e) => DownloadActionView::Fail(e),
                Ok(note) => if p.scratch {
                    scratch_next_spec(p, m)
                } else {
                    DownloadActionView::Begin {
                        note,
                        line: announcement_spec(
                            m.files@.len(),
                            sorted_unique_spec(all_guids(m.files@)).len(),
                            m.total_size as nat,
                        ),
                    }
                },
            },
        }
    }
}

/// What a download does next.
pub open spec fn download_next_spec(p: DownloadProgress) -> DownloadActionView {
    match p.infos {
        None => DownloadActionView::FetchInfos,
        Some(infos) => match manifest_url_spec(infos@) {
            Err(e) => DownloadActionView::Fail(e),
            Ok(url) => match p.manifest {
                None => DownloadActionView::FetchManifest { url },
                Some(m) => if m.files@.len() == 0 {
                    DownloadActionView::Fail(no_files_error())
                } else {
                    match p.output_dir {
                        None => DownloadActionView::OpenOutput,
                        Some(dir) => output_next_spec(p, m, dir@),
                    }
                },
            },
        },
    }
}

fn scratch_next(p: &DownloadProgress, m: &Manifest) -> (r: DownloadAction)
    ensures
        r@ == scratch_next_spec(*p, *m),
{
    match p.fetched {
        None => {
            let planned = download::plan_chunks(&m.files, &m.shas);
            assert(jobs_result(planned) == jobs_spec(
                m.files@,
                m.shas@,
                sorted_unique_spec(all_guids(m.files@)),
            ));
            match planned {
                Ok(jobs) => DownloadAction::FetchChunks { jobs },
                Err(e) => {
                    if p.cleaned {
                        DownloadAction::Fail(e)
                    } else {
                        DownloadAction::CleanUp
                    }
                },
            }
        },
        Some(false) => {
            if p.cleaned {
                DownloadAction::GiveUp
            } else {
                DownloadAction::CleanUp
            }
        },
        Some(true) => match p.made {
            None => DownloadAction::MakeFiles,
            Some(all) => {
                if !p.cleaned {
                    DownloadAction::CleanUp
                } else if all {
                    DownloadAction::Report
                } else {
                    DownloadAction::GiveUp
                }
            },
        },
    }
}

fn output_next(p: &DownloadProgress, m: &Manifest, dir: &str) -> (r: DownloadAction)
    requires
        2 * m.total_size <= u64::MAX,
    ensures
        r@ == output_next_spec(*p, *m, dir@),
{
    if !p.planned {
        return DownloadAction::PlanTargets;
    }
    let forced = matches!(p.mode, OverwriteMode::Force);
    if !forced && !p.checked {
        return DownloadAction::Preflight;
    }
    match p.space {
        None => DownloadAction::MeasureSpace,
        Some(free) => {
            let room = download::check_space(m.total_size, free, dir);
            assert(download::note_view(room) == check_space_spec(m.total_size as nat, free, dir@));
            match room {
                Err(e) => DownloadAction::Fail(e),
                Ok(note) => {
                    if p.scratch {
                        return scratch_next(p, m);
                    }
                    let chunks = download::needed_chunks(&m.files);
                    let line = download::announcement(m.files.len(), chunks.len(), m.total_size);
                    DownloadAction::Begin { note, line }
                },
            }
        },
    }
}

/// What a download does next: it reads the manifest, finds each file its place,
/// looks at what stands in the way and at the free space, and only then fetches
/// chunks and makes files of them. Where anything fails once the scratch
/// directory is there, that directory is removed before the download gives up.
pub fn download_next(p: &DownloadProgress) -> (r: DownloadAction)
    requires
        p.manifest matches Some(m) ==> 2 * m.total_size <= u64::MAX,
    ensures
        r@ == download_next_spec(*p),
{
    match &p.infos {
        None => DownloadAction::FetchInfos,
        Some(infos) => {
            let point = download::manifest_url(infos);
            assert(download::text_result(point) == manifest_url_spec(infos@));
            match point {
                Err(e) => DownloadAction::Fail(e),
                Ok(url) => match &p.manifest {
                    None => DownloadAction::FetchManifest { url },
                    Some(m) => match download::check_files(&m.files) {
                        Err(e) => DownloadAction::Fail(e),
                        Ok(_) => match &p.output_dir {
                            None => DownloadAction::OpenOutput,
                            Some(dir) => output_next(p, m, dir.as_str()),
                        },
                    },
                },
            }
        },
    }
}

/// No chunk is fetched, and no scratch directory made, before every file has its
/// place in the output directory, what stands there was looked at (or is to be
/// overwritten), and the free space suffices as far as it is known.
pub proof fn nothing_is_fetched_unchecked(p: DownloadProgress)
    requires
        download_next_spec(p) is Begin || download_next_spec(p) is FetchChunks,
    ensures
        p.planned,
        p.mode == OverwriteMode::Force || p.checked,
        p.space matches Some(free) && (free matches Some(n) ==> n >= 2 * p.manifest->0.total_size),
{
}

/// A download that made its scratch directory ends only once that directory is
/// gone.
pub proof fn scratch_is_always_removed(p: DownloadProgress, m: Manifest)
    requires
        scratch_next_spec(p, m) is Report || scratch_next_spec(p, m) is GiveUp
            || scratch_next_spec(p, m) is Fail,
    ensures
        p.cleaned,
{
}

/// A download reports success only where all chunks were fetched and all files
/// made.
pub proof fn reports_follow_complete_downloads(p: DownloadProgress)
    requires
        download_next_spec(p) is Report,
    ensures
        p.fetched == Some(true),
        p.made == Some(true),
        p.cleaned,
{
}

/// The course of a download: the infos are fetched, then the manifest from the
/// address they give, then the output is opened; then the targets are planned,
/// the output is checked unless it may be overwritten, and the space is measured;
/// then scratch is made, the chunks are fetched, the files are made from them,
/// and scratch is removed; and then it is reported. Each step is taken only once
/// those before it are done.
pub proof fn downloads_take_their_course(p: DownloadProgress)
    ensures
        download_next_spec(p) is FetchInfos <==> p.infos is None,
        download_next_spec(p) is FetchManifest <==> (p.infos matches Some(infos) && infos@.len() > 0
            && infos@[0]@.len() > 0) && p.manifest is None,
        download_next_spec(p) matches DownloadActionView::FetchManifest { url } ==> url
            == p.infos->0@[0]@[0]@,
        download_next_spec(p) is OpenOutput <==> is_described(p) && p.output_dir is None,
        download_next_spec(p) is PlanTargets <==> is_described(p) && p.output_dir is Some
            && !p.planned,
        download_next_spec(p) is Preflight <==> is_described(p) && p.output_dir is Some && p.planned
            && !p.checked && p.mode != OverwriteMode::Force,
        download_next_spec(p) is MeasureSpace <==> is_placed(p) && p.space is None,
        download_next_spec(p) is Begin <==> is_placed(p) && has_space(p) && !p.scratch,
        download_next_spec(p) is MakeFiles <==> is_placed(p) && has_space(p) && p.scratch
            && p.fetched == Some(true) && p.made is None,
        download_next_spec(p) is Report <==> is_placed(p) && has_space(p) && p.scratch && p.fetched
            == Some(true) && p.made == Some(true) && p.cleaned,
        download_next_spec(p) is GiveUp <==> is_placed(p) && has_space(p) && p.scratch && p.cleaned
            && (p.fetched == Some(false) || (p.fetched == Some(true) && p.made == Some(false))),
        download_next_spec(p) is FetchChunks ==> is_placed(p) && has_space(p) && p.scratch
            && p.fetched is None,
        download_next_spec(p) is CleanUp ==> is_placed(p) && has_space(p) && p.scratch
            && !p.cleaned,
        is_placed(p) && p.space is Some && !has_space(p) ==> download_next_spec(p) is Fail,
{
}

/// The manifest is there, and describes a file at least.
pub open spec fn is_described(p: DownloadProgress) -> bool {
    (p.infos matches Some(infos) && infos@.len() > 0 && infos@[0]@.len() > 0) && (
    p.manifest matches Some(m) && m.files@.len() > 0)
}

/// The targets are planned, and the output is checked or may be overwritten.
pub open spec fn is_placed(p: DownloadProgress) -> bool {
    is_described(p) && p.output_dir is Some && p.planned && (p.checked || p.mode
        == OverwriteMode::Force)
}

/// The space is measured, and where it is known twice the size is free.
pub open spec fn has_space(p: DownloadProgress) -> bool {
    p.space matches Some(space) && (space matches Some(free) ==> (p.manifest matches Some(m)
        && free >= m.total_size + m.total_size))
}

/// The chunks that are fetched are those of the manifest's parts, each once: for
/// each part there is a job for its chunk.
pub proof fn every_chunk_is_fetched(p: DownloadProgress, m: Manifest, f: int, k: int)
    requires
        p.manifest == Some(m),
        download_next_spec(p) is FetchChunks,
        0 <= f < m.files@.len(),
        0 <= k < m.files@[f].parts@.len(),
    ensures
        download_next_spec(p) matches DownloadActionView::FetchChunks { jobs } && exists|i: int|
            0 <= i < jobs.len() && fetches(#[trigger] jobs[i], m, m.files@[f].parts@[k].guid@),
{
    let guid = m.files@[f].parts@[k].guid@;
    let all = all_guids(m.files@);
    let guids = sorted_unique_spec(all);
    crate::download::every_part_has_its_chunk(m.files@, guid);
    crate::text::sorted_lists_hold_everything_once(all, guid);
    let i = choose|i: int| 0 <= i < guids.len() && guids[i] == guid;
    assert forall|j: int| 0 <= j < guids.len() implies crate::download::link_in_files(
        m.files@,
        #[trigger] guids[j],
    ) is Some by {
        if crate::download::link_in_files(m.files@, guids[j]) is None {
            lemma_first_unlinked(m, guids, j);
        }
    }
    crate::download::jobs_fetch_their_chunks(m.files@, m.shas@, guids, i);
    let jobs = jobs_spec(m.files@, m.shas@, guids)->Ok_0;
    assert(download_next_spec(p) == (DownloadActionView::FetchChunks { jobs }));
    assert(fetches(jobs[i], m, guid));
    if let DownloadActionView::FetchChunks { jobs: fetched } = download_next_spec(p) {
        assert(fetched == jobs);
        assert(fetches(fetched[i], m, guid));
        assert(exists|n: int| 0 <= n < fetched.len() && fetches(#[trigger] fetched[n], m, guid));
    }
}

/// `job` fetches the chunk `guid` from its link in the manifest, to hold it
/// against the manifest's hash for it, into a file named after it.
pub open spec fn fetches(job: JobView, m: Manifest, guid: Seq<char>) -> bool {
    &&& job.guid == guid
    &&& Some(job.url) == crate::download::link_in_files(m.files@, guid)
    &&& job.expected_sha == crate::text::lookup_spec(m.shas@, guid)
    &&& job.file_name == guid + ".chunk"@
}

proof fn lemma_first_unlinked(m: Manifest, guids: Seq<Seq<char>>, j: int)
    requires
        0 <= j < guids.len(),
        crate::download::link_in_files(m.files@, guids[j]) is None,
    ensures
        jobs_spec(m.files@, m.shas@, guids) is Err,
    decreases j,
{
    if exists|n: int|
        0 <= n < j && crate::download::link_in_files(m.files@, #[trigger] guids[n]) is None {
        let n = choose|n: int|
            0 <= n < j && crate::download::link_in_files(m.files@, #[trigger] guids[n]) is None;
        lemma_first_unlinked(m, guids, n);
    } else {
        crate::download::chunks_without_link_are_named(m.files@, m.shas@, guids, j);
    }
}

} // verus!

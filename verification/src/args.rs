//! What a caller can ask for on the command line.
use crate::download::OverwriteMode;
use crate::error::{ErrorView, FabCliError};
use crate::text;
use crate::text::{opt_text, split_spec, texts, trim_spec};
use vstd::prelude::*;

verus! {

/// The command line.
#[derive(Debug)]
pub struct Cli {
    /// Indent JSON output.
    pub pretty: bool,
    pub command: Command,
}

/// A command.
#[derive(Debug)]
#[allow(inconsistent_fields)]
pub enum Command {
    /// Log in and out, and report on the session.
    Auth { command: AuthCommand },
    /// Search the marketplace.
    Search(SearchArgs),
    /// List what the account owns.
    Library(LibraryArgs),
    /// Show one listing.
    Listing { uid: Option<String>, stdin: bool },
    /// Show the formats of a listing.
    Formats { uid: Option<String>, stdin: bool, format: Option<String> },
    /// Show the prices of a listing or of offers.
    Prices { uid: Option<String>, offer_ids: Option<String> },
    /// Say whether listings are owned.
    Ownership(OwnershipArgs),
    /// Claim one free listing.
    Claim { uid: Option<String>, stdin: bool },
    /// Claim many free listings.
    ClaimBatch(ClaimBatchArgs),
    /// Show the reviews of a listing.
    Reviews { uid: Option<String>, stdin: bool, sort_by: Option<String>, cursor: Option<String> },
    /// Show a download manifest.
    Manifest {
        artifact_id: String,
        namespace: String,
        asset_id: String,
        platform: Option<String>,
    },
    /// Manage the assistant skill.
    Skill { command: SkillCommand },
    /// Update the program.
    Update(UpdateArgs),
    /// Run as the browser daemon.
    Daemon(DaemonArgs),
    /// Send one request through the browser session.
    Probe { method: String, path: String, body: Option<String> },
    /// Download an asset.
    Download(DownloadArgs),
}

/// A command on the session.
#[derive(Debug)]
pub enum AuthCommand {
    /// Log in; `manual` asks for a pasted code in place of the web view.
    Login { manual: bool },
    Logout,
    Status,
    Whoami,
}

/// A search.
#[derive(Debug)]
pub struct SearchArgs {
    pub query: Option<String>,
    pub sort: Option<String>,
    pub count: Option<u32>,
    pub cursor: Option<String>,
    pub filter: Vec<(String, String)>,
    /// Say of each row whether it is owned.
    pub with_ownership: bool,
}

/// A listing of the library.
#[derive(Debug)]
pub struct LibraryArgs {
    pub count: Option<u32>,
    /// Use the cache for this call.
    pub cache: bool,
    /// Neither read nor write the cache.
    pub no_cache: bool,
    /// Fetch, and overwrite the cache.
    pub refresh: bool,
    /// Delete the cache and do nothing else.
    pub clear: bool,
}

/// A question on ownership, of one listing or of many.
#[derive(Debug)]
pub struct OwnershipArgs {
    pub uid: Option<String>,
    pub stdin: bool,
    pub batch: Option<String>,
    pub from_stdin: bool,
    pub from_library: bool,
}

/// A claim of many listings.
#[derive(Debug)]
pub struct ClaimBatchArgs {
    pub uids: Option<String>,
    pub stdin: bool,
    pub from_stdin_json: bool,
    pub from_library: bool,
}

/// A download, of a listing or by its coordinates.
#[derive(Debug)]
pub struct DownloadArgs {
    pub uid: Option<String>,
    pub uid_flag: Option<String>,
    pub stdin: bool,
    pub artifact_id: Option<String>,
    pub namespace: Option<String>,
    pub asset_id: Option<String>,
    pub engine: Option<String>,
    pub output: String,
    pub platform: Option<String>,
    pub jobs: usize,
    pub force: bool,
    pub into_empty: bool,
}

/// How the browser daemon runs.
#[derive(Debug)]
pub struct DaemonArgs {
    pub pipe: String,
    pub user_data_dir: String,
    pub idle_timeout_secs: u64,
}

/// A command on the assistant skill.
#[derive(Debug)]
pub enum SkillCommand {
    Install(InstallArgs),
    Update(InstallArgs),
    Uninstall(UninstallArgs),
    Status(StatusArgs),
    Path(ResolverArgs),
}

/// Whose skills directory.
#[derive(Debug, Clone, Copy, PartialEq, Eq, Structural)]
pub enum Scope {
    /// The user's.
    User,
    /// That of the current directory.
    Project,
}

impl Default for Scope {
    fn default() -> (r: Scope)
        ensures
            r == Scope::User,
    {
        Scope::User
    }
}

/// Where the skill is.
#[derive(Debug)]
pub struct ResolverArgs {
    pub scope: Scope,
    pub path: Option<String>,
}

/// An installation of the skill.
#[derive(Debug)]
pub struct InstallArgs {
    pub resolver: ResolverArgs,
    pub source: String,
    pub force: bool,
}

/// A removal of the skill.
#[derive(Debug)]
pub struct UninstallArgs {
    pub resolver: ResolverArgs,
    pub force: bool,
}

/// A report on the skill.
#[derive(Debug)]
pub struct StatusArgs {
    pub resolver: ResolverArgs,
    pub remote: bool,
}

/// An update of the program.
#[derive(Debug)]
pub struct UpdateArgs {
    pub check: bool,
    pub to: Option<String>,
    pub force: bool,
    pub allow_unverified: bool,
}

impl DownloadArgs {
    /// How the download treats what stands in the output directory.
    pub fn overwrite_mode(&self) -> (r: OverwriteMode)
        ensures
            r == overwrite_spec(self.force, self.into_empty),
    {
        if self.force {
            OverwriteMode::Force
        } else if self.into_empty {
            OverwriteMode::IntoEmpty
        } else {
            OverwriteMode::Default
        }
    }
}

/// A text or an error, by its value.
pub open spec fn id_view(r: Result<String, FabCliError>) -> Result<Seq<char>, ErrorView> {
    match r {
        Ok(s) => Ok(s@),
        Err(e) => Err(e@),
    }
}

/// The identifier that a command works on: the argument, or the line read
/// where the caller asked for that.
pub open spec fn id_spec(id: Option<Seq<char>>, use_stdin: bool, line: Seq<char>) -> Result<
    Seq<char>,
    ErrorView,
> {
    match id {
        Some(i) => Ok(i),
        None => if use_stdin {
            if trim_spec(line).len() == 0 {
                Err(ErrorView::InvalidArgs("empty ID from stdin"@))
            } else {
                Ok(trim_spec(line))
            }
        } else {
            Err(ErrorView::InvalidArgs("provide an ID as an argument or use --stdin"@))
        },
    }
}

/// Whether a line has to be read before [`read_id_or_stdin`] can say which
/// identifier a command works on.
pub fn wants_line(id: &Option<String>, use_stdin: bool) -> (r: bool)
    ensures
        r == (id is None && use_stdin),
{
    match id {
        Some(_) => false,
        None => use_stdin,
    }
}

/// The identifier that a command works on. `line` is the line read from
/// standard input, where one was wanted.
pub fn read_id_or_stdin(id: Option<String>, use_stdin: bool, line: &str) -> (r: Result<
    String,
    FabCliError,
>)
    ensures
        id_view(r) == id_spec(opt_text(id), use_stdin, line@),
{
    match id {
        Some(i) => Ok(i),
        None => {
            if use_stdin {
                let trimmed = text::trim(line);
                if trimmed.as_str().is_empty() {
                    return Err(FabCliError::InvalidArgs("empty ID from stdin".to_owned()));
                }
                return Ok(trimmed);
            }
            Err(
                FabCliError::InvalidArgs(
                    "provide an ID as an argument or use --stdin".to_owned(),
                ),
            )
        },
    }
}

/// The listing that a download is asked for.
pub open spec fn download_uid_spec(args: DownloadArgs, line: Seq<char>) -> Result<
    Option<Seq<char>>,
    ErrorView,
> {
    if args.uid is Some {
        Ok(opt_text(args.uid))
    } else if args.uid_flag is Some {
        Ok(opt_text(args.uid_flag))
    } else if args.stdin {
        if trim_spec(line).len() == 0 {
            Err(ErrorView::InvalidArgs("empty UID from stdin"@))
        } else {
            Ok(Some(trim_spec(line)))
        }
    } else {
        Ok(None)
    }
}

/// A text that may be there, or an error, by its value.
pub open spec fn opt_id_view(r: Result<Option<String>, FabCliError>) -> Result<
    Option<Seq<char>>,
    ErrorView,
> {
    match r {
        Ok(s) => Ok(opt_text(s)),
        Err(e) => Err(e@),
    }
}

/// The listing that a download is asked for; `None` where it is asked for by
/// its coordinates. `line` is the line read from standard input, where one was
/// wanted.
pub fn read_download_uid(args: &DownloadArgs, line: &str) -> (r: Result<
    Option<String>,
    FabCliError,
>)
    ensures
        opt_id_view(r) == download_uid_spec(*args, line@),
{
    if let Some(uid) = &args.uid {
        return Ok(Some(uid.clone()));
    }
    if let Some(uid) = &args.uid_flag {
        return Ok(Some(uid.clone()));
    }
    if args.stdin {
        let trimmed = text::trim(line);
        if trimmed.as_str().is_empty() {
            return Err(FabCliError::InvalidArgs("empty UID from stdin".to_owned()));
        }
        return Ok(Some(trimmed));
    }
    Ok(None)
}

/// The offer identifiers between the commas of `s`, without the white space
/// around them.
pub fn parse_offer_ids(s: &str) -> (r: Vec<String>)
    ensures
        texts(r@) == split_spec(s@, ',').map_values(|p: Seq<char>| trim_spec(p)),
{
    let pieces = text::split(s, ',');
    let mut out: Vec<String> = Vec::new();
    let mut i: usize = 0;
    let ghost whole = texts(pieces@).map_values(|p: Seq<char>| trim_spec(p));
    while i < pieces.len()
        invariant
            i <= pieces@.len(),
            whole == texts(pieces@).map_values(|p: Seq<char>| trim_spec(p)),
            texts(out@) == whole.take(i as int),
        decreases pieces.len() - i,
    {
        let piece = text::trim(pieces[i].as_str());
        proof {
            text::lemma_texts_push(out@, piece);
            assert(whole.take(i + 1) =~= whole.take(i as int).push(piece@));
        }
        out.push(piece);
        i = i + 1;
    }
    assert(whole.take(pieces@.len() as int) =~= whole);
    out
}

/// What prices are asked for.
#[derive(Debug)]
pub enum PriceQuery {
    /// Those of offers.
    Offers(Vec<String>),
    /// Those of a listing.
    Listing(String),
}

/// The mathematical value of a [`PriceQuery`].
#[verifier::ext_equal]
pub enum PriceQueryView {
    Offers(Seq<Seq<char>>),
    Listing(Seq<char>),
}

/// A question for prices or an error, by its value.
pub open spec fn price_query_view(r: Result<PriceQuery, FabCliError>) -> Result<
    PriceQueryView,
    ErrorView,
> {
    match r {
        Ok(PriceQuery::Offers(ids)) => Ok(PriceQueryView::Offers(texts(ids@))),
        Ok(PriceQuery::Listing(uid)) => Ok(PriceQueryView::Listing(uid@)),
        Err(e) => Err(e@),
    }
}

/// What prices are asked for: those of the offers where there are any, else
/// those of the listing.
pub fn price_query(uid: Option<String>, offer_ids: Option<String>) -> (r: Result<
    PriceQuery,
    FabCliError,
>)
    ensures
        price_query_view(r) == price_query_spec(opt_text(uid), opt_text(offer_ids)),
{
    if let Some(ids) = offer_ids {
        return Ok(PriceQuery::Offers(parse_offer_ids(ids.as_str())));
    }
    match uid {
        Some(u) => Ok(PriceQuery::Listing(u)),
        None => Err(
            FabCliError::InvalidArgs("provide a listing UID or --offer-ids".to_owned()),
        ),
    }
}

// ---------------------------------------------------------------------------
// What the arguments mean
// ---------------------------------------------------------------------------

/// What is done with what is in the way, by the two flags.
pub open spec fn overwrite_spec(force: bool, into_empty: bool) -> OverwriteMode {
    if force {
        OverwriteMode::Force
    } else if into_empty {
        OverwriteMode::IntoEmpty
    } else {
        OverwriteMode::Default
    }
}

/// Only the flag to force lets a download overwrite, and it has precedence over
/// that for an empty directory.
pub proof fn only_force_overwrites(force: bool, into_empty: bool)
    ensures
        overwrite_spec(force, into_empty) == OverwriteMode::Force <==> force,
        overwrite_spec(force, into_empty) == OverwriteMode::IntoEmpty <==> into_empty && !force,
        overwrite_spec(force, into_empty) == OverwriteMode::Default <==> !force && !into_empty,
{
}

/// What prices are asked for: those of the offers that are given, else those of
/// the listing.
pub open spec fn price_query_spec(
    uid: Option<Seq<char>>,
    offer_ids: Option<Seq<char>>,
) -> Result<PriceQueryView, ErrorView> {
    match offer_ids {
        Some(ids) => Ok(
            PriceQueryView::Offers(split_spec(ids, ',').map_values(|p: Seq<char>| trim_spec(p))),
        ),
        None => match uid {
            Some(u) => Ok(PriceQueryView::Listing(u)),
            None => Err(ErrorView::InvalidArgs("provide a listing UID or --offer-ids"@)),
        },
    }
}

/// Offers have precedence over a listing, and stand between commas, each without
/// the white space around it; with neither nothing can be asked for.
pub proof fn prices_of_offers_come_first(
    uid: Option<Seq<char>>,
    u: Seq<char>,
    ids: Seq<char>,
    i: int,
)
    requires
        0 <= i < split_spec(ids, ',').len(),
    ensures
        price_query_spec(uid, Some(ids)) matches Ok(PriceQueryView::Offers(offers)) && offers.len()
            == split_spec(ids, ',').len() && offers[i] == trim_spec(split_spec(ids, ',')[i]),
        price_query_spec(Some(u), None) == Ok::<PriceQueryView, ErrorView>(
            PriceQueryView::Listing(u),
        ),
        price_query_spec(None, None) matches Err(ErrorView::InvalidArgs(_)),
{
}

/// An id that is given is taken as it is; else, where that is asked for, the
/// line from standard input without the white space around it. An empty line,
/// and no id at all, are refused.
pub proof fn given_ids_come_first(id: Seq<char>, line: Seq<char>, use_stdin: bool)
    ensures
        id_spec(Some(id), use_stdin, line) == Ok::<Seq<char>, ErrorView>(id),
        id_spec(None, true, line) is Ok <==> trim_spec(line).len() > 0,
        trim_spec(line).len() > 0 ==> id_spec(None, true, line) == Ok::<Seq<char>, ErrorView>(
            trim_spec(line),
        ),
        id_spec(None, false, line) is Err,
        id_spec(None, use_stdin, line) matches Err(e) ==> e is InvalidArgs,
{
}

/// A download's uid is the argument, else the flag, else the line from standard
/// input where that is asked for; without any there is none.
pub proof fn uids_have_precedence(args: DownloadArgs, line: Seq<char>)
    ensures
        args.uid matches Some(u) ==> download_uid_spec(args, line) == Ok::<
            Option<Seq<char>>,
            ErrorView,
        >(Some(u@)),
        args.uid is None ==> (args.uid_flag matches Some(u) ==> download_uid_spec(args, line)
            == Ok::<Option<Seq<char>>, ErrorView>(Some(u@))),
        args.uid is None && args.uid_flag is None && !args.stdin ==> download_uid_spec(args, line)
            == Ok::<Option<Seq<char>>, ErrorView>(None),
        args.uid is None && args.uid_flag is None && args.stdin && trim_spec(line).len() > 0
            ==> download_uid_spec(args, line) == Ok::<Option<Seq<char>>, ErrorView>(
            Some(trim_spec(line)),
        ),
        download_uid_spec(args, line) is Err <==> args.uid is None && args.uid_flag is None
            && args.stdin && trim_spec(line).len() == 0,
{
}

} // verus!

//! The assistant skill: where it is, where it comes from, and what installing,
//! removing and reporting on it decide.
use crate::args::{ResolverArgs, Scope};
use crate::error::{ErrorView, FabCliError};
use crate::json::{str_view, Json, JsonView};
use crate::paths;
use crate::paths::{is_relative, placed};
use crate::text;
use crate::text::{debug_text, lines_spec, opt_str, opt_text, strip_prefix_spec, texts, trim_spec};
use vstd::prelude::*;

verus! {

/// Where the skill is fetched from.
pub const DEFAULT_REMOTE_URL: &'static str =
    "https://raw.githubusercontent.com/zirklerite/fabcli-skills/master/skills/fabcli/SKILL.md";

/// Where the skill is fetched from: what the environment says, where it says
/// anything.
pub fn remote_url(env: Option<&str>) -> (r: String)
    ensures
        r@ == remote_url_spec(opt_str(env)),
{
    match env {
        Some(url) => {
            if !url.is_empty() {
                return url.to_owned();
            }
        },
        None => {},
    }
    DEFAULT_REMOTE_URL.to_owned()
}

/// `first` and then `second` behind `base`.
pub open spec fn placed_twice(
    base: Seq<char>,
    first: Seq<char>,
    second: Seq<char>,
    r: Seq<char>,
) -> bool {
    exists|mid: Seq<char>| #[trigger] placed(base, first, mid) && placed(mid, second, r)
}

/// What decides the skills directory: the directory that the caller named,
/// else that of the environment, else the scope.
pub enum DirChoice {
    Given(Seq<char>),
    Project,
    User,
}

/// What decides the skills directory.
pub open spec fn dir_choice(
    path: Option<Seq<char>>,
    env: Option<Seq<char>>,
    scope: Scope,
) -> DirChoice {
    match path {
        Some(p) => DirChoice::Given(p),
        None => match env {
            Some(dir) if dir.len() > 0 => DirChoice::Given(dir),
            _ => match scope {
                Scope::Project => DirChoice::Project,
                Scope::User => DirChoice::User,
            },
        },
    }
}

/// The directory in which the skill is put. `env` is what the environment
/// names, `cwd` the current directory or the error of asking for it, `home` the
/// user's home directory, and `assistant_dir` the name of the directory that the
/// assistant keeps there.
pub fn resolve_skill_dir(
    resolver: &ResolverArgs,
    env: Option<&str>,
    cwd: Result<&str, &str>,
    home: Option<&str>,
    assistant_dir: &str,
) -> (r: Result<String, FabCliError>)
    ensures
        match dir_choice(opt_text(resolver.path), opt_str(env), resolver.scope) {
            DirChoice::Given(dir) => r matches Ok(d) && d@ == dir,
            DirChoice::Project => match cwd {
                Ok(base) => r matches Ok(d) && (is_relative(assistant_dir@) ==> placed_twice(
                    base@,
                    assistant_dir@,
                    "skills"@,
                    d@,
                )),
                Err(e) => r matches Err(x) && x@ == ErrorView::Generic(
                    "could not resolve cwd: "@ + e@,
                ),
            },
            DirChoice::User => match home {
                Some(base) => r matches Ok(d) && (is_relative(assistant_dir@) ==> placed_twice(
                    base@,
                    assistant_dir@,
                    "skills"@,
                    d@,
                )),
                None => r matches Err(x) && x@ == ErrorView::Generic(
                    "could not resolve user home directory"@,
                ),
            },
        },
{
    if let Some(p) = &resolver.path {
        return Ok(p.clone());
    }
    if let Some(dir) = env {
        if !dir.is_empty() {
            return Ok(dir.to_owned());
        }
    }
    let base = match resolver.scope {
        Scope::Project => match cwd {
            Ok(base) => base,
            Err(e) => {
                let mut m = "could not resolve cwd: ".to_owned();
                m.append(e);
                return Err(FabCliError::Generic(m));
            },
        },
        Scope::User => match home {
            Some(base) => base,
            None => {
                return Err(
                    FabCliError::Generic("could not resolve user home directory".to_owned()),
                );
            },
        },
    };
    proof {
        reveal_strlit("skills");
        assert("skills"@.len() == 6);
        assert("skills"@[0] == 's' && "skills"@[1] == 'k' && "skills"@[2] == 'i' && "skills"@[3]
            == 'l' && "skills"@[4] == 'l' && "skills"@[5] == 's');
    }
    let mid = paths::join(base, assistant_dir);
    Ok(paths::join(mid.as_str(), "skills"))
}

/// The file that the skill is, in the skills directory `dir`.
pub fn resolve_skill_file(dir: &str) -> (r: String)
    ensures
        placed_twice(dir@, "fabcli"@, "SKILL.md"@, r@),
{
    proof {
        reveal_strlit("fabcli");
        reveal_strlit("SKILL.md");
        assert("fabcli"@.len() == 6 && "SKILL.md"@.len() == 8);
        assert("fabcli"@[0] == 'f' && "fabcli"@[1] == 'a' && "fabcli"@[2] == 'b' && "fabcli"@[3]
            == 'c' && "fabcli"@[4] == 'l' && "fabcli"@[5] == 'i');
        assert("SKILL.md"@[0] == 'S' && "SKILL.md"@[1] == 'K' && "SKILL.md"@[2] == 'I'
            && "SKILL.md"@[3] == 'L' && "SKILL.md"@[4] == 'L' && "SKILL.md"@[5] == '.'
            && "SKILL.md"@[6] == 'm' && "SKILL.md"@[7] == 'd');
    }
    let mid = paths::join(dir, "fabcli");
    paths::join(mid.as_str(), "SKILL.md")
}

/// Where the content of the skill comes from.
#[derive(Debug)]
pub enum Source {
    Github,
    Path(String),
}

/// The mathematical value of a [`Source`].
pub enum SkillSourceView {
    Github,
    Path(Seq<char>),
}

impl View for Source {
    type V = SkillSourceView;

    open spec fn view(&self) -> SkillSourceView {
        match self {
            Source::Github => SkillSourceView::Github,
            Source::Path(p) => SkillSourceView::Path(p@),
        }
    }
}

/// A source or an error, by its value.
pub open spec fn skill_source_view(r: Result<Source, FabCliError>) -> Result<
    SkillSourceView,
    ErrorView,
> {
    match r {
        Ok(s) => Ok(s@),
        Err(e) => Err(e@),
    }
}

/// Reads where the content comes from: `github`, or `path=` and a file.
pub fn parse_source(s: &str) -> (r: Result<Source, FabCliError>)
    ensures
        skill_source_view(r) == source_spec(s@),
{
    if text::same(s, "github") {
        return Ok(Source::Github);
    }
    match text::strip_prefix(s, "path=") {
        Some(rest) => Ok(Source::Path(rest)),
        None => {
            let mut m = "unknown --source '".to_owned();
            m.append(s);
            m.append("'; expected 'github' or 'path=<file>'");
            Err(FabCliError::InvalidArgs(m))
        },
    }
}

/// The value of the first of `lines` that begins with `prefix`, before a line
/// of three dashes.
pub open spec fn field_in_lines(lines: Seq<Seq<char>>, prefix: Seq<char>) -> Option<Seq<char>>
    decreases lines.len(),
{
    if lines.len() == 0 {
        None
    } else if lines[0] == "---"@ {
        None
    } else {
        match strip_prefix_spec(lines[0], prefix) {
            Some(rest) => Some(trim_spec(rest)),
            None => field_in_lines(lines.skip(1), prefix),
        }
    }
}

/// The value of `field` in the front matter of `content`: of the lines behind
/// a first line of three dashes, up to the next such line, the first that
/// begins with the field's name and a colon.
pub open spec fn frontmatter_spec(content: Seq<char>, field: Seq<char>) -> Option<Seq<char>> {
    let lines = lines_spec(content);
    if lines.len() == 0 || lines[0] != "---"@ {
        None
    } else {
        field_in_lines(lines.skip(1), field + ":"@)
    }
}

/// The value of `field` in the front matter of `content`.
pub fn parse_frontmatter_field(content: &str, field: &str) -> (r: Option<String>)
    ensures
        opt_text(r) == frontmatter_spec(content@, field@),
{
    let lines = text::lines(content);
    let ghost all = texts(lines@);
    if lines.len() == 0 || !text::same(lines[0].as_str(), "---") {
        return None;
    }
    let mut prefix = field.to_owned();
    prefix.append(":");
    let mut i: usize = 1;
    assert(all.len() == lines@.len());
    while i < lines.len()
        invariant
            1 <= i <= lines@.len(),
            all == texts(lines@),
            frontmatter_spec(content@, field@) == field_in_lines(all.skip(1), prefix@),
            field_in_lines(all.skip(1), prefix@) == field_in_lines(all.skip(i as int), prefix@),
        decreases lines.len() - i,
    {
        assert(all.skip(i as int)[0] == lines@[i as int]@);
        if text::same(lines[i].as_str(), "---") {
            return None;
        }
        match text::strip_prefix(lines[i].as_str(), prefix.as_str()) {
            Some(rest) => {
                return Some(text::trim(rest.as_str()));
            },
            None => {},
        }
        assert(all.skip(i as int).skip(1) =~= all.skip(i + 1));
        i = i + 1;
    }
    None
}

/// The front matter of `content` is closed: behind the first line a further
/// line of three dashes stands.
pub open spec fn is_closed(content: Seq<char>) -> bool {
    exists|i: int|
        1 <= i < lines_spec(content).len() && #[trigger] lines_spec(content)[i] == "---"@
}

/// The version in the front matter of `content`: none where the front matter is
/// missing, names no version, or is not closed.
pub open spec fn version_spec(content: Seq<char>) -> Option<Seq<char>> {
    if is_closed(content) {
        frontmatter_spec(content, "version"@)
    } else {
        None
    }
}

fn closes(content: &str) -> (r: bool)
    ensures
        r == is_closed(content@),
{
    let lines = text::lines(content);
    let ghost all = texts(lines@);
    let mut i: usize = 1;
    while i < lines.len()
        invariant
            1 <= i,
            all == texts(lines@),
            all == lines_spec(content@),
            forall|j: int| 1 <= j < i && j < all.len() ==> all[j] != "---"@,
        decreases lines.len() - i,
    {
        if text::same(lines[i].as_str(), "---") {
            assert(lines_spec(content@)[i as int] == "---"@);
            return true;
        }
        i = i + 1;
    }
    false
}

/// The version in the front matter of `content`.
pub fn parse_version(content: &str) -> (r: Option<String>)
    ensures
        opt_text(r) == version_spec(content@),
{
    if !closes(content) {
        return None;
    }
    parse_frontmatter_field(content, "version")
}

/// The value of a text that may be there; null where it is not.
pub open spec fn version_json(v: Option<Seq<char>>) -> JsonView {
    match v {
        Some(t) => str_view(t),
        None => JsonView::Null,
    }
}

fn opt_to_json(v: Option<String>) -> (r: Json)
    ensures
        r@ == version_json(opt_text(v)),
{
    match v {
        Some(t) => Json::Str(t),
        None => Json::Null,
    }
}

/// What an installation does.
#[derive(Debug)]
pub enum InstallDecision {
    /// The content is there already: report only.
    Unchanged(Json),
    /// Write the content and report; `note` is said on standard error.
    Write { report: Json, note: Option<String> },
    /// Other content is there, and it may not be overwritten.
    Refuse(FabCliError),
}

/// The mathematical value of an [`InstallDecision`].
#[verifier::ext_equal]
pub enum InstallView {
    Unchanged(JsonView),
    Write { report: JsonView, note: Option<Seq<char>> },
    Refuse(ErrorView),
}

impl View for InstallDecision {
    type V = InstallView;

    open spec fn view(&self) -> InstallView {
        match self {
            InstallDecision::Unchanged(j) => InstallView::Unchanged(j@),
            InstallDecision::Write { report, note } => InstallView::Write {
                report: report@,
                note: opt_text(*note),
            },
            InstallDecision::Refuse(e) => InstallView::Refuse(e@),
        }
    }
}

/// The line that names two different versions.
pub open spec fn version_note(
    is_update: bool,
    existing: Option<Seq<char>>,
    new_content: Seq<char>,
) -> Option<Seq<char>> {
    let old_version = match existing {
        Some(c) => version_spec(c),
        None => None,
    };
    match (is_update, old_version, version_spec(new_content)) {
        (true, Some(before), Some(after)) => if before != after {
            Some(before + " → "@ + after)
        } else {
            None
        },
        _ => None,
    }
}

/// What an installation of `new_content` at `target` does, where `existing` is
/// what stands there.
pub open spec fn install_spec(
    target: Seq<char>,
    new_content: Seq<char>,
    existing: Option<Seq<char>>,
    force: bool,
    is_update: bool,
) -> InstallView {
    let version = version_json(version_spec(new_content));
    if existing == Some(new_content) {
        InstallView::Unchanged(
            JsonView::Object(
                map![
                    "installed"@ => JsonView::Bool(false),
                    "unchanged"@ => JsonView::Bool(true),
                    "path"@ => str_view(target),
                    "version"@ => version,
                ],
            ),
        )
    } else if existing is Some && !(force || is_update) {
        InstallView::Refuse(
            ErrorView::InvalidArgs(
                "target "@ + target
                    + " already exists with different content; pass --force (or use `update`) to overwrite"@,
            ),
        )
    } else {
        InstallView::Write {
            report: JsonView::Object(
                map![
                    "installed"@ => JsonView::Bool(true),
                    "path"@ => str_view(target),
                    "version"@ => version,
                ],
            ),
            note: version_note(is_update, existing, new_content),
        }
    }
}

/// What an installation of `new_content` at `target` does. `existing` is what
/// stands there. Different content is overwritten only where the caller forces
/// it or updates.
pub fn install(
    target: &str,
    new_content: &str,
    existing: Option<&str>,
    force: bool,
    is_update: bool,
) -> (r: InstallDecision)
    ensures
        r@ == install_spec(target@, new_content@, opt_str(existing), force, is_update),
{
    let new_version = parse_version(new_content);
    if let Some(prev) = existing {
        if text::same(prev, new_content) {
            return InstallDecision::Unchanged(
                Json::object().with("installed", Json::Bool(false)).with(
                    "unchanged",
                    Json::Bool(true),
                ).with("path", Json::text(target)).with("version", opt_to_json(new_version)),
            );
        }
        if !(force || is_update) {
            let mut m = "target ".to_owned();
            m.append(target);
            m.append(
                " already exists with different content; pass --force (or use `update`) to overwrite",
            );
            return InstallDecision::Refuse(FabCliError::InvalidArgs(m));
        }
    }
    let mut note: Option<String> = None;
    if is_update {
        let old_version = match existing {
            Some(prev) => parse_version(prev),
            None => None,
        };
        match (&old_version, &new_version) {
            (Some(before), Some(after)) => {
                if !text::same(before.as_str(), after.as_str()) {
                    let mut line = before.clone();
                    line.append(" → ");
                    line.append(after.as_str());
                    note = Some(line);
                }
            },
            _ => {},
        }
    }
    InstallDecision::Write {
        report: Json::object().with("installed", Json::Bool(true)).with(
            "path",
            Json::text(target),
        ).with("version", opt_to_json(new_version)),
        note,
    }
}

/// Without force and without an update, an installation never overwrites other
/// content.
pub proof fn install_keeps_other_content(
    target: Seq<char>,
    new_content: Seq<char>,
    existing: Seq<char>,
)
    requires
        existing != new_content,
    ensures
        install_spec(target, new_content, Some(existing), false, false) is Refuse,
{
}

/// An installation of what is there already writes nothing, forced or not.
pub proof fn install_is_idempotent(
    target: Seq<char>,
    content: Seq<char>,
    force: bool,
    is_update: bool,
)
    ensures
        install_spec(target, content, Some(content), force, is_update) is Unchanged,
{
}

/// What a removal does.
#[derive(Debug)]
pub enum UninstallDecision {
    /// Nothing is there: report only.
    NotPresent(Json),
    /// Remove the file and report.
    Remove(Json),
    /// What is there is not this skill.
    Refuse(FabCliError),
}

/// The mathematical value of an [`UninstallDecision`].
#[verifier::ext_equal]
pub enum UninstallView {
    NotPresent(JsonView),
    Remove(JsonView),
    Refuse(ErrorView),
}

impl View for UninstallDecision {
    type V = UninstallView;

    open spec fn view(&self) -> UninstallView {
        match self {
            UninstallDecision::NotPresent(j) => UninstallView::NotPresent(j@),
            UninstallDecision::Remove(j) => UninstallView::Remove(j@),
            UninstallDecision::Refuse(e) => UninstallView::Refuse(e@),
        }
    }
}

/// A text that may be there, as `{:?}` writes it.
pub open spec fn debug_opt(s: Option<Seq<char>>) -> Seq<char> {
    match s {
        Some(t) => "Some("@ + debug_text(t) + ")"@,
        None => "None"@,
    }
}

/// What a removal of the skill at `target` does, where `content` is what stands
/// there.
pub open spec fn uninstall_spec(
    target: Seq<char>,
    content: Option<Seq<char>>,
    force: bool,
) -> UninstallView {
    match content {
        None => UninstallView::NotPresent(
            JsonView::Object(
                map![
                    "uninstalled"@ => JsonView::Bool(false),
                    "path"@ => str_view(target),
                    "reason"@ => str_view("not_present"@),
                ],
            ),
        ),
        Some(c) => {
            let name = frontmatter_spec(c, "name"@);
            if !force && name != Some("fabcli"@) {
                UninstallView::Refuse(
                    ErrorView::InvalidArgs(
                        target + " does not look like a FabCLI skill (frontmatter `name:` is "@
                            + debug_opt(name) + "); pass --force to delete anyway"@,
                    ),
                )
            } else {
                UninstallView::Remove(
                    JsonView::Object(
                        map![
                            "uninstalled"@ => JsonView::Bool(true),
                            "path"@ => str_view(target),
                        ],
                    ),
                )
            }
        },
    }
}

/// What a removal of the skill at `target` does. `content` is what stands
/// there. Another file is removed only where the caller forces it.
pub fn uninstall(target: &str, content: Option<&str>, force: bool) -> (r: UninstallDecision)
    ensures
        r@ == uninstall_spec(target@, opt_str(content), force),
{
    match content {
        None => UninstallDecision::NotPresent(
            Json::object().with("uninstalled", Json::Bool(false)).with(
                "path",
                Json::text(target),
            ).with("reason", Json::text("not_present")),
        ),
        Some(c) => {
            if !force {
                let name = parse_frontmatter_field(c, "name");
                let is_ours = match &name {
                    Some(n) => text::same(n.as_str(), "fabcli"),
                    None => false,
                };
                if !is_ours {
                    let shown = match &name {
                        Some(n) => {
                            let mut s = "Some(".to_owned();
                            s.append(text::quoted(n.as_str()).as_str());
                            s.append(")");
                            s
                        },
                        None => "None".to_owned(),
                    };
                    let mut m = target.to_owned();
                    m.append(" does not look like a FabCLI skill (frontmatter `name:` is ");
                    m.append(shown.as_str());
                    m.append("); pass --force to delete anyway");
                    return UninstallDecision::Refuse(FabCliError::InvalidArgs(m));
                }
            }
            UninstallDecision::Remove(
                Json::object().with("uninstalled", Json::Bool(true)).with(
                    "path",
                    Json::text(target),
                ),
            )
        },
    }
}

/// Without force, a file is removed only where it says of itself that it is this
/// program's skill.
pub proof fn other_files_are_not_removed(target: Seq<char>, content: Seq<char>)
    ensures
        uninstall_spec(target, Some(content), false) is Remove <==> frontmatter_spec(
            content,
            "name"@,
        ) == Some("fabcli"@),
{
}

/// The version in content that may be there.
pub open spec fn version_of(content: Option<Seq<char>>) -> Option<Seq<char>> {
    match content {
        Some(c) => version_spec(c),
        None => None,
    }
}

/// The report on the skill. `remote` is where the published skill is and what
/// it holds, where the caller asked for it.
pub open spec fn status_spec(
    target: Seq<char>,
    installed: Option<Seq<char>>,
    remote: Option<(Seq<char>, Seq<char>)>,
) -> JsonView {
    let base = map![
        "installed"@ => JsonView::Object(
            map![
                "path"@ => str_view(target),
                "present"@ => JsonView::Bool(installed is Some),
                "version"@ => version_json(version_of(installed)),
            ],
        ),
    ];
    match remote {
        None => JsonView::Object(base),
        Some((url, content)) => JsonView::Object(
            base.insert(
                "remote"@,
                JsonView::Object(
                    map![
                        "url"@ => str_view(url),
                        "version"@ => version_json(version_of(Some(content))),
                    ],
                ),
            ).insert("matches_remote"@, JsonView::Bool(installed == Some(content))),
        ),
    }
}

/// A pair of texts that may be there, by its value.
pub open spec fn opt_text_pair(p: Option<(&str, &str)>) -> Option<(Seq<char>, Seq<char>)> {
    match p {
        Some((a, b)) => Some((a@, b@)),
        None => None,
    }
}

/// The report on the skill at `target`.
pub fn status(target: &str, installed: Option<&str>, remote: Option<(&str, &str)>) -> (r: Json)
    ensures
        r@ == status_spec(target@, opt_str(installed), opt_text_pair(remote)),
{
    let version = match installed {
        Some(c) => parse_version(c),
        None => None,
    };
    let base = Json::object().with(
        "installed",
        Json::object().with("path", Json::text(target)).with(
            "present",
            Json::Bool(installed.is_some()),
        ).with("version", opt_to_json(version)),
    );
    match remote {
        None => base,
        Some((url, content)) => {
            let matches_remote = match installed {
                Some(c) => text::same(c, content),
                None => false,
            };
            base.with(
                "remote",
                Json::object().with("url", Json::text(url)).with(
                    "version",
                    opt_to_json(parse_version(content)),
                ),
            ).with("matches_remote", Json::Bool(matches_remote))
        },
    }
}

/// The error for a skill repository that cannot be reached.
pub fn unreachable_error(url: &str, message: &str) -> (r: FabCliError)
    ensures
        r@ == ErrorView::Network(
            "skill repo unreachable at "@ + url@ + " ("@ + message@
                + "). Check your internet connection or set FABCLI_SKILLS_REMOTE_URL."@,
        ),
{
    let mut m = "skill repo unreachable at ".to_owned();
    m.append(url);
    m.append(" (");
    m.append(message);
    m.append("). Check your internet connection or set FABCLI_SKILLS_REMOTE_URL.");
    FabCliError::Network(m)
}

/// The error for a skill repository that does not answer with success.
pub fn remote_status_error(url: &str, status: &str) -> (r: FabCliError)
    ensures
        r@ == ErrorView::Network("skill repo at "@ + url@ + " returned HTTP "@ + status@),
{
    let mut m = "skill repo at ".to_owned();
    m.append(url);
    m.append(" returned HTTP ");
    m.append(status);
    FabCliError::Network(m)
}

/// The error for an operation `what` on the file `path` that failed.
pub fn file_error(what: &str, path: &str, message: &str) -> (r: FabCliError)
    ensures
        r@ == ErrorView::Generic("failed to "@ + what@ + " "@ + path@ + ": "@ + message@),
{
    let mut m = "failed to ".to_owned();
    m.append(what);
    m.append(" ");
    m.append(path);
    m.append(": ");
    m.append(message);
    FabCliError::Generic(m)
}

// ---------------------------------------------------------------------------
// What the skill's files say
// ---------------------------------------------------------------------------

proof fn lemma_skill_keys()
    ensures
        "installed"@ != "unchanged"@,
        "installed"@ != "path"@,
        "installed"@ != "version"@,
        "installed"@ != "uninstalled"@,
        "installed"@ != "reason"@,
        "installed"@ != "present"@,
        "installed"@ != "url"@,
        "installed"@ != "remote"@,
        "installed"@ != "matches_remote"@,
        "unchanged"@ != "path"@,
        "unchanged"@ != "version"@,
        "unchanged"@ != "uninstalled"@,
        "unchanged"@ != "reason"@,
        "unchanged"@ != "present"@,
        "unchanged"@ != "url"@,
        "unchanged"@ != "remote"@,
        "unchanged"@ != "matches_remote"@,
        "path"@ != "version"@,
        "path"@ != "uninstalled"@,
        "path"@ != "reason"@,
        "path"@ != "present"@,
        "path"@ != "url"@,
        "path"@ != "remote"@,
        "path"@ != "matches_remote"@,
        "version"@ != "uninstalled"@,
        "version"@ != "reason"@,
        "version"@ != "present"@,
        "version"@ != "url"@,
        "version"@ != "remote"@,
        "version"@ != "matches_remote"@,
        "uninstalled"@ != "reason"@,
        "uninstalled"@ != "present"@,
        "uninstalled"@ != "url"@,
        "uninstalled"@ != "remote"@,
        "uninstalled"@ != "matches_remote"@,
        "reason"@ != "present"@,
        "reason"@ != "url"@,
        "reason"@ != "remote"@,
        "reason"@ != "matches_remote"@,
        "present"@ != "url"@,
        "present"@ != "remote"@,
        "present"@ != "matches_remote"@,
        "url"@ != "remote"@,
        "url"@ != "matches_remote"@,
        "remote"@ != "matches_remote"@,
{
    reveal_strlit("installed");
    reveal_strlit("unchanged");
    reveal_strlit("path");
    reveal_strlit("version");
    reveal_strlit("uninstalled");
    reveal_strlit("reason");
    reveal_strlit("present");
    reveal_strlit("url");
    reveal_strlit("remote");
    reveal_strlit("matches_remote");
    assert("installed"@.len() == 9);
    assert("unchanged"@.len() == 9);
    assert("path"@.len() == 4);
    assert("version"@.len() == 7);
    assert("uninstalled"@.len() == 11);
    assert("reason"@.len() == 6);
    assert("present"@.len() == 7);
    assert("url"@.len() == 3);
    assert("remote"@.len() == 6);
    assert("matches_remote"@.len() == 14);
    assert("installed"@[0] != "unchanged"@[0]);
    assert("version"@[0] != "present"@[0]);
    assert("reason"@[2] != "remote"@[2]);
}

/// Where the skill is published.
pub open spec fn remote_url_spec(env: Option<Seq<char>>) -> Seq<char> {
    match env {
        Some(url) => if url.len() > 0 {
            url
        } else {
            DEFAULT_REMOTE_URL@
        },
        None => DEFAULT_REMOTE_URL@,
    }
}

/// The environment can name another place, and an empty name counts for none.
pub proof fn the_environment_names_the_remote(url: Seq<char>)
    ensures
        url.len() > 0 ==> remote_url_spec(Some(url)) == url,
        url.len() == 0 ==> remote_url_spec(Some(url)) == remote_url_spec(None),
        remote_url_spec(None) == DEFAULT_REMOTE_URL@,
{
}

/// Where a skill is installed from.
pub open spec fn source_spec(s: Seq<char>) -> Result<SkillSourceView, ErrorView> {
    if s == "github"@ {
        Ok(SkillSourceView::Github)
    } else {
        match strip_prefix_spec(s, "path="@) {
            Some(rest) => Ok(SkillSourceView::Path(rest)),
            None => Err(
                ErrorView::InvalidArgs(
                    "unknown --source '"@ + s + "'; expected 'github' or 'path=<file>'"@,
                ),
            ),
        }
    }
}

/// A source is the repository or a path, written behind the word for it;
/// anything else is refused.
pub proof fn sources_are_repository_or_path(s: Seq<char>, path: Seq<char>)
    ensures
        source_spec("github"@) == Ok::<SkillSourceView, ErrorView>(SkillSourceView::Github),
        source_spec("path="@ + path) == Ok::<SkillSourceView, ErrorView>(
            SkillSourceView::Path(path),
        ),
        s != "github"@ && !text::starts_with_spec(s, "path="@) ==> source_spec(s) matches Err(
            ErrorView::InvalidArgs(_),
        ),
{
    text::prefixes_come_off("path="@, path);
    reveal_strlit("github");
    reveal_strlit("path=");
    assert(("path="@ + path)[0] == "path="@[0]);
    assert("github"@[0] != "path="@[0]);
    assert(("path="@ + path) != "github"@);
}

/// A directory that is given comes first, then that of the environment unless
/// it is empty, then the one of the scope.
pub proof fn given_directories_come_first(
    path: Seq<char>,
    env: Option<Seq<char>>,
    dir: Seq<char>,
    scope: Scope,
)
    ensures
        dir_choice(Some(path), env, scope) == DirChoice::Given(path),
        dir.len() > 0 ==> dir_choice(None, Some(dir), scope) == DirChoice::Given(dir),
        dir.len() == 0 ==> dir_choice(None, Some(dir), scope) == dir_choice(None, None, scope),
        dir_choice(None, None, Scope::Project) == DirChoice::Project,
        dir_choice(None, None, Scope::User) == DirChoice::User,
{
}

/// A field's value is what stands behind its name and colon, without white space
/// around it, in the first line that begins with them before a line of three
/// dashes.
pub proof fn fields_stand_behind_their_name(
    lines: Seq<Seq<char>>,
    prefix: Seq<char>,
    value: Seq<char>,
    k: int,
)
    requires
        0 <= k < lines.len(),
        lines[k] == prefix + value,
        lines[k] != "---"@,
        forall|j: int|
            0 <= j < k ==> #[trigger] lines[j] != "---"@ && !text::starts_with_spec(
                lines[j],
                prefix,
            ),
    ensures
        field_in_lines(lines, prefix) == Some(trim_spec(value)),
    decreases lines.len(),
{
    if k == 0 {
        text::prefixes_come_off(prefix, value);
    } else {
        let rest = lines.skip(1);
        assert(lines[0] != "---"@ && !text::starts_with_spec(lines[0], prefix));
        assert forall|j: int| 0 <= j < k - 1 implies #[trigger] rest[j] != "---"@
            && !text::starts_with_spec(rest[j], prefix) by {
            assert(rest[j] == lines[j + 1]);
        }
        assert(rest[k - 1] == lines[k]);
        fields_stand_behind_their_name(rest, prefix, value, k - 1);
    }
}

/// Without such a line before the closing dashes there is no value, whatever
/// follows them.
pub proof fn fields_end_at_the_dashes(lines: Seq<Seq<char>>, prefix: Seq<char>, k: int)
    requires
        0 <= k <= lines.len(),
        k < lines.len() ==> lines[k] == "---"@,
        forall|j: int|
            0 <= j < k ==> #[trigger] lines[j] != "---"@ && !text::starts_with_spec(
                lines[j],
                prefix,
            ),
    ensures
        field_in_lines(lines, prefix) is None,
    decreases lines.len(),
{
    if k > 0 {
        let rest = lines.skip(1);
        assert(lines[0] != "---"@ && !text::starts_with_spec(lines[0], prefix));
        assert forall|j: int| 0 <= j < k - 1 implies #[trigger] rest[j] != "---"@
            && !text::starts_with_spec(rest[j], prefix) by {
            assert(rest[j] == lines[j + 1]);
        }
        if k < lines.len() {
            assert(rest[k - 1] == lines[k]);
        }
        fields_end_at_the_dashes(rest, prefix, k - 1);
    }
}

/// Front matter begins with a first line of three dashes, and its fields stand
/// in the lines behind that; a version is only taken from one that is closed.
pub proof fn front_matter_begins_with_dashes(content: Seq<char>, field: Seq<char>)
    ensures
        lines_spec(content).len() == 0 ==> frontmatter_spec(content, field) is None,
        lines_spec(content).len() > 0 && lines_spec(content)[0] != "---"@ ==> frontmatter_spec(
            content,
            field,
        ) is None,
        lines_spec(content).len() > 0 && lines_spec(content)[0] == "---"@ ==> frontmatter_spec(
            content,
            field,
        ) == field_in_lines(lines_spec(content).skip(1), field + ":"@),
        version_spec(content) is Some ==> exists|i: int|
            1 <= i < lines_spec(content).len() && #[trigger] lines_spec(content)[i] == "---"@,
        (exists|i: int|
            1 <= i < lines_spec(content).len() && #[trigger] lines_spec(content)[i] == "---"@)
            ==> version_spec(content) == frontmatter_spec(content, "version"@),
{
}

/// An installation writes exactly where something else is there and may be
/// overwritten, or nothing is there; it refuses exactly where something else is
/// there and may not; and each report says so, with path and version.
pub proof fn installs_write_where_they_may(
    target: Seq<char>,
    new_content: Seq<char>,
    existing: Option<Seq<char>>,
    force: bool,
    is_update: bool,
)
    ensures
        install_spec(target, new_content, existing, force, is_update) is Unchanged <==> existing
            == Some(new_content),
        install_spec(target, new_content, existing, force, is_update) is Refuse <==> (existing
            matches Some(c) && c != new_content) && !force && !is_update,
        install_spec(target, new_content, existing, force, is_update) is Write <==> existing is None
            || ((existing matches Some(c) && c != new_content) && (force || is_update)),
        install_spec(target, new_content, existing, force, is_update) matches InstallView::Unchanged(
            report,
        ) ==> crate::json::get_spec(report, "installed"@) == Some(JsonView::Bool(false))
            && crate::json::get_spec(report, "unchanged"@) == Some(JsonView::Bool(true))
            && crate::json::get_spec(report, "path"@) == Some(JsonView::Str(target)),
        install_spec(target, new_content, existing, force, is_update) matches InstallView::Write {
            report,
            note,
        } ==> crate::json::get_spec(report, "installed"@) == Some(JsonView::Bool(true))
            && crate::json::get_spec(report, "path"@) == Some(JsonView::Str(target))
            && crate::json::get_spec(report, "version"@) == Some(
            match version_spec(new_content) {
                Some(v) => JsonView::Str(v),
                None => JsonView::Null,
            },
        ),
        install_spec(target, new_content, existing, force, is_update) matches InstallView::Refuse(e)
            ==> e is InvalidArgs,
{
    lemma_skill_keys();
}

/// An update notes the two versions where both are known and differ, the old one
/// first; nothing else is noted.
pub proof fn updates_note_both_versions(
    is_update: bool,
    existing: Option<Seq<char>>,
    new_content: Seq<char>,
    a: Seq<char>,
    b: Seq<char>,
)
    ensures
        !is_update ==> version_note(is_update, existing, new_content) is None,
        existing is None ==> version_note(is_update, existing, new_content) is None,
        existing matches Some(c) ==> {
            &&& is_update && version_spec(c) == Some(a) && version_spec(new_content) == Some(b) && a
                != b ==> version_note(is_update, existing, new_content) == Some(a + " → "@ + b)
            &&& version_spec(c) == version_spec(new_content) ==> version_note(
                is_update,
                existing,
                new_content,
            ) is None
        },
{
}

/// A removal removes what says that it is the skill, or what it is forced to;
/// it finds nothing where nothing is, and each report says so.
pub proof fn removals_are_of_the_skill(target: Seq<char>, content: Option<Seq<char>>, force: bool)
    ensures
        uninstall_spec(target, content, force) is NotPresent <==> content is None,
        uninstall_spec(target, content, force) is Remove <==> (content matches Some(c) && (force
            || frontmatter_spec(c, "name"@) == Some("fabcli"@))),
        uninstall_spec(target, content, force) matches UninstallView::NotPresent(report)
            ==> crate::json::get_spec(report, "uninstalled"@) == Some(JsonView::Bool(false))
            && crate::json::get_spec(report, "path"@) == Some(JsonView::Str(target))
            && crate::json::get_spec(report, "reason"@) == Some(JsonView::Str("not_present"@)),
        uninstall_spec(target, content, force) matches UninstallView::Remove(report)
            ==> crate::json::get_spec(report, "uninstalled"@) == Some(JsonView::Bool(true))
            && crate::json::get_spec(report, "path"@) == Some(JsonView::Str(target)),
{
    lemma_skill_keys();
}

/// The status says whether a skill is there, where, and of which version; and of
/// the published one, where it was asked for, whether it is the same.
pub proof fn status_compares_contents(
    target: Seq<char>,
    installed: Option<Seq<char>>,
    url: Seq<char>,
    content: Seq<char>,
)
    ensures
        crate::json::get_spec(status_spec(target, installed, None), "installed"@) matches Some(i)
            && crate::json::get_spec(i, "path"@) == Some(JsonView::Str(target))
            && crate::json::get_spec(i, "present"@) == Some(JsonView::Bool(installed is Some))
            && crate::json::get_spec(i, "version"@) == Some(
            match installed {
                Some(c) => match version_spec(c) {
                    Some(v) => JsonView::Str(v),
                    None => JsonView::Null,
                },
                None => JsonView::Null,
            },
        ),
        crate::json::get_spec(status_spec(target, installed, None), "remote"@) is None,
        crate::json::get_spec(status_spec(target, installed, Some((url, content))), "installed"@)
            == crate::json::get_spec(status_spec(target, installed, None), "installed"@),
        crate::json::get_spec(
            status_spec(target, installed, Some((url, content))),
            "matches_remote"@,
        ) == Some(JsonView::Bool(installed == Some(content))),
        crate::json::get_spec(status_spec(target, installed, Some((url, content))), "remote"@)
            matches Some(r) && crate::json::get_spec(r, "url"@) == Some(JsonView::Str(url))
            && crate::json::get_spec(r, "version"@) == Some(
            match version_spec(content) {
                Some(v) => JsonView::Str(v),
                None => JsonView::Null,
            },
        ),
{
    lemma_skill_keys();
}

} // verus!

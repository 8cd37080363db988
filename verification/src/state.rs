//! What the program remembers between calls.
use crate::config::{config_dir, is_directory_of, lemma_beside, lemma_own_names, lies_beside};
use crate::error::{ErrorView, FabCliError};
use crate::json;
use crate::json::{
    as_u64_spec, get_spec, get_str_spec, json_text, number_view, parse_view, parsed_json, str_view,
    Json, JsonView,
};
use crate::paths;
use crate::paths::{ends_in_a_name, is_portable, parent_spec, placed};
use vstd::prelude::*;

verus! {

/// What the last check for updates found.
#[derive(Debug, PartialEq)]
pub struct UpdateCheck {
    pub last_check_unix: u64,
    pub latest_version: String,
    pub running_version_at_check: String,
}

/// The directory of what is remembered, beside the session's file `token`.
pub fn state_dir(token: &str) -> (r: Result<String, FabCliError>)
    ensures
        is_portable(token@) ==> (r is Ok <==> parent_spec(token@)),
        ends_in_a_name(token@) ==> r is Ok,
        r matches Ok(path) ==> exists|dir: Seq<char>| #[trigger]
            is_directory_of(token@, dir) && placed(dir, "state"@, path@),
        r matches Ok(path) ==> lies_beside(token@, path@),
        r matches Err(e) ==> e@ == ErrorView::Generic("token path has no parent directory"@),
{
    match config_dir(token) {
        Ok(dir) => {
            proof {
                lemma_own_names();
            }
            let path = paths::join(dir.as_str(), "state");
            proof {
                assert(is_directory_of(token@, dir@));
                lemma_beside(token@, dir@, "state"@, path@);
            }
            Ok(path)
        },
        Err(e) => Err(e),
    }
}

/// The file of the last check for updates, in the directory `dir`.
pub fn update_check_path(dir: &str) -> (r: String)
    ensures
        placed(dir@, "update_check.json"@, r@),
{
    proof {
        lemma_own_names();
    }
    paths::join(dir, "update_check.json")
}

/// The mathematical value of an [`UpdateCheck`].
pub open spec fn check_view(c: Option<UpdateCheck>) -> Option<(u64, Seq<char>, Seq<char>)> {
    match c {
        Some(x) => Some((x.last_check_unix, x.latest_version@, x.running_version_at_check@)),
        None => None,
    }
}

/// The object that the check `c` is written as.
pub open spec fn check_json_spec(c: (u64, Seq<char>, Seq<char>)) -> JsonView {
    JsonView::Object(
        map![
            "last_check_unix"@ => number_view(c.0),
            "latest_version"@ => str_view(c.1),
            "running_version_at_check"@ => str_view(c.2),
        ],
    )
}

/// The check that the object `j` stands for, where it has all its fields.
pub open spec fn check_of_spec(j: JsonView) -> Option<(u64, Seq<char>, Seq<char>)> {
    match get_spec(j, "last_check_unix"@) {
        None => None,
        Some(at) => match (
            as_u64_spec(at),
            get_str_spec(j, "latest_version"@),
            get_str_spec(j, "running_version_at_check"@),
        ) {
            (Some(n), Some(latest), Some(running)) => Some((n, latest, running)),
            _ => None,
        },
    }
}

/// The check that the content of its file stands for; nothing where the content
/// is none.
pub open spec fn read_check_spec(content: Seq<char>) -> Option<(u64, Seq<char>, Seq<char>)> {
    match parsed_json(content) {
        Ok(j) => check_of_spec(j),
        Err(_) => None,
    }
}

/// The object that a check is written as stands for that check.
pub proof fn checks_read_back(c: (u64, Seq<char>, Seq<char>))
    ensures
        check_of_spec(check_json_spec(c)) == Some(c),
{
    reveal_strlit("last_check_unix");
    reveal_strlit("latest_version");
    reveal_strlit("running_version_at_check");
    assert("last_check_unix"@.len() == 15 && "latest_version"@.len() == 14
        && "running_version_at_check"@.len() == 24);
}

/// The content of the file of the last check for updates. It reads back as the
/// check.
pub fn write_update_check(c: &UpdateCheck) -> (content: String)
    ensures
        content@ == json_text(check_json_spec(check_view(Some(*c))->0)),
        read_check_spec(content@) == check_view(Some(*c)),
{
    let j = Json::object().with("last_check_unix", Json::number(c.last_check_unix)).with(
        "latest_version",
        Json::text(c.latest_version.as_str()),
    ).with("running_version_at_check", Json::text(c.running_version_at_check.as_str()));
    proof {
        checks_read_back(check_view(Some(*c))->0);
    }
    json::render(&j)
}

/// The check that `content`, read as JSON, stands for.
pub fn check_of(content: &Result<Json, String>) -> (r: Option<UpdateCheck>)
    ensures
        check_view(r) == (match parse_view(*content) {
            Ok(j) => check_of_spec(j),
            Err(_) => None,
        }),
{
    match content {
        Err(_) => None,
        Ok(j) => {
            let at: u64 = match j.get("last_check_unix") {
                Some(v) => match v.as_u64() {
                    Some(n) => n,
                    None => {
                        return None;
                    },
                },
                None => {
                    return None;
                },
            };
            match (j.get_str("latest_version"), j.get_str("running_version_at_check")) {
                (Some(latest), Some(running)) => Some(
                    UpdateCheck {
                        last_check_unix: at,
                        latest_version: latest.to_owned(),
                        running_version_at_check: running.to_owned(),
                    },
                ),
                _ => None,
            }
        },
    }
}

/// The check that the content of its file stands for; nothing where the content
/// is none, so that the caller checks anew.
pub fn read_update_check(content: &str) -> (r: Option<UpdateCheck>)
    ensures
        check_view(r) == read_check_spec(content@),
{
    let parsed = json::parse(content);
    check_of(&parsed)
}

proof fn lemma_check_keys()
    ensures
        "last_check_unix"@ != "latest_version"@,
        "last_check_unix"@ != "running_version_at_check"@,
        "latest_version"@ != "running_version_at_check"@,
{
    reveal_strlit("last_check_unix");
    reveal_strlit("latest_version");
    reveal_strlit("running_version_at_check");
    assert("last_check_unix"@.len() == 15);
    assert("latest_version"@.len() == 14);
    assert("running_version_at_check"@.len() == 24);
}

/// A remembered check is written with its time, the version it found and the one
/// that ran; and one is read only where all three are there.
pub proof fn checks_are_written_by_name(c: (u64, Seq<char>, Seq<char>), j: JsonView)
    ensures
        get_spec(check_json_spec(c), "last_check_unix"@) == Some(
            JsonView::Number(crate::json::NumberView::Unsigned(c.0)),
        ),
        get_spec(check_json_spec(c), "latest_version"@) == Some(JsonView::Str(c.1)),
        get_spec(check_json_spec(c), "running_version_at_check"@) == Some(JsonView::Str(c.2)),
        check_of_spec(j) == Some(c) <==> get_spec(j, "last_check_unix"@) == Some(
            JsonView::Number(crate::json::NumberView::Unsigned(c.0)),
        ) && get_spec(j, "latest_version"@) == Some(JsonView::Str(c.1)) && get_spec(
            j,
            "running_version_at_check"@,
        ) == Some(JsonView::Str(c.2)),
{
    lemma_check_keys();
}

} // verus!

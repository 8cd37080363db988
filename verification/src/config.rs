//! Where the program keeps its files: all beside the session's file.
use crate::error::{ErrorView, FabCliError};
use crate::library_cache::CACHE_FILENAME;
use crate::paths;
use crate::paths::{
    ends_in_a_name, is_directory_text, is_portable, is_relative, is_separator, is_tidy,
    is_tidy_name, is_verbatim, lies_behind, parent_spec, parts_spec, placed, slashed,
};
use crate::text::free_of;
use vstd::prelude::*;

verus! {

/// A name of a file that every platform reads as that name.
pub open spec fn is_own_name(name: Seq<char>) -> bool {
    is_portable(name) && free_of(name, '/') && name.len() > 2 && name[0] != '.'
}

/// The names of the program's own files are read alike everywhere.
pub proof fn lemma_own_names()
    ensures
        is_own_name("token.json"@),
        is_own_name("webview-data"@),
        is_own_name("state"@),
        is_own_name("update_check.json"@),
        is_own_name("daemon.log"@),
        is_own_name("daemon.pid"@),
        is_own_name(CACHE_FILENAME@),
{
    reveal_strlit("token.json");
    assert("token.json"@.len() == 10);
    assert("token.json"@[0] == 't' && "token.json"@[1] == 'o' && "token.json"@[2] == 'k'
        && "token.json"@[3] == 'e' && "token.json"@[4] == 'n' && "token.json"@[5] == '.'
        && "token.json"@[6] == 'j' && "token.json"@[7] == 's' && "token.json"@[8] == 'o'
        && "token.json"@[9] == 'n');
    reveal_strlit("webview-data");
    assert("webview-data"@.len() == 12);
    assert("webview-data"@[0] == 'w' && "webview-data"@[1] == 'e' && "webview-data"@[2] == 'b'
        && "webview-data"@[3] == 'v' && "webview-data"@[4] == 'i' && "webview-data"@[5] == 'e'
        && "webview-data"@[6] == 'w' && "webview-data"@[7] == '-' && "webview-data"@[8] == 'd'
        && "webview-data"@[9] == 'a' && "webview-data"@[10] == 't' && "webview-data"@[11] == 'a');
    reveal_strlit("state");
    assert("state"@.len() == 5);
    assert("state"@[0] == 's' && "state"@[1] == 't' && "state"@[2] == 'a' && "state"@[3] == 't'
        && "state"@[4] == 'e');
    reveal_strlit("update_check.json");
    assert("update_check.json"@.len() == 17);
    assert("update_check.json"@[0] == 'u' && "update_check.json"@[1] == 'p'
        && "update_check.json"@[2] == 'd' && "update_check.json"@[3] == 'a'
        && "update_check.json"@[4] == 't' && "update_check.json"@[5] == 'e'
        && "update_check.json"@[6] == '_' && "update_check.json"@[7] == 'c'
        && "update_check.json"@[8] == 'h' && "update_check.json"@[9] == 'e'
        && "update_check.json"@[10] == 'c' && "update_check.json"@[11] == 'k'
        && "update_check.json"@[12] == '.' && "update_check.json"@[13] == 'j'
        && "update_check.json"@[14] == 's' && "update_check.json"@[15] == 'o'
        && "update_check.json"@[16] == 'n');
    reveal_strlit("daemon.log");
    assert("daemon.log"@.len() == 10);
    assert("daemon.log"@[0] == 'd' && "daemon.log"@[1] == 'a' && "daemon.log"@[2] == 'e'
        && "daemon.log"@[3] == 'm' && "daemon.log"@[4] == 'o' && "daemon.log"@[5] == 'n'
        && "daemon.log"@[6] == '.' && "daemon.log"@[7] == 'l' && "daemon.log"@[8] == 'o'
        && "daemon.log"@[9] == 'g');
    reveal_strlit("daemon.pid");
    assert("daemon.pid"@.len() == 10);
    assert("daemon.pid"@[0] == 'd' && "daemon.pid"@[1] == 'a' && "daemon.pid"@[2] == 'e'
        && "daemon.pid"@[3] == 'm' && "daemon.pid"@[4] == 'o' && "daemon.pid"@[5] == 'n'
        && "daemon.pid"@[6] == '.' && "daemon.pid"@[7] == 'p' && "daemon.pid"@[8] == 'i'
        && "daemon.pid"@[9] == 'd');
    reveal_strlit("library-cache.json");
    assert(CACHE_FILENAME@ == "library-cache.json"@);
    assert("library-cache.json"@.len() == 18);
    assert("library-cache.json"@[0] == 'l' && "library-cache.json"@[1] == 'i'
        && "library-cache.json"@[2] == 'b' && "library-cache.json"@[3] == 'r'
        && "library-cache.json"@[4] == 'a' && "library-cache.json"@[5] == 'r'
        && "library-cache.json"@[6] == 'y' && "library-cache.json"@[7] == '-'
        && "library-cache.json"@[8] == 'c' && "library-cache.json"@[9] == 'a'
        && "library-cache.json"@[10] == 'c' && "library-cache.json"@[11] == 'h'
        && "library-cache.json"@[12] == 'e' && "library-cache.json"@[13] == '.'
        && "library-cache.json"@[14] == 'j' && "library-cache.json"@[15] == 's'
        && "library-cache.json"@[16] == 'o' && "library-cache.json"@[17] == 'n');
}

/// The session's file: where the environment says, else `token.json` in the
/// user's configuration directory, where that is known.
pub fn token_path(env: Option<&str>, config_home: Option<&str>) -> (r: Result<String, FabCliError>)
    ensures
        match env {
            Some(path) => r matches Ok(p) && p@ == path@,
            None => match config_home {
                Some(dir) => r matches Ok(p) && placed(dir@, "token.json"@, p@),
                None => r matches Err(e) && e@ == ErrorView::Generic(
                    "could not resolve config directory for fabcli"@,
                ),
            },
        },
{
    if let Some(path) = env {
        return Ok(path.to_owned());
    }
    match config_home {
        Some(dir) => {
            proof {
                lemma_own_names();
            }
            Ok(paths::join(dir, "token.json"))
        },
        None => Err(
            FabCliError::Generic("could not resolve config directory for fabcli".to_owned()),
        ),
    }
}

/// `dir` is the directory that the file `token` is in: by its text, and by its
/// parts where every platform reads the path alike.
pub open spec fn is_directory_of(token: Seq<char>, dir: Seq<char>) -> bool {
    &&& is_directory_text(token, dir)
    &&& is_portable(token) ==> is_portable(dir) && parts_spec(dir) == parts_spec(token).drop_last()
}

/// `path` lies in the directory of the session's file `token`: the parts of that
/// directory come first, and none of the others leads out of it again.
pub open spec fn lies_beside(token: Seq<char>, path: Seq<char>) -> bool {
    is_portable(token) && is_portable(path) ==> {
        let dir = parts_spec(token).drop_last();
        &&& dir.is_prefix_of(parts_spec(path))
        &&& forall|i: int|
            dir.len() <= i < parts_spec(path).len() ==> #[trigger] parts_spec(path)[i] is Normal
                || parts_spec(path)[i] is CurDir
    }
}

proof fn lemma_own_name(name: Seq<char>)
    requires
        is_own_name(name),
    ensures
        is_relative(name),
        is_tidy_name(name),
{
    paths::portable_paths_read_alike(name);
    paths::names_without_slashes_are_one_piece(name);
}

/// A file of the program's own, put into the directory of the session's file,
/// lies in it.
pub proof fn lemma_beside(token: Seq<char>, dir: Seq<char>, name: Seq<char>, path: Seq<char>)
    requires
        is_directory_of(token, dir),
        is_own_name(name),
        placed(dir, name, path),
    ensures
        lies_beside(token, path),
{
    if is_portable(token) && is_portable(path) {
        paths::longer_names_do_not_climb(name);
        paths::joined_names_stay_inside(dir, name, path);
    }
}

proof fn lemma_still_tidy(dir: Seq<char>, name: Seq<char>, path: Seq<char>)
    requires
        is_own_name(name),
        placed(dir, name, path),
        is_verbatim(dir) ==> is_tidy(dir),
        !is_separator(name.last()) && name.last() != ':',
        name[0] != '?',
    ensures
        is_verbatim(path) ==> is_verbatim(dir) && is_tidy(path),
{
    lemma_own_name(name);
    if is_verbatim(path) {
        if is_verbatim(dir) {
            let n = dir.len() as int;
            assert forall|i: int| 0 <= i < name.len() implies #[trigger] path[n + 1 + i]
                == name[i] by {
                let behind = path.skip(n + 1);
                assert(slashed(behind)[i] == slashed(name)[i]);
                paths::portable_paths_read_alike(name);
                assert(slashed(behind)[i] == name[i]);
                assert(name[i] != '/');
            }
            assert(path.last() == name.last()) by {
                assert(path[n + 1 + (name.len() - 1)] == name[name.len() - 1]);
            }
            assert(path[n + 1] == name[0]) by {
                assert(path[n + 1 + 0] == name[0]);
            }
            assert forall|i: int| 3 <= i < path.len() && #[trigger] path[i] == '\\' implies i + 1
                < path.len() && path[i + 1] != '\\' && !paths::dots_behind(path, i) by {
                if i < n {
                    assert(dir[i] == path[i]);
                    assert(!paths::dots_behind(dir, i));
                } else if i > n {
                    assert(path[n + 1 + (i - n - 1)] == name[i - n - 1]);
                }
            }
        }
    }
}

/// Everything else that the program keeps lies below the directory of the
/// session's file: who moves that file moves the browser's data, what is
/// remembered of the last check for updates, the cached library, and the
/// daemon's files with it.
pub proof fn all_files_lie_below_the_session_directory(
    token: Seq<char>,
    dir: Seq<char>,
    webview: Seq<char>,
    state: Seq<char>,
    check: Seq<char>,
    cache: Seq<char>,
    log: Seq<char>,
    pid: Seq<char>,
)
    requires
        is_directory_of(token, dir),
        is_verbatim(dir) ==> is_tidy(dir),
        placed(dir, "webview-data"@, webview),
        placed(dir, "state"@, state),
        placed(state, "update_check.json"@, check),
        placed(dir, CACHE_FILENAME@, cache),
        placed(dir, "daemon.log"@, log),
        placed(dir, "daemon.pid"@, pid),
    ensures
        lies_behind(dir, webview) && lies_beside(token, webview),
        lies_behind(dir, state) && lies_beside(token, state),
        lies_behind(dir, check) && lies_beside(token, check),
        lies_behind(dir, cache) && lies_beside(token, cache),
        lies_behind(dir, log) && lies_beside(token, log),
        lies_behind(dir, pid) && lies_beside(token, pid),
{
    lemma_own_names();
    lemma_beside(token, dir, "webview-data"@, webview);
    lemma_beside(token, dir, "state"@, state);
    lemma_beside(token, dir, CACHE_FILENAME@, cache);
    lemma_beside(token, dir, "daemon.log"@, log);
    lemma_beside(token, dir, "daemon.pid"@, pid);
    lemma_own_name("webview-data"@);
    lemma_own_name("state"@);
    lemma_own_name("update_check.json"@);
    lemma_own_name(CACHE_FILENAME@);
    lemma_own_name("daemon.log"@);
    lemma_own_name("daemon.pid"@);
    reveal_strlit("state");
    lemma_still_tidy(dir, "state"@, state);
    paths::placed_names_lie_behind(dir, "webview-data"@, webview);
    paths::placed_names_lie_behind(dir, "state"@, state);
    paths::placed_names_lie_behind(state, "update_check.json"@, check);
    paths::lying_behind_is_transitive(dir, state, check);
    paths::placed_names_lie_behind(dir, CACHE_FILENAME@, cache);
    paths::placed_names_lie_behind(dir, "daemon.log"@, log);
    paths::placed_names_lie_behind(dir, "daemon.pid"@, pid);
    if is_portable(token) && is_portable(check) {
        assert forall|i: int| 0 <= i < state.len() implies #[trigger] state[i] != '\\' by {
            assert(check[i] == state[i]);
        }
        assert(state.len() >= 2 ==> check[0] == state[0] && check[1] == state[1]);
        assert(is_portable(state));
        paths::longer_names_do_not_climb("update_check.json"@);
        paths::joined_names_stay_inside(state, "update_check.json"@, check);
        let d = parts_spec(token).drop_last();
        let s = parts_spec(state);
        let c = parts_spec(check);
        assert forall|i: int| d.len() <= i < c.len() implies (#[trigger] c[i] is Normal || c[i]
            is CurDir) by {
            if i < s.len() {
                assert(c[i] == s[i]);
            }
        }
    }
}

/// The directory of the session's file `token`.
pub fn config_dir(token: &str) -> (r: Result<String, FabCliError>)
    ensures
        is_portable(token@) ==> (r is Ok <==> parent_spec(token@)),
        ends_in_a_name(token@) ==> r is Ok,
        r matches Ok(dir) ==> is_directory_of(token@, dir@),
        r matches Err(e) ==> e@ == ErrorView::Generic("token path has no parent directory"@),
{
    match paths::parent(token) {
        Some(dir) => Ok(dir),
        None => Err(FabCliError::Generic("token path has no parent directory".to_owned())),
    }
}

/// The directory of the browser's data, beside the session's file `token`.
pub fn webview_data_dir(token: &str) -> (r: Result<String, FabCliError>)
    ensures
        is_portable(token@) ==> (r is Ok <==> parent_spec(token@)),
        ends_in_a_name(token@) ==> r is Ok,
        r matches Ok(path) ==> exists|dir: Seq<char>| #[trigger]
            is_directory_of(token@, dir) && placed(dir, "webview-data"@, path@),
        r matches Ok(path) ==> lies_beside(token@, path@),
        r matches Err(e) ==> e@ == ErrorView::Generic("token path has no parent directory"@),
{
    match config_dir(token) {
        Ok(dir) => {
            proof {
                lemma_own_names();
            }
            let path = paths::join(dir.as_str(), "webview-data");
            proof {
                assert(is_directory_of(token@, dir@));
                lemma_beside(token@, dir@, "webview-data"@, path@);
            }
            Ok(path)
        },
        Err(e) => Err(e),
    }
}

/// The directory of the daemon's files: that of the session's file `token`.
pub fn daemon_state_dir(token: &str) -> (r: Result<String, FabCliError>)
    ensures
        is_portable(token@) ==> (r is Ok <==> parent_spec(token@)),
        ends_in_a_name(token@) ==> r is Ok,
        r matches Ok(dir) ==> is_directory_of(token@, dir@),
        r matches Err(e) ==> e@ == ErrorView::Generic("token path has no parent directory"@),
{
    config_dir(token)
}

} // verus!

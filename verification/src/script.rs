//! The script that a page runs to send one request.
use crate::text::opt_str;
use crate::token_storage::{base64_text, encode_base64};
use vstd::prelude::*;
use vstd::utf8::encode_utf8;

verus! {

/// The script up to the method.
pub const SCRIPT_HEAD: &'static str = r#"(async () => {
            try {
                const method = atob(""#;

/// The script from the method to the path.
pub const SCRIPT_PATH: &'static str = r#"");
                const path = atob(""#;

/// The script from the path to the body.
pub const SCRIPT_INIT: &'static str = r#"");
                const init = { method, credentials: 'include', headers: {} };
                "#;

/// The script from the body on.
pub const SCRIPT_TAIL: &'static str = r#"
                if (init.body !== undefined) {
                    init.headers['Content-Type'] = 'application/json';
                }
                if (method !== 'GET' && method !== 'HEAD') {
                    const m = document.cookie.match(/(?:^|;\s*)fab_csrftoken=([^;]+)/);
                    if (m) init.headers['X-CSRFToken'] = m[1];
                }
                const resp = await fetch(path, init);
                const text = await resp.text();
                window.ipc.postMessage(JSON.stringify({ status: resp.status, body: text }));
            } catch (e) {
                window.ipc.postMessage(JSON.stringify({ status: 0, body: String(e) }));
            }
        })();"#;

/// The line that sets the body: none where there is no body.
pub open spec fn body_line(body: Option<Seq<char>>) -> Seq<char> {
    match body {
        Some(b) => "init.body = atob(\""@ + base64_text(encode_utf8(b)) + "\");"@,
        None => Seq::empty(),
    }
}

/// The script for a request. Method, path and body stand in it as base64, so
/// that nothing in them has to be quoted.
pub open spec fn script_spec(
    method: Seq<char>,
    path: Seq<char>,
    body: Option<Seq<char>>,
) -> Seq<char> {
    SCRIPT_HEAD@ + base64_text(encode_utf8(method)) + SCRIPT_PATH@ + base64_text(encode_utf8(path))
        + SCRIPT_INIT@ + body_line(body) + SCRIPT_TAIL@
}

/// The script that sends a request in the page's session and posts its status
/// and body back.
pub fn build_fetch_script(method: &str, path: &str, body_json: Option<&str>) -> (r: String)
    ensures
        r@ == script_spec(method@, path@, opt_str(body_json)),
{
    let line = match body_json {
        Some(b) => {
            let mut l = "init.body = atob(\"".to_owned();
            l.append(encode_base64(b.as_bytes()).as_str());
            l.append("\");");
            l
        },
        None => {
            let empty = String::new();
            assert(empty@ =~= Seq::<char>::empty());
            empty
        },
    };
    let mut script = SCRIPT_HEAD.to_owned();
    script.append(encode_base64(method.as_bytes()).as_str());
    script.append(SCRIPT_PATH);
    script.append(encode_base64(path.as_bytes()).as_str());
    script.append(SCRIPT_INIT);
    script.append(line.as_str());
    script.append(SCRIPT_TAIL);
    script
}

/// The script holds method, path and body, each as base64 and in this order; a
/// script for a request without a body is the same but for the line that sets
/// it.
pub proof fn scripts_hold_the_request(method: Seq<char>, path: Seq<char>, body: Seq<char>)
    ensures
        exists|a: Seq<char>, b: Seq<char>, c: Seq<char>, d: Seq<char>|
            script_spec(method, path, Some(body)) == #[trigger] (a + base64_text(
                encode_utf8(method),
            ) + b + base64_text(encode_utf8(path)) + c + ("init.body = atob(\""@ + base64_text(
                encode_utf8(body),
            ) + "\");"@) + d) && script_spec(method, path, None) == a + base64_text(
                encode_utf8(method),
            ) + b + base64_text(encode_utf8(path)) + c + d,
{
    let m = base64_text(encode_utf8(method));
    let p = base64_text(encode_utf8(path));
    let line = "init.body = atob(\""@ + base64_text(encode_utf8(body)) + "\");"@;
    assert(script_spec(method, path, Some(body)) == SCRIPT_HEAD@ + m + SCRIPT_PATH@ + p
        + SCRIPT_INIT@ + line + SCRIPT_TAIL@);
    assert(script_spec(method, path, None) =~= SCRIPT_HEAD@ + m + SCRIPT_PATH@ + p + SCRIPT_INIT@
        + SCRIPT_TAIL@);
}

} // verus!

# fabcli

A command-line client for the Fab marketplace: search, inspect, claim and
download assets. What the program decides is in a library whose every function
is proved against its contract with [Verus](https://github.com/verus-lang/verus);
what it asks of the network, the file system and the browser is a thin program
around it.

## Layout

- `src/` is the verified library.
  - `text`, `json`, `paths`, `clock` and `digest` are what the rest is built of.
  - `args`, `search`, `ownership`, `claim`, `claim_batch`, `report` and `error`
    are the commands and what they write out.
  - `download_resolver`, `download`, `download_flow` and `chunks` find, check and
    assemble a download.
  - `auth`, `fab_session`, `token_storage`, `config`, `state` and
    `library_cache` are what is kept between calls.
  - `fab_browser`, `fab_daemon`, `wire`, `script`, `log` and `webview_host` are
    the requests made in the browser session, and the daemon that holds it.
  - `skill`, `update` and `update_check` maintain the installation.
- `tests/` runs the library on concrete values.
- `app/` is the program: the command line, requests, files, the keystore and the
  browser.

A command that alternates between asking the outside and deciding is a function
from the answers so far to the next action (`claim::claim_next`,
`download_flow::download_next`, `update::update_next`, `auth::login`,
`fab_browser::call` and others). The program performs the action and asks again.

What the library takes from other crates (JSON text, AES-GCM, digests, base64,
the chunk format, semantic versions, calendar dates) stands behind small
functions marked `external_body`. Their contracts are believed, not proved; each
says which outside function it calls and what is claimed of it.

## The browser

The embedded web view needs the platform's browser libraries and the crates
`wry`, `gtk` (Linux) and `windows` (Windows), and is built with `--cfg webview`.
Without it a login falls back to a pasted code. The operating system's keystore
is reached through the platform features of `keyring`.

## The skill

`fabcli skill` writes below the directory, in the home or in a project, in which
the assistant keeps its files. Its name is set when the program is built, with
`FABCLI_ASSISTANT_DIR` in the build's environment.

//! The windows that pages are shown in.
use crate::error::{ErrorView, FabCliError};
use vstd::prelude::*;

verus! {

/// How a window is made.
#[derive(Debug)]
pub struct WindowOptions {
    pub title: &'static str,
    /// Hidden windows are made and never shown.
    pub visible: bool,
    /// Width and height in logical pixels.
    pub size: (i32, i32),
}

impl Default for WindowOptions {
    fn default() -> (r: WindowOptions)
        ensures
            r.title@ == "fabcli"@,
            !r.visible,
            r.size == (800i32, 600i32),
    {
        WindowOptions { title: "fabcli", visible: false, size: (800, 600) }
    }
}

/// The error for `what` on a platform without windows.
pub fn unsupported(what: &str) -> (r: FabCliError)
    ensures
        r@ == ErrorView::Generic(what@ + " is not supported on this platform / build"@),
{
    let mut m = what.to_owned();
    m.append(" is not supported on this platform / build");
    FabCliError::Generic(m)
}

} // verus!

use vstd::prelude::*;
use vstd::string::StringExecFns;

verus! {

/// The object under which the compositor publishes itself.
pub open spec fn object_root() -> Seq<char> {
    "/com/github/chjj/compton"@
}

/// The bus name of the compositor that serves a display, the display being
/// written as in `_0`.
pub fn service_name(display: &str) -> (out: String)
    ensures
        out@ == "com.github.chjj.compton."@ + display@,
{
    "com.github.chjj.compton.".to_owned().concat(display)
}

/// The object whose children are the compositor's windows.
pub fn windows_path() -> (out: String)
    ensures
        out@ == object_root() + "/windows"@,
{
    "/com/github/chjj/compton".to_owned().concat("/windows")
}

/// The object that stands for the window listed under `id`.
pub fn window_path(id: &str) -> (out: String)
    ensures
        out@ == object_root() + "/windows"@ + "/"@ + id@,
{
    windows_path().concat("/").concat(id)
}

} // verus!

//! The one decision the helper makes about the focused application:
//! whether its bundle identifier names a known terminal, where ghost text
//! is separated by a Tab delimiter instead of the two-line layout step.

use vstd::prelude::*;
use vstd::string::StringExecFns;

verus! {

/// Whether `id` is the bundle identifier of a known terminal.
pub open spec fn is_terminal_id(id: Seq<char>) -> bool {
    ||| id == "com.apple.Terminal"@
    ||| id == "com.googlecode.iterm2"@
    ||| id == "dev.warp.Warp-Stable"@
    ||| id == "com.github.wez.wezterm"@
    ||| id == "co.zeit.hyper"@
    ||| id == "com.microsoft.VSCode"@
}

/// Decide whether the application with bundle identifier `bundle_id` is a
/// known terminal.
pub fn is_terminal(bundle_id: &String) -> (r: bool)
    ensures
        r == is_terminal_id(bundle_id@),
{
    let candidate = String::from_str("com.apple.Terminal");
    if *bundle_id == candidate {
        return true;
    }
    let candidate = String::from_str("com.googlecode.iterm2");
    if *bundle_id == candidate {
        return true;
    }
    let candidate = String::from_str("dev.warp.Warp-Stable");
    if *bundle_id == candidate {
        return true;
    }
    let candidate = String::from_str("com.github.wez.wezterm");
    if *bundle_id == candidate {
        return true;
    }
    let candidate = String::from_str("co.zeit.hyper");
    if *bundle_id == candidate {
        return true;
    }
    let candidate = String::from_str("com.microsoft.VSCode");
    if *bundle_id == candidate {
        return true;
    }
    false
}

} // verus!

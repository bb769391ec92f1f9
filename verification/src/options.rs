//! Launcher settings that steer the frame loop and the rendering.
use vstd::prelude::*;

verus! {

/// Settings of the front-end: selector style, background style and color,
/// and whether the loop exits once a game has been launched.
#[derive(Clone, Copy, Debug)]
pub struct LauncherOptions {
    pub selector: u8,
    pub bgtype: u8,
    pub background_color: (u8, u8, u8),
    pub onload: u8,
}

/// The loop exits after a successful launch exactly when `onload` is 1.
pub open spec fn spec_exit_after_launch(opts: LauncherOptions) -> bool {
    opts.onload == 1
}

impl LauncherOptions {
    /// Whether the loop should exit after a successful launch.
    pub fn exit_after_launch(&self) -> (r: bool)
        ensures
            r == spec_exit_after_launch(*self),
    {
        self.onload == 1
    }
}

impl Default for LauncherOptions {
    /// The defaults used when no settings file is readable: pointer
    /// selector, plain background in a fixed blue, exit after launch.
    fn default() -> (r: LauncherOptions)
        ensures
            r.selector == 1,
            r.bgtype == 1,
            r.background_color == (66u8, 113u8, 183u8),
            r.onload == 1,
    {
        LauncherOptions { selector: 1, bgtype: 1, background_color: (66, 113, 183), onload: 1 }
    }
}

} // verus!

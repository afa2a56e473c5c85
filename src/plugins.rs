use vstd::prelude::*;

verus! {

/// A framework plugin that the shell registers at startup.
#[derive(Clone, Copy, Debug, PartialEq, Eq, Structural)]
pub enum Plugin {
    /// Filesystem access for the web content.
    Fs,
    /// Native open, save and message dialogs.
    Dialog,
    /// Saves and restores window size and position.
    WindowState,
    /// Log output at the informational level.
    Log,
}

/// The plugins to register, in order: filesystem, dialogs and window state
/// always; logging last, and in debug builds only.
pub open spec fn startup_plugins_spec(debug_build: bool) -> Seq<Plugin> {
    let always = seq![Plugin::Fs, Plugin::Dialog, Plugin::WindowState];
    if debug_build {
        always.push(Plugin::Log)
    } else {
        always
    }
}

/// Lists the plugins to register at startup, in registration order.
pub fn startup_plugins(debug_build: bool) -> (r: Vec<Plugin>)
    ensures
        r@ == startup_plugins_spec(debug_build),
{
    let mut r: Vec<Plugin> = Vec::new();
    r.push(Plugin::Fs);
    r.push(Plugin::Dialog);
    r.push(Plugin::WindowState);
    if debug_build {
        r.push(Plugin::Log);
    }
    proof {
        assert(r@ =~= startup_plugins_spec(debug_build));
    }
    r
}

} // verus!

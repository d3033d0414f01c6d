//! The shell's declarative startup configuration: which capability plugins
//! the bootstrapper registers, in which order, and which keyboard shortcut
//! it suppresses.

use vstd::prelude::*;

verus! {

/// One capability plugin that the bootstrapper registers with the host
/// runtime at startup.
#[derive(Clone, Copy, PartialEq, Eq, Structural, Debug)]
pub enum Plugin {
    /// Opens paths and URLs with the system's default programs.
    Opener,
    /// Checks for and applies application updates.
    Updater,
    /// Controls the application process (relaunch, exit).
    Process,
    /// Bridges filesystem access to the front end.
    Fs,
    /// Bridges an HTTP client to the front end.
    Http,
    /// Suppresses chosen keyboard shortcuts before the default handling.
    PreventDefault,
}

/// A modifier key held together with a shortcut's main key.
#[derive(Clone, Copy, PartialEq, Eq, Structural, Debug)]
pub enum Modifier {
    Ctrl,
    Alt,
    Shift,
    Meta,
}

/// A keyboard shortcut the shell keeps from reaching default handling.
pub struct BlockedShortcut {
    /// The main key, as the key's name.
    pub key: String,
    /// The modifier keys that must be held.
    pub modifiers: Vec<Modifier>,
}

/// The fixed order in which the bootstrapper registers its plugins.
pub open spec fn plugin_order_spec() -> Seq<Plugin> {
    seq![
        Plugin::Opener,
        Plugin::Updater,
        Plugin::Process,
        Plugin::Fs,
        Plugin::Http,
        Plugin::PreventDefault,
    ]
}

/// The registration list handed to the host runtime. Every call returns the
/// same plugins in the same order: registration order is fixed, and each
/// plugin appears exactly once.
pub fn plugin_order() -> (r: Vec<Plugin>)
    ensures
        r@ == plugin_order_spec(),
{
    let mut r: Vec<Plugin> = Vec::new();
    r.push(Plugin::Opener);
    r.push(Plugin::Updater);
    r.push(Plugin::Process);
    r.push(Plugin::Fs);
    r.push(Plugin::Http);
    r.push(Plugin::PreventDefault);
    proof {
        assert(r@ =~= plugin_order_spec());
    }
    r
}

/// The one shortcut the shell suppresses: Ctrl together with the W key.
pub fn blocked_shortcut() -> (r: BlockedShortcut)
    ensures
        r.key@ == "W"@,
        r.modifiers@ == seq![Modifier::Ctrl],
{
    let mut modifiers: Vec<Modifier> = Vec::new();
    modifiers.push(Modifier::Ctrl);
    proof {
        assert(modifiers@ =~= seq![Modifier::Ctrl]);
    }
    BlockedShortcut { key: "W".to_owned(), modifiers }
}

} // verus!

use vstd::prelude::*;
use crate::config::ReloadConfig;

verus! {

/// The reload hooks consumers may ask for, each independently togglable and
/// each best-effort: a failing hook never blocks the ones after it.
#[derive(Clone, Copy, Debug, PartialEq, Eq, Structural)]
pub enum Hook {
    /// Reload the compositor configuration.
    Hyprland,
    /// Signal the status bar to re-read its colors.
    Waybar,
    /// Reload the notification daemon.
    Mako,
    /// Push the new colors into running terminals.
    Kitty,
    /// Re-source the shell's theme variables.
    Fish,
}

/// The hooks an apply triggers, in their fixed firing order.
pub open spec fn spec_enabled_hooks(cfg: ReloadConfig) -> Seq<Hook> {
    (if cfg.enable_hyprland {
        seq![Hook::Hyprland]
    } else {
        Seq::empty()
    }) + (if cfg.enable_waybar {
        seq![Hook::Waybar]
    } else {
        Seq::empty()
    }) + (if cfg.enable_mako {
        seq![Hook::Mako]
    } else {
        Seq::empty()
    }) + (if cfg.enable_kitty {
        seq![Hook::Kitty]
    } else {
        Seq::empty()
    }) + (if cfg.enable_fish {
        seq![Hook::Fish]
    } else {
        Seq::empty()
    })
}

/// Decides which reload hooks run, and in what order.
pub fn enabled_hooks(cfg: &ReloadConfig) -> (r: Vec<Hook>)
    ensures
        r@ == spec_enabled_hooks(*cfg),
{
    let mut out: Vec<Hook> = Vec::new();
    if cfg.enable_hyprland {
        out.push(Hook::Hyprland);
    }
    if cfg.enable_waybar {
        out.push(Hook::Waybar);
    }
    if cfg.enable_mako {
        out.push(Hook::Mako);
    }
    if cfg.enable_kitty {
        out.push(Hook::Kitty);
    }
    if cfg.enable_fish {
        out.push(Hook::Fish);
    }
    proof {
        assert(out@ =~= spec_enabled_hooks(*cfg));
    }
    out
}

} // verus!

use vstd::prelude::*;
use crate::utils::ModeSetting;

verus! {

/// Settings for the model endpoint. The sampling temperature is carried in
/// thousandths, so `100` stands for a temperature of 0.1.
#[derive(Clone, Debug)]
pub struct LlavaConfig {
    pub endpoint: String,
    pub model: String,
    pub temperature_milli: u32,
    pub timeout_ms: u64,
}

/// Argument templates for the external renderer.
#[derive(Clone, Debug)]
pub struct MatugenConfig {
    pub args_color: Vec<String>,
    pub args_image: Vec<String>,
    pub extra_args: Vec<String>,
}

/// General behavior switches. The vibrancy clamp is carried in thousandths,
/// like the temperature.
#[derive(Clone, Debug)]
pub struct BehaviorConfig {
    pub mode_default: ModeSetting,
    pub vibrancy_clamp_milli: Option<u32>,
    pub cache_dir: String,
    pub log_level: String,
}

/// One switch per reload hook.
#[derive(Clone, Copy, Debug, PartialEq, Eq, Structural)]
pub struct ReloadConfig {
    pub enable_hyprland: bool,
    pub enable_waybar: bool,
    pub enable_mako: bool,
    pub enable_kitty: bool,
    pub enable_fish: bool,
}

/// The whole configuration, threaded explicitly through every component
/// that needs it.
#[derive(Clone, Debug)]
pub struct Config {
    pub llava: LlavaConfig,
    pub matugen: MatugenConfig,
    pub behavior: BehaviorConfig,
    pub reload: ReloadConfig,
}

impl Default for LlavaConfig {
    fn default() -> (r: Self)
        ensures
            r.endpoint@ == "http://127.0.0.1:11434"@,
            r.model@ == "llava:latest"@,
            r.temperature_milli == 100,
            r.timeout_ms == 3500,
    {
        LlavaConfig {
            endpoint: "http://127.0.0.1:11434".to_owned(),
            model: "llava:latest".to_owned(),
            temperature_milli: 100,
            timeout_ms: 3500,
        }
    }
}

impl Default for MatugenConfig {
    fn default() -> (r: Self)
        ensures
            r.args_color.deep_view() == seq!["color"@],
            r.args_image.deep_view() == seq!["image"@],
            r.extra_args.deep_view() == Seq::<Seq<char>>::empty(),
    {
        let mut args_color: Vec<String> = Vec::new();
        args_color.push("color".to_owned());
        let mut args_image: Vec<String> = Vec::new();
        args_image.push("image".to_owned());
        let extra_args: Vec<String> = Vec::new();
        proof {
            assert(args_color.deep_view() =~= seq!["color"@]);
            assert(args_image.deep_view() =~= seq!["image"@]);
            assert(extra_args.deep_view() =~= Seq::<Seq<char>>::empty());
        }
        MatugenConfig { args_color, args_image, extra_args }
    }
}

impl Default for BehaviorConfig {
    fn default() -> (r: Self)
        ensures
            r.mode_default == ModeSetting::Auto,
            r.vibrancy_clamp_milli == Some(850u32),
            r.cache_dir@ == "~/.cache/matugen-llava-seed"@,
            r.log_level@ == "info"@,
    {
        BehaviorConfig {
            mode_default: ModeSetting::Auto,
            vibrancy_clamp_milli: Some(850),
            cache_dir: "~/.cache/matugen-llava-seed".to_owned(),
            log_level: "info".to_owned(),
        }
    }
}

impl Default for ReloadConfig {
    fn default() -> (r: Self)
        ensures
            r.enable_hyprland && r.enable_waybar && r.enable_mako && r.enable_kitty
                && r.enable_fish,
    {
        ReloadConfig {
            enable_hyprland: true,
            enable_waybar: true,
            enable_mako: true,
            enable_kitty: true,
            enable_fish: true,
        }
    }
}

impl Default for Config {
    fn default() -> (r: Self)
        ensures
            r.llava.endpoint@ == "http://127.0.0.1:11434"@,
            r.llava.model@ == "llava:latest"@,
            r.llava.temperature_milli == 100,
            r.llava.timeout_ms == 3500,
            r.matugen.args_color.deep_view() == seq!["color"@],
            r.matugen.args_image.deep_view() == seq!["image"@],
            r.matugen.extra_args.deep_view() == Seq::<Seq<char>>::empty(),
            r.behavior.mode_default == ModeSetting::Auto,
            r.behavior.cache_dir@ == "~/.cache/matugen-llava-seed"@,
            r.reload == (ReloadConfig {
                enable_hyprland: true,
                enable_waybar: true,
                enable_mako: true,
                enable_kitty: true,
                enable_fish: true,
            }),
    {
        Config {
            llava: Default::default(),
            matugen: Default::default(),
            behavior: Default::default(),
            reload: Default::default(),
        }
    }
}

} // verus!

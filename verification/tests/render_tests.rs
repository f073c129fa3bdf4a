use matugen_llava_seed::cache::Cache;
use matugen_llava_seed::config::Config;
use matugen_llava_seed::config::MatugenConfig;
use matugen_llava_seed::config::ReloadConfig;
use matugen_llava_seed::llava::QueryOutcome;
use matugen_llava_seed::llava::QuerySession;
use matugen_llava_seed::matugen::render_invocations;
use matugen_llava_seed::palette::Palette;
use matugen_llava_seed::palette::parse_palette;
use matugen_llava_seed::reload::Hook;
use matugen_llava_seed::reload::enabled_hooks;
use matugen_llava_seed::resolved_palette;
use matugen_llava_seed::utils::ModeSetting;
use matugen_llava_seed::watch::FsEventKind;
use matugen_llava_seed::watch::event_qualifies;

fn test_matugen_config() -> MatugenConfig {
    MatugenConfig {
        args_color: vec!["color".to_string(), "hex".to_string()],
        args_image: vec!["image".to_string()],
        extra_args: vec!["--quiet".to_string()],
    }
}

#[test]
fn color_invocations_one_per_present_value() {
    let cfg = test_matugen_config();
    let p = parse_palette("{\"primary_hex\":\"#AABBCC\",\"accent1_hex\":\"#112233\"}")
        .expect("palette");
    let invs = render_invocations(&cfg, &Some(p), &"/tmp/w.png".to_string());
    assert_eq!(invs.len(), 2);
    assert_eq!(
        invs[0],
        vec![
            "color".to_string(),
            "hex".to_string(),
            "--quiet".to_string(),
            "#112233".to_string(),
        ],
    );
    assert_eq!(
        invs[1],
        vec![
            "color".to_string(),
            "hex".to_string(),
            "--quiet".to_string(),
            "#AABBCC".to_string(),
        ],
    );
}

#[test]
fn absent_palette_renders_from_the_image_once() {
    let cfg = test_matugen_config();
    let invs = render_invocations(&cfg, &None, &"/tmp/w.png".to_string());
    assert_eq!(invs.len(), 1);
    assert_eq!(
        invs[0],
        vec!["image".to_string(), "--quiet".to_string(), "/tmp/w.png".to_string()],
    );
}

#[test]
fn empty_palette_renders_from_the_image_once() {
    let cfg = test_matugen_config();
    let invs = render_invocations(&cfg, &Some(Palette::new()), &"/tmp/w.png".to_string());
    assert_eq!(invs.len(), 1);
    assert_eq!(
        invs[0],
        vec!["image".to_string(), "--quiet".to_string(), "/tmp/w.png".to_string()],
    );
}

#[test]
fn fallback_scenario_failing_model_still_renders_once() {
    // An empty cache misses, both model responses are unusable, and the
    // pipeline still plans exactly one image-based renderer run.
    let cache = Cache::new();
    let hash = "9f2b".to_string();
    assert!(cache.get(&hash, false).is_none());
    let s = QuerySession::start();
    let (s, o1) = s.on_response("no palette here");
    assert_eq!(o1, QueryOutcome::Retry);
    let (_, o2) = s.on_response("still no palette");
    assert_eq!(o2, QueryOutcome::Failed);
    let resolved = resolved_palette(None, None);
    assert!(resolved.is_none());
    let cfg = Config::default();
    let invs = render_invocations(&cfg.matugen, &resolved, &"/walls/a.png".to_string());
    assert_eq!(invs.len(), 1);
    assert_eq!(invs[0], vec!["image".to_string(), "/walls/a.png".to_string()]);
}

#[test]
fn cached_palette_wins_over_fresh_query() {
    let p = parse_palette("{\"primary_hex\":\"#AABBCC\"}").expect("palette");
    let q = parse_palette("{\"primary_hex\":\"#DDEEFF\"}").expect("palette");
    assert_eq!(resolved_palette(Some(p.clone()), Some(q.clone())), Some(p));
    assert_eq!(resolved_palette(None, Some(q.clone())), Some(q));
    assert_eq!(resolved_palette(None, None), None);
}

#[test]
fn hooks_follow_their_switches_in_order() {
    let all = ReloadConfig {
        enable_hyprland: true,
        enable_waybar: true,
        enable_mako: true,
        enable_kitty: true,
        enable_fish: true,
    };
    assert_eq!(
        enabled_hooks(&all),
        vec![Hook::Hyprland, Hook::Waybar, Hook::Mako, Hook::Kitty, Hook::Fish],
    );
    let some = ReloadConfig {
        enable_hyprland: false,
        enable_waybar: true,
        enable_mako: false,
        enable_kitty: true,
        enable_fish: false,
    };
    assert_eq!(enabled_hooks(&some), vec![Hook::Waybar, Hook::Kitty]);
    let none = ReloadConfig {
        enable_hyprland: false,
        enable_waybar: false,
        enable_mako: false,
        enable_kitty: false,
        enable_fish: false,
    };
    assert_eq!(enabled_hooks(&none), Vec::<Hook>::new());
}

#[test]
fn watch_events_qualify_by_kind_and_pattern() {
    let pats = vec!["*.jpg".to_string(), "*.png".to_string()];
    assert!(event_qualifies(FsEventKind::Create, "wall.png", &pats));
    assert!(event_qualifies(FsEventKind::Modify, "wall.jpg", &pats));
    assert!(!event_qualifies(FsEventKind::Other, "wall.png", &pats));
    assert!(!event_qualifies(FsEventKind::Create, "notes.txt", &pats));
    assert!(!event_qualifies(FsEventKind::Create, "wall.png", &Vec::new()));
}

#[test]
fn invalid_glob_patterns_never_match() {
    let pats = vec!["[".to_string()];
    assert!(!event_qualifies(FsEventKind::Create, "[", &pats));
    let mixed = vec!["[".to_string(), "*.png".to_string()];
    assert!(event_qualifies(FsEventKind::Create, "wall.png", &mixed));
}

#[test]
fn built_in_defaults_match_the_documented_configuration() {
    let cfg = Config::default();
    assert_eq!(cfg.llava.endpoint, "http://127.0.0.1:11434");
    assert_eq!(cfg.llava.model, "llava:latest");
    assert_eq!(cfg.llava.temperature_milli, 100);
    assert_eq!(cfg.llava.timeout_ms, 3500);
    assert_eq!(cfg.matugen.args_color, vec!["color".to_string()]);
    assert_eq!(cfg.matugen.args_image, vec!["image".to_string()]);
    assert!(cfg.matugen.extra_args.is_empty());
    assert_eq!(cfg.behavior.mode_default, ModeSetting::Auto);
    assert_eq!(cfg.behavior.vibrancy_clamp_milli, Some(850));
    assert_eq!(cfg.behavior.cache_dir, "~/.cache/matugen-llava-seed");
    assert_eq!(cfg.behavior.log_level, "info");
    assert!(cfg.reload.enable_hyprland);
    assert!(cfg.reload.enable_fish);
}

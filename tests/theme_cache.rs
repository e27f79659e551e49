use theme_loader::config::CacheConfig;
use theme_loader::error::ThemeError;
use theme_loader::palette::{PrimaryColors, TerminalColors, ThemeColors};
use theme_loader::theme::SysTheme;
use theme_loader::theme_cache::{InvalidationScope, ThemeCache};

const MINUTE: u64 = 60_000;

fn config(max: u32) -> CacheConfig {
    CacheConfig {
        cache_duration_minutes: 5,
        preload_on_startup: true,
        background_refresh_interval: 10,
        max_cache_size: max,
    }
}

fn palette(background: &str) -> ThemeColors {
    let c = |s: &str| s.to_string();
    ThemeColors {
        primary: PrimaryColors { background: c(background), foreground: c("#ffffff") },
        terminal: TerminalColors {
            black: c("#000000"),
            red: c("#ff5555"),
            green: c("#50fa7b"),
            yellow: c("#f1fa8c"),
            blue: c("#8be9fd"),
            magenta: c("#ff79c6"),
            cyan: c("#8be9fd"),
            white: c("#ffffff"),
        },
    }
}

fn theme(dir: &str, is_system: bool, is_custom: bool) -> SysTheme {
    SysTheme {
        dir: dir.to_string(),
        title: dir.to_uppercase(),
        description: format!("Auto-generated theme from {dir}"),
        image: String::new(),
        is_system,
        is_custom,
        colors: Some(palette("#1a1a1a")),
    }
}

fn dirs(themes: &[SysTheme]) -> Vec<String> {
    themes.iter().map(|t| t.dir.clone()).collect()
}

#[test]
fn round_trip_returns_what_was_cached() {
    let mut cache = ThemeCache::new(config(100));
    let themes = vec![theme("dracula", true, false), theme("my-theme", false, true)];
    cache.cache_themes(themes.clone(), false, 1_000).unwrap();
    let back = cache.get_themes();
    assert_eq!(dirs(&back), vec!["dracula", "my-theme"]);
    assert_eq!(back[1].is_custom, true);
    assert_eq!(back[0].colors.as_ref().unwrap().primary.background, "#1a1a1a");
    assert!(cache.is_cache_valid(1_000));
    assert!(cache.is_cache_valid(1_000 + 5 * MINUTE - 1));
    assert!(!cache.is_cache_valid(1_000 + 5 * MINUTE));
}

#[test]
fn invalidate_theme_keeps_the_others() {
    let mut cache = ThemeCache::new(config(100));
    let themes = vec![theme("a", true, false), theme("b", false, true), theme("c", false, false)];
    cache.cache_themes(themes, false, 0).unwrap();
    cache.invalidate_theme("b");
    assert_eq!(dirs(&cache.get_themes()), vec!["a", "c"]);
    assert!(cache.is_cache_valid(10));
    cache.invalidate_themes(&vec!["a".to_string(), "c".to_string()]);
    assert!(cache.is_empty());
    assert!(!cache.is_cache_valid(10));
}

#[test]
fn invalidate_by_kind() {
    let mut cache = ThemeCache::new(config(100));
    let themes = vec![theme("sys", true, false), theme("mine", false, true), theme("plain", false, false)];
    cache.cache_themes(themes.clone(), false, 0).unwrap();
    cache.invalidate_custom_themes();
    assert_eq!(dirs(&cache.get_themes()), vec!["sys", "plain"]);
    cache.cache_themes(themes, false, 0).unwrap();
    cache.invalidate_system_themes();
    assert_eq!(dirs(&cache.get_themes()), vec!["mine", "plain"]);
    cache.invalidate_scope(&InvalidationScope::All);
    assert!(cache.is_empty());
    assert!(!cache.is_cache_valid(0));
}

#[test]
fn failed_refresh_keeps_the_snapshot() {
    let mut cache = ThemeCache::new(config(100));
    cache.cache_themes(vec![theme("a", true, false)], false, 0).unwrap();
    let r = cache.trigger_background_refresh(Err(ThemeError::RootNotFound("gone".to_string())), 50);
    assert!(matches!(r, Err(ThemeError::RootNotFound(_))));
    assert_eq!(dirs(&cache.get_themes()), vec!["a"]);
    assert!(cache.is_cache_valid(50));
    assert!(!cache.is_cache_valid(5 * MINUTE));
}

#[test]
fn successful_refresh_replaces_the_snapshot() {
    let mut cache = ThemeCache::new(config(100));
    cache.cache_themes(vec![theme("a", true, false)], false, 0).unwrap();
    let r = cache.trigger_background_refresh(Ok(vec![theme("b", false, false)]), 10 * MINUTE);
    assert_eq!(dirs(&r.unwrap()), vec!["b"]);
    assert_eq!(dirs(&cache.get_themes()), vec!["b"]);
    assert!(cache.is_cache_valid(10 * MINUTE + 1));
}

#[test]
fn empty_scan_is_never_valid() {
    let mut cache = ThemeCache::new(config(100));
    cache.cache_themes(Vec::new(), false, 0).unwrap();
    assert!(cache.get_themes().is_empty());
    assert!(!cache.is_cache_valid(0));
    assert!(cache.cached_themes(0).is_none());
}

#[test]
fn oversized_snapshot_is_refused() {
    let mut cache = ThemeCache::new(config(1));
    cache.cache_themes(vec![theme("a", true, false)], false, 0).unwrap();
    let r = cache.cache_themes(vec![theme("b", true, false), theme("c", true, false)], false, 5);
    assert!(matches!(r, Err(ThemeError::CacheTooLarge { size: 2, max: 1 })));
    assert_eq!(dirs(&cache.get_themes()), vec!["a"]);
}

#[test]
fn partial_update_replaces_matching_entries() {
    let mut cache = ThemeCache::new(config(100));
    cache.cache_themes(vec![theme("a", true, false), theme("b", true, false)], false, 0).unwrap();
    let mut newer = theme("a", false, true);
    newer.image = "data:image/png;base64,".to_string();
    cache.cache_themes(vec![newer, theme("d", false, false)], true, 7).unwrap();
    let back = cache.get_themes();
    assert_eq!(dirs(&back), vec!["b", "a", "d"]);
    assert!(back[1].is_custom);
    assert_eq!(back[1].image, "data:image/png;base64,");
}

#[test]
fn miss_falls_back_to_stale_themes() {
    let mut cache = ThemeCache::new(config(100));
    cache.cache_themes(vec![theme("old", true, false)], false, 0).unwrap();
    let late = 60 * MINUTE;
    assert!(cache.cached_themes(late).is_none());
    let served = cache.serve_after_load(Err(ThemeError::Io("read".to_string())), late).unwrap();
    assert_eq!(dirs(&served), vec!["old"]);

    let mut empty = ThemeCache::new(config(100));
    let r = empty.serve_after_load(Err(ThemeError::Io("read".to_string())), late);
    assert!(matches!(r, Err(ThemeError::Io(_))));

    let served = cache.serve_after_load(Ok(vec![theme("new", false, false)]), late).unwrap();
    assert_eq!(dirs(&served), vec!["new"]);
    assert_eq!(dirs(&cache.cached_themes(late).unwrap()), vec!["new"]);
}

#[test]
fn preload_reports_errors() {
    let mut cache = ThemeCache::new(config(1));
    let r = cache.finish_preload(Err(ThemeError::InvalidDirectoryName), 0);
    assert!(matches!(r, Err(ThemeError::InvalidDirectoryName)));
    let r = cache.finish_preload(Ok(vec![theme("a", true, false), theme("b", true, false)]), 0);
    assert!(matches!(r, Err(ThemeError::CacheTooLarge { .. })));
    assert!(cache.finish_preload(Ok(vec![theme("a", true, false)]), 0).is_ok());
    assert!(cache.is_cache_valid(1));
}

#[test]
fn stats_report_both_caches() {
    let mut cache = ThemeCache::new(config(100));
    let s = cache.cache_stats(3, 0);
    assert_eq!((s.color_cache_size, s.theme_cache_populated, s.theme_cache_valid), (3, false, false));
    cache.cache_themes(vec![theme("a", true, false)], false, 0).unwrap();
    let s = cache.cache_stats(0, 1);
    assert_eq!((s.color_cache_size, s.theme_cache_populated, s.theme_cache_valid), (0, true, true));
}

#[test]
fn config_update_keeps_the_snapshot() {
    let mut cache = ThemeCache::new(config(100));
    cache.cache_themes(vec![theme("a", true, false)], false, 0).unwrap();
    let mut c = config(100);
    c.cache_duration_minutes = 1;
    cache.update_config(c);
    assert_eq!(cache.config().cache_duration_minutes, 1);
    assert!(!cache.is_cache_valid(MINUTE));
    assert_eq!(dirs(&cache.get_themes()), vec!["a"]);
}

use theme_loader::loader::{extract_theme_colors_direct, generate_theme_from_directory};
use theme_loader::sources::{palette_from_config_text, palette_from_metadata_text};
use theme_loader::theme::ThemeDirFacts;

const CUSTOM_THEME_JSON: &str = r##"{"alacritty":{"colors":{"primary":{"background":"#121212","foreground":"#bebebe"},"normal":{"black":"#333333","red":"#D35F5F","green":"#FFC107","yellow":"#b91c1c","blue":"#e68e0d","magenta":"#D35F5F","cyan":"#bebebe","white":"#bebebe"}}}}"##;

const SYSTEM_THEME_TOML: &str = "[colors.primary]\nbackground = \"#1a1a1a\"\nforeground = \"#ffffff\"\n\n[colors.normal]\nblack = \"#000000\"\nred = \"#ff5555\"\ngreen = \"#50fa7b\"\nyellow = \"#f1fa8c\"\nblue = \"#8be9fd\"\nmagenta = \"#ff79c6\"\ncyan = \"#8be9fd\"\nwhite = \"#ffffff\"";

fn facts(dir: &str, custom: bool, config: bool) -> ThemeDirFacts {
    ThemeDirFacts {
        dir_name: dir.to_string(),
        has_custom_metadata: custom,
        is_symlink: false,
        has_color_config: config,
    }
}

/// The cascade over document texts, as the application runs it over files.
fn colors_of(is_custom: bool, metadata: Option<&str>, config: Option<&str>) -> Option<theme_loader::palette::ThemeColors> {
    extract_theme_colors_direct(
        is_custom,
        || metadata.and_then(palette_from_metadata_text),
        || config.and_then(palette_from_config_text),
    )
}

#[test]
fn test_generate_theme_from_directory_with_custom_theme() {
    let f = facts("test-theme", true, false);
    let theme = generate_theme_from_directory(&f, colors_of(true, Some(CUSTOM_THEME_JSON), None), String::new());
    assert_eq!(theme.dir, "test-theme");
    assert_eq!(theme.title, "Test Theme");
    assert!(theme.is_custom);
    assert!(!theme.is_system);

    // Verify colors were extracted
    assert!(theme.colors.is_some());
    let colors = theme.colors.unwrap();
    assert_eq!(colors.primary.background, "#121212");
    assert_eq!(colors.primary.foreground, "#bebebe");
    assert_eq!(colors.terminal.red, "#d35f5f");
    assert_eq!(colors.terminal.green, "#ffc107");
}

#[test]
fn test_generate_theme_from_directory_with_alacritty_config() {
    let f = facts("system-theme", false, true);
    let theme = generate_theme_from_directory(&f, colors_of(false, None, Some(SYSTEM_THEME_TOML)), String::new());
    assert_eq!(theme.dir, "system-theme");
    assert_eq!(theme.title, "System Theme");
    assert!(!theme.is_custom);
    assert!(!theme.is_system); // Not a symlink here

    // Verify colors were extracted
    assert!(theme.colors.is_some());
    let colors = theme.colors.unwrap();
    assert_eq!(colors.primary.background, "#1a1a1a");
    assert_eq!(colors.primary.foreground, "#ffffff");
    assert_eq!(colors.terminal.red, "#ff5555");
    assert_eq!(colors.terminal.green, "#50fa7b");
}

#[test]
fn test_generate_theme_from_directory_without_color_config() {
    let f = facts("no-colors-theme", false, false);
    let theme = generate_theme_from_directory(&f, colors_of(false, None, None), String::new());
    assert_eq!(theme.dir, "no-colors-theme");
    assert_eq!(theme.title, "No Colors Theme");
    assert!(!theme.is_custom);
    assert!(!theme.is_system);

    // Verify no colors were extracted
    assert!(theme.colors.is_none());
}

#[test]
fn test_extract_theme_colors_custom_theme() {
    let text = r##"{"alacritty":{"colors":{"primary":{"background":"#000000","foreground":"#ffffff"},"normal":{"red":"#ff0000","green":"#00ff00","yellow":"#ffff00","blue":"#0000ff","magenta":"#ff00ff","cyan":"#00ffff"}}}}"##;
    let colors = colors_of(true, Some(text), None);
    assert!(colors.is_some());

    let colors = colors.unwrap();
    assert_eq!(colors.primary.background, "#000000");
    assert_eq!(colors.primary.foreground, "#ffffff");
    assert_eq!(colors.terminal.red, "#ff0000");
    assert_eq!(colors.terminal.green, "#00ff00");
}

#[test]
fn test_extract_theme_colors_alacritty_config() {
    let text = "[colors.primary]\nbackground = \"#2e3440\"\nforeground = \"#d8dee9\"\n\n[colors.normal]\nred = \"#bf616a\"\ngreen = \"#a3be8c\"\nyellow = \"#ebcb8b\"\nblue = \"#81a1c1\"\nmagenta = \"#b48ead\"\ncyan = \"#88c0d0\"";
    let colors = colors_of(false, None, Some(text));
    assert!(colors.is_some());

    let colors = colors.unwrap();
    assert_eq!(colors.primary.background, "#2e3440");
    assert_eq!(colors.primary.foreground, "#d8dee9");
    assert_eq!(colors.terminal.red, "#bf616a");
    assert_eq!(colors.terminal.green, "#a3be8c");
}

#[test]
fn test_extract_theme_colors_no_config() {
    let colors = colors_of(false, None, None);
    assert!(colors.is_none());

    let colors = colors_of(true, None, None);
    assert!(colors.is_none());
}

#[test]
fn custom_theme_falls_back_to_the_config_file() {
    let colors = colors_of(true, Some("{\"name\": \"x\"}"), Some(SYSTEM_THEME_TOML)).unwrap();
    assert_eq!(colors.primary.background, "#1a1a1a");
    let colors = colors_of(false, Some(CUSTOM_THEME_JSON), Some(SYSTEM_THEME_TOML)).unwrap();
    assert_eq!(colors.primary.background, "#1a1a1a");
}

#[test]
fn malformed_documents_give_no_palette() {
    assert!(palette_from_metadata_text("{not json").is_none());
    assert!(palette_from_config_text("[colors.primary\nbackground =").is_none());
    assert!(palette_from_config_text("[colors.primary]\nbackground = \"#000000\"").is_none());
    assert!(palette_from_metadata_text(r##"{"alacritty":{"colors":{"primary":{"background":1,"foreground":"#fff"}}}}"##).is_none());
}

#[test]
fn missing_named_colors_take_defaults_from_a_document() {
    let text = "[colors.primary]\nbackground = \"#2E3440\"\nforeground = \"#D8DEE9\"";
    let colors = palette_from_config_text(text).unwrap();
    assert_eq!(colors.primary.background, "#2e3440");
    assert_eq!(colors.terminal.black, "#000000");
    assert_eq!(colors.terminal.white, "#ffffff");
}

#[test]
fn test_get_sys_themes_error_handling() {
    // A directory that does not exist offers neither color source, so no
    // palette comes out, whether the theme counts as custom or not.
    let colors = colors_of(false, None, None);
    assert!(colors.is_none());

    let colors = colors_of(true, None, None);
    assert!(colors.is_none());
}

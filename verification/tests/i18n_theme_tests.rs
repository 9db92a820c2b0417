use clipmanager::i18n::{I18n, Language, TextKey, get_chinese_texts, get_english_texts};
use clipmanager::theme::{ThemeConfig, ThemeManager, ThemeMode};

#[test]
fn test_text_lookup() {
    let mut i18n = I18n::new();
    assert_eq!(i18n.get_language(), Language::English);
    assert_eq!(i18n.text(TextKey::AppTitle), "ClipManager");
    assert_eq!(i18n.text(TextKey::ContentExists), "Content already exists");
    assert_eq!(i18n.text(TextKey::ClearAll), "Clear All");

    i18n.set_language(Language::Chinese);
    assert_eq!(i18n.get_language(), Language::Chinese);
    assert_eq!(i18n.text(TextKey::AppTitle), "剪切板管理器");
    assert_eq!(i18n.text(TextKey::ContentExists), "内容已存在");
    assert_eq!(i18n.text(TextKey::ClearAll), "清空全部");
}

#[test]
fn test_text_tables_are_complete() {
    let english = get_english_texts();
    let chinese = get_chinese_texts();
    assert_eq!(english.len(), 32);
    assert_eq!(chinese.len(), 32);

    let i18n = I18n::new();
    for (key, text) in english {
        assert_eq!(i18n.text(key), text);
        assert!(!text.is_empty());
    }
    let mut zh = I18n::new();
    zh.set_language(Language::Chinese);
    for (key, text) in chinese {
        assert_eq!(zh.text(key), text);
        assert!(!text.is_empty());
    }
}

#[test]
fn test_default_language() {
    assert_eq!(Language::default(), Language::English);
    assert_eq!(I18n::default().get_language(), Language::English);
}

#[test]
fn test_theme_defaults_and_names() {
    assert_eq!(ThemeMode::default(), ThemeMode::System);
    assert_eq!(ThemeConfig::default().mode, ThemeMode::System);

    let manager = ThemeManager::new(&ThemeConfig { mode: ThemeMode::Light });
    assert_eq!(*manager.get_current_mode(), ThemeMode::Light);
    assert_eq!(manager.get_theme_name(), "Light");
    assert_eq!(manager.get_theme_icon(), "🌞");

    let dark = ThemeManager::new(&ThemeConfig { mode: ThemeMode::Dark });
    assert_eq!(dark.get_theme_name(), "Dark");
    assert_eq!(dark.get_theme_icon(), "🌙");

    let system = ThemeManager::default();
    assert_eq!(system.get_theme_name(), "System");
    assert_eq!(system.get_theme_icon(), "🖥️");
}

#[test]
fn test_theme_toggle() {
    let mut manager = ThemeManager::new(&ThemeConfig { mode: ThemeMode::Light });
    assert_eq!(manager.toggle_theme(false), ThemeMode::Dark);
    assert_eq!(*manager.get_current_mode(), ThemeMode::Dark);
    assert_eq!(manager.toggle_theme(false), ThemeMode::Light);

    // from the system mode the toggle moves opposite to the system preference
    let mut sys = ThemeManager::default();
    assert_eq!(sys.toggle_theme(true), ThemeMode::Light);
    let mut sys2 = ThemeManager::default();
    assert_eq!(sys2.toggle_theme(false), ThemeMode::Dark);

    let mut set = ThemeManager::default();
    set.set_theme(ThemeMode::Dark);
    assert_eq!(*set.get_current_mode(), ThemeMode::Dark);
}

use yaesandbox_launcher::config::{get_ini_value, normalize_comments};
use yaesandbox_launcher::document::{
    get_config_as_entries, get_config_path, get_document_as_string, get_value, load_or_initialize,
    DEFAULT_CONFIG_START,
};
use yaesandbox_launcher::settings::{
    delete_file, effective_proxy, find_theme, get_theme_from_string, plan_delete_file,
    theme_change_needed, FileProbe, ThemeChoice,
};
use yaesandbox_launcher::error::LauncherError;
use yaesandbox_launcher::paths::AppState;

const INI: &str = "; comment\n[General]\nbackend_port = 1\n\n[Network]\r\n  backend_port = \"60983\"  \nproxy=\n[Other]\nbackend_port = 3\n";

#[test]
fn ini_value_is_read_from_its_section() {
    assert_eq!(get_ini_value(INI, "Network", "backend_port").unwrap(), "60983");
    assert_eq!(get_ini_value(INI, "General", "backend_port").unwrap(), "1");
    assert_eq!(get_ini_value(INI, "Other", "backend_port").unwrap(), "3");
    assert_eq!(get_ini_value(INI, "Network", "proxy").unwrap(), "");
    assert!(get_ini_value(INI, "Network", "missing").is_none());
    assert!(get_ini_value(INI, "Nowhere", "backend_port").is_none());
    assert!(get_ini_value("", "Network", "backend_port").is_none());
    assert_eq!(get_ini_value("[a]\nk = x = y", "a", "k").unwrap(), "x = y");
}

#[test]
fn legacy_comments_become_toml_comments() {
    assert_eq!(normalize_comments("; a\n  ;b\nkey = 1 ; x\n# c"), "# a\n  #b\nkey = 1 ; x\n# c");
    assert_eq!(normalize_comments("a\r\nb\n"), "a\nb");
    assert_eq!(normalize_comments(""), "");
    assert_eq!(normalize_comments(";;"), "#;");
}

#[test]
fn fresh_config_is_completed_with_defaults() {
    let loaded = load_or_initialize(DEFAULT_CONFIG_START, false);
    assert!(!loaded.corrupt);
    assert!(loaded.needs_save);
    let entries = get_config_as_entries(&loaded.doc);
    let pairs: Vec<(&str, &str, &str)> =
        entries.iter().map(|e| (e.section.as_str(), e.key.as_str(), e.value.as_str())).collect();
    assert_eq!(pairs[0], ("Appearance", "theme", "auto"));
    assert_eq!(pairs[3], ("Network", "backend_port", "60983"));
    assert_eq!(pairs[4], ("Network", "proxy_address", ""));
    assert_eq!(entries.len(), 5);
    assert!(!entries[0].comments.is_empty());
    let text = get_document_as_string(&loaded.doc);
    assert!(text.contains("[Network]"));
    assert!(text.contains("backend_port = \"60983\""));
    assert!(text.contains("# 后端服务监听的本地端口。\n"));
    assert!(text.contains("（例如 10000-65535 之间）。\nbackend_port"));
    assert!(text.contains("# --- YAESandBox 启动器配置 ---"));
}

#[test]
fn existing_values_and_comments_are_kept() {
    let raw = "; my notes\n[Network]\nbackend_port = \"12345\"\n";
    let loaded = load_or_initialize(raw, true);
    assert!(!loaded.corrupt);
    assert!(loaded.needs_save);
    assert_eq!(get_value(&loaded.doc, "Network", "backend_port").unwrap(), "12345");
    assert_eq!(get_value(&loaded.doc, "Appearance", "theme").unwrap(), "auto");
    let text = get_document_as_string(&loaded.doc);
    assert!(text.contains("# my notes"));
    let again = load_or_initialize(&text, true);
    assert!(!again.needs_save);
}

#[test]
fn unknown_keys_survive_loading() {
    let loaded = load_or_initialize("[Network]\nextra = \"x\"\n[Custom]\nk = \"v\"\n", true);
    assert_eq!(get_value(&loaded.doc, "Network", "extra").unwrap(), "x");
    assert_eq!(get_value(&loaded.doc, "Custom", "k").unwrap(), "v");
    assert_eq!(get_value(&loaded.doc, "Network", "backend_port").unwrap(), "60983");
}

#[test]
fn values_of_any_type_survive_loading() {
    let raw = "top = 1\n[Network]\nretries = 3\n[Custom.sub]\nx = [1, 2]\n";
    let loaded = load_or_initialize(raw, true);
    assert!(!loaded.corrupt);
    assert!(loaded.needs_save);
    let text = get_document_as_string(&loaded.doc);
    assert!(text.contains("top = 1"));
    assert!(text.contains("retries = 3"));
    assert!(text.contains("[Custom.sub]\nx = [1, 2]"));
}

#[test]
fn entries_carry_their_comment_lines() {
    let loaded = load_or_initialize(DEFAULT_CONFIG_START, false);
    let entries = get_config_as_entries(&loaded.doc);
    assert_eq!(entries[0].comments[0], "# 应用主题设置。");
    assert_eq!(entries[0].comments.len(), 4);
    assert_eq!(entries[4].comments[3], "# 如果不需要代理，请留空。");
}

#[test]
fn corrupt_config_is_replaced_by_defaults() {
    let loaded = load_or_initialize("[Network\nbackend_port = = =", true);
    assert!(loaded.corrupt);
    assert!(loaded.needs_save);
    assert_eq!(get_value(&loaded.doc, "Network", "backend_port").unwrap(), "60983");
}

#[test]
fn config_path_is_beside_executable() {
    assert_eq!(get_config_path("/opt/launcher"), "/opt/launcher/launcher.config");
}

#[test]
fn theme_strings_map_to_choices() {
    assert_eq!(get_theme_from_string("light"), ThemeChoice::Light);
    assert_eq!(get_theme_from_string("dark"), ThemeChoice::Dark);
    assert_eq!(get_theme_from_string("auto"), ThemeChoice::FollowSystem);
    assert_eq!(get_theme_from_string("Dark"), ThemeChoice::FollowSystem);
    assert!(theme_change_needed(None, "dark"));
    assert!(!theme_change_needed(None, "auto"));
    assert!(!theme_change_needed(Some("dark".to_string()), "dark"));
}

#[test]
fn submitted_theme_is_found() {
    let loaded = load_or_initialize(DEFAULT_CONFIG_START, false);
    let mut entries = get_config_as_entries(&loaded.doc);
    assert_eq!(find_theme(&entries).unwrap(), "auto");
    entries[0].value = "dark".to_string();
    assert_eq!(find_theme(&entries).unwrap(), "dark");
    entries.remove(0);
    assert!(find_theme(&entries).is_none());
}

#[test]
fn blank_proxy_is_ignored() {
    assert!(effective_proxy(None).is_none());
    assert!(effective_proxy(Some("  ")).is_none());
    assert_eq!(effective_proxy(Some("http://127.0.0.1:7890")).unwrap(), "http://127.0.0.1:7890");
}

#[test]
fn delete_file_refuses_root_and_directories() {
    let s = AppState::new("/opt/launcher".to_string());
    assert!(matches!(plan_delete_file(&s, "."), Err(LauncherError::RootTarget)));
    assert_eq!(plan_delete_file(&s, "a.zip").unwrap(), "/opt/launcher/a.zip");
    assert!(matches!(delete_file(FileProbe::Directory), Err(LauncherError::NotAFile)));
    assert!(matches!(delete_file(FileProbe::File), Ok(true)));
    assert!(matches!(delete_file(FileProbe::Absent), Ok(false)));
}

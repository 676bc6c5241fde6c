use model_viewer::named_map::NamedMap;
use model_viewer::settings::RenderSettings;

#[test]
fn defaults() {
    let s = RenderSettings::new();
    assert_eq!(s.debug_mode, 0);
    assert_eq!(s.ssao_kernel_size, 16);
    assert!(s.changed);
    assert!(!s.light_follows_camera);
    assert!(s.pass_names().is_empty());
}

#[test]
fn passes_without_a_state_are_enabled() {
    let s = RenderSettings::new();
    assert!(s.is_pass_enabled("SSAO"));
    assert!(s.is_pass_enabled(""));
}

#[test]
fn pass_state_reads_back() {
    let mut s = RenderSettings::new();
    s.set_pass_enabled("SSAO", false);
    assert!(!s.is_pass_enabled("SSAO"));
    assert!(s.is_pass_enabled("Blur"));
    s.set_pass_enabled("Blur", true);
    s.set_pass_enabled("SSAO", true);
    assert!(s.is_pass_enabled("SSAO"));
    assert_eq!(s.pass_names(), vec!["SSAO".to_string(), "Blur".to_string()]);
}

#[test]
fn names_are_case_sensitive() {
    let mut s = RenderSettings::new();
    s.set_pass_enabled("ssao", false);
    assert!(s.is_pass_enabled("SSAO"));
    assert!(!s.is_pass_enabled("ssao"));
}

#[test]
fn named_map_insert_get() {
    let mut m: NamedMap<u32> = NamedMap::new();
    assert_eq!(m.len(), 0);
    m.insert("a".to_string(), 1);
    m.insert("b".to_string(), 2);
    m.insert("a".to_string(), 3);
    assert_eq!(m.get("a"), Some(&3));
    assert_eq!(m.get("b"), Some(&2));
    assert_eq!(m.get("c"), None);
    assert!(m.contains_key("b"));
    assert!(!m.contains_key("ab"));
    assert_eq!(m.len(), 2);
    assert_eq!(m.names(), vec!["a".to_string(), "b".to_string()]);
}

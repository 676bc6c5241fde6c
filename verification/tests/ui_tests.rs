use model_viewer::ui::{
    example_glb_path, example_gltf_path, example_label, example_model_path, resource_path,
    sort_texts, text_le, AppUi,
};

fn strings(v: &[&str]) -> Vec<String> {
    v.iter().map(|s| s.to_string()).collect()
}

#[test]
fn texts_sort_by_code_point() {
    let sorted = sort_texts(strings(&["b", "a", "B", "ab", "", "a"]));
    assert_eq!(sorted, strings(&["", "B", "a", "a", "ab", "b"]));
}

#[test]
fn sort_agrees_with_std() {
    let input = strings(&["gltf-models/Duck", "gltf-models/Box", "gltf-models/Avocado", "zz", "Zé", "Ze", "é"]);
    let mut expected = input.clone();
    expected.sort();
    assert_eq!(sort_texts(input), expected);
}

#[test]
fn text_order() {
    assert!(text_le("", "a"));
    assert!(text_le("a", "a"));
    assert!(text_le("a", "ab"));
    assert!(!text_le("ab", "a"));
    assert!(text_le("B", "a"));
    assert!(!text_le("b", "a"));
}

#[test]
fn example_paths() {
    assert_eq!(example_gltf_path("Box"), "gltf-models/Box/glTF/Box.gltf");
    assert_eq!(example_glb_path("Box"), "gltf-models/Box/glTF-Binary/Box.glb");
    assert_eq!(resource_path("gltf-models/Box/glTF/Box.gltf"), "res/gltf-models/Box/glTF/Box.gltf");
}

#[test]
fn example_model_prefers_text_gltf() {
    assert_eq!(example_model_path("Duck", true, true), Some("gltf-models/Duck/glTF/Duck.gltf".to_string()));
    assert_eq!(
        example_model_path("Duck", false, true),
        Some("gltf-models/Duck/glTF-Binary/Duck.glb".to_string())
    );
    assert_eq!(example_model_path("Duck", false, false), None);
}

#[test]
fn example_labels() {
    assert_eq!(example_label("gltf-models/Duck/glTF/Duck.gltf"), "Duck");
    assert_eq!(example_label("gltf-models/Box/glTF-Binary/Box.glb"), "Box");
    assert_eq!(example_label(""), "Unknown Model");
}

#[test]
fn app_ui_panels_toggle() {
    let mut ui = AppUi::new(strings(&["gltf-models/Duck/glTF/Duck.gltf", "gltf-models/Box/glTF/Box.gltf"]));
    assert!(!ui.is_view_panel_open());
    assert!(!ui.is_model_panel_open());
    assert_eq!(
        ui.example_models(),
        &strings(&["gltf-models/Box/glTF/Box.gltf", "gltf-models/Duck/glTF/Duck.gltf"])
    );
    ui.toggle_view_panel();
    assert!(ui.is_view_panel_open());
    assert!(!ui.is_model_panel_open());
    ui.toggle_model_panel();
    ui.toggle_view_panel();
    assert!(!ui.is_view_panel_open());
    assert!(ui.is_model_panel_open());
}

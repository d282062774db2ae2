use bevy_smud::editor::{
    add_unique_shader_import_path, position_of_name, tab_after_delete, EditorState, SelectedTab,
    ShaderKind, Template, Templates,
};

fn template(name: &str, code: &str) -> Template {
    Template { name: name.to_string(), code: code.to_string() }
}

#[test]
fn ids_are_handed_out_in_order() {
    let mut state = EditorState::default();
    assert_eq!(state.create_shader(), 0);
    assert_eq!(state.create_shader(), 1);
    assert_eq!(state.create_shape(), 0);
    assert_eq!(state.selected_tab, SelectedTab::Shape(0));
    assert_eq!(state.scroll_to, Some(0));
    assert_eq!(state.create_shape(), 1);
    assert_eq!(state.next_shader_id, 2);
    assert_eq!(state.selected_shape(), Some(1));
}

#[test]
fn selecting_tabs_and_scrolling() {
    let mut state = EditorState::default();
    state.select_tab(SelectedTab::Shape(4));
    assert_eq!(state.scroll_to, Some(4));
    state.select_tab(SelectedTab::Global);
    assert_eq!(state.selected_tab, SelectedTab::Global);
    assert_eq!(state.scroll_to, Some(4));
    assert_eq!(state.selected_shape(), None);
    assert!(!state.take_scroll_to(3));
    assert!(state.take_scroll_to(4));
    assert_eq!(state.scroll_to, None);
    assert!(!state.take_scroll_to(4));
}

#[test]
fn shader_kind_names() {
    assert_eq!(ShaderKind::Sdf.name(), "sdf");
    assert_eq!(ShaderKind::Fill.name(), "fill");
}

#[test]
fn unique_import_path_replaces_the_old_one() {
    let mut state = EditorState::default();
    state.next_shader_id = 41;
    let code = "#define_import_path my::shape\nfn sdf() -> f32 {\r\n    return 1.0;\n}";
    let unique = add_unique_shader_import_path(code, &mut state);
    assert_eq!(
        unique,
        "#define_import_path smud_editor::shader_41\nfn sdf() -> f32 {\n    return 1.0;\n}\n"
    );
    assert_eq!(state.next_shader_id, 42);
}

#[test]
fn unique_import_path_keeps_blank_lines_and_a_trailing_cr() {
    let mut state = EditorState::default();
    let unique = add_unique_shader_import_path("a\n\n  // #define_import_path x\nb\r", &mut state);
    assert_eq!(unique, "#define_import_path smud_editor::shader_0\na\n\nb\r\n");
    let empty = add_unique_shader_import_path("", &mut state);
    assert_eq!(empty, "#define_import_path smud_editor::shader_1\n");
    let code = "x\ny\n";
    let lines: String = code.lines().map(|l| format!("{l}\n")).collect();
    assert_eq!(
        add_unique_shader_import_path(code, &mut state),
        format!("#define_import_path smud_editor::shader_2\n{lines}")
    );
}

#[test]
fn templates_default_to_circle_and_simple() {
    let templates = Templates::new(
        vec![template("box", "b"), template("circle", "c1"), template("circle", "c2")],
        vec![template("outline", "o")],
    );
    assert_eq!(templates.default_sdf, Some(1));
    assert_eq!(templates.default_fill, None);
    assert_eq!(templates.default_template(ShaderKind::Sdf).unwrap().code, "c1");
    assert!(templates.default_template(ShaderKind::Fill).is_none());
    assert_eq!(templates.all_templates(ShaderKind::Fill).len(), 1);
    assert_eq!(position_of_name(&templates.sdf, "box"), Some(0));
    assert_eq!(position_of_name(&templates.sdf, "star"), None);
}

#[test]
fn deleting_a_shape_selects_a_neighbour() {
    assert_eq!(tab_after_delete(&vec![1, 3, 5, 8], 5), SelectedTab::Shape(3));
    assert_eq!(tab_after_delete(&vec![8, 5, 1, 3], 5), SelectedTab::Shape(3));
    assert_eq!(tab_after_delete(&vec![1, 3, 5, 8], 1), SelectedTab::Shape(3));
    assert_eq!(tab_after_delete(&vec![7, 2, 9], 2), SelectedTab::Shape(7));
    assert_eq!(tab_after_delete(&vec![4], 4), SelectedTab::Global);
    assert_eq!(tab_after_delete(&vec![], 4), SelectedTab::Global);
}

#[test]
fn new_shapes_start_from_the_default_templates() {
    let templates = Templates::new(
        vec![template("circle", "return sd_circle(p, 50.);")],
        vec![template("cubic", "c")],
    );
    assert_eq!(templates.default_code(ShaderKind::Sdf), "return sd_circle(p, 50.);");
    assert_eq!(templates.default_code(ShaderKind::Fill), "");
}

#[test]
fn successive_compiles_get_different_import_paths() {
    let mut state = EditorState::default();
    let first = add_unique_shader_import_path("fn sdf() {}", &mut state);
    let second = add_unique_shader_import_path("fn sdf() {}", &mut state);
    assert_ne!(first, second);
    assert!(first.starts_with("#define_import_path smud_editor::shader_0\n"));
    assert!(second.starts_with("#define_import_path smud_editor::shader_1\n"));
}

#[test]
fn import_path_ids_are_written_in_decimal() {
    let mut state = EditorState::default();
    state.next_shader_id = 1000;
    assert_eq!(
        add_unique_shader_import_path("", &mut state),
        "#define_import_path smud_editor::shader_1000\n"
    );
    state.next_shader_id = u32::MAX - 1;
    assert_eq!(
        add_unique_shader_import_path("", &mut state),
        "#define_import_path smud_editor::shader_4294967294\n"
    );
}

use desktop_bundler::helper::{
    helper_identifier, helper_name, names_kind, select_kinds, HelperKind,
};

#[test]
fn table_lists_the_five_kinds_in_order() {
    assert_eq!(
        HelperKind::all(),
        vec![
            HelperKind::Base,
            HelperKind::Gpu,
            HelperKind::Renderer,
            HelperKind::Plugin,
            HelperKind::Alerts,
        ]
    );
}

#[test]
fn tags_are_those_of_the_framework() {
    assert_eq!(HelperKind::Base.tag(), None);
    assert_eq!(HelperKind::Gpu.tag(), Some("GPU"));
    assert_eq!(HelperKind::Renderer.tag(), Some("Renderer"));
    assert_eq!(HelperKind::Plugin.tag(), Some("Plugin"));
    assert_eq!(HelperKind::Alerts.tag(), Some("Alerts"));
}

#[test]
fn base_kind_has_empty_suffixes() {
    assert_eq!(HelperKind::Base.id_suffix(), "");
    assert_eq!(HelperKind::Base.name_suffix(), "");
}

#[test]
fn tagged_kinds_have_dotted_and_parenthesised_suffixes() {
    assert_eq!(HelperKind::Gpu.id_suffix(), ".GPU");
    assert_eq!(HelperKind::Gpu.name_suffix(), " (GPU)");
    assert_eq!(HelperKind::Renderer.id_suffix(), ".Renderer");
    assert_eq!(HelperKind::Renderer.name_suffix(), " (Renderer)");
    assert_eq!(HelperKind::Plugin.id_suffix(), ".Plugin");
    assert_eq!(HelperKind::Plugin.name_suffix(), " (Plugin)");
    assert_eq!(HelperKind::Alerts.id_suffix(), ".Alerts");
    assert_eq!(HelperKind::Alerts.name_suffix(), " (Alerts)");
}

#[test]
fn helper_identifiers_of_the_editor() {
    let id = "rs.graphite.GraphiteEditor";
    assert_eq!(helper_identifier(id, HelperKind::Base), "rs.graphite.GraphiteEditor.helper");
    assert_eq!(helper_identifier(id, HelperKind::Gpu), "rs.graphite.GraphiteEditor.helper.GPU");
    assert_eq!(
        helper_identifier(id, HelperKind::Renderer),
        "rs.graphite.GraphiteEditor.helper.Renderer"
    );
    assert_eq!(
        helper_identifier(id, HelperKind::Plugin),
        "rs.graphite.GraphiteEditor.helper.Plugin"
    );
    assert_eq!(
        helper_identifier(id, HelperKind::Alerts),
        "rs.graphite.GraphiteEditor.helper.Alerts"
    );
}

#[test]
fn helper_names_of_the_editor() {
    let name = "Graphite Editor";
    assert_eq!(helper_name(name, HelperKind::Base), "Graphite Editor Helper");
    assert_eq!(helper_name(name, HelperKind::Gpu), "Graphite Editor Helper (GPU)");
    assert_eq!(helper_name(name, HelperKind::Renderer), "Graphite Editor Helper (Renderer)");
    assert_eq!(helper_name(name, HelperKind::Plugin), "Graphite Editor Helper (Plugin)");
    assert_eq!(helper_name(name, HelperKind::Alerts), "Graphite Editor Helper (Alerts)");
}

#[test]
fn helper_identifiers_and_names_are_pairwise_distinct() {
    let kinds = HelperKind::all();
    for (i, a) in kinds.iter().enumerate() {
        for (j, b) in kinds.iter().enumerate() {
            if i != j {
                assert_ne!(helper_identifier("com.example.App", *a), helper_identifier("com.example.App", *b));
                assert_ne!(helper_name("Example", *a), helper_name("Example", *b));
            }
        }
        assert_ne!(helper_identifier("com.example.App", *a), "com.example.App");
        assert_ne!(helper_name("Example", *a), "Example");
    }
}

#[test]
fn helper_names_with_an_empty_application_name() {
    assert_eq!(helper_identifier("", HelperKind::Base), ".helper");
    assert_eq!(helper_name("", HelperKind::Gpu), " Helper (GPU)");
}

#[test]
fn names_kind_finds_what_is_listed() {
    let kinds = vec![HelperKind::Plugin, HelperKind::Base];
    assert!(names_kind(&kinds, HelperKind::Plugin));
    assert!(names_kind(&kinds, HelperKind::Base));
    assert!(!names_kind(&kinds, HelperKind::Gpu));
    assert!(!names_kind(&Vec::new(), HelperKind::Base));
}

#[test]
fn selection_is_in_table_order_and_without_repeats() {
    let wanted = vec![
        HelperKind::Alerts,
        HelperKind::Gpu,
        HelperKind::Alerts,
        HelperKind::Base,
        HelperKind::Gpu,
    ];
    assert_eq!(
        select_kinds(&wanted),
        vec![HelperKind::Base, HelperKind::Gpu, HelperKind::Alerts]
    );
}

#[test]
fn selection_of_nothing_is_empty() {
    assert_eq!(select_kinds(&Vec::new()), Vec::<HelperKind>::new());
}

#[test]
fn selection_of_the_table_is_the_table() {
    assert_eq!(select_kinds(&HelperKind::all()), HelperKind::all());
}

use desktop_bundler::bundle::{bundle, copy_cef, create_app, BundlePlan};
use desktop_bundler::config::{AppConfig, Layout};
use desktop_bundler::descriptor::{
    bundle_dir_name, helper_descriptor, main_descriptor, BundleDescriptor, Role,
};
use desktop_bundler::error::BundleError;
use desktop_bundler::helper::HelperKind;
use desktop_bundler::manifest::InfoPlist;
use desktop_bundler::path::FilePath;
use desktop_bundler::step::Step;

fn example(kinds: Vec<HelperKind>) -> AppConfig {
    AppConfig {
        package: "example-pkg".to_string(),
        identifier: "com.example.App".to_string(),
        name: "Example".to_string(),
        layout: Layout::MacApp { helper_kinds: kinds },
    }
}

fn editor() -> AppConfig {
    AppConfig {
        package: "graphite-desktop-platform-mac".to_string(),
        identifier: "rs.graphite.GraphiteEditor".to_string(),
        name: "Graphite Editor".to_string(),
        layout: Layout::MacApp { helper_kinds: HelperKind::all() },
    }
}

fn editor_for_windows() -> AppConfig {
    AppConfig {
        package: "graphite-desktop-platform-mac".to_string(),
        identifier: "rs.graphite.GraphiteEditor".to_string(),
        name: "Graphite Editor".to_string(),
        layout: Layout::WindowsDir { executable: "graphite-editor.exe".to_string() },
    }
}

fn app_block(bundle: &FilePath, descriptor: &BundleDescriptor) -> Vec<Step> {
    let contents = bundle.join("Contents");
    vec![
        Step::CreateDirAll { path: contents.join("MacOS") },
        Step::CreateDirAll { path: contents.join("Resources") },
        Step::CreateDirAll { path: contents.join("Frameworks") },
        Step::WriteManifest {
            path: contents.join("Info.plist"),
            manifest: InfoPlist::for_bundle(descriptor),
        },
        Step::CopyFile {
            from: descriptor.binary.duplicate(),
            to: contents.join("MacOS").join(&descriptor.executable),
        },
    ]
}

fn manifests(plan: &BundlePlan) -> Vec<(String, String)> {
    let mut found = Vec::new();
    for step in &plan.steps {
        if let Step::WriteManifest { path, manifest } = step {
            found.push((path.to_text(), manifest.cf_bundle_identifier.clone()));
        }
    }
    found
}

#[test]
fn example_app_with_base_and_gpu_helpers() {
    let out_dir = FilePath::new("/tmp/out");
    let app_bin = FilePath::new("/build").join("example-pkg-app");
    let helper_bin = FilePath::new("/build").join("example-pkg-helper");
    let cef = FilePath::new("/opt/cef");
    let config = example(vec![HelperKind::Base, HelperKind::Gpu]);
    let plan = bundle(&config, &out_dir, &app_bin, &helper_bin, Some(&cef)).unwrap();

    assert_eq!(plan.main_bundle.to_text(), "/tmp/out/Example.app");
    assert_eq!(plan.executable.to_text(), "/tmp/out/Example.app/Contents/MacOS/Example");
    assert_eq!(
        manifests(&plan),
        vec![
            ("/tmp/out/Example.app/Contents/Info.plist".to_string(), "com.example.App".to_string()),
            (
                "/tmp/out/Example.app/Contents/Frameworks/Example Helper.app/Contents/Info.plist"
                    .to_string(),
                "com.example.App.helper".to_string()
            ),
            (
                "/tmp/out/Example.app/Contents/Frameworks/Example Helper (GPU).app/Contents/Info.plist"
                    .to_string(),
                "com.example.App.helper.GPU".to_string()
            ),
        ]
    );

    let main = out_dir.join("Example.app");
    let frameworks = main.join("Contents").join("Frameworks");
    let mut expected = vec![Step::RemoveTree { path: main.duplicate() }];
    expected.extend(app_block(&main, &main_descriptor(&config, &app_bin)));
    expected.push(Step::RemoveTree {
        path: frameworks.join("Chromium Embedded Framework.framework"),
    });
    expected.push(Step::CopyTree {
        from: cef.join("Chromium Embedded Framework.framework"),
        to: frameworks.join("Chromium Embedded Framework.framework"),
    });
    expected.extend(app_block(
        &frameworks.join("Example Helper.app"),
        &helper_descriptor(&config, HelperKind::Base, &helper_bin),
    ));
    expected.extend(app_block(
        &frameworks.join("Example Helper (GPU).app"),
        &helper_descriptor(&config, HelperKind::Gpu, &helper_bin),
    ));
    assert_eq!(plan.steps, expected);
}

#[test]
fn missing_framework_path_plans_nothing() {
    let out_dir = FilePath::new("/tmp/out");
    let bin = FilePath::new("/build/bin");
    assert_eq!(
        bundle(&editor(), &out_dir, &bin, &bin, None),
        Err(BundleError::ConfigurationMissing)
    );
    assert_eq!(
        bundle(&editor_for_windows(), &out_dir, &bin, &bin, None),
        Err(BundleError::ConfigurationMissing)
    );
    assert_eq!(copy_cef(None, &out_dir.join("X.app")), Err(BundleError::ConfigurationMissing));
}

#[test]
fn descriptors_of_the_example() {
    let config = example(vec![HelperKind::Gpu]);
    let bin = FilePath::new("/build/bin");
    assert_eq!(
        main_descriptor(&config, &bin),
        BundleDescriptor {
            identifier: "com.example.App".to_string(),
            display_name: "Example".to_string(),
            executable: "Example".to_string(),
            binary: bin.duplicate(),
            role: Role::Main,
        }
    );
    assert_eq!(
        helper_descriptor(&config, HelperKind::Gpu, &bin),
        BundleDescriptor {
            identifier: "com.example.App.helper.GPU".to_string(),
            display_name: "Example Helper (GPU)".to_string(),
            executable: "Example Helper (GPU)".to_string(),
            binary: bin.duplicate(),
            role: Role::Helper(HelperKind::Gpu),
        }
    );
    assert_eq!(bundle_dir_name(&main_descriptor(&config, &bin), &config.layout), "Example.app");
}

#[test]
fn windows_descriptor_uses_the_configured_executable() {
    let config = editor_for_windows();
    let bin = FilePath::new("/build/bin");
    let main = main_descriptor(&config, &bin);
    assert_eq!(main.executable, "graphite-editor.exe");
    assert_eq!(main.display_name, "Graphite Editor");
    assert_eq!(bundle_dir_name(&main, &config.layout), "Graphite Editor");
}

#[test]
fn bundle_name_with_a_dot_keeps_its_dot() {
    let mut config = example(vec![]);
    config.name = "Example v1.2".to_string();
    let bin = FilePath::new("/build/bin");
    let plan = bundle(&config, &FilePath::new("out"), &bin, &bin, Some(&FilePath::new("cef")))
        .unwrap();
    assert_eq!(plan.main_bundle.to_text(), "out/Example v1.2.app");
}

#[test]
fn create_app_makes_skeleton_manifest_and_executable() {
    let bundle_dir = FilePath::new("/tmp/out").join("Example.app");
    let descriptor = main_descriptor(&example(vec![]), &FilePath::new("/build/bin"));
    assert_eq!(create_app(&bundle_dir, &descriptor), app_block(&bundle_dir, &descriptor));
}

#[test]
fn copy_cef_replaces_the_framework_in_the_main_bundle() {
    let bundle_dir = FilePath::new("/tmp/out").join("Example.app");
    let cef = FilePath::new("/opt/cef");
    let dest = bundle_dir
        .join("Contents")
        .join("Frameworks")
        .join("Chromium Embedded Framework.framework");
    assert_eq!(
        copy_cef(Some(&cef), &bundle_dir),
        Ok(vec![
            Step::RemoveTree { path: dest.duplicate() },
            Step::CopyTree { from: cef.join("Chromium Embedded Framework.framework"), to: dest },
        ])
    );
}

#[test]
fn editor_bundle_has_one_helper_bundle_for_each_kind() {
    let out_dir = FilePath::new("target/release");
    let app_bin = out_dir.join("graphite-desktop-platform-mac-app");
    let helper_bin = out_dir.join("graphite-desktop-platform-mac-helper");
    let plan =
        bundle(&editor(), &out_dir, &app_bin, &helper_bin, Some(&FilePath::new("/cef"))).unwrap();
    let base = "target/release/Graphite Editor.app/Contents/Frameworks/";
    assert_eq!(
        manifests(&plan),
        vec![
            (
                "target/release/Graphite Editor.app/Contents/Info.plist".to_string(),
                "rs.graphite.GraphiteEditor".to_string()
            ),
            (
                format!("{base}Graphite Editor Helper.app/Contents/Info.plist"),
                "rs.graphite.GraphiteEditor.helper".to_string()
            ),
            (
                format!("{base}Graphite Editor Helper (GPU).app/Contents/Info.plist"),
                "rs.graphite.GraphiteEditor.helper.GPU".to_string()
            ),
            (
                format!("{base}Graphite Editor Helper (Renderer).app/Contents/Info.plist"),
                "rs.graphite.GraphiteEditor.helper.Renderer".to_string()
            ),
            (
                format!("{base}Graphite Editor Helper (Plugin).app/Contents/Info.plist"),
                "rs.graphite.GraphiteEditor.helper.Plugin".to_string()
            ),
            (
                format!("{base}Graphite Editor Helper (Alerts).app/Contents/Info.plist"),
                "rs.graphite.GraphiteEditor.helper.Alerts".to_string()
            ),
        ]
    );
    assert_eq!(plan.steps.len(), 1 + 5 + 2 + 5 * 5);
    for step in &plan.steps {
        if let Step::CopyFile { from, to } = step {
            if to.parts.len() > 4 {
                assert_eq!(from, &helper_bin);
            } else {
                assert_eq!(from, &app_bin);
            }
        }
    }
}

#[test]
fn helper_kinds_named_twice_or_out_of_order_get_one_bundle_each_in_table_order() {
    let bin = FilePath::new("/build/bin");
    let config = example(vec![HelperKind::Plugin, HelperKind::Base, HelperKind::Plugin]);
    let plan = bundle(&config, &FilePath::new("/o"), &bin, &bin, Some(&FilePath::new("/cef")))
        .unwrap();
    let ids: Vec<String> = manifests(&plan).into_iter().map(|(_, id)| id).collect();
    assert_eq!(
        ids,
        vec![
            "com.example.App".to_string(),
            "com.example.App.helper".to_string(),
            "com.example.App.helper.Plugin".to_string(),
        ]
    );
}

#[test]
fn framework_is_copied_once_and_into_the_main_bundle_only() {
    let bin = FilePath::new("/build/bin");
    let out_dir = FilePath::new("/o");
    let plan = bundle(&editor(), &out_dir, &bin, &bin, Some(&FilePath::new("/cef"))).unwrap();
    let copies: Vec<&Step> =
        plan.steps.iter().filter(|s| matches!(s, Step::CopyTree { .. })).collect();
    let dest = out_dir
        .join("Graphite Editor.app")
        .join("Contents")
        .join("Frameworks")
        .join("Chromium Embedded Framework.framework");
    assert_eq!(
        copies,
        vec![&Step::CopyTree {
            from: FilePath::new("/cef").join("Chromium Embedded Framework.framework"),
            to: dest,
        }]
    );
    for step in &plan.steps {
        let target = match step {
            Step::RemoveTree { path } => path,
            Step::CreateDirAll { path } => path,
            Step::CopyFile { to, .. } => to,
            Step::CopyTree { to, .. } => to,
            Step::WriteManifest { path, .. } => path,
        };
        // Nothing is put below the frameworks directory of a nested bundle.
        let nested_frameworks =
            target.parts.len() > 6 && target.parts[4] == "Contents" && target.parts[5] == "Frameworks";
        assert!(!nested_frameworks);
    }
}

#[test]
fn plan_starts_by_removing_the_old_bundle() {
    let bin = FilePath::new("/build/bin");
    let out_dir = FilePath::new("/o");
    let mac = bundle(&editor(), &out_dir, &bin, &bin, Some(&FilePath::new("/cef"))).unwrap();
    assert_eq!(mac.steps[0], Step::RemoveTree { path: out_dir.join("Graphite Editor.app") });
    let win =
        bundle(&editor_for_windows(), &out_dir, &bin, &bin, Some(&FilePath::new("/cef"))).unwrap();
    assert_eq!(win.steps[0], Step::RemoveTree { path: out_dir.join("Graphite Editor") });
}

#[test]
fn windows_bundle_is_a_flat_directory() {
    let out_dir = FilePath::new("C:/ws/target/release");
    let app_bin = out_dir.join("graphite-desktop-platform-mac-app.exe");
    let unused = FilePath::new("unused");
    let cef = FilePath::new("C:/cef");
    let plan = bundle(&editor_for_windows(), &out_dir, &app_bin, &unused, Some(&cef)).unwrap();
    let dir = out_dir.join("Graphite Editor");
    assert_eq!(
        plan,
        BundlePlan {
            steps: vec![
                Step::RemoveTree { path: dir.duplicate() },
                Step::CreateDirAll { path: dir.duplicate() },
                Step::CopyTree { from: cef.duplicate(), to: dir.duplicate() },
                Step::CopyFile { from: app_bin.duplicate(), to: dir.join("graphite-editor.exe") },
            ],
            main_bundle: dir.duplicate(),
            executable: dir.join("graphite-editor.exe"),
        }
    );
}

#[test]
fn mac_bundle_without_helpers_is_the_main_bundle_and_the_framework() {
    let bin = FilePath::new("/build/bin");
    let plan =
        bundle(&example(vec![]), &FilePath::new("/o"), &bin, &bin, Some(&FilePath::new("/cef")))
            .unwrap();
    assert_eq!(plan.steps.len(), 1 + 5 + 2);
    assert_eq!(manifests(&plan).len(), 1);
}

use rift::bindings::{migrate_legacy_resize_bindings, key_specs_or_keys, BindingValue};
use rift::hotkeys::{expand_modifier_combinations, normalize_hotkey_string, resolve_key_spec, resolve_key_specs};
use rift::number::ConfigFloat;
use rift::settings::{
    AppRulePosition, AppRuleSize, AppWorkspaceRule, LayoutMode, LayoutSettings, MenuBarSettings,
    VirtualWorkspaceSettings, WindowInsertionPoint, WorkspaceSelector,
};
use rift::suggest::{extract_unknown_variant, levenshtein, parse_error_message, suggest_similar_command};

fn num(x: f64) -> ConfigFloat {
    ConfigFloat::from_parts(x.to_bits(), &x.to_string())
}

fn rule(app_id: &str) -> AppWorkspaceRule {
    AppWorkspaceRule {
        app_id: Some(app_id.to_string()),
        workspace: None,
        floating: false,
        position: None,
        size: None,
        focus: false,
        manage: None,
        app_name: None,
        title_regex: None,
        title_substring: None,
        ax_role: None,
        ax_subrole: None,
    }
}

#[test]
fn layout_insertion_point_supports_global_default_and_per_mode_override() {
    let mut settings = LayoutSettings::default();
    settings.base.window_insertion_point = Some(WindowInsertionPoint::EndOfTree);
    settings.traditional.base.window_insertion_point = Some(WindowInsertionPoint::NextToSelection);
    settings.traditional.equalize_nodes = true;
    settings.scrolling.animate = Some(false);

    assert_eq!(
        settings.window_insertion_point_for(LayoutMode::Traditional),
        WindowInsertionPoint::NextToSelection
    );
    assert_eq!(
        settings.window_insertion_point_for(LayoutMode::Bsp),
        WindowInsertionPoint::EndOfTree
    );
    assert!(settings.traditional.equalize_nodes);
    assert_eq!(settings.scrolling.animate, Some(false));
}

#[test]
fn virtual_workspace_prevent_wrapping_defaults_to_false_and_accepts_suggested_alias() {
    let defaults = VirtualWorkspaceSettings::default();
    assert!(!defaults.prevent_wrapping);

    let mut settings = VirtualWorkspaceSettings::default();
    settings.prevent_wrapping = true;
    assert!(settings.prevent_wrapping);
}

#[test]
fn app_rules_parse_placement_size_and_focus() {
    let mut settings = VirtualWorkspaceSettings::default();
    let mut r = rule("com.example.Tool");
    r.floating = true;
    r.position = Some(AppRulePosition { x: num(0.4), y: num(0.7) });
    r.size = Some(AppRuleSize { w: Some(num(640.0)), h: Some(num(480.0)) });
    r.focus = true;
    settings.app_rules.push(r);
    assert!(settings.app_rules[0].focus);
    assert!(settings.validate().is_empty());

    let mut height_only = VirtualWorkspaceSettings::default();
    let mut r = rule("com.example.Panel");
    r.size = Some(AppRuleSize { w: None, h: Some(num(320.0)) });
    height_only.app_rules.push(r);
    assert!(height_only.validate().is_empty());
}

#[test]
fn app_rule_geometry_validation_rejects_invalid_values() {
    let mut settings = VirtualWorkspaceSettings::default();
    let mut r = rule("com.example.Tool");
    r.position = Some(AppRulePosition { x: num(-0.1), y: num(1.1) });
    r.size = Some(AppRuleSize { w: Some(num(0.0)), h: Some(num(f64::NAN)) });
    r.manage = Some(true);
    settings.app_rules.push(r);

    let issues = settings.validate();
    assert!(issues.iter().any(|issue| issue.contains("between 0 and 1")));
    assert!(issues.iter().any(|issue| issue.contains("only applies")));
    assert!(issues.iter().any(|issue| issue.contains("finite positive")));
}

#[test]
fn app_rule_validation_reports_invalid_regex_and_ignored_effects() {
    let mut settings = VirtualWorkspaceSettings::default();
    let mut r = rule("com.example.Tool");
    r.workspace = Some(WorkspaceSelector::Index(1));
    r.floating = true;
    r.focus = true;
    r.manage = Some(false);
    r.title_regex = Some("[".to_string());
    settings.app_rules.push(r);

    let issues = settings.validate();
    assert!(issues.iter().any(|issue| issue.contains("invalid title_regex")));
    assert!(issues.iter().any(|issue| issue.contains("effects are ignored")));
}

#[test]
fn resize_command_config_supports_legacy_and_oriented_forms() {
    let document = r#"
            [keys]
            legacy = "resize_window_grow"
            vertical = { resize_window_shrink = "vertical" }
            smart = { resize_window_grow = "smart" }
            "#;
    let (keys, migrated) = rift::config_text::migrate_config_text(document, &Vec::new()).unwrap();
    assert!(migrated);
    let keys = keys.unwrap();
    let entry = |name: &str| match &keys.iter().find(|(k, _)| k == name).unwrap().1 {
        BindingValue::Entry { command, argument } => (command.clone(), argument.clone()),
        other => panic!("not an entry: {:?}", other),
    };
    assert_eq!(entry("legacy"), ("resize_window_grow".to_string(), "horizontal".to_string()));
    assert_eq!(entry("vertical"), ("resize_window_shrink".to_string(), "vertical".to_string()));
    assert_eq!(entry("smart"), ("resize_window_grow".to_string(), "smart".to_string()));
}

#[test]
fn migrate_in_memory_bindings() {
    let mut keys = Some(vec![
        BindingValue::Text("resize_window_grow".to_string()),
        BindingValue::Entry { command: "resize_window_shrink".to_string(), argument: "vertical".to_string() },
    ]);
    assert!(migrate_legacy_resize_bindings(&mut keys));
    assert!(matches!(&keys.as_ref().unwrap()[0],
        BindingValue::Entry { command, argument } if command == "resize_window_grow" && argument == "horizontal"));
}

#[test]
fn migration_without_keys_or_legacy_names_reports_nothing() {
    let mut none: Option<Vec<BindingValue>> = None;
    assert!(!migrate_legacy_resize_bindings(&mut none));
    assert!(none.is_none());
    let mut keys = Some(vec![BindingValue::Text("next_workspace".to_string()), BindingValue::Other]);
    assert!(!migrate_legacy_resize_bindings(&mut keys));
    assert!(matches!(&keys.as_ref().unwrap()[0], BindingValue::Text(t) if t == "next_workspace"));
}

#[test]
fn migration_is_idempotent() {
    let mut keys = Some(vec![BindingValue::Text("resize_window_shrink".to_string())]);
    assert!(migrate_legacy_resize_bindings(&mut keys));
    assert!(!migrate_legacy_resize_bindings(&mut keys));
    assert!(matches!(&keys.as_ref().unwrap()[0],
        BindingValue::Entry { command, argument } if command == "resize_window_shrink" && argument == "horizontal"));
}

#[test]
fn menu_bar_layout_folder_defaults_and_expands_home() {
    let settings = MenuBarSettings::default();
    assert_eq!(settings.layout_folder, "~/.config/rift/layouts");
    assert_eq!(
        std::path::PathBuf::from(settings.resolved_layout_folder()),
        dirs::home_dir().unwrap().join(".config/rift/layouts")
    );
}

#[test]
fn menu_bar_layout_folder_preserves_absolute_paths() {
    let mut settings = MenuBarSettings::default();
    settings.layout_folder = "/tmp/rift-layouts".to_string();
    assert_eq!(
        std::path::PathBuf::from(settings.resolved_layout_folder()),
        std::path::PathBuf::from("/tmp/rift-layouts")
    );
}

#[test]
fn layout_folder_with_given_home() {
    let mut settings = MenuBarSettings::default();
    assert_eq!(settings.resolved_layout_folder_in(Some("/Users/me")), "/Users/me/.config/rift/layouts");
    assert_eq!(settings.resolved_layout_folder_in(None), "~/.config/rift/layouts");
    settings.layout_folder = "~other/x".to_string();
    assert_eq!(settings.resolved_layout_folder_in(Some("/Users/me")), "~other/x");
    settings.layout_folder = "~".to_string();
    assert_eq!(settings.resolved_layout_folder_in(Some("/Users/me")), "/Users/me/");
}

#[test]
fn test_normalize_hotkey_string() {
    assert_eq!(normalize_hotkey_string("Alt + Shift + Down"), "Alt + Shift + ArrowDown");
    assert_eq!(normalize_hotkey_string("Ctrl + Up"), "Ctrl + ArrowUp");
    assert_eq!(normalize_hotkey_string("Shift + Left"), "Shift + ArrowLeft");
    assert_eq!(normalize_hotkey_string("Meta + Right"), "Meta + ArrowRight");
}

#[test]
fn normalize_uppercases_single_letters_and_keeps_other_words() {
    assert_eq!(normalize_hotkey_string("alt + h"), "alt + H");
    assert_eq!(normalize_hotkey_string("Ctrl + Tab"), "Ctrl + Tab");
    assert_eq!(normalize_hotkey_string("cmd+DOWN"), "cmd+ArrowDown");
    assert_eq!(normalize_hotkey_string(""), "");
}

#[test]
fn test_modifier_combinations_in_config() {
    let toml = r#"
        [settings]
        animate = false

        [modifier_combinations]
        comb1 = "Alt + Shift"
        leader = "Ctrl + Alt"

        [keys]
        "comb1 + C" = "toggle_space_activated"
        "leader + Tab" = "next_workspace"
        "Alt + H" = { move_focus = "left" }
    "#;

    let keys = rift::config_text::config_key_specs(toml, &Vec::new()).unwrap();
    // We expect keys to be parsed into hotkeys
    assert!(!keys.is_empty());
    let specs: Vec<&str> = keys.iter().map(|(k, _)| k.as_str()).collect();
    assert!(specs.contains(&"Alt + Shift + C"));
    assert!(specs.contains(&"Ctrl + Alt + Tab"));
    assert!(specs.contains(&"Alt + H"));
}

#[test]
fn recorded_key_specs_are_kept() {
    let recorded = vec![("Alt + H".to_string(), 1u8)];
    let from_keys = vec![("Alt + J".to_string(), 2u8)];
    let kept = key_specs_or_keys(recorded.clone(), from_keys);
    assert_eq!(kept, recorded);
}

#[test]
fn key_specs_rebuilt_from_keys_when_none_recorded() {
    let from_keys = vec![("Alt + J".to_string(), 2u8), ("Alt + K".to_string(), 3u8)];
    let kept = key_specs_or_keys(Vec::new(), from_keys.clone());
    assert_eq!(kept.len(), from_keys.len());
    assert!(!kept.is_empty());
    assert_eq!(kept, from_keys);
}

#[test]
fn test_levenshtein_suggests() {
    let err = "unknown variant `toggle_stak`, expected one of `toggle_stack`, `toggle_orientation`";
    let token = extract_unknown_variant(err).unwrap();
    assert_eq!(token, "toggle_stak||toggle_stack,toggle_orientation");
    let suggestion = suggest_similar_command(&token, &Vec::new());
    assert!(suggestion.is_some());
    let (s, _maybe_dep) = suggestion.unwrap();
    assert_eq!(s, "toggle_stack");
}

#[test]
fn levenshtein_exact_values() {
    assert_eq!(levenshtein("kitten", "sitting"), 3);
    assert_eq!(levenshtein("", "abc"), 3);
    assert_eq!(levenshtein("abc", ""), 3);
    assert_eq!(levenshtein("same", "same"), 0);
    assert_eq!(levenshtein("flaw", "lawn"), 2);
    assert_eq!(levenshtein("abc", "yabd"), levenshtein("yabd", "abc"));
}

#[test]
fn suggestion_falls_back_to_builtin_names() {
    let builtin = vec!["next_workspace".to_string(), "prev_workspace".to_string()];
    let (s, _) = suggest_similar_command("next_workspac", &builtin).unwrap();
    assert_eq!(s, "next_workspace");
    assert!(suggest_similar_command("zzzzzzzzzzzzzzzzzz", &builtin).is_none());
}

#[test]
fn unknown_variant_without_candidates() {
    assert_eq!(extract_unknown_variant("unknown variant `foo`").unwrap(), "foo");
    assert!(extract_unknown_variant("missing field `keys`").is_none());
    let msg = parse_error_message("unknown variant `toggle_stak`, expected one of `toggle_stack`", &Vec::new());
    assert!(msg.contains("toggle_stack"));
}

#[test]
fn key_table_specs_are_resolved_in_order() {
    let combos = vec![("comb1".to_string(), "Alt + Shift".to_string())];
    let keys = vec!["comb1 + c".to_string(), "Alt + left".to_string(), "ctrl + Tab".to_string()];
    assert_eq!(
        resolve_key_specs(&keys, &combos),
        vec!["Alt + Shift + C".to_string(), "Alt + ArrowLeft".to_string(), "ctrl + Tab".to_string()]
    );
}

#[test]
fn candidates_are_trimmed_before_matching() {
    let (s, _) = suggest_similar_command("toggle_stak||  toggle_stack , toggle_orientation", &Vec::new()).unwrap();
    assert_eq!(s, "toggle_stack");
}

#[test]
fn home_falls_back_to_tmp() {
    assert_eq!(rift::paths::home_or_tmp(Some("/Users/me".to_string())), "/Users/me");
    assert_eq!(rift::paths::home_or_tmp(None), "/tmp");
}

#[test]
fn whitespace_matches_std() {
    for u in 0u32..0x3100 {
        if let Some(c) = char::from_u32(u) {
            assert_eq!(rift::unicode::is_whitespace(c), c.is_whitespace(), "U+{:04X}", u);
        }
    }
}

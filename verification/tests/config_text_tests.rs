use rift::bindings::BindingValue;
use rift::config_text::{binding_of, migrate_config_text, KeyValue};

fn entry(b: &BindingValue) -> (u8, String, String) {
    match b {
        BindingValue::Text(t) => (0, t.clone(), String::new()),
        BindingValue::Entry { command, argument } => (1, command.clone(), argument.clone()),
        BindingValue::Other => (2, String::new(), String::new()),
    }
}

#[test]
fn keys_table_is_read_and_migrated() {
    let text = r#"
        [settings]
        animate = false

        [keys]
        "Alt + A" = "resize_window_grow"
        "Alt + B" = { resize_window_shrink = "vertical" }
        "Alt + C" = "next_workspace"
        "Alt + D" = { a = "x", b = "y" }
        "Alt + E" = 3
    "#;
    let (keys, migrated) = migrate_config_text(text, &Vec::new()).unwrap();
    assert!(migrated);
    let keys = keys.unwrap();
    let find = |name: &str| entry(&keys.iter().find(|(k, _)| k == name).unwrap().1);
    assert_eq!(keys.len(), 5);
    assert_eq!(find("Alt + A"), (1, "resize_window_grow".to_string(), "horizontal".to_string()));
    assert_eq!(find("Alt + B"), (1, "resize_window_shrink".to_string(), "vertical".to_string()));
    assert_eq!(find("Alt + C"), (0, "next_workspace".to_string(), String::new()));
    assert_eq!(find("Alt + D"), (2, String::new(), String::new()));
    assert_eq!(find("Alt + E"), (2, String::new(), String::new()));
}

#[test]
fn text_without_keys_or_legacy_bindings() {
    let (keys, migrated) = migrate_config_text("[settings]\nanimate = true\n", &Vec::new()).unwrap();
    assert!(keys.is_none());
    assert!(!migrated);
    let (keys, migrated) = migrate_config_text("[keys]\n\"Alt + H\" = { move_focus = \"left\" }\n", &Vec::new()).unwrap();
    assert!(!migrated);
    assert_eq!(entry(&keys.unwrap()[0].1), (1, "move_focus".to_string(), "left".to_string()));
}

#[test]
fn text_that_is_not_toml_gives_the_parser_message() {
    let err = migrate_config_text("[keys\n", &Vec::new()).unwrap_err();
    assert!(!err.is_empty());
    assert!(!err.contains("Did you mean"));
}

#[test]
fn key_values_become_bindings() {
    assert_eq!(entry(&binding_of(&KeyValue::Text("x".to_string()))), (0, "x".to_string(), String::new()));
    assert_eq!(
        entry(&binding_of(&KeyValue::Table(vec![("c".to_string(), Some("a".to_string()))]))),
        (1, "c".to_string(), "a".to_string())
    );
    assert_eq!(entry(&binding_of(&KeyValue::Table(vec![("c".to_string(), None)]))), (2, String::new(), String::new()));
    assert_eq!(entry(&binding_of(&KeyValue::Other)), (2, String::new(), String::new()));
}

#[test]
fn key_specs_expand_combinations_and_migrate() {
    let text = r#"
        [modifier_combinations]
        hyper = "Ctrl + Alt + Shift"
        bad = 3

        [keys]
        "hyper + down" = "resize_window_grow"
        "bad + x" = "next_workspace"
    "#;
    let specs = rift::config_text::config_key_specs(text, &Vec::new()).unwrap();
    assert_eq!(specs.len(), 2);
    let find = |name: &str| entry(&specs.iter().find(|(k, _)| k == name).unwrap().1);
    assert_eq!(find("Ctrl + Alt + Shift + ArrowDown"), (1, "resize_window_grow".to_string(), "horizontal".to_string()));
    assert_eq!(find("bad + X"), (0, "next_workspace".to_string(), String::new()));
    assert!(rift::config_text::config_key_specs("[keys\n", &Vec::new()).is_err());
    assert!(rift::config_text::config_key_specs("a = 1\n", &Vec::new()).unwrap().is_empty());
}

use std::path::PathBuf;

use configr::name::{normalize_app_name, normalize_char};
use configr::path::{ConfigPath, Target};
use configr::template::field_template;

#[test]
fn spaces_and_capitals_are_normalized() {
    assert_eq!(normalize_app_name("Test Config"), "test-config");
    assert_eq!(normalize_app_name("Test Config1"), "test-config1");
    assert_eq!(normalize_app_name("A  B"), "a--b");
    assert_eq!(normalize_app_name("already-kebab_9"), "already-kebab_9");
    assert_eq!(normalize_app_name("AZ az @[ `{"), "az-az-@[-`{");
}

#[test]
fn empty_name_stays_empty() {
    assert_eq!(normalize_app_name(""), "");
}

#[test]
fn only_ascii_capitals_are_lowered() {
    assert_eq!(normalize_app_name("\u{c9}cole \u{394}X"), "\u{c9}cole-\u{394}x");
}

#[test]
fn normalizing_agrees_with_replace_and_ascii_lowercase() {
    for name in ["Test Config", " Lead", "Trail ", "MiXeD CaSe 42", "tab\tNew\nLine", "\u{1F600} Smile"] {
        assert_eq!(normalize_app_name(name), name.replace(" ", "-").to_ascii_lowercase());
    }
}

#[test]
fn normalizing_twice_changes_nothing() {
    let once = normalize_app_name("Some Long App Name");
    assert_eq!(normalize_app_name(&once), once);
}

#[test]
fn single_characters() {
    assert_eq!(normalize_char(' '), '-');
    assert_eq!(normalize_char('A'), 'a');
    assert_eq!(normalize_char('Z'), 'z');
    assert_eq!(normalize_char('m'), 'm');
    assert_eq!(normalize_char('@'), '@');
    assert_eq!(normalize_char('['), '[');
    assert_eq!(normalize_char('-'), '-');
}

#[test]
fn path_segments_follow_the_base() {
    let dir = ConfigPath::app_dir("Bot App", PathBuf::from("/home/u/.config"));
    assert_eq!(dir.base, PathBuf::from("/home/u/.config"));
    assert_eq!(dir.target, Target::Directory);
    assert_eq!(dir.segment_names(), vec!["bot-app".to_string()]);
    let file = dir.config_file();
    assert_eq!(file.base, PathBuf::from("/home/u/.config"));
    assert_eq!(file.app_dir, "bot-app");
    assert_eq!(file.target, Target::ConfigFile);
    assert_eq!(file.segment_names(), vec!["bot-app".to_string(), "config.toml".to_string()]);
    let again = file.clone().config_file();
    assert_eq!(again, file);
}

#[test]
fn path_on_disk_extends_the_base_by_each_segment() {
    let dir = ConfigPath::app_dir("Bot App", PathBuf::from("/home/u/.config"));
    assert_eq!(dir.on_disk(), PathBuf::from("/home/u/.config/bot-app"));
    let mut by_hand = dir.base.clone();
    for name in dir.segment_names() {
        by_hand.push(name);
    }
    assert_eq!(dir.on_disk(), by_hand);
    let file = dir.config_file();
    assert_eq!(file.on_disk(), PathBuf::from("/home/u/.config/bot-app/config.toml"));
    let local = ConfigPath::app_dir("Test Config1", PathBuf::from(".")).config_file();
    assert_eq!(local.on_disk(), PathBuf::from("./test-config1/config.toml"));
    let trailing = ConfigPath::app_dir("x", PathBuf::from("./")).config_file();
    assert_eq!(trailing.on_disk(), PathBuf::from("./x/config.toml"));
}

#[test]
fn template_has_one_line_per_field_in_order() {
    assert_eq!(field_template(&["a", "b"]), "a=\nb=\n");
    assert_eq!(
        field_template(&["bot_username", "client_id", "client_secret", "channel"]),
        "bot_username=\nclient_id=\nclient_secret=\nchannel=\n"
    );
    assert_eq!(field_template(&["b", "a", "b"]), "b=\na=\nb=\n");
}

#[test]
fn template_of_no_fields_is_empty() {
    assert_eq!(field_template(&[]), "");
}

#[test]
fn template_of_an_unnamed_field_is_a_bare_line() {
    assert_eq!(field_template(&[""]), "=\n");
}

#[test]
fn template_length_counts_names_and_two_per_field() {
    let fields = ["alpha", "be", "c"];
    assert_eq!(field_template(&fields).len(), 5 + 2 + 1 + 2 * 3);
}

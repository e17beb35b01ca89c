//! Texts, documents, phrases and models.

use wta::json::{no_members, put, Json};
use wta::keyed::Keyed;
use wta::models::{
    display_name_of, hosted, normalize_selection, pickable, AcpModelInfo, CustomModelCatalogEntry,
};
use wta::phrases::{fill_two, TemplatePart};
use wta::text::{
    contains, decimal_int_text, decimal_text, is_blank, join, lines, pad_right, parse_u64,
    replace_char, same_ignore_case, split, starts_with_ignore_ascii_case, strip_prefix, trim,
};

fn model(id: &str) -> AcpModelInfo {
    AcpModelInfo {
        id: id.to_string(),
        name: id.to_uppercase(),
        description: None,
    }
}

fn strings(v: &[&str]) -> Vec<String> {
    v.iter().map(|s| s.to_string()).collect()
}

#[test]
fn texts_are_trimmed_split_and_joined() {
    assert_eq!(trim(" \u{3000}a b\t\n"), "a b");
    assert!(is_blank(" \u{a0}\n"));
    assert!(!is_blank(" x "));
    assert_eq!(split("a,,b", ','), strings(&["a", "", "b"]));
    assert_eq!(split("", ','), strings(&[""]));
    assert_eq!(lines("a\r\nb\n\nc"), strings(&["a", "b", "", "c"]));
    assert_eq!(lines(""), Vec::<String>::new());
    assert_eq!(join(&strings(&["a", "b"]), ", "), "a, b");
    assert_eq!(replace_char("a\nb", '\n', ' '), "a b");
    assert_eq!(strip_prefix("wsl:x", "wsl:").as_deref(), Some("x"));
    assert_eq!(strip_prefix("x", "wsl:"), None);
}

#[test]
fn case_is_ignored_among_ascii_letters() {
    assert!(same_ignore_case("Pending", "pENDING"));
    assert!(!same_ignore_case("Ä", "ä"));
    assert!(starts_with_ignore_ascii_case("EXITED (1)", "exited ("));
    assert!(!starts_with_ignore_ascii_case("ex", "exited"));
    assert!(contains("haystack", "st"));
    assert!(contains("haystack", ""));
    assert!(!contains("haystack", "ts"));
}

#[test]
fn numbers_are_written_and_read_in_decimal() {
    assert_eq!(decimal_text(0), "0");
    assert_eq!(decimal_text(u64::MAX), "18446744073709551615");
    assert_eq!(decimal_int_text(-40), "-40");
    assert_eq!(decimal_int_text(i64::MIN), "-9223372036854775808");
    assert_eq!(parse_u64("18446744073709551615"), Some(u64::MAX));
    assert_eq!(parse_u64("18446744073709551616"), None);
    assert_eq!(parse_u64(""), None);
    assert_eq!(parse_u64("-1"), None);
    assert_eq!(pad_right("ab", 4), "ab  ");
    assert_eq!(pad_right("abcdef", 4), "abcdef");
}

#[test]
fn a_member_of_a_document_is_read_by_its_name() {
    let mut members = no_members();
    put(&mut members, "a", Json::of_text("x"));
    put(&mut members, "n", Json::of_number(7));
    put(&mut members, "b", Json::Bool(true));
    let document = Json::of_members(members);
    assert_eq!(document.text_member("a").as_deref(), Some("x"));
    assert_eq!(document.text_member("n"), None);
    assert_eq!(document.label_member("n").as_deref(), Some("7"));
    assert_eq!(document.whole_member("n"), Some(7));
    assert_eq!(document.signed_member("n"), Some(7));
    assert_eq!(document.bool_member("b"), Some(true));
    assert_eq!(document.text_or_empty("c"), "");
    assert!(!document.has("c"));
    assert!(Json::Null.get("a").is_none());
}

#[test]
fn a_template_takes_its_arguments_in_any_order() {
    let parts = vec![
        TemplatePart::Argument(1),
        TemplatePart::Words(" of ".to_string()),
        TemplatePart::Argument(0),
        TemplatePart::Argument(5),
    ];
    assert_eq!(fill_two(&parts, &"all".to_string(), &"one".to_string()), "one of all");
}

#[test]
fn the_cloud_comes_before_the_agent_and_wins() {
    let all = hosted(&vec![model("a"), model("b")], &vec![model("b"), model("c")]);
    let ids: Vec<&str> = all.iter().map(|m| m.id.as_str()).collect();
    assert_eq!(ids, ["a", "b", "c"]);
    assert_eq!(display_name_of(&all, "b"), "B");
    assert_eq!(display_name_of(&all, "zzz"), "zzz");
}

#[test]
fn the_picker_keeps_to_the_side_that_is_in_use() {
    let own = vec![CustomModelCatalogEntry {
        selection_id: "custom:p:m".to_string(),
        api_contract: "openai".to_string(),
        model_id: "m".to_string(),
    }];
    let cloud = vec![model("a")];
    let shown = pickable(&cloud, &own, &None);
    assert_eq!(shown.len(), 1);
    assert_eq!(shown[0].id, "a");
    let shown = pickable(&cloud, &own, &Some("custom:p:m".to_string()));
    assert_eq!(shown.len(), 1);
    assert_eq!(shown[0].id, "custom:p:m");
    assert_eq!(shown[0].name, "m (BYOK)");
}

#[test]
fn a_blank_selection_is_none() {
    assert_eq!(normalize_selection(Some("  ".to_string())), None);
    assert_eq!(normalize_selection(Some(" x ".to_string())).as_deref(), Some("x"));
}

#[test]
fn a_key_has_one_entry() {
    let mut map: Keyed<u32> = Keyed::new();
    map.insert("a".to_string(), 1);
    map.insert("b".to_string(), 2);
    map.insert("a".to_string(), 3);
    assert_eq!(map.count(), 2);
    assert_eq!(map.get("a"), Some(&3));
    map.remove("a");
    assert_eq!(map.count(), 1);
    assert_eq!(map.key(0), "b");
}

#[test]
fn a_document_is_written_as_serde_writes_it() {
    let said = "q\" b\\ n\n r\r t\t \u{8}\u{c}\u{1}\u{1f}\u{7f} \u{e4}\u{1f600}";
    let mut members = no_members();
    put(&mut members, "a\"", Json::of_text(said));
    put(
        &mut members,
        "b",
        Json::of_items(vec![
            Json::Null,
            Json::Bool(true),
            Json::Bool(false),
            Json::Number("-1.5".to_string()),
            Json::of_items(vec![]),
            Json::of_members(no_members()),
        ]),
    );
    put(&mut members, "c", Json::of_number(7));
    let text = Json::of_members(members).to_text();

    let mut object = serde_json::Map::new();
    object.insert("a\"".to_string(), serde_json::Value::from(said));
    object.insert(
        "b".to_string(),
        serde_json::Value::from(vec![
            serde_json::Value::Null,
            serde_json::Value::from(true),
            serde_json::Value::from(false),
            serde_json::Value::from(-1.5),
            serde_json::Value::Array(vec![]),
            serde_json::Value::Object(serde_json::Map::new()),
        ]),
    );
    object.insert("c".to_string(), serde_json::Value::from(7));
    let value = serde_json::Value::Object(object);
    assert_eq!(text, serde_json::to_string(&value).expect("a document"));
    assert_eq!(Json::of_text("a\u{1}").to_text(), "\"a\\u0001\"");
    assert_eq!(Json::Null.to_text(), "null");
}

use single_button_game::levels::{
    adjacent_paths, default_sequence, embedded_level, load_editor_sequence, load_sequence, parse_sequence,
    sequence_file_text,
};

fn strings(v: &[&str]) -> Vec<String> {
    v.iter().map(|s| s.to_string()).collect()
}

#[test]
fn default_sequence_lists_six_standard_levels() {
    assert_eq!(
        default_sequence(),
        strings(&[
            "standard/01_simple_stack.json",
            "standard/02_two_posts.json",
            "standard/03_bridge.json",
            "standard/04_pyramid.json",
            "standard/05_balance.json",
            "standard/06_arch.json",
        ])
    );
}

const TEXTS: [&str; 11] = [
    "{\"slots\":[]}", "t1", "t2", "t3", "t4", "t5", "tower", "carrier", "t8", "t9", "t10",
];

#[test]
fn embedded_level_finds_known_levels() {
    assert_eq!(embedded_level("standard/01_simple_stack.json", &TEXTS), Some("{\"slots\":[]}"));
    assert_eq!(embedded_level("standard/03_bridge.json", &TEXTS), Some("t2"));
    assert_eq!(embedded_level("standard/tower.json", &TEXTS), Some("tower"));
    assert_eq!(embedded_level("standard/carrier.json", &TEXTS), Some("carrier"));
    assert_eq!(embedded_level("standard/asdkfj.json", &TEXTS), Some("t10"));
}

#[test]
fn embedded_level_rejects_unknown_levels() {
    assert_eq!(embedded_level("custom/mine.json", &TEXTS), None);
    assert_eq!(embedded_level("", &TEXTS), None);
    assert_eq!(embedded_level("standard/01_simple_stack", &TEXTS), None);
    assert_eq!(embedded_level("levels/standard/tower.json", &TEXTS), None);
}

#[test]
fn load_sequence_reads_json_list() {
    let text = "[\"a.json\", \"b/c.json\"]".to_string();
    assert_eq!(load_sequence(Some(text)), strings(&["a.json", "b/c.json"]));
}

#[test]
fn load_sequence_falls_back_on_missing_or_bad_file() {
    assert_eq!(load_sequence(None), default_sequence());
    assert_eq!(load_sequence(Some("not json".to_string())), default_sequence());
    assert_eq!(load_sequence(Some("{\"a\": 1}".to_string())), default_sequence());
}

#[test]
fn load_sequence_keeps_an_empty_list() {
    assert_eq!(load_sequence(Some("[]".to_string())), Vec::<String>::new());
}

#[test]
fn editor_sequence_is_empty_on_failure() {
    assert_eq!(load_editor_sequence(None), Vec::<String>::new());
    assert_eq!(load_editor_sequence(Some("[1, 2]".to_string())), Vec::<String>::new());
    assert_eq!(
        load_editor_sequence(Some("[\"x.json\"]".to_string())),
        strings(&["x.json"])
    );
}

#[test]
fn sequence_file_round_trips_through_loading() {
    let entries = strings(&["standard/03_bridge.json", "custom/a b.json"]);
    let text = sequence_file_text(&entries).unwrap();
    assert_eq!(text, "[\n  \"standard/03_bridge.json\",\n  \"custom/a b.json\"\n]");
    assert_eq!(load_editor_sequence(Some(text)), entries);
    let odd = strings(&["quote\" back\\slash", "line\nbreak\ttab \u{1} é"]);
    let text = sequence_file_text(&odd).unwrap();
    assert_eq!(load_sequence(Some(text)), odd);
}

#[test]
fn adjacent_paths_at_the_ends() {
    let entries = strings(&["a", "b", "c"]);
    assert_eq!(adjacent_paths(&entries, 0), (None, Some("b".to_string())));
    assert_eq!(adjacent_paths(&entries, 1), (Some("a".to_string()), Some("c".to_string())));
    assert_eq!(adjacent_paths(&entries, 2), (Some("b".to_string()), None));
    assert_eq!(adjacent_paths(&entries, 7), (None, None));
}

#[test]
fn parse_sequence_reports_bad_text() {
    assert_eq!(parse_sequence("[\"a.json\"]"), Ok(strings(&["a.json"])));
    assert!(!parse_sequence("[1]").unwrap_err().is_empty());
    assert!(parse_sequence("nope").is_err());
}

use vstd::prelude::*;
use crate::text::{same_text, text_of};

verus! {

/// The views of a list of strings.
pub open spec fn views(v: Seq<String>) -> Seq<Seq<char>> {
    v.map_values(|s: String| s@)
}

/// The level paths played when no sequence file can be read.
pub open spec fn spec_default_sequence() -> Seq<Seq<char>> {
    seq![
        "standard/01_simple_stack.json"@,
        "standard/02_two_posts.json"@,
        "standard/03_bridge.json"@,
        "standard/04_pyramid.json"@,
        "standard/05_balance.json"@,
        "standard/06_arch.json"@,
    ]
}

/// The built-in level sequence: the six standard levels in order.
pub fn default_sequence() -> (res: Vec<String>)
    ensures
        views(res@) == spec_default_sequence(),
{
    let mut v: Vec<String> = Vec::new();
    v.push(text_of("standard/01_simple_stack.json"));
    v.push(text_of("standard/02_two_posts.json"));
    v.push(text_of("standard/03_bridge.json"));
    v.push(text_of("standard/04_pyramid.json"));
    v.push(text_of("standard/05_balance.json"));
    v.push(text_of("standard/06_arch.json"));
    assert(views(v@) =~= spec_default_sequence());
    v
}


/// The level paths that the browser build carries inside the binary.
pub open spec fn embedded_paths() -> Seq<Seq<char>> {
    seq![
        "standard/01_simple_stack.json"@,
        "standard/02_two_posts.json"@,
        "standard/03_bridge.json"@,
        "standard/04_pyramid.json"@,
        "standard/05_balance.json"@,
        "standard/06_arch.json"@,
        "standard/tower.json"@,
        "standard/carrier.json"@,
        "standard/1_single_block.json"@,
        "standard/2_two_blocks.json"@,
        "standard/asdkfj.json"@,
    ]
}

/// How many level files the browser build carries.
pub const EMBEDDED_LEVEL_COUNT: usize = 11;

/// The embedded text for `path`: entry `i` of `texts` for the `i`-th embedded path, `None`
/// for any other path.
pub open spec fn embedded_text(path: Seq<char>, texts: Seq<&'static str>) -> Option<&'static str> {
    if path == "standard/01_simple_stack.json"@ {
        Some(texts[0])
    } else if path == "standard/02_two_posts.json"@ {
        Some(texts[1])
    } else if path == "standard/03_bridge.json"@ {
        Some(texts[2])
    } else if path == "standard/04_pyramid.json"@ {
        Some(texts[3])
    } else if path == "standard/05_balance.json"@ {
        Some(texts[4])
    } else if path == "standard/06_arch.json"@ {
        Some(texts[5])
    } else if path == "standard/tower.json"@ {
        Some(texts[6])
    } else if path == "standard/carrier.json"@ {
        Some(texts[7])
    } else if path == "standard/1_single_block.json"@ {
        Some(texts[8])
    } else if path == "standard/2_two_blocks.json"@ {
        Some(texts[9])
    } else if path == "standard/asdkfj.json"@ {
        Some(texts[10])
    } else {
        None
    }
}

/// The level file built into the browser build for `path`. `texts` holds the contents of the
/// embedded files, in the order of `embedded_paths` (the program embeds them at build time);
/// a known path gives its file's text, any other path `None`.
pub fn embedded_level(path: &str, texts: &[&'static str; EMBEDDED_LEVEL_COUNT]) -> (res: Option<&'static str>)
    ensures
        res == embedded_text(path@, texts@),
        res is Some <==> embedded_paths().contains(path@),
{
    proof {
        reveal_strlit("standard/01_simple_stack.json");
        reveal_strlit("standard/02_two_posts.json");
        reveal_strlit("standard/03_bridge.json");
        reveal_strlit("standard/04_pyramid.json");
        reveal_strlit("standard/05_balance.json");
        reveal_strlit("standard/06_arch.json");
        reveal_strlit("standard/tower.json");
        reveal_strlit("standard/carrier.json");
        reveal_strlit("standard/1_single_block.json");
        reveal_strlit("standard/2_two_blocks.json");
        reveal_strlit("standard/asdkfj.json");
    }
    let ghost keys = embedded_paths();
    assert(keys[0] == "standard/01_simple_stack.json"@);
    if same_text(path, "standard/01_simple_stack.json") {
        return Some(texts[0]);
    }
    assert(keys[1] == "standard/02_two_posts.json"@);
    if same_text(path, "standard/02_two_posts.json") {
        return Some(texts[1]);
    }
    assert(keys[2] == "standard/03_bridge.json"@);
    if same_text(path, "standard/03_bridge.json") {
        return Some(texts[2]);
    }
    assert(keys[3] == "standard/04_pyramid.json"@);
    if same_text(path, "standard/04_pyramid.json") {
        return Some(texts[3]);
    }
    assert(keys[4] == "standard/05_balance.json"@);
    if same_text(path, "standard/05_balance.json") {
        return Some(texts[4]);
    }
    assert(keys[5] == "standard/06_arch.json"@);
    if same_text(path, "standard/06_arch.json") {
        return Some(texts[5]);
    }
    assert(keys[6] == "standard/tower.json"@);
    if same_text(path, "standard/tower.json") {
        return Some(texts[6]);
    }
    assert(keys[7] == "standard/carrier.json"@);
    if same_text(path, "standard/carrier.json") {
        return Some(texts[7]);
    }
    assert(keys[8] == "standard/1_single_block.json"@);
    if same_text(path, "standard/1_single_block.json") {
        return Some(texts[8]);
    }
    assert(keys[9] == "standard/2_two_blocks.json"@);
    if same_text(path, "standard/2_two_blocks.json") {
        return Some(texts[9]);
    }
    assert(keys[10] == "standard/asdkfj.json"@);
    if same_text(path, "standard/asdkfj.json") {
        return Some(texts[10]);
    }
    assert(!keys.contains(path@)) by {
        if keys.contains(path@) {
            let k = choose|k: int| 0 <= k < keys.len() && keys[k] == path@;
            assert(keys[k] == path@);
        }
    }
    None
}

/// The error type of serde_json.
#[verifier::external_type_specification]
#[verifier::external_body]
pub struct ExJsonError(serde_json::Error);

/// The list of strings that serde_json reads from a JSON text, or `None` where the text is
/// not a JSON array of strings.
pub uninterp spec fn json_string_list(text: Seq<char>) -> Option<Seq<Seq<char>>>;

/// The pretty-printed JSON text that serde_json writes for a list of strings.
pub uninterp spec fn json_pretty_string_list(entries: Seq<Seq<char>>) -> Seq<char>;

/// Parses a JSON array of strings with `serde_json::from_str::<Vec<String>>`; the contract
/// claims only that the outcome is the named function of the text (an error exactly where the
/// name gives `None`); nothing is claimed of the error.
#[verifier::external_body]
fn parse_string_list(text: &str) -> (res: Result<Vec<String>, serde_json::Error>)
    ensures
        res is Ok <==> json_string_list(text@) is Some,
        res matches Ok(v) ==> views(v@) == json_string_list(text@).unwrap(),
{
    serde_json::from_str::<Vec<String>>(text)
}

/// Serialises a list of strings with `serde_json::to_string_pretty`. The contract claims that
/// the call succeeds (strings always serialise, and the output goes to an in-memory buffer
/// that cannot fail to take it), that the text is the named function of the strings, and
/// that serde_json reads that text back as the same list (every string is written as an
/// escaped JSON string literal, which `from_str` unescapes).
#[verifier::external_body]
fn pretty_string_list(entries: &Vec<String>) -> (res: Result<String, serde_json::Error>)
    ensures
        res is Ok,
        res matches Ok(text) ==> text@ == json_pretty_string_list(views(entries@)),
        res matches Ok(text) ==> json_string_list(text@) == Some(views(entries@)),
{
    serde_json::to_string_pretty(entries)
}

/// The message of a serde_json error, through its `Display` impl; nothing is claimed of it.
#[verifier::external_body]
fn json_error_text(e: &serde_json::Error) -> (res: String) {
    e.to_string()
}

/// Reads the sequence file's text: the list of level paths, or serde_json's message where
/// the text is not a JSON array of strings.
pub fn parse_sequence(text: &str) -> (res: Result<Vec<String>, String>)
    ensures
        res is Ok <==> json_string_list(text@) is Some,
        res matches Ok(v) ==> views(v@) == json_string_list(text@).unwrap(),
{
    match parse_string_list(text) {
        Ok(list) => Ok(list),
        Err(e) => Err(json_error_text(&e)),
    }
}

/// The level sequence that the game plays. `contents` is the text of the sequence file, or
/// `None` when it could not be read; either failure falls back to the built-in sequence.
pub fn load_sequence(contents: Option<String>) -> (res: Vec<String>)
    ensures
        views(res@) == (match contents {
            Some(text) => match json_string_list(text@) {
                Some(list) => list,
                None => spec_default_sequence(),
            },
            None => spec_default_sequence(),
        }),
{
    match contents {
        Some(text) => match parse_sequence(text.as_str()) {
            Ok(list) => list,
            Err(_) => default_sequence(),
        },
        None => default_sequence(),
    }
}

/// The sequence as the level editor reads it: the list from the file, or an empty list when
/// the file is missing or does not parse.
pub fn load_editor_sequence(contents: Option<String>) -> (res: Vec<String>)
    ensures
        views(res@) == (match contents {
            Some(text) => match json_string_list(text@) {
                Some(list) => list,
                None => Seq::<Seq<char>>::empty(),
            },
            None => Seq::<Seq<char>>::empty(),
        }),
{
    match contents {
        Some(text) => match parse_sequence(text.as_str()) {
            Ok(list) => list,
            Err(_) => {
                let v: Vec<String> = Vec::new();
                assert(views(v@) =~= Seq::<Seq<char>>::empty());
                v
            },
        },
        None => {
            let v: Vec<String> = Vec::new();
            assert(views(v@) =~= Seq::<Seq<char>>::empty());
            v
        },
    }
}

/// The text of the sequence file for `entries`: pretty-printed JSON, which reads back as the
/// same list. Serialising a list of strings always succeeds; the `Err` arm
/// (`Serialization error: ` and serde_json's message) keeps the shape of the file-saving
/// errors and is never taken.
pub fn sequence_file_text(entries: &Vec<String>) -> (res: Result<String, String>)
    ensures
        res matches Ok(text) ==> text@ == json_pretty_string_list(views(entries@)),
        res is Ok,
        res matches Ok(text) ==> json_string_list(text@) == Some(views(entries@)),
{
    match pretty_string_list(entries) {
        Ok(text) => Ok(text),
        Err(e) => {
            let mut msg = text_of("Serialization error: ");
            let detail = json_error_text(&e);
            msg.append(detail.as_str());
            Err(msg)
        },
    }
}


/// The sequence entries just before and just after `current_index` (the levels shown as
/// overlays in the canvas), each `None` where there is no such entry.
pub fn adjacent_paths(entries: &Vec<String>, current_index: usize) -> (res: (Option<String>, Option<String>))
    requires
        current_index < usize::MAX,
    ensures
        (current_index > 0 && current_index - 1 < entries@.len()) ==> (res.0 matches Some(p)
            && p@ == entries@[current_index - 1]@),
        !(current_index > 0 && current_index - 1 < entries@.len()) ==> res.0 is None,
        current_index + 1 < entries@.len() ==> (res.1 matches Some(p) && p@ == entries@[current_index + 1]@),
        current_index + 1 >= entries@.len() ==> res.1 is None,
{
    let prev = if current_index > 0 && current_index - 1 < entries.len() {
        Some(entries[current_index - 1].clone())
    } else {
        None
    };
    let next = if current_index + 1 < entries.len() {
        Some(entries[current_index + 1].clone())
    } else {
        None
    };
    (prev, next)
}

/// Each embedded path gives the text at its own index of the table, and every other path
/// gives none.
pub proof fn law_embedded_text_at_own_index(texts: Seq<&'static str>, path: Seq<char>)
    requires
        texts.len() == EMBEDDED_LEVEL_COUNT,
    ensures
        forall|i: int| 0 <= i < EMBEDDED_LEVEL_COUNT ==> #[trigger] embedded_text(embedded_paths()[i], texts) == Some(texts[i]),
        !embedded_paths().contains(path) ==> embedded_text(path, texts) is None,
{
    reveal_strlit("standard/01_simple_stack.json");
    reveal_strlit("standard/02_two_posts.json");
    reveal_strlit("standard/03_bridge.json");
    reveal_strlit("standard/04_pyramid.json");
    reveal_strlit("standard/05_balance.json");
    reveal_strlit("standard/06_arch.json");
    reveal_strlit("standard/tower.json");
    reveal_strlit("standard/carrier.json");
    reveal_strlit("standard/1_single_block.json");
    reveal_strlit("standard/2_two_blocks.json");
    reveal_strlit("standard/asdkfj.json");
    let k = embedded_paths();
    assert(k.len() == 11);
    assert(k[1].len() != k[0].len());
    assert(k[2].len() != k[0].len());
    assert(k[2].len() != k[1].len());
    assert(k[3].len() != k[0].len());
    assert(k[3].len() != k[1].len());
    assert(k[3].len() != k[2].len());
    assert(k[4].len() != k[0].len());
    assert(k[4].len() != k[1].len());
    assert(k[4].len() != k[2].len());
    assert(k[4][10] != k[3][10]);
    assert(k[5].len() != k[0].len());
    assert(k[5].len() != k[1].len());
    assert(k[5].len() != k[2].len());
    assert(k[5].len() != k[3].len());
    assert(k[5].len() != k[4].len());
    assert(k[6].len() != k[0].len());
    assert(k[6].len() != k[1].len());
    assert(k[6].len() != k[2].len());
    assert(k[6].len() != k[3].len());
    assert(k[6].len() != k[4].len());
    assert(k[6].len() != k[5].len());
    assert(k[7].len() != k[0].len());
    assert(k[7].len() != k[1].len());
    assert(k[7].len() != k[2].len());
    assert(k[7].len() != k[3].len());
    assert(k[7].len() != k[4].len());
    assert(k[7][9] != k[5][9]);
    assert(k[7].len() != k[6].len());
    assert(k[8].len() != k[0].len());
    assert(k[8].len() != k[1].len());
    assert(k[8].len() != k[2].len());
    assert(k[8].len() != k[3].len());
    assert(k[8].len() != k[4].len());
    assert(k[8].len() != k[5].len());
    assert(k[8].len() != k[6].len());
    assert(k[8].len() != k[7].len());
    assert(k[9].len() != k[0].len());
    assert(k[9][9] != k[1][9]);
    assert(k[9].len() != k[2].len());
    assert(k[9].len() != k[3].len());
    assert(k[9].len() != k[4].len());
    assert(k[9].len() != k[5].len());
    assert(k[9].len() != k[6].len());
    assert(k[9].len() != k[7].len());
    assert(k[9].len() != k[8].len());
    assert(k[10].len() != k[0].len());
    assert(k[10].len() != k[1].len());
    assert(k[10].len() != k[2].len());
    assert(k[10].len() != k[3].len());
    assert(k[10].len() != k[4].len());
    assert(k[10].len() != k[5].len());
    assert(k[10].len() != k[6].len());
    assert(k[10].len() != k[7].len());
    assert(k[10].len() != k[8].len());
    assert(k[10].len() != k[9].len());
    assert(embedded_text(k[0], texts) == Some(texts[0]));
    assert(embedded_text(k[1], texts) == Some(texts[1]));
    assert(embedded_text(k[2], texts) == Some(texts[2]));
    assert(embedded_text(k[3], texts) == Some(texts[3]));
    assert(embedded_text(k[4], texts) == Some(texts[4]));
    assert(embedded_text(k[5], texts) == Some(texts[5]));
    assert(embedded_text(k[6], texts) == Some(texts[6]));
    assert(embedded_text(k[7], texts) == Some(texts[7]));
    assert(embedded_text(k[8], texts) == Some(texts[8]));
    assert(embedded_text(k[9], texts) == Some(texts[9]));
    assert(embedded_text(k[10], texts) == Some(texts[10]));
    if !k.contains(path) {
        assert(k[0] != path);
        assert(k[1] != path);
        assert(k[2] != path);
        assert(k[3] != path);
        assert(k[4] != path);
        assert(k[5] != path);
        assert(k[6] != path);
        assert(k[7] != path);
        assert(k[8] != path);
        assert(k[9] != path);
        assert(k[10] != path);
    }
}

} // verus!

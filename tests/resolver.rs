use rdna3_lsp::dispatch::{method_from_name, resolve, Method, Reply, Request};
use rdna3_lsp::instruction::InstructionSpec;
use rdna3_lsp::position::resolve_token;
use rdna3_lsp::service::{complete, hover, is_trigger_character};
use rdna3_lsp::store::KnowledgeStore;

fn spec(desc: &str, code: &str, notes: &str) -> InstructionSpec {
    InstructionSpec::new(desc.to_string(), code.to_string(), notes.to_string())
}

fn sample_store() -> KnowledgeStore {
    let mut store = KnowledgeStore::new();
    for (key, desc) in [
        ("s_add_u32", "Add two unsigned integers."),
        ("s_add_i32", "Add two signed integers."),
        ("s_addc_u32", "Add with carry."),
        ("s_addk_i32", "Add a constant."),
        ("s_and_b32", "Bitwise and."),
        ("v_add_f32", "Add two floats."),
    ] {
        assert!(store.register(key.to_string(), spec(desc, "s_add_u32 s0, s1, s2", "")));
    }
    store
}

fn hover_request(text: &str, line: usize, character: usize) -> Option<String> {
    match resolve(
        &sample_store(),
        &Request::Hover { document: text.to_string(), line, character },
    ) {
        Reply::Hover(h) => h,
        _ => panic!("hover request gave another reply"),
    }
}

fn complete_request(text: &str, line: usize, character: usize) -> Vec<String> {
    match resolve(
        &sample_store(),
        &Request::Completion {
            document: text.to_string(),
            line,
            character,
            trigger: Some("u".to_string()),
        },
    ) {
        Reply::Completion(cs) => cs.iter().map(|c| c.label.clone()).collect(),
        _ => panic!("completion request gave another reply"),
    }
}

#[test]
fn test_hover_instruction() {
    assert!(hover_request("s_add_u32", 0, 0).is_some());
    assert!(hover_request("s_add_u32", 0, 2).is_some());
    assert!(hover_request("s_add_f32", 0, 0).is_none());
    assert!(hover_request("  s_add_u32", 0, 2).is_some());
    assert!(hover_request("  s_add_u32", 0, 10).is_some());
}

#[test]
fn test_autocomplete_instr() {
    let ret = complete_request("s_add", 0, 0);
    assert_eq!(
        ret,
        vec!["s_add_u32", "s_add_i32", "s_addc_u32", "s_addk_i32"]
    );
}

#[test]
fn test_autocomplete_operands() {
    let ret = complete_request("s_add_u32 s", 0, 11);
    assert_eq!(ret.len(), 0);
}

#[test]
fn resolves_single_token_at_start_and_inside() {
    for character in [0, 2] {
        let t = resolve_token("s_add_u32", 0, character).unwrap();
        assert_eq!(t.text, "s_add_u32");
        assert_eq!(t.ordinal, 0);
    }
}

#[test]
fn leading_spaces_keep_the_token() {
    for character in [2, 10] {
        let t = resolve_token("  s_add_u32", 0, character).unwrap();
        assert_eq!(t.text, "s_add_u32");
        assert_eq!(t.ordinal, 0);
    }
}

#[test]
fn resolves_operand_ordinal() {
    let t = resolve_token("s_add_u32 s0, s1", 0, 11).unwrap();
    assert_eq!(t.text, "s0,");
    assert_eq!(t.ordinal, 1);
    let t = resolve_token("s_add_u32 s0, s1", 0, 14).unwrap();
    assert_eq!(t.text, "s1");
    assert_eq!(t.ordinal, 2);
}

#[test]
fn boundary_offset_selects_earlier_token() {
    // Character 10 is offset 9, exactly the length of the first token.
    let t = resolve_token("s_add_u32 s", 0, 10).unwrap();
    assert_eq!(t.text, "s_add_u32");
    assert_eq!(t.ordinal, 0);
}

#[test]
fn selects_line_by_newline() {
    let doc = "s_and_b32 s0\n  v_add_f32 v1\n";
    let t = resolve_token(doc, 1, 1).unwrap();
    assert_eq!(t.text, "v_add_f32");
    let t = resolve_token(doc, 2, 0).unwrap();
    assert_eq!(t.text, "");
    assert_eq!(t.ordinal, 0);
    assert!(resolve_token(doc, 3, 0).is_none());
}

#[test]
fn line_out_of_range_is_not_found() {
    assert!(resolve_token("s_add_u32", 1, 0).is_none());
    assert!(hover(&sample_store(), "s_add_u32", 5, 0).is_none());
    assert!(complete(&sample_store(), "s_add_u32", 5, 0, Some("s")).is_empty());
}

#[test]
fn offset_past_every_token_gives_empty_token() {
    let t = resolve_token("s_add", 0, 40).unwrap();
    assert_eq!(t.text, "");
    assert_eq!(t.ordinal, 0);
    assert!(hover(&sample_store(), "s_add", 0, 40).is_none());
    // The empty token is a prefix of every key.
    assert_eq!(complete(&sample_store(), "s_add", 0, 40, Some("a")).len(), 6);
}

#[test]
fn whitespace_only_line_gives_empty_token() {
    let t = resolve_token(" \t ", 0, 1).unwrap();
    assert_eq!(t.text, "");
    assert_eq!(t.ordinal, 0);
}

#[test]
fn token_lengths_count_utf8_bytes() {
    // "é" takes two bytes, so offset 2 is still inside the first token.
    let t = resolve_token("é x", 0, 3).unwrap();
    assert_eq!(t.text, "é");
    let t = resolve_token("é x", 0, 4).unwrap();
    assert_eq!(t.text, "x");
    assert_eq!(t.ordinal, 1);
}

#[test]
fn unicode_white_space_separates_tokens() {
    let t = resolve_token("ab\u{3000}cd", 0, 4).unwrap();
    assert_eq!(t.text, "cd");
    assert_eq!(t.ordinal, 1);
}

#[test]
fn render_without_notes() {
    let s = spec("Add.", "s_add_u32 s0, s1, s2", "");
    assert_eq!(s.render(), "Add.\n```\ns_add_u32 s0, s1, s2\n```\n");
}

#[test]
fn render_with_notes() {
    let s = spec("Add.", "x", "Sets SCC.");
    assert_eq!(s.render(), "Add.\n```\nx\n```\n*Notes*\nSets SCC.");
}

#[test]
fn hover_renders_the_description() {
    let h = hover(&sample_store(), "  s_addc_u32 s0", 0, 3).unwrap();
    assert_eq!(h, "Add with carry.\n```\ns_add_u32 s0, s1, s2\n```\n");
}

#[test]
fn absent_key_has_no_entry_and_no_hover() {
    let store = sample_store();
    assert!(store.lookup_exact("s_add_f32").is_none());
    assert!(hover(&store, "s_add_f32", 0, 0).is_none());
    assert_eq!(store.lookup_exact("s_and_b32").unwrap().desc, "Bitwise and.");
}

#[test]
fn lookup_prefix_keeps_registration_order() {
    let store = sample_store();
    let keys: Vec<String> = store.lookup_prefix("s_a").iter().map(|e| e.key.clone()).collect();
    assert_eq!(
        keys,
        vec!["s_add_u32", "s_add_i32", "s_addc_u32", "s_addk_i32", "s_and_b32"]
    );
    assert!(store.lookup_prefix("x_").is_empty());
}

#[test]
fn register_refuses_a_present_key() {
    let mut store = sample_store();
    assert!(!store.register("s_add_u32".to_string(), spec("Other.", "", "")));
    assert_eq!(store.len(), 6);
    assert_eq!(store.lookup_exact("s_add_u32").unwrap().desc, "Add two unsigned integers.");
}

#[test]
fn completion_details_are_rendered() {
    let cs = complete(&sample_store(), "v_", 0, 1, Some("_"));
    assert_eq!(cs.len(), 1);
    assert_eq!(cs[0].label, "v_add_f32");
    assert_eq!(cs[0].detail, "Add two floats.\n```\ns_add_u32 s0, s1, s2\n```\n");
}

#[test]
fn completion_off_first_token_is_empty() {
    assert!(complete(&sample_store(), "s_add_u32 s_a", 0, 12, Some("a")).is_empty());
}

#[test]
fn completion_without_trigger_is_empty() {
    let store = sample_store();
    assert!(complete(&store, "s_add", 0, 0, None).is_empty());
    assert!(complete(&store, "s_add", 0, 0, Some("1")).is_empty());
    assert!(complete(&store, "s_add", 0, 0, Some("ab")).is_empty());
    assert_eq!(complete(&store, "s_add", 0, 0, Some("d")).len(), 4);
}

#[test]
fn trigger_characters() {
    assert!(is_trigger_character("a"));
    assert!(is_trigger_character("z"));
    assert!(is_trigger_character("_"));
    assert!(!is_trigger_character("A"));
    assert!(!is_trigger_character(""));
    assert!(!is_trigger_character("ab"));
}

#[test]
fn repeated_requests_give_identical_replies() {
    let store = sample_store();
    let a = hover(&store, "s_add_i32 s0", 0, 4);
    let b = hover(&store, "s_add_i32 s0", 0, 4);
    assert!(a.is_some());
    assert_eq!(a, b);
    let c: Vec<(String, String)> = complete(&store, "s_add", 0, 3, Some("a"))
        .into_iter()
        .map(|c| (c.label, c.detail))
        .collect();
    let d: Vec<(String, String)> = complete(&store, "s_add", 0, 3, Some("a"))
        .into_iter()
        .map(|c| (c.label, c.detail))
        .collect();
    assert_eq!(c.len(), 4);
    assert_eq!(c, d);
}

#[test]
fn method_names() {
    assert_eq!(method_from_name("textDocument/hover"), Some(Method::Hover));
    assert_eq!(method_from_name("textDocument/completion"), Some(Method::Completion));
    assert_eq!(method_from_name("completionItem/resolve"), Some(Method::ResolveCompletionItem));
    assert_eq!(method_from_name("textDocument/definition"), None);
}

#[test]
fn resolving_a_completion_item_is_empty() {
    assert!(matches!(resolve(&sample_store(), &Request::ResolveCompletionItem), Reply::Empty));
}

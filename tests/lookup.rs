use opcode_lookup::error::LookupError;
use opcode_lookup::lookup::{collect_fuzzy, find_exact, lookup_rows, matches_folded, OpcodeRow};
use opcode_lookup::page::{optab_rows, row_from_parts};
use opcode_lookup::service::{after_lookup, fetch_opcode_info, lookup_key_of, on_page, start, Action, USAGE};

fn page(rows: &str) -> String {
    format!(
        "<html><body><h1>Opcodes</h1><div class=\"optab\"><table>{}</table></div></body></html>",
        rows
    )
}

fn opcode_row(name: &str, info: &str) -> String {
    format!("<tr><td><a name=\"{}\"></a>{}</td><td>{}</td></tr>", name, name, info)
}

fn row(name: Option<&str>, info: Option<&str>) -> OpcodeRow {
    OpcodeRow { name: name.map(String::from), info: info.map(String::from) }
}

fn fetch(key: &str, exact: bool) -> Action {
    Action::Fetch { key: key.to_string(), exact }
}

#[test]
fn empty_path_gets_usage_text() {
    assert_eq!(start("/"), Action::Reply(Some(USAGE.to_string())));
    assert_eq!(start(""), Action::Reply(Some(USAGE.to_string())));
    assert_eq!(start("//"), Action::Reply(Some(USAGE.to_string())));
    assert_eq!(start("///"), fetch("/", true));
    assert_eq!(USAGE, "Please specify a libSQL/SQLite opcode in the path, e.g. /init");
}

#[test]
fn favicon_gets_empty_body() {
    assert_eq!(start("/favicon.ico"), Action::Reply(None));
    assert_eq!(start("/FAVICON.ICO/"), Action::Reply(None));
    assert_eq!(start("favicon.ico"), Action::Reply(None));
    assert_eq!(start("//favicon.ico"), fetch("/favicon.ico", true));
}

#[test]
fn key_is_trimmed_of_slashes_and_lowered() {
    assert_eq!(lookup_key_of("/Init/"), "init");
    assert_eq!(lookup_key_of("//ResultRow//"), "/resultrow/");
    assert_eq!(lookup_key_of("Init"), "init");
    assert_eq!(lookup_key_of("a/b"), "a/b");
    assert_eq!(start("/Init"), fetch("init", true));
}

#[test]
fn exact_match_ignores_case() {
    let doc = page(&opcode_row("Init", "Starts VM"));
    assert_eq!(start("/init"), fetch("init", true));
    assert_eq!(on_page("init", true, doc.as_bytes()), Ok(Action::Reply(Some("Starts VM".to_string()))));
}

#[test]
fn prefix_falls_back_to_fuzzy() {
    let doc = page(&opcode_row("Init", "Starts VM"));
    let first = start("/Ini");
    assert_eq!(first, fetch("ini", true));
    let second = on_page("ini", true, doc.as_bytes()).unwrap();
    assert_eq!(second, fetch("ini", false));
    let last = on_page("ini", false, doc.as_bytes()).unwrap();
    assert_eq!(last, Action::Reply(Some("Opcode: Init\nStarts VM\n\n".to_string())));
}

#[test]
fn page_without_container_answers_empty() {
    let doc = "<html><body><table>".to_string() + &opcode_row("Init", "Starts VM") + "</table></body></html>";
    assert_eq!(optab_rows(&doc).len(), 0);
    assert_eq!(on_page("init", true, doc.as_bytes()), Ok(fetch("init", false)));
    assert_eq!(on_page("init", false, doc.as_bytes()), Ok(Action::Reply(Some(String::new()))));
}

#[test]
fn same_request_twice_same_answer() {
    let doc = page(&(opcode_row("Init", "Starts VM") + &opcode_row("Goto", "Jumps")));
    for exact in [true, false] {
        let a = on_page("o", exact, doc.as_bytes());
        let b = on_page("o", exact, doc.as_bytes());
        assert_eq!(a, b);
    }
    assert_eq!(start("/Goto"), start("/Goto"));
}

#[test]
fn fuzzy_blocks_follow_document_order() {
    let doc = page(&(opcode_row("xA", "first") + &opcode_row("Other", "none") + &opcode_row("Bx", "second")));
    assert_eq!(
        on_page("x", false, doc.as_bytes()),
        Ok(Action::Reply(Some("Opcode: xA\nfirst\n\nOpcode: Bx\nsecond\n\n".to_string())))
    );
}

#[test]
fn tables_are_read_in_order() {
    let doc = "<html><body><div class=\"optab\"><table>".to_string()
        + &opcode_row("NextA", "one")
        + "</table><table>"
        + &opcode_row("NextB", "two")
        + "</table></div></body></html>";
    let rows = optab_rows(&doc);
    assert_eq!(rows.len(), 2);
    assert_eq!(rows[0].name.as_deref(), Some("NextA"));
    assert_eq!(rows[1].info.as_deref(), Some("two"));
    assert_eq!(
        fetch_opcode_info(doc.as_bytes(), "next", false),
        Ok(Some("Opcode: NextA\none\n\nOpcode: NextB\ntwo\n\n".to_string()))
    );
}

#[test]
fn row_without_second_cell_is_skipped() {
    let broken = "<tr><td><a name=\"Init\"></a>Init</td></tr>";
    let doc = page(&(broken.to_string() + &opcode_row("InitCoroutine", "Sets up")));
    assert_eq!(fetch_opcode_info(doc.as_bytes(), "init", true), Ok(None));
    assert_eq!(
        fetch_opcode_info(doc.as_bytes(), "init", false),
        Ok(Some("Opcode: InitCoroutine\nSets up\n\n".to_string()))
    );
    let doc2 = page(&(broken.to_string() + &opcode_row("Init", "Starts VM")));
    assert_eq!(fetch_opcode_info(doc2.as_bytes(), "init", true), Ok(Some("Starts VM".to_string())));
}

#[test]
fn header_rows_without_anchor_are_left_out() {
    let doc = page(&("<tr><th>Name</th><th>Description</th></tr>".to_string() + &opcode_row("Halt", "Stops")));
    let rows = optab_rows(&doc);
    assert_eq!(rows.len(), 1);
    assert_eq!(rows[0].name.as_deref(), Some("Halt"));
}

#[test]
fn exact_returns_first_match_only() {
    let rows = vec![row(Some("Add"), Some("first")), row(Some("ADD"), Some("second"))];
    assert_eq!(find_exact(&rows, "add"), Some("first".to_string()));
    assert_eq!(lookup_rows(&rows, "Add", true), Some("first".to_string()));
    assert_eq!(find_exact(&rows, "ad"), None);
}

#[test]
fn fuzzy_over_rows_skips_unnamed_and_incomplete() {
    let rows = vec![
        row(None, Some("no name")),
        row(Some("Column"), None),
        row(Some("ColumnsUsed"), Some("mask")),
    ];
    assert_eq!(collect_fuzzy(&rows, "COL"), "Opcode: ColumnsUsed\nmask\n\n");
    assert_eq!(lookup_rows(&rows, "zzz", false), Some(String::new()));
    assert_eq!(collect_fuzzy(&Vec::new(), "x"), "");
}

#[test]
fn folded_comparison() {
    assert!(matches_folded("init", "init", true));
    assert!(!matches_folded("init", "ini", true));
    assert!(matches_folded("init", "ni", false));
    assert!(matches_folded("init", "", false));
    assert!(!matches_folded("init", "tin", false));
}

#[test]
fn row_parts_are_trimmed() {
    let r = row_from_parts(Some("  Init\n"), Some("\n  Starts VM  "));
    assert_eq!(r.name.as_deref(), Some("Init"));
    assert_eq!(r.info.as_deref(), Some("Starts VM"));
    let wide = row_from_parts(Some("\u{a0}\u{3000}Halt\u{2028}"), Some("\t x y \r\n"));
    assert_eq!(wide.name.as_deref(), Some("Halt"));
    assert_eq!(wide.info.as_deref(), Some("x y"));
    let r2 = row_from_parts(None, None);
    assert_eq!(r2.name, None);
    assert_eq!(r2.info, None);
}

#[test]
fn info_keeps_inner_markup() {
    let doc = page(&opcode_row("Goto", "Jump to <i>target</i>."));
    assert_eq!(fetch_opcode_info(doc.as_bytes(), "goto", true), Ok(Some("Jump to <i>target</i>.".to_string())));
}

#[test]
fn undecodable_page_is_an_error() {
    let bytes: Vec<u8> = vec![0x3c, 0xff, 0xfe, 0x3e];
    assert_eq!(fetch_opcode_info(&bytes, "init", true), Err(LookupError::Decode));
    assert_eq!(on_page("init", false, &bytes), Err(LookupError::Decode));
}

#[test]
fn fallback_decision() {
    assert_eq!(after_lookup("init", true, None), fetch("init", false));
    assert_eq!(after_lookup("init", true, Some("x".to_string())), Action::Reply(Some("x".to_string())));
    assert_eq!(after_lookup("init", false, Some(String::new())), Action::Reply(Some(String::new())));
    assert_eq!(after_lookup("init", false, None), Action::Reply(None));
}

#[test]
fn info_attributes_keep_source_order() {
    let doc = page(&opcode_row("Gosub", "See <a href=\"#Goto\" title=\"jump\" class=\"op\">Goto</a>"));
    let expected = "See <a href=\"#Goto\" title=\"jump\" class=\"op\">Goto</a>".to_string();
    for _ in 0..5 {
        assert_eq!(fetch_opcode_info(doc.as_bytes(), "gosub", true), Ok(Some(expected.clone())));
    }
}

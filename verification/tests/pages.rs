use ximonitor_server::ui::{
    escape_for_script, index_html, node_html, render_node_html, I18N_ASSET_PATH_PLACEHOLDER,
    NODE_ID_JSON_PLACEHOLDER, REFRESH_MS_PLACEHOLDER, UI_I18N_ASSET_PATH,
};

/// The text between `const NODE_ID = ` and the next `;\n`.
fn embedded_id(page: &str) -> &str {
    let start = page.find("const NODE_ID = ").unwrap() + "const NODE_ID = ".len();
    let end = start + page[start..].find(";\n").unwrap();
    &page[start..end]
}

#[test]
fn index_html_fills_refresh_interval_in_milliseconds() {
    let page = index_html(5);
    assert!(page.contains("const REFRESH_MS = 5000;"));
    assert!(!page.contains(REFRESH_MS_PLACEHOLDER));
}

#[test]
fn index_html_fills_dictionary_path() {
    let page = index_html(5);
    assert!(page.contains("\"/assets/ui-i18n.json\""));
    assert!(page.contains(UI_I18N_ASSET_PATH));
    assert!(!page.contains(I18N_ASSET_PATH_PLACEHOLDER));
}

#[test]
fn index_html_zero_interval() {
    let page = index_html(0);
    assert!(page.contains("const REFRESH_MS = 0;"));
}

#[test]
fn index_html_largest_interval() {
    let secs = u64::MAX / 1000;
    let page = index_html(secs);
    let expected = format!("const REFRESH_MS = {};", secs * 1000);
    assert!(page.contains(&expected));
}

#[test]
fn node_html_embeds_id_as_json_string() {
    let page = node_html("node-1", 2);
    assert!(page.contains("const NODE_ID = \"node-1\";"));
    assert!(page.contains("const REFRESH_MS = 2000;"));
    assert!(!page.contains(NODE_ID_JSON_PLACEHOLDER));
    assert!(!page.contains(REFRESH_MS_PLACEHOLDER));
}

#[test]
fn node_html_escapes_quotes_and_backslashes() {
    let page = node_html("a\"b\\c", 1);
    assert!(page.contains("const NODE_ID = \"a\\\"b\\\\c\";"));
}

#[test]
fn node_html_escapes_control_characters() {
    let page = node_html("x\ny", 1);
    assert!(page.contains("const NODE_ID = \"x\\ny\";"));
}

#[test]
fn node_html_keeps_page_shape() {
    let page = node_html("n", 30);
    assert!(page.starts_with("<!doctype html>"));
    assert!(page.ends_with("</html>\n"));
    assert!(page.contains("<title>XiMonitor Node</title>"));
    assert!(page.contains("const REFRESH_MS = 30000;"));
}

#[test]
fn render_node_html_uses_given_text() {
    let page = render_node_html("\"edge-7\"", 3);
    assert!(page.contains("const NODE_ID = \"edge-7\";"));
    assert!(page.contains("const REFRESH_MS = 3000;"));
}

#[test]
fn escape_for_script_escapes_lt_only() {
    assert_eq!(escape_for_script("\"a<b>c</script>\""), "\"a\\u003cb>c\\u003c/script>\"");
    assert_eq!(escape_for_script("\"plain\""), "\"plain\"");
}

#[test]
fn node_html_id_cannot_close_script() {
    let id = "</script><img src=x onerror=alert(1)>";
    let page = node_html(id, 5);
    assert_eq!(page.to_ascii_lowercase().matches("</script").count(), 1);
    assert!(page.contains("const NODE_ID = \"\\u003c/script>\\u003cimg src=x onerror=alert(1)>\";"));
    let upper = node_html("</SCRIPT>", 5);
    assert_eq!(upper.to_ascii_lowercase().matches("</script").count(), 1);
}

#[test]
fn node_html_embedded_id_reads_back() {
    for id in ["node-1", "a\"b\\c", "x\ny\u{1}", "</script>", "日本", "__REFRESH_MS__", ""] {
        let page = node_html(id, 7);
        let text = embedded_id(&page);
        assert!(text.starts_with('"') && text.ends_with('"'));
        assert!(text.chars().all(|c| c >= '\u{20}' && c != '<'));
        assert_eq!(serde_json::from_str::<String>(text).unwrap(), id);
    }
}

#[test]
fn node_html_distinct_ids_give_distinct_pages() {
    assert_ne!(node_html("a", 1), node_html("b", 1));
    assert_ne!(node_html("a", 1), node_html("a", 2));
    assert_ne!(node_html("<", 1), node_html("\\u003c", 1));
}

#[test]
fn index_html_distinct_intervals_give_distinct_pages() {
    assert_ne!(index_html(1), index_html(2));
    assert_ne!(index_html(0), index_html(10));
}

#[test]
fn node_html_id_spelling_a_placeholder_stays_in_page() {
    // An ID that spells a placeholder is written as data after the other
    // placeholders are filled, so its text appears in the page.
    let page = node_html("__REFRESH_MS__", 1);
    assert!(page.contains("const NODE_ID = \"__REFRESH_MS__\";"));
    assert!(page.contains("const REFRESH_MS = 1000;"));
}

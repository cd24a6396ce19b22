use ximonitor_server::ui::{
    index_html, node_html, INDEX_TEMPLATE_CONFIG, INDEX_TEMPLATE_HEAD, INDEX_TEMPLATE_SCRIPT,
    NODE_TEMPLATE_HEAD, NODE_TEMPLATE_MARKUP, NODE_TEMPLATE_SCRIPT_CONFIG, NODE_TEMPLATE_SCRIPT_RENDER,
    NODE_TEMPLATE_SCRIPT_SETUP,
};

fn node_template() -> String {
    [
        NODE_TEMPLATE_HEAD,
        NODE_TEMPLATE_MARKUP,
        NODE_TEMPLATE_SCRIPT_CONFIG,
        NODE_TEMPLATE_SCRIPT_SETUP,
        NODE_TEMPLATE_SCRIPT_RENDER,
    ]
    .concat()
}

fn fingerprint(text: &str) -> u64 {
    text.bytes().fold(0u64, |h, b| h.wrapping_mul(31).wrapping_add(b as u64))
}

#[test]
fn node_template_is_pinned() {
    let template = node_template();
    assert_eq!(template.len(), 43891);
    assert_eq!(fingerprint(&template), 16205299748388755840);
}

#[test]
fn node_template_declares_each_binding_once() {
    let template = node_template();
    assert_eq!(template.matches("let I18N").count(), 1);
    assert_eq!(template.matches("async function loadI18n").count(), 1);
    assert_eq!(template.matches("const NODE_ID = ").count(), 1);
    assert_eq!(template.matches("const REFRESH_MS = ").count(), 1);
    assert_eq!(template.matches("__NODE_ID_JSON__").count(), 1);
    assert_eq!(template.matches("__REFRESH_MS__").count(), 1);
    assert_eq!(template.matches("__I18N_ASSET_PATH__").count(), 1);
}

#[test]
fn node_page_declares_each_binding_once() {
    let page = node_html("node-1", 5);
    assert_eq!(page.matches("let I18N").count(), 1);
    assert_eq!(page.matches("const NODE_ID = ").count(), 1);
    assert!(page.contains(
        "    <script>\n      const NODE_ID = \"node-1\";\n      const REFRESH_MS = 5000;\n      const I18N_ASSET_PATH = \"/assets/ui-i18n.json\";\n"
    ));
}

#[test]
fn node_page_is_template_with_three_substitutions() {
    let expected = node_template()
        .replace("__REFRESH_MS__", "7000")
        .replace("__I18N_ASSET_PATH__", "/assets/ui-i18n.json")
        .replace("__NODE_ID_JSON__", "\"edge\"");
    assert_eq!(node_html("edge", 7), expected);
}

#[test]
fn index_page_is_template_with_two_substitutions() {
    let template = [INDEX_TEMPLATE_HEAD, INDEX_TEMPLATE_CONFIG, INDEX_TEMPLATE_SCRIPT].concat();
    let expected = template
        .replace("__REFRESH_MS__", "3000")
        .replace("__I18N_ASSET_PATH__", "/assets/ui-i18n.json");
    assert_eq!(index_html(3), expected);
    assert_eq!(index_html(3).matches("let I18N").count(), 1);
}

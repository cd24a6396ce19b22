//! The HTML pages of the dashboard: templates whose placeholders are filled
//! with the refresh interval, the path of the translation dictionary and, for
//! a node's page, the node's ID as a JSON string.

use vstd::prelude::*;
use vstd::string::*;

use crate::decimal::{
    decimal_digits, decimal_string, decimal_value, is_decimal_numeral, lemma_decimal_digits_injective,
    lemma_decimal_roundtrip,
};
use crate::json::{
    json_string_literal_of, json_string_of, json_string_value, lemma_replace_lt_literal, lemma_script_literal,
    lemma_script_literal_injective, lt_escape, script_string_literal,
};
use crate::text::{
    count_occurrences, fits_at, lemma_occurs_transitive, lemma_replace_all_contains_rep,
    lemma_replace_all_count, lemma_replace_all_keeps_occurrence,
    lemma_replace_all_no_occurrence, lemma_replace_all_occurrence_within, occurs_at, occurs_in,
    replace_all, replace_str, lemma_replace_all_concat, lemma_replace_all_lacks_first, lemma_replace_all_absent,
    lemma_count_char_concat, lemma_line_prefix_unique, lemma_split_before_line_break,
};

verus! {

/// HTTP path of the front end's i18n dictionary, written into every page.
pub const UI_I18N_ASSET_PATH: &'static str = "/assets/ui-i18n.json";

/// Placeholder for the refresh interval in milliseconds.
pub const REFRESH_MS_PLACEHOLDER: &'static str = "__REFRESH_MS__";

/// Placeholder for the path of the i18n dictionary.
pub const I18N_ASSET_PATH_PLACEHOLDER: &'static str = "__I18N_ASSET_PATH__";

/// Placeholder for the node's ID, written as a JSON string.
pub const NODE_ID_JSON_PLACEHOLDER: &'static str = "__NODE_ID_JSON__";

/// The text that stands for an ID that could not be encoded: an empty JSON string.
pub const EMPTY_JSON_STRING: &'static str = "\"\"";

/// The character that could end a script element early.
pub const LT: &'static str = "<";

/// The JSON escape written for `<`.
pub const LT_ESCAPE: &'static str = "\\u003c";

/// The refresh interval in milliseconds, as a decimal numeral.
pub open spec fn refresh_ms_text(refresh_interval_secs: u64) -> Seq<char> {
    decimal_digits((refresh_interval_secs * 1000) as nat)
}

/// A template with the refresh interval and the dictionary path filled in.
pub open spec fn fill_common(template: Seq<char>, refresh_interval_secs: u64) -> Seq<char> {
    replace_all(
        replace_all(template, REFRESH_MS_PLACEHOLDER@, refresh_ms_text(refresh_interval_secs)),
        I18N_ASSET_PATH_PLACEHOLDER@,
        UI_I18N_ASSET_PATH@,
    )
}

/// The home page's template: a small page that lists the nodes and loads
/// the dictionary, the concatenation of its three parts.
pub open spec fn index_template() -> Seq<char> {
    INDEX_TEMPLATE_HEAD@ + INDEX_TEMPLATE_CONFIG@ + INDEX_TEMPLATE_SCRIPT@
}

/// The home page for a refresh interval.
pub open spec fn index_page(refresh_interval_secs: u64) -> Seq<char> {
    fill_common(index_template(), refresh_interval_secs)
}

/// A node's page, given the JSON text of its ID.
pub open spec fn node_page(node_id_json: Seq<char>, refresh_interval_secs: u64) -> Seq<char> {
    replace_all(fill_common(node_template(), refresh_interval_secs), NODE_ID_JSON_PLACEHOLDER@, node_id_json)
}

/// The opening of a node page's script, up to the ID:
/// a line break, then `    <script>\n      const NODE_ID = `.
pub open spec fn node_script_open() -> Seq<char> {
    NODE_TEMPLATE_SCRIPT_CONFIG@.subrange(0, 36)
}

/// The opening of the home page's script, up to the interval:
/// a line break, then `    <script>\n      const REFRESH_MS = `.
pub open spec fn index_script_open() -> Seq<char> {
    INDEX_TEMPLATE_CONFIG@.subrange(0, 39)
}

/// What stands between the ID and the interval: `;\n      const REFRESH_MS = `.
pub open spec fn refresh_open() -> Seq<char> {
    NODE_TEMPLATE_SCRIPT_CONFIG@.subrange(52, 79)
}

/// What stands between the interval and the dictionary path:
/// `;\n      const I18N_ASSET_PATH = "`.
pub open spec fn path_open() -> Seq<char> {
    NODE_TEMPLATE_SCRIPT_CONFIG@.subrange(93, 126)
}

/// What closes the configuration lines: `";\n`.
pub open spec fn config_close() -> Seq<char> {
    NODE_TEMPLATE_SCRIPT_CONFIG@.subrange(145, 148)
}

/// The configuration lines of a node page's script, with the ID text, the
/// interval text and the dictionary path text in their places.
pub open spec fn node_config_block(id_text: Seq<char>, ms_text: Seq<char>, path_text: Seq<char>) -> Seq<char> {
    node_script_open() + id_text + refresh_open() + ms_text + path_open() + path_text + config_close()
}

/// The configuration lines of the home page's script, with the interval
/// text and the dictionary path text in their places.
pub open spec fn index_config_block(ms_text: Seq<char>, path_text: Seq<char>) -> Seq<char> {
    index_script_open() + ms_text + path_open() + path_text + config_close()
}

/// `s` holds no two underscores in a row.
pub open spec fn no_double_underscore(s: Seq<char>) -> bool {
    forall|i: int| 0 <= i < s.len() - 1 ==> !(#[trigger] s[i] == '_' && s[i + 1] == '_')
}

/// A text without two underscores in a row holds no pattern that begins with two.
proof fn lemma_no_double_underscore(k: Seq<char>, pat: Seq<char>, rep: Seq<char>)
    requires
        no_double_underscore(k),
        pat.len() >= 2,
        pat[0] == '_',
        pat[1] == '_',
    ensures
        replace_all(k, pat, rep) == k,
{
    assert forall|i: int| !occurs_at(k, pat, i) by {
        if occurs_at(k, pat, i) {
            let w = k.subrange(i, i + pat.len());
            assert(w[0] == k[i] && w[1] == k[i + 1]);
        }
    }
    lemma_replace_all_absent(k, pat, rep);
}

/// The line breaks of `s`.
pub open spec fn line_count(s: Seq<char>) -> nat {
    count_occurrences(s, seq!['\n'])
}

/// `s` is not empty and ends a line.
pub open spec fn ends_line(s: Seq<char>) -> bool {
    s.len() > 0 && s[s.len() - 1] == '\n'
}

/// The pieces of the configuration parts, and the characters at their ends.
#[verifier::rlimit(50)]
proof fn lemma_config_pieces()
    ensures
        NODE_TEMPLATE_SCRIPT_CONFIG@ == node_config_block(
            NODE_ID_JSON_PLACEHOLDER@,
            REFRESH_MS_PLACEHOLDER@,
            I18N_ASSET_PATH_PLACEHOLDER@,
        ),
        INDEX_TEMPLATE_CONFIG@ == index_config_block(REFRESH_MS_PLACEHOLDER@, I18N_ASSET_PATH_PLACEHOLDER@),
        node_script_open().len() > 0,
        node_script_open()[0] == '\n',
        node_script_open()[node_script_open().len() - 1] == ' ',
        no_double_underscore(node_script_open()),
        index_script_open().len() > 0,
        index_script_open()[0] == '\n',
        index_script_open()[index_script_open().len() - 1] == ' ',
        no_double_underscore(index_script_open()),
        refresh_open().len() >= 2,
        refresh_open()[0] == ';',
        refresh_open()[1] == '\n',
        refresh_open()[refresh_open().len() - 1] == ' ',
        no_double_underscore(refresh_open()),
        path_open().len() >= 2,
        path_open()[0] == ';',
        path_open()[1] == '\n',
        path_open()[path_open().len() - 1] == '"',
        no_double_underscore(path_open()),
        config_close().len() > 0,
        config_close()[0] == '"',
        config_close()[config_close().len() - 1] == '\n',
        no_double_underscore(config_close()),
{
    reveal_placeholders();
    reveal_strlit("\n    <script>\n      const NODE_ID = __NODE_ID_JSON__;\n      const REFRESH_MS = __REFRESH_MS__;\n      const I18N_ASSET_PATH = \"__I18N_ASSET_PATH__\";\n");
    reveal_strlit("\n    <script>\n      const REFRESH_MS = __REFRESH_MS__;\n      const I18N_ASSET_PATH = \"__I18N_ASSET_PATH__\";\n");
    let c = NODE_TEMPLATE_SCRIPT_CONFIG@;
    let ic = INDEX_TEMPLATE_CONFIG@;
    assert(c.subrange(36, 52) =~= NODE_ID_JSON_PLACEHOLDER@);
    assert(c.subrange(79, 93) =~= REFRESH_MS_PLACEHOLDER@);
    assert(c.subrange(126, 145) =~= I18N_ASSET_PATH_PLACEHOLDER@);
    assert(c =~= node_config_block(NODE_ID_JSON_PLACEHOLDER@, REFRESH_MS_PLACEHOLDER@, I18N_ASSET_PATH_PLACEHOLDER@));
    assert(ic.subrange(39, 53) =~= REFRESH_MS_PLACEHOLDER@);
    assert(ic.subrange(53, 86) =~= path_open());
    assert(ic.subrange(86, 105) =~= I18N_ASSET_PATH_PLACEHOLDER@);
    assert(ic.subrange(105, 108) =~= config_close());
    assert(ic =~= index_config_block(REFRESH_MS_PLACEHOLDER@, I18N_ASSET_PATH_PLACEHOLDER@));
    assert(node_script_open() =~= seq!['\n', ' ', ' ', ' ', ' ', '<', 's', 'c', 'r', 'i', 'p', 't', '>', '\n', ' ', ' ', ' ', ' ', ' ', ' ', 'c', 'o', 'n', 's', 't', ' ', 'N', 'O', 'D', 'E', '_', 'I', 'D', ' ', '=', ' ']);
    assert forall|i: int| 0 <= i < node_script_open().len() - 1 implies !(#[trigger] node_script_open()[i] == '_' && node_script_open()[i + 1] == '_') by {
        assert(i == 0 || i == 1 || i == 2 || i == 3 || i == 4 || i == 5 || i == 6 || i == 7 || i == 8 || i == 9 || i == 10 || i == 11 || i == 12 || i == 13 || i == 14 || i == 15 || i == 16 || i == 17 || i == 18 || i == 19 || i == 20 || i == 21 || i == 22 || i == 23 || i == 24 || i == 25 || i == 26 || i == 27 || i == 28 || i == 29 || i == 30 || i == 31 || i == 32 || i == 33 || i == 34 || i == 35);
    }
    assert(index_script_open() =~= seq!['\n', ' ', ' ', ' ', ' ', '<', 's', 'c', 'r', 'i', 'p', 't', '>', '\n', ' ', ' ', ' ', ' ', ' ', ' ', 'c', 'o', 'n', 's', 't', ' ', 'R', 'E', 'F', 'R', 'E', 'S', 'H', '_', 'M', 'S', ' ', '=', ' ']);
    assert forall|i: int| 0 <= i < index_script_open().len() - 1 implies !(#[trigger] index_script_open()[i] == '_' && index_script_open()[i + 1] == '_') by {
        assert(i == 0 || i == 1 || i == 2 || i == 3 || i == 4 || i == 5 || i == 6 || i == 7 || i == 8 || i == 9 || i == 10 || i == 11 || i == 12 || i == 13 || i == 14 || i == 15 || i == 16 || i == 17 || i == 18 || i == 19 || i == 20 || i == 21 || i == 22 || i == 23 || i == 24 || i == 25 || i == 26 || i == 27 || i == 28 || i == 29 || i == 30 || i == 31 || i == 32 || i == 33 || i == 34 || i == 35 || i == 36 || i == 37 || i == 38);
    }
    assert(refresh_open() =~= seq![';', '\n', ' ', ' ', ' ', ' ', ' ', ' ', 'c', 'o', 'n', 's', 't', ' ', 'R', 'E', 'F', 'R', 'E', 'S', 'H', '_', 'M', 'S', ' ', '=', ' ']);
    assert forall|i: int| 0 <= i < refresh_open().len() - 1 implies !(#[trigger] refresh_open()[i] == '_' && refresh_open()[i + 1] == '_') by {
        assert(i == 0 || i == 1 || i == 2 || i == 3 || i == 4 || i == 5 || i == 6 || i == 7 || i == 8 || i == 9 || i == 10 || i == 11 || i == 12 || i == 13 || i == 14 || i == 15 || i == 16 || i == 17 || i == 18 || i == 19 || i == 20 || i == 21 || i == 22 || i == 23 || i == 24 || i == 25 || i == 26);
    }
    assert(path_open() =~= seq![';', '\n', ' ', ' ', ' ', ' ', ' ', ' ', 'c', 'o', 'n', 's', 't', ' ', 'I', '1', '8', 'N', '_', 'A', 'S', 'S', 'E', 'T', '_', 'P', 'A', 'T', 'H', ' ', '=', ' ', '"']);
    assert forall|i: int| 0 <= i < path_open().len() - 1 implies !(#[trigger] path_open()[i] == '_' && path_open()[i + 1] == '_') by {
        assert(i == 0 || i == 1 || i == 2 || i == 3 || i == 4 || i == 5 || i == 6 || i == 7 || i == 8 || i == 9 || i == 10 || i == 11 || i == 12 || i == 13 || i == 14 || i == 15 || i == 16 || i == 17 || i == 18 || i == 19 || i == 20 || i == 21 || i == 22 || i == 23 || i == 24 || i == 25 || i == 26 || i == 27 || i == 28 || i == 29 || i == 30 || i == 31 || i == 32);
    }
    assert(config_close() =~= seq!['"', ';', '\n']);
    assert forall|i: int| 0 <= i < config_close().len() - 1 implies !(#[trigger] config_close()[i] == '_' && config_close()[i + 1] == '_') by {
        assert(i == 0 || i == 1 || i == 2);
    }
}

/// The pieces of the configuration lines hold no two underscores in a row,
/// and the characters at their joins are no placeholder's.
proof fn lemma_piece_joins()
    ensures
        node_script_open().len() > 0,
        node_script_open()[0] == '\n',
        node_script_open()[node_script_open().len() - 1] == ' ',
        no_double_underscore(node_script_open()),
        index_script_open().len() > 0,
        index_script_open()[0] == '\n',
        index_script_open()[index_script_open().len() - 1] == ' ',
        no_double_underscore(index_script_open()),
        refresh_open().len() > 0,
        refresh_open()[0] == ';',
        refresh_open()[refresh_open().len() - 1] == ' ',
        no_double_underscore(refresh_open()),
        path_open().len() > 0,
        path_open()[0] == ';',
        path_open()[path_open().len() - 1] == '"',
        no_double_underscore(path_open()),
        config_close().len() > 0,
        config_close()[0] == '"',
        config_close()[config_close().len() - 1] == '\n',
        no_double_underscore(config_close()),
{
    lemma_config_pieces();
}

/// The characters at the ends of the configuration pieces.
proof fn lemma_piece_chars()
    ensures
        node_script_open().len() > 0,
        node_script_open()[0] == '\n',
        index_script_open().len() > 0,
        index_script_open()[0] == '\n',
        refresh_open().len() >= 2,
        refresh_open()[0] == ';',
        refresh_open()[1] == '\n',
        path_open().len() >= 2,
        path_open()[0] == ';',
        path_open()[1] == '\n',
{
    lemma_config_pieces();
}

/// Replacing in `k + x + rest` replaces in `x` and in `rest` alone, where
/// `k` lacks the first character of `pat` and the joins cannot be straddled.
proof fn lemma_replace_step(k: Seq<char>, x: Seq<char>, rest: Seq<char>, pat: Seq<char>, rep: Seq<char>)
    requires
        pat.len() > 0,
        k.len() > 0,
        no_double_underscore(k),
        pat.len() >= 2,
        pat[0] == '_',
        pat[1] == '_',
        !pat.contains(k[k.len() - 1]),
        rest.len() > 0,
        !pat.contains(rest[0]),
    ensures
        replace_all(k + x + rest, pat, rep) == k + replace_all(x, pat, rep) + replace_all(rest, pat, rep),
{
    lemma_replace_all_concat(k, x + rest, pat, rep);
    lemma_no_double_underscore(k, pat, rep);
    lemma_replace_all_concat(x, rest, pat, rep);
    assert(k + x + rest =~= k + (x + rest));
    assert(k + (replace_all(x, pat, rep) + replace_all(rest, pat, rep))
        =~= k + replace_all(x, pat, rep) + replace_all(rest, pat, rep));
}

/// A replacement keeps the number of line breaks, where neither the
/// pattern nor the replacement holds one.
proof fn lemma_replace_keeps_lines(pre: Seq<char>, pat: Seq<char>, rep: Seq<char>)
    requires
        pat.len() > 0,
        pat[0] == '_',
        !pat.contains('\n'),
        rep.len() > 0,
        !rep.contains('\n'),
    ensures
        line_count(replace_all(pre, pat, rep)) == line_count(pre),
{
    lemma_replace_all_count(pre, pat, rep, seq!['\n']);
}

/// Facts about the texts put into the configuration lines.
proof fn lemma_fill_texts(refresh_interval_secs: u64)
    ensures
        refresh_ms_text(refresh_interval_secs).len() > 0,
        !refresh_ms_text(refresh_interval_secs).contains('\n'),
        !refresh_ms_text(refresh_interval_secs).contains('_'),
        UI_I18N_ASSET_PATH@.len() > 0,
        !UI_I18N_ASSET_PATH@.contains('\n'),
        !UI_I18N_ASSET_PATH@.contains('_'),
        !REFRESH_MS_PLACEHOLDER@.contains(' ') && !REFRESH_MS_PLACEHOLDER@.contains(';')
            && !REFRESH_MS_PLACEHOLDER@.contains('"') && !REFRESH_MS_PLACEHOLDER@.contains('\n'),
        !I18N_ASSET_PATH_PLACEHOLDER@.contains(' ') && !I18N_ASSET_PATH_PLACEHOLDER@.contains(';')
            && !I18N_ASSET_PATH_PLACEHOLDER@.contains('"') && !I18N_ASSET_PATH_PLACEHOLDER@.contains('\n'),
        !NODE_ID_JSON_PLACEHOLDER@.contains(' ') && !NODE_ID_JSON_PLACEHOLDER@.contains(';')
            && !NODE_ID_JSON_PLACEHOLDER@.contains('"') && !NODE_ID_JSON_PLACEHOLDER@.contains('\n'),
        REFRESH_MS_PLACEHOLDER@.len() >= 2 && REFRESH_MS_PLACEHOLDER@[0] == '_' && REFRESH_MS_PLACEHOLDER@[1] == '_',
        I18N_ASSET_PATH_PLACEHOLDER@.len() >= 2 && I18N_ASSET_PATH_PLACEHOLDER@[0] == '_'
            && I18N_ASSET_PATH_PLACEHOLDER@[1] == '_',
        NODE_ID_JSON_PLACEHOLDER@.len() >= 2 && NODE_ID_JSON_PLACEHOLDER@[0] == '_' && NODE_ID_JSON_PLACEHOLDER@[1] == '_',
        replace_all(NODE_ID_JSON_PLACEHOLDER@, REFRESH_MS_PLACEHOLDER@, refresh_ms_text(refresh_interval_secs))
            == NODE_ID_JSON_PLACEHOLDER@,
        replace_all(I18N_ASSET_PATH_PLACEHOLDER@, REFRESH_MS_PLACEHOLDER@, refresh_ms_text(refresh_interval_secs))
            == I18N_ASSET_PATH_PLACEHOLDER@,
        replace_all(NODE_ID_JSON_PLACEHOLDER@, I18N_ASSET_PATH_PLACEHOLDER@, UI_I18N_ASSET_PATH@)
            == NODE_ID_JSON_PLACEHOLDER@,
{
    reveal_placeholders();
    lemma_text_chars();
    lemma_decimal_roundtrip((refresh_interval_secs * 1000) as nat);
    let ms = refresh_ms_text(refresh_interval_secs);
    let refresh = REFRESH_MS_PLACEHOLDER@;
    let i18n = I18N_ASSET_PATH_PLACEHOLDER@;
    let node = NODE_ID_JSON_PLACEHOLDER@;
    assert(!ms.contains('\n'));
    assert(!ms.contains('_'));
    assert forall|i: int| !occurs_at(node, refresh, i) by {
        if occurs_at(node, refresh, i) {
            let w = node.subrange(i, i + refresh.len());
            assert(w[0] == node[i] && w[1] == node[i + 1] && w[2] == node[i + 2]);
        }
    }
    lemma_replace_all_absent(node, refresh, ms);
    assert forall|i: int| !occurs_at(i18n, refresh, i) by {
        if occurs_at(i18n, refresh, i) {
            let w = i18n.subrange(i, i + refresh.len());
            assert(w[0] == i18n[i] && w[1] == i18n[i + 1] && w[2] == i18n[i + 2]);
        }
    }
    lemma_replace_all_absent(i18n, refresh, ms);
    assert forall|i: int| !occurs_at(node, i18n, i) by {}
    lemma_replace_all_absent(node, i18n, UI_I18N_ASSET_PATH@);
}

/// Replacing a pattern that is the whole text gives the replacement.
proof fn lemma_replace_whole(pat: Seq<char>, rep: Seq<char>)
    requires
        pat.len() > 0,
    ensures
        replace_all(pat, pat, rep) == rep,
{
    assert(pat.subrange(0, pat.len() as int) =~= pat);
    assert(occurs_at(pat, pat, 0));
    assert(pat.skip(pat.len() as int) =~= Seq::<char>::empty());
    assert(replace_all(pat.skip(pat.len() as int), pat, rep) =~= Seq::<char>::empty());
    assert(rep + Seq::<char>::empty() =~= rep);
}

/// One filling pass over a template laid out around a node's configuration lines.
#[verifier::rlimit(50)]
proof fn lemma_node_pass(
    pre: Seq<char>,
    x: Seq<char>,
    y: Seq<char>,
    z: Seq<char>,
    post: Seq<char>,
    pat: Seq<char>,
    rep: Seq<char>,
)
    requires
        pat.len() >= 2,
        pat[0] == '_',
        pat[1] == '_',
        !pat.contains(' ') && !pat.contains(';') && !pat.contains('"') && !pat.contains('\n'),
        rep.len() > 0,
        !rep.contains('\n'),
    ensures
        replace_all(pre + node_config_block(x, y, z) + post, pat, rep)
            == replace_all(pre, pat, rep) + node_config_block(
                replace_all(x, pat, rep),
                replace_all(y, pat, rep),
                replace_all(z, pat, rep),
            ) + replace_all(post, pat, rep),
        line_count(replace_all(pre, pat, rep)) == line_count(pre),
{
    lemma_piece_joins();
    let (k1, k2, k3, k4) = (node_script_open(), refresh_open(), path_open(), config_close());
    let r4 = k4 + post;
    let r3 = k3 + z + r4;
    let r2 = k2 + y + r3;
    let r1 = k1 + x + r2;
    assert(pre + node_config_block(x, y, z) + post =~= pre + r1);
    lemma_replace_all_concat(pre, r1, pat, rep);
    lemma_replace_step(k1, x, r2, pat, rep);
    lemma_replace_step(k2, y, r3, pat, rep);
    lemma_replace_step(k3, z, r4, pat, rep);
    lemma_replace_all_concat(k4, post, pat, rep);
    lemma_no_double_underscore(k4, pat, rep);
    lemma_replace_keeps_lines(pre, pat, rep);
    assert(replace_all(pre, pat, rep) + replace_all(r1, pat, rep) =~= replace_all(pre, pat, rep)
        + node_config_block(replace_all(x, pat, rep), replace_all(y, pat, rep), replace_all(z, pat, rep))
        + replace_all(post, pat, rep));
}

/// One filling pass over a template laid out around the home page's configuration lines.
#[verifier::rlimit(50)]
proof fn lemma_index_pass(pre: Seq<char>, y: Seq<char>, z: Seq<char>, post: Seq<char>, pat: Seq<char>, rep: Seq<char>)
    requires
        pat.len() >= 2,
        pat[0] == '_',
        pat[1] == '_',
        !pat.contains(' ') && !pat.contains(';') && !pat.contains('"') && !pat.contains('\n'),
        rep.len() > 0,
        !rep.contains('\n'),
    ensures
        replace_all(pre + index_config_block(y, z) + post, pat, rep)
            == replace_all(pre, pat, rep) + index_config_block(replace_all(y, pat, rep), replace_all(z, pat, rep))
                + replace_all(post, pat, rep),
        line_count(replace_all(pre, pat, rep)) == line_count(pre),
{
    lemma_piece_joins();
    let (k1, k3, k4) = (index_script_open(), path_open(), config_close());
    let r4 = k4 + post;
    let r3 = k3 + z + r4;
    let r1 = k1 + y + r3;
    assert(pre + index_config_block(y, z) + post =~= pre + r1);
    lemma_replace_all_concat(pre, r1, pat, rep);
    lemma_replace_step(k1, y, r3, pat, rep);
    lemma_replace_step(k3, z, r4, pat, rep);
    lemma_replace_all_concat(k4, post, pat, rep);
    lemma_no_double_underscore(k4, pat, rep);
    lemma_replace_keeps_lines(pre, pat, rep);
    assert(replace_all(pre, pat, rep) + replace_all(r1, pat, rep) =~= replace_all(pre, pat, rep)
        + index_config_block(replace_all(y, pat, rep), replace_all(z, pat, rep)) + replace_all(post, pat, rep));
}

proof fn reveal_placeholders()
    ensures
        REFRESH_MS_PLACEHOLDER@ == seq!['_', '_', 'R', 'E', 'F', 'R', 'E', 'S', 'H', '_', 'M', 'S', '_', '_'],
        I18N_ASSET_PATH_PLACEHOLDER@ == seq!['_', '_', 'I', '1', '8', 'N', '_', 'A', 'S', 'S', 'E', 'T', '_', 'P', 'A', 'T', 'H', '_', '_'],
        NODE_ID_JSON_PLACEHOLDER@ == seq!['_', '_', 'N', 'O', 'D', 'E', '_', 'I', 'D', '_', 'J', 'S', 'O', 'N', '_', '_'],
        UI_I18N_ASSET_PATH@ == seq!['/', 'a', 's', 's', 'e', 't', 's', '/', 'u', 'i', '-', 'i', '1', '8', 'n', '.', 'j', 's', 'o', 'n'],
        EMPTY_JSON_STRING@ == seq!['"', '"'],
        LT@ == seq!['<'],
        LT_ESCAPE@ == lt_escape(),
{
    reveal_strlit("__REFRESH_MS__");
    reveal_strlit("__I18N_ASSET_PATH__");
    reveal_strlit("__NODE_ID_JSON__");
    reveal_strlit("/assets/ui-i18n.json");
    reveal_strlit("\"\"");
    reveal_strlit("<");
    reveal_strlit("\\u003c");
}


/// Every character of `s` is an underscore, a capital letter or a digit.
spec fn placeholder_chars(s: Seq<char>) -> bool {
    forall|i: int| 0 <= i < s.len() ==> (#[trigger] s[i] == '_' || ('A' <= s[i] <= 'Z') || ('0' <= s[i] <= '9'))
}

/// Every character of `s` is a lower-case letter, a digit, '/', '-' or '.'.
spec fn path_chars(s: Seq<char>) -> bool {
    forall|i: int| 0 <= i < s.len() ==> (('a' <= #[trigger] s[i] <= 'z') || ('0' <= s[i] <= '9') || s[i] == '/' || s[i] == '-' || s[i] == '.')
}

proof fn lemma_text_chars()
    ensures
        placeholder_chars(REFRESH_MS_PLACEHOLDER@),
        placeholder_chars(I18N_ASSET_PATH_PLACEHOLDER@),
        placeholder_chars(NODE_ID_JSON_PLACEHOLDER@),
        path_chars(UI_I18N_ASSET_PATH@),
        forall|i: int| 0 <= i < REFRESH_MS_PLACEHOLDER@.len() ==> !('0' <= #[trigger] REFRESH_MS_PLACEHOLDER@[i] <= '9'),
{
    reveal_placeholders();
}

/// After filling in the common placeholders, neither of them is left in the
/// text, whatever the template held.
proof fn lemma_fill_common_complete(template: Seq<char>, refresh_interval_secs: u64)
    ensures
        !occurs_in(fill_common(template, refresh_interval_secs), REFRESH_MS_PLACEHOLDER@),
        !occurs_in(fill_common(template, refresh_interval_secs), I18N_ASSET_PATH_PLACEHOLDER@),
{
    reveal_placeholders();
    lemma_text_chars();
    let refresh = REFRESH_MS_PLACEHOLDER@;
    let i18n = I18N_ASSET_PATH_PLACEHOLDER@;
    let path = UI_I18N_ASSET_PATH@;
    let ms = refresh_ms_text(refresh_interval_secs);
    lemma_decimal_roundtrip((refresh_interval_secs * 1000) as nat);
    assert(refresh[0] == '_');
    assert(i18n[0] == '_');
    assert(path[0] == '/');
    assert(!refresh.contains(ms[0]));
    assert(!ms.contains('_'));
    assert(!path.contains('_'));
    assert(!refresh.contains('/'));
    assert(!i18n.contains('/'));
    let step = replace_all(template, refresh, ms);
    lemma_replace_all_no_occurrence(template, refresh, ms, refresh);
    lemma_replace_all_no_occurrence(step, i18n, path, i18n);
    lemma_replace_all_no_occurrence(step, i18n, path, refresh);
}

/// The home page holds neither the refresh placeholder nor the dictionary
/// placeholder: both are filled in, for every refresh interval.
pub proof fn lemma_index_page_complete(refresh_interval_secs: u64)
    ensures
        !occurs_in(index_page(refresh_interval_secs), REFRESH_MS_PLACEHOLDER@),
        !occurs_in(index_page(refresh_interval_secs), I18N_ASSET_PATH_PLACEHOLDER@),
{
    lemma_fill_common_complete(index_template(), refresh_interval_secs);
}

/// On a node's page a placeholder occurs exactly where the ID's literal
/// holds it: the page itself leaves none behind, for every ID and interval.
pub proof fn lemma_node_page_placeholders(node_id: Seq<char>, refresh_interval_secs: u64)
    ensures
        ({
            let lit = script_string_literal(node_id);
            let page = node_page(lit, refresh_interval_secs);
            &&& occurs_in(page, REFRESH_MS_PLACEHOLDER@) <==> occurs_in(lit, REFRESH_MS_PLACEHOLDER@)
            &&& occurs_in(page, I18N_ASSET_PATH_PLACEHOLDER@) <==> occurs_in(lit, I18N_ASSET_PATH_PLACEHOLDER@)
            &&& occurs_in(page, NODE_ID_JSON_PLACEHOLDER@) <==> occurs_in(lit, NODE_ID_JSON_PLACEHOLDER@)
        }),
{
    reveal_placeholders();
    lemma_text_chars();
    let lit = script_string_literal(node_id);
    lemma_script_literal(node_id);
    let common = fill_common(node_template(), refresh_interval_secs);
    lemma_fill_common_complete(node_template(), refresh_interval_secs);
    let node = NODE_ID_JSON_PLACEHOLDER@;
    assert(!REFRESH_MS_PLACEHOLDER@.contains('"'));
    assert(!I18N_ASSET_PATH_PLACEHOLDER@.contains('"'));
    assert(!node.contains('"'));
    if occurs_in(node_page(lit, refresh_interval_secs), REFRESH_MS_PLACEHOLDER@) {
        lemma_replace_all_occurrence_within(common, node, lit, REFRESH_MS_PLACEHOLDER@);
    }
    if occurs_in(node_page(lit, refresh_interval_secs), I18N_ASSET_PATH_PLACEHOLDER@) {
        lemma_replace_all_occurrence_within(common, node, lit, I18N_ASSET_PATH_PLACEHOLDER@);
    }
    if occurs_in(node_page(lit, refresh_interval_secs), node) {
        lemma_replace_all_occurrence_within(common, node, lit, node);
    }
    lemma_node_page_embeds_id(node_id, refresh_interval_secs);
    lemma_occurs_transitive(node_page(lit, refresh_interval_secs), lit, REFRESH_MS_PLACEHOLDER@);
    lemma_occurs_transitive(node_page(lit, refresh_interval_secs), lit, I18N_ASSET_PATH_PLACEHOLDER@);
    lemma_occurs_transitive(node_page(lit, refresh_interval_secs), lit, node);
}

/// No node ID can add to or take from the occurrences of any text `q` that
/// begins with `<` and holds no quote and no underscore (such as every
/// spelling of `</script`): a node's page holds exactly as many as the page
/// before the ID goes in, which is the same for every ID.
pub proof fn lemma_node_page_tag_count(node_id: Seq<char>, refresh_interval_secs: u64, q: Seq<char>)
    requires
        q.len() > 0,
        q[0] == '<',
        !q.contains('"'),
        !q.contains('_'),
    ensures
        count_occurrences(node_page(script_string_literal(node_id), refresh_interval_secs), q)
            == count_occurrences(fill_common(node_template(), refresh_interval_secs), q),
{
    reveal_placeholders();
    lemma_text_chars();
    let lit = script_string_literal(node_id);
    lemma_script_literal(node_id);
    let node = NODE_ID_JSON_PLACEHOLDER@;
    assert(!lit.contains('<'));
    assert(!q.contains(lit[0]));
    assert(!node.contains('<'));
    assert(node[0] == '_');
    lemma_replace_all_count(fill_common(node_template(), refresh_interval_secs), node, lit, q);
}

/// The assignment of the ID placeholder in the node template's script:
/// `= __NODE_ID_JSON__;`.
spec fn node_id_assignment() -> Seq<char> {
    NODE_TEMPLATE_SCRIPT_CONFIG@.subrange(34, 53)
}

/// The node template, its refresh interval and dictionary path filled in,
/// still holds the ID placeholder: the assignment around it survives both
/// fillings, for neither placeholder can overlap it.
pub proof fn lemma_node_template_keeps_id_placeholder(refresh_interval_secs: u64)
    ensures
        occurs_in(fill_common(node_template(), refresh_interval_secs), NODE_ID_JSON_PLACEHOLDER@),
{
    reveal_placeholders();
    reveal_strlit("\n    <script>\n      const NODE_ID = __NODE_ID_JSON__;\n      const REFRESH_MS = __REFRESH_MS__;\n      const I18N_ASSET_PATH = \"__I18N_ASSET_PATH__\";\n");
    let config = NODE_TEMPLATE_SCRIPT_CONFIG@;
    let w = node_id_assignment();
    assert(w =~= seq!['=', ' ', '_', '_', 'N', 'O', 'D', 'E', '_', 'I', 'D', '_', 'J', 'S', 'O', 'N', '_', '_', ';']);
    let before = NODE_TEMPLATE_HEAD@ + NODE_TEMPLATE_MARKUP@;
    let after = NODE_TEMPLATE_SCRIPT_SETUP@ + NODE_TEMPLATE_SCRIPT_RENDER@;
    let t = node_template();
    assert(t =~= before + config + after);
    let at: int = before.len() as int + 34;
    assert(t.subrange(at, at + 19) =~= w);
    assert(occurs_at(t, w, at));
    let refresh = REFRESH_MS_PLACEHOLDER@;
    let i18n = I18N_ASSET_PATH_PLACEHOLDER@;
    assert forall|j: int| 0 <= j < w.len() implies !fits_at(w, refresh, j) by {
        if w[j] != '_' {
            assert(refresh[0] != w[j + 0]);
        } else if j == 2 || j == 16 {
            assert(refresh[2] != w[j + 2]);
        } else {
            assert(refresh[1] != w[j + 1]);
        }
    }
    assert forall|j: int| 0 <= j < w.len() implies !fits_at(w, i18n, j) by {
        if w[j] != '_' {
            assert(i18n[0] != w[j + 0]);
        } else if j == 2 || j == 16 {
            assert(i18n[2] != w[j + 2]);
        } else {
            assert(i18n[1] != w[j + 1]);
        }
    }
    assert(!refresh.contains('='));
    assert(!i18n.contains('='));
    let ms = refresh_ms_text(refresh_interval_secs);
    lemma_replace_all_keeps_occurrence(t, refresh, ms, w);
    let step = replace_all(t, refresh, ms);
    lemma_replace_all_keeps_occurrence(step, i18n, UI_I18N_ASSET_PATH@, w);
    let filled = fill_common(t, refresh_interval_secs);
    let k = choose|k: int| occurs_at(filled, w, k);
    assert(filled.subrange(k + 2, k + 18) =~= w.subrange(2, 18));
    assert(w.subrange(2, 18) =~= NODE_ID_JSON_PLACEHOLDER@);
    assert(occurs_at(filled, NODE_ID_JSON_PLACEHOLDER@, k + 2));
}

/// A node's page holds the ID's literal, which reads back as the ID.
pub proof fn lemma_node_page_embeds_id(node_id: Seq<char>, refresh_interval_secs: u64)
    ensures
        occurs_in(node_page(script_string_literal(node_id), refresh_interval_secs), script_string_literal(node_id)),
        json_string_value(script_string_literal(node_id)) == Some(node_id),
{
    reveal_placeholders();
    lemma_script_literal(node_id);
    lemma_node_template_keeps_id_placeholder(refresh_interval_secs);
    lemma_replace_all_contains_rep(
        fill_common(node_template(), refresh_interval_secs),
        NODE_ID_JSON_PLACEHOLDER@,
        script_string_literal(node_id),
    );
}

/// Where the ID sits on a node's page: the page is some text, then the
/// script's configuration lines with the ID's literal right after
/// `const NODE_ID = `, the interval's numeral right after
/// `const REFRESH_MS = ` and the dictionary path in its quotes, then some
/// text. The text before holds as many line breaks as the template's head
/// and markup, whatever the ID and the interval; the text before and the
/// text after are the template's head and markup, and the rest of its
/// script, with only the three placeholders filled in. The numeral is the
/// decimal numeral of the interval times 1000, and the ID's literal reads
/// back as the ID.
pub proof fn lemma_node_page_layout(node_id: Seq<char>, refresh_interval_secs: u64) -> (parts: (Seq<char>, Seq<char>))
    ensures
        node_page(script_string_literal(node_id), refresh_interval_secs) == parts.0 + node_config_block(
            script_string_literal(node_id),
            refresh_ms_text(refresh_interval_secs),
            UI_I18N_ASSET_PATH@,
        ) + parts.1,
        line_count(parts.0) == line_count(NODE_TEMPLATE_HEAD@ + NODE_TEMPLATE_MARKUP@),
        parts.0 == replace_all(
            replace_all(
                replace_all(NODE_TEMPLATE_HEAD@ + NODE_TEMPLATE_MARKUP@, REFRESH_MS_PLACEHOLDER@, refresh_ms_text(refresh_interval_secs)),
                I18N_ASSET_PATH_PLACEHOLDER@,
                UI_I18N_ASSET_PATH@,
            ),
            NODE_ID_JSON_PLACEHOLDER@,
            script_string_literal(node_id),
        ),
        parts.1 == replace_all(
            replace_all(
                replace_all(NODE_TEMPLATE_SCRIPT_SETUP@ + NODE_TEMPLATE_SCRIPT_RENDER@, REFRESH_MS_PLACEHOLDER@, refresh_ms_text(refresh_interval_secs)),
                I18N_ASSET_PATH_PLACEHOLDER@,
                UI_I18N_ASSET_PATH@,
            ),
            NODE_ID_JSON_PLACEHOLDER@,
            script_string_literal(node_id),
        ),
        is_decimal_numeral(refresh_ms_text(refresh_interval_secs)),
        decimal_value(refresh_ms_text(refresh_interval_secs)) == refresh_interval_secs * 1000,
        json_string_value(script_string_literal(node_id)) == Some(node_id),
{
    lemma_decimal_roundtrip((refresh_interval_secs * 1000) as nat);
    lemma_config_pieces();
    lemma_fill_texts(refresh_interval_secs);
    lemma_script_literal(node_id);
    let lit = script_string_literal(node_id);
    let ms = refresh_ms_text(refresh_interval_secs);
    let path = UI_I18N_ASSET_PATH@;
    let (node, refresh, i18n) = (NODE_ID_JSON_PLACEHOLDER@, REFRESH_MS_PLACEHOLDER@, I18N_ASSET_PATH_PLACEHOLDER@);
    assert(!lit.contains('\n'));
    let a0 = NODE_TEMPLATE_HEAD@ + NODE_TEMPLATE_MARKUP@;
    let b0 = NODE_TEMPLATE_SCRIPT_SETUP@ + NODE_TEMPLATE_SCRIPT_RENDER@;
    assert(node_template() =~= a0 + node_config_block(node, refresh, i18n) + b0);
    lemma_node_pass(a0, node, refresh, i18n, b0, refresh, ms);
    lemma_replace_whole(refresh, ms);
    let a1 = replace_all(a0, refresh, ms);
    let b1 = replace_all(b0, refresh, ms);
    lemma_node_pass(a1, node, ms, i18n, b1, i18n, path);
    lemma_replace_all_lacks_first(ms, i18n, path);
    lemma_replace_whole(i18n, path);
    let a2 = replace_all(a1, i18n, path);
    let b2 = replace_all(b1, i18n, path);
    lemma_node_pass(a2, node, ms, path, b2, node, lit);
    lemma_replace_whole(node, lit);
    lemma_replace_all_lacks_first(ms, node, lit);
    lemma_replace_all_lacks_first(path, node, lit);
    (replace_all(a2, node, lit), replace_all(b2, node, lit))
}

/// The home page is some text, then the script's configuration lines with
/// the interval's numeral right after `const REFRESH_MS = ` and the
/// dictionary path in its quotes, then some text; the text before holds as
/// many line breaks as the template's head and markup, whatever the interval.
/// The text before and the text after are the template's head and markup and
/// the rest of its script, with only the two placeholders filled in; the
/// numeral is the decimal numeral of the interval times 1000.
pub proof fn lemma_index_page_layout(refresh_interval_secs: u64) -> (parts: (Seq<char>, Seq<char>))
    ensures
        index_page(refresh_interval_secs) == parts.0 + index_config_block(
            refresh_ms_text(refresh_interval_secs),
            UI_I18N_ASSET_PATH@,
        ) + parts.1,
        line_count(parts.0) == line_count(INDEX_TEMPLATE_HEAD@),
        parts.0 == replace_all(
            replace_all(INDEX_TEMPLATE_HEAD@, REFRESH_MS_PLACEHOLDER@, refresh_ms_text(refresh_interval_secs)),
            I18N_ASSET_PATH_PLACEHOLDER@,
            UI_I18N_ASSET_PATH@,
        ),
        parts.1 == replace_all(
            replace_all(INDEX_TEMPLATE_SCRIPT@, REFRESH_MS_PLACEHOLDER@, refresh_ms_text(refresh_interval_secs)),
            I18N_ASSET_PATH_PLACEHOLDER@,
            UI_I18N_ASSET_PATH@,
        ),
        is_decimal_numeral(refresh_ms_text(refresh_interval_secs)),
        decimal_value(refresh_ms_text(refresh_interval_secs)) == refresh_interval_secs * 1000,
{
    lemma_decimal_roundtrip((refresh_interval_secs * 1000) as nat);
    lemma_config_pieces();
    lemma_fill_texts(refresh_interval_secs);
    let ms = refresh_ms_text(refresh_interval_secs);
    let path = UI_I18N_ASSET_PATH@;
    let (refresh, i18n) = (REFRESH_MS_PLACEHOLDER@, I18N_ASSET_PATH_PLACEHOLDER@);
    let a0 = INDEX_TEMPLATE_HEAD@;
    let b0 = INDEX_TEMPLATE_SCRIPT@;
    assert(index_template() =~= a0 + index_config_block(refresh, i18n) + b0);
    lemma_index_pass(a0, refresh, i18n, b0, refresh, ms);
    lemma_replace_whole(refresh, ms);
    let a1 = replace_all(a0, refresh, ms);
    let b1 = replace_all(b0, refresh, ms);
    lemma_index_pass(a1, ms, i18n, b1, i18n, path);
    lemma_replace_all_lacks_first(ms, i18n, path);
    lemma_replace_whole(i18n, path);
    (replace_all(a1, i18n, path), replace_all(b1, i18n, path))
}

/// A text followed by a line break holds one line break more.
proof fn lemma_line_count_push_break(x: Seq<char>)
    ensures
        line_count(x + seq!['\n']) == line_count(x) + 1,
        ends_line(x + seq!['\n']),
{
    let nl = seq!['\n'];
    lemma_count_char_concat(x, nl, '\n');
    assert(nl.subrange(0, 1) =~= nl);
    assert(count_occurrences(nl.skip(1), nl) == 0);
}

/// The part of a page from its configuration lines on is the same on two
/// equal pages laid out alike.
proof fn lemma_same_tail(pre1: Seq<char>, t1: Seq<char>, pre2: Seq<char>, t2: Seq<char>)
    requires
        pre1 + t1 == pre2 + t2,
        line_count(pre1) == line_count(pre2),
        t1.len() > 0 && t1[0] == '\n',
        t2.len() > 0 && t2[0] == '\n',
    ensures
        t1.skip(1) == t2.skip(1),
{
    let nl = seq!['\n'];
    lemma_line_count_push_break(pre1);
    lemma_line_count_push_break(pre2);
    assert(pre1 + t1 =~= (pre1 + nl) + t1.skip(1));
    assert(pre2 + t2 =~= (pre2 + nl) + t2.skip(1));
    lemma_line_prefix_unique(pre1 + nl, t1.skip(1), pre2 + nl, t2.skip(1));
}

/// The interval's numeral is not empty and holds no line break.
proof fn lemma_ms_text_one_line(refresh_interval_secs: u64)
    ensures
        refresh_ms_text(refresh_interval_secs).len() > 0,
        !refresh_ms_text(refresh_interval_secs).contains('\n'),
{
    lemma_decimal_roundtrip((refresh_interval_secs * 1000) as nat);
}

/// Equal configuration lines of node pages have equal ID and interval texts,
/// where neither text holds a line break.
proof fn lemma_node_block_determines(
    e1: Seq<char>,
    d1: Seq<char>,
    post1: Seq<char>,
    e2: Seq<char>,
    d2: Seq<char>,
    post2: Seq<char>,
    path: Seq<char>,
)
    requires
        node_config_block(e1, d1, path) + post1 == node_config_block(e2, d2, path) + post2,
        !e1.contains('\n'),
        !e2.contains('\n'),
        !d1.contains('\n'),
        !d2.contains('\n'),
    ensures
        e1 == e2,
        d1 == d2,
{
    lemma_piece_chars();
    let (k1, k2, k3, k4) = (node_script_open(), refresh_open(), path_open(), config_close());
    let w1 = k2 + d1 + k3 + path + k4 + post1;
    let w2 = k2 + d2 + k3 + path + k4 + post2;
    let whole = node_config_block(e1, d1, path) + post1;
    assert(whole =~= k1 + (e1 + w1));
    assert(node_config_block(e2, d2, path) + post2 =~= k1 + (e2 + w2));
    assert(e1 + w1 =~= whole.skip(k1.len() as int));
    assert(e2 + w2 =~= whole.skip(k1.len() as int));
    lemma_split_before_line_break(e1, w1, e2, w2);
    let v1 = k3 + path + k4 + post1;
    let v2 = k3 + path + k4 + post2;
    assert(d1 + v1 =~= w1.skip(k2.len() as int));
    assert(d2 + v2 =~= w2.skip(k2.len() as int));
    lemma_split_before_line_break(d1, v1, d2, v2);
}

/// Equal configuration lines of home pages have equal interval texts, where
/// neither holds a line break.
proof fn lemma_index_block_determines(d1: Seq<char>, post1: Seq<char>, d2: Seq<char>, post2: Seq<char>, path: Seq<char>)
    requires
        index_config_block(d1, path) + post1 == index_config_block(d2, path) + post2,
        !d1.contains('\n'),
        !d2.contains('\n'),
    ensures
        d1 == d2,
{
    lemma_piece_chars();
    let (k1, k3, k4) = (index_script_open(), path_open(), config_close());
    let v1 = k3 + path + k4 + post1;
    let v2 = k3 + path + k4 + post2;
    let whole = index_config_block(d1, path) + post1;
    assert(whole =~= k1 + (d1 + v1));
    assert(index_config_block(d2, path) + post2 =~= k1 + (d2 + v2));
    assert(d1 + v1 =~= whole.skip(k1.len() as int));
    assert(d2 + v2 =~= whole.skip(k1.len() as int));
    lemma_split_before_line_break(d1, v1, d2, v2);
}

/// Two pages laid out alike, with line-counted prefixes of the same count and
/// tails that begin with a line break, have the same tail.
proof fn lemma_same_block(pre1: Seq<char>, t1: Seq<char>, pre2: Seq<char>, t2: Seq<char>)
    requires
        pre1 + t1 == pre2 + t2,
        line_count(pre1) == line_count(pre2),
        t1.len() > 0 && t1[0] == '\n',
        t2.len() > 0 && t2[0] == '\n',
    ensures
        t1 == t2,
{
    lemma_same_tail(pre1, t1, pre2, t2);
    assert(t1 =~= seq!['\n'] + t1.skip(1));
    assert(t2 =~= seq!['\n'] + t2.skip(1));
}

/// Two node pages are the same only for the same ID and the same interval.
pub proof fn lemma_node_page_injective(a: Seq<char>, s: u64, b: Seq<char>, t: u64)
    requires
        node_page(script_string_literal(a), s) == node_page(script_string_literal(b), t),
    ensures
        a == b,
        s == t,
{
    let (ea, eb) = (script_string_literal(a), script_string_literal(b));
    let (ds, dt) = (refresh_ms_text(s), refresh_ms_text(t));
    let path = UI_I18N_ASSET_PATH@;
    let parts1 = lemma_node_page_layout(a, s);
    let parts2 = lemma_node_page_layout(b, t);
    let t1 = node_config_block(ea, ds, path) + parts1.1;
    let t2 = node_config_block(eb, dt, path) + parts2.1;
    assert(t1[0] == '\n' && t2[0] == '\n') by {
        lemma_piece_chars();
        assert(t1[0] == node_script_open()[0]);
        assert(t2[0] == node_script_open()[0]);
    }
    assert(parts1.0 + t1 =~= parts1.0 + node_config_block(ea, ds, path) + parts1.1);
    assert(parts2.0 + t2 =~= parts2.0 + node_config_block(eb, dt, path) + parts2.1);
    lemma_same_block(parts1.0, t1, parts2.0, t2);
    lemma_script_literal(a);
    lemma_script_literal(b);
    assert(!ea.contains('\n'));
    assert(!eb.contains('\n'));
    lemma_ms_text_one_line(s);
    lemma_ms_text_one_line(t);
    lemma_node_block_determines(ea, ds, parts1.1, eb, dt, parts2.1, path);
    lemma_decimal_digits_injective((s * 1000) as nat, (t * 1000) as nat);
    lemma_script_literal_injective(a, b);
}

/// Two intervals give the same home page only where they are the same.
pub proof fn lemma_index_page_injective(s: u64, t: u64)
    requires
        index_page(s) == index_page(t),
    ensures
        s == t,
{
    let (ds, dt) = (refresh_ms_text(s), refresh_ms_text(t));
    let path = UI_I18N_ASSET_PATH@;
    let parts1 = lemma_index_page_layout(s);
    let parts2 = lemma_index_page_layout(t);
    let t1 = index_config_block(ds, path) + parts1.1;
    let t2 = index_config_block(dt, path) + parts2.1;
    assert(t1[0] == '\n' && t2[0] == '\n') by {
        lemma_piece_chars();
        assert(t1[0] == index_script_open()[0]);
        assert(t2[0] == index_script_open()[0]);
    }
    assert(parts1.0 + t1 =~= parts1.0 + index_config_block(ds, path) + parts1.1);
    assert(parts2.0 + t2 =~= parts2.0 + index_config_block(dt, path) + parts2.1);
    lemma_same_block(parts1.0, t1, parts2.0, t2);
    lemma_ms_text_one_line(s);
    lemma_ms_text_one_line(t);
    lemma_index_block_determines(ds, parts1.1, dt, parts2.1, path);
    lemma_decimal_digits_injective((s * 1000) as nat, (t * 1000) as nat);
}

/// Fills the refresh interval and the dictionary path into `template`.
fn render_common(template: &str, refresh_interval_secs: u64) -> (res: String)
    requires
        refresh_interval_secs * 1000 <= u64::MAX,
    ensures
        res@ == fill_common(template@, refresh_interval_secs),
{
    proof { reveal_placeholders(); }
    let refresh_ms = decimal_string(refresh_interval_secs * 1000);
    let with_refresh = replace_str(template, REFRESH_MS_PLACEHOLDER, refresh_ms.as_str());
    replace_str(with_refresh.as_str(), I18N_ASSET_PATH_PLACEHOLDER, UI_I18N_ASSET_PATH)
}

/// Renders the home page: the refresh interval, in milliseconds, and the
/// path of the i18n dictionary take the places of their placeholders.
pub fn index_html(refresh_interval_secs: u64) -> (res: String)
    requires
        refresh_interval_secs * 1000 <= u64::MAX,
    ensures
        res@ == index_page(refresh_interval_secs),
{
    let template = index_template_text();
    render_common(template.as_str(), refresh_interval_secs)
}

/// Escapes every `<` of a JSON text as `\u003c`, so that the text cannot
/// end a `<script>` element.
pub fn escape_for_script(json: &str) -> (res: String)
    ensures
        res@ == replace_all(json@, seq!['<'], lt_escape()),
{
    proof { reveal_placeholders(); }
    replace_str(json, LT, LT_ESCAPE)
}

/// Renders a node's page with `node_id_json` in the place of the ID
/// placeholder, after the refresh interval and the dictionary path have
/// taken theirs.
pub fn render_node_html(node_id_json: &str, refresh_interval_secs: u64) -> (res: String)
    requires
        refresh_interval_secs * 1000 <= u64::MAX,
    ensures
        res@ == node_page(node_id_json@, refresh_interval_secs),
{
    proof { reveal_placeholders(); }
    let template = node_template_text();
    let common = render_common(template.as_str(), refresh_interval_secs);
    replace_str(common.as_str(), NODE_ID_JSON_PLACEHOLDER, node_id_json)
}

/// Renders a node's page; the node's ID goes into the page's script as a
/// JSON string literal, as `serde_json` writes it with each `<` escaped as
/// `\u003c`: a literal that reads back as the ID and cannot end the script.
/// The text from `serde_json` is used where it agrees with the verified
/// encoding `json_string_literal_of`, and that encoding where it does not.
pub fn node_html(node_id: &str, refresh_interval_secs: u64) -> (res: String)
    requires
        refresh_interval_secs * 1000 <= u64::MAX,
    ensures
        res@ == node_page(script_string_literal(node_id@), refresh_interval_secs),
{
    let checked = json_string_literal_of(node_id);
    let json = match json_string_of(node_id) {
        Some(from_serde) => if from_serde == checked { from_serde } else { checked },
        None => checked,
    };
    let embedded = escape_for_script(json.as_str());
    proof { lemma_replace_lt_literal(node_id@); }
    render_node_html(embedded.as_str(), refresh_interval_secs)
}

/// The home page's template, part: the document head and the page markup.
pub const INDEX_TEMPLATE_HEAD: &'static str = r#"<!doctype html>
<html lang="en">
  <head>
    <meta charset="utf-8" />
    <meta name="viewport" content="width=device-width, initial-scale=1" />
    <title>XiMonitor</title>
  </head>
  <body>
    <main>
      <h1 data-i18n="title">XiMonitor</h1>
      <section id="nodes"></section>
    </main>"#;

/// The home page's template, part: the opening of the script with its two placeholders.
pub const INDEX_TEMPLATE_CONFIG: &'static str = "\n    <script>\n      const REFRESH_MS = __REFRESH_MS__;\n      const I18N_ASSET_PATH = \"__I18N_ASSET_PATH__\";\n";

/// The home page's template, part: the rest of the script: the dictionary, the node list and the refresh loop.
pub const INDEX_TEMPLATE_SCRIPT: &'static str = r#"      let I18N = {};

      async function loadI18n() {
        try {
          const response = await fetch(I18N_ASSET_PATH, { cache: "no-store" });
          if (response.ok) {
            I18N = await response.json();
            const language = (navigator.language || "en").split("-")[0];
            const strings = I18N[language] || I18N.en || {};
            for (const element of document.querySelectorAll("[data-i18n]")) {
              const text = strings[element.dataset.i18n];
              if (typeof text === "string") {
                element.textContent = text;
              }
            }
          }
        } catch (error) {
          console.warn("failed to load ui dictionary", error);
        }
      }

      async function refresh() {
        try {
          const response = await fetch("/api/nodes", { cache: "no-store" });
          if (response.ok) {
            const nodes = await response.json();
            const section = document.getElementById("nodes");
            section.innerHTML = "";
            for (const node of nodes) {
              const link = document.createElement("a");
              link.href = "/nodes/" + encodeURIComponent(node.id);
              link.textContent = node.id;
              section.appendChild(link);
            }
          }
        } catch (error) {
          console.warn("failed to refresh nodes", error);
        }
      }

      loadI18n();
      refresh();
      setInterval(refresh, REFRESH_MS);
    </script>
  </body>
</html>
"#;

/// A node's page template, the concatenation of its five parts.
pub open spec fn node_template() -> Seq<char> {
    NODE_TEMPLATE_HEAD@ + NODE_TEMPLATE_MARKUP@ + NODE_TEMPLATE_SCRIPT_CONFIG@ + NODE_TEMPLATE_SCRIPT_SETUP@
        + NODE_TEMPLATE_SCRIPT_RENDER@
}

/// Joins the parts of the home page's template.
fn index_template_text() -> (res: String)
    ensures
        res@ == index_template(),
{
    let mut text = String::new();
    text.append(INDEX_TEMPLATE_HEAD);
    text.append(INDEX_TEMPLATE_CONFIG);
    text.append(INDEX_TEMPLATE_SCRIPT);
    assert(text@ =~= index_template());
    text
}

/// Joins the parts of a node's page template.
fn node_template_text() -> (res: String)
    ensures
        res@ == node_template(),
{
    let mut text = String::new();
    text.append(NODE_TEMPLATE_HEAD);
    text.append(NODE_TEMPLATE_MARKUP);
    text.append(NODE_TEMPLATE_SCRIPT_CONFIG);
    text.append(NODE_TEMPLATE_SCRIPT_SETUP);
    text.append(NODE_TEMPLATE_SCRIPT_RENDER);
    assert(text@ =~= node_template());
    text
}

/// A node's page template, part: the document head with its style sheet.
pub const NODE_TEMPLATE_HEAD: &'static str = r#"<!doctype html>
<html lang="en">
  <head>
    <meta charset="utf-8" />
    <meta name="viewport" content="width=device-width, initial-scale=1" />
    <title>XiMonitor Node</title>
    <style>
      :root {
        color-scheme: light;
        --bg: #f7f2e9;
        --ink: #1a202b;
        --muted: #5d6875;
        --line: rgba(26, 32, 43, 0.1);
        --panel: rgba(255, 255, 255, 0.87);
        --accent: #0f766e;
        --chart-a: #0f766e;
        --chart-b: #b45309;
        --chart-c: #1d4ed8;
        --chart-d: #be185d;
        font-family: "Avenir Next", "Segoe UI", sans-serif;
      }
      * { box-sizing: border-box; }
      body {
        margin: 0;
        min-height: 100vh;
        color: var(--ink);
        background:
          radial-gradient(circle at top left, rgba(208, 228, 227, 0.9), transparent 30%),
          radial-gradient(circle at top right, rgba(250, 228, 195, 0.6), transparent 24%),
          linear-gradient(135deg, var(--bg), #eef1f2);
      }
      .shell {
        width: min(1280px, calc(100vw - 32px));
        margin: 0 auto;
        padding: 24px 0 48px;
      }
      a { color: inherit; }
      .topline {
        display: flex;
        justify-content: space-between;
        align-items: center;
        gap: 18px;
        margin-bottom: 18px;
      }
      .topline .back {
        text-decoration: none;
        color: var(--muted);
        font-weight: 600;
      }
      .topline-actions {
        display: flex;
        align-items: center;
        gap: 14px;
      }
      .lang-picker {
        display: inline-flex;
        align-items: center;
        gap: 10px;
        color: var(--muted);
        font-size: 0.92rem;
      }
      .lang-select {
        border: 1px solid rgba(26, 32, 43, 0.12);
        border-radius: 999px;
        padding: 10px 14px;
        background: rgba(255, 255, 255, 0.82);
        color: var(--ink);
        font: inherit;
      }
      .hero, .panel {
        background: var(--panel);
        border: 1px solid var(--line);
        border-radius: 24px;
        box-shadow: 0 18px 60px rgba(26, 32, 43, 0.08);
        backdrop-filter: blur(18px);
      }
      .hero {
        padding: 24px;
        margin-bottom: 18px;
      }
      .hero h1 {
        margin: 0;
        font: 700 clamp(2.4rem, 4.8vw, 4.1rem) / 0.92 "Iowan Old Style", "Palatino Linotype", serif;
        letter-spacing: -0.05em;
      }
      .meta {
        margin-top: 10px;
        color: var(--muted);
        line-height: 1.7;
      }
      .stats, .charts {
        display: grid;
        gap: 16px;
      }
      .stats {
        grid-template-columns: repeat(4, minmax(0, 1fr));
        margin-bottom: 18px;
      }
      .panel {
        padding: 18px 20px;
      }
      .label {
        color: var(--muted);
        text-transform: uppercase;
        letter-spacing: 0.08em;
        font-size: 0.84rem;
      }
      .value {
        margin-top: 8px;
        font-size: clamp(1.5rem, 2.7vw, 2.2rem);
        font-weight: 700;
      }
      .controls-panel {
        margin-bottom: 18px;
      }
      .controls-head {
        display: flex;
        justify-content: space-between;
        gap: 18px;
        align-items: start;
      }
      .control-value {
        margin-top: 8px;
        font-size: 1.28rem;
        font-weight: 700;
        letter-spacing: -0.03em;
      }
      .control-subtle {
        margin-top: 8px;
        color: var(--muted);
        font-size: 0.92rem;
      }
      .controls-actions {
        display: flex;
        align-items: center;
        gap: 12px;
        flex-wrap: wrap;
        justify-content: end;
      }
      .preset-group {
        display: inline-flex;
        border: 1px solid rgba(26, 32, 43, 0.12);
        border-radius: 999px;
        overflow: hidden;
        background: rgba(255, 255, 255, 0.7);
      }
      .preset-button {
        border: 0;
        background: transparent;
        color: var(--muted);
        padding: 11px 16px;
        font: inherit;
        font-weight: 700;
        cursor: pointer;
        transition: background 160ms ease, color 160ms ease;
      }
      .preset-button + .preset-button {
        border-left: 1px solid rgba(26, 32, 43, 0.08);
      }
      .preset-button.active {
        background: rgba(15, 118, 110, 0.14);
        color: var(--accent);
      }
      .toggle-button {
        border: 1px solid rgba(26, 32, 43, 0.12);
        border-radius: 999px;
        background: rgba(255, 255, 255, 0.75);
        color: var(--ink);
        padding: 12px 16px;
        font: inherit;
        font-weight: 700;
        cursor: pointer;
        transition: background 160ms ease, color 160ms ease, border-color 160ms ease;
      }
      .toggle-button.active {
        background: rgba(15, 118, 110, 0.12);
        border-color: rgba(15, 118, 110, 0.28);
        color: var(--accent);
      }
      .brush-shell {
        margin-top: 18px;
        padding: 16px 0 6px;
      }
      .brush-stage {
        position: relative;
        height: 118px;
        border-radius: 20px;
        background: linear-gradient(180deg, rgba(255,255,255,0.42), rgba(241,244,246,0.88));
        border: 1px solid rgba(26, 32, 43, 0.07);
        overflow: hidden;
      }
      .brush-chart {
        position: absolute;
        inset: 0;
      }
      .brush-selection {
        position: absolute;
        top: 10px;
        bottom: 10px;
        border-radius: 16px;
        background: rgba(15, 118, 110, 0.12);
        border: 2px solid rgba(15, 118, 110, 0.45);
        box-shadow: inset 0 0 0 999px rgba(255,255,255,0.1);
        cursor: grab;
      }
      .brush-selection.dragging {
        cursor: grabbing;
      }
      .brush-selection::before,
      .brush-selection::after {
        content: "";
        position: absolute;
        top: 0;
        bottom: 0;
        width: 12px;
        background: linear-gradient(180deg, rgba(255,255,255,0.9), rgba(230, 236, 239, 0.96));
      }
      .brush-selection::before {
        left: -12px;
        box-shadow: -999px 0 0 rgba(255,255,255,0.48);
      }
      .brush-selection::after {
        right: -12px;
        box-shadow: 999px 0 0 rgba(255,255,255,0.48);
      }
      .brush-handle {
        position: absolute;
        top: 50%;
        width: 18px;
        height: 42px;
        margin-top: -21px;
        border-radius: 999px;
        background: rgba(255,255,255,0.96);
        border: 1px solid rgba(26, 32, 43, 0.18);
        box-shadow: 0 10px 22px rgba(26, 32, 43, 0.14);
        cursor: ew-resize;
      }
      .brush-handle::before {
        content: "";
        position: absolute;
        top: 11px;
        bottom: 11px;
        left: 50%;
        width: 2px;
        margin-left: -1px;
        background: rgba(26, 32, 43, 0.28);
        box-shadow: -4px 0 0 rgba(26, 32, 43, 0.18), 4px 0 0 rgba(26, 32, 43, 0.18);
      }
      .brush-handle.start { left: -10px; }
      .brush-handle.end { right: -10px; }
      .brush-labels {
        display: flex;
        justify-content: space-between;
        gap: 16px;
        margin-top: 10px;
        color: var(--muted);
        font-size: 0.86rem;
      }
      .charts {
        grid-template-columns: repeat(2, minmax(0, 1fr));
        margin-bottom: 18px;
      }
      .chart-box {
        height: 210px;
        margin-top: 14px;
        border-radius: 18px;
        background: linear-gradient(180deg, rgba(255,255,255,0.4), rgba(242,245,247,0.85));
        border: 1px solid rgba(26, 32, 43, 0.07);
        display: grid;
        place-items: center;
        overflow: hidden;
        position: relative;
      }
      .disks table {
        width: 100%;
        border-collapse: collapse;
      }
      .disks th, .disks td {
        padding: 12px 0;
        text-align: left;
        border-bottom: 1px solid rgba(26, 32, 43, 0.08);
      }
      .disks th {
        color: var(--muted);
        font-size: 0.83rem;
        text-transform: uppercase;
        letter-spacing: 0.08em;
      }
      .empty {
        color: var(--muted);
      }
      @media (max-width: 960px) {
        .stats, .charts { grid-template-columns: 1fr; }
      }
      @media (max-width: 720px) {
        .shell { width: calc(100vw - 20px); }
        .topline { display: block; }
        .topline-actions {
          justify-content: space-between;
          margin-top: 12px;
        }
        .controls-head { display: block; }
        .controls-actions {
          justify-content: start;
          margin-top: 14px;
        }
        .preset-group {
          width: 100%;
          flex-wrap: wrap;
          border-radius: 18px;
        }
        .preset-button {
          flex: 1 0 50%;
        }
        .toggle-button { width: 100%; }
      }
    </style>
  </head>
"#;

/// A node's page template, part: the page markup.
pub const NODE_TEMPLATE_MARKUP: &'static str = r#"  <body>
    <div class="shell">
      <div class="topline">
        <a class="back" href="/">← <span data-i18n="node.back">Back to dashboard</span></a>
        <div class="topline-actions">
          <label class="lang-picker">
            <span data-i18n="common.language">Language</span>
            <select id="language-select" class="lang-select" aria-label="Language"></select>
          </label>
          <div id="updated" class="label">Waiting for node data…</div>
        </div>
      </div>

      <section class="hero">
        <h1 id="title" data-i18n="node.loading">Loading node…</h1>
        <div class="meta" id="meta"></div>
      </section>

      <section class="stats" id="stats"></section>

      <section class="panel controls-panel">
        <div class="controls-head">
          <div>
            <div class="label" data-i18n="node.history_window">History Window</div>
            <div class="control-value" id="history-window-value">Last 24 hours</div>
            <div class="control-subtle" id="history-window-range">--</div>
          </div>
          <div class="controls-actions">
            <div class="preset-group" id="history-presets"></div>
            <button type="button" class="toggle-button" id="peak-clip-toggle">Clip Spikes: Off</button>
          </div>
        </div>
        <div class="brush-shell">
          <div class="brush-stage" id="history-brush-stage">
            <div class="brush-chart" id="history-brush-chart"></div>
            <div class="brush-selection" id="history-brush-selection">
              <div class="brush-handle start" data-handle="start"></div>
              <div class="brush-handle end" data-handle="end"></div>
            </div>
          </div>
          <div class="brush-labels">
            <span id="history-brush-start">--</span>
            <span id="history-brush-end">--</span>
          </div>
        </div>
      </section>

      <section class="charts">
        <article class="panel">
          <div class="label" data-i18n="node.cpu_usage">CPU Usage</div>
          <div class="chart-box" id="chart-cpu"></div>
        </article>
        <article class="panel">
          <div class="label" data-i18n="node.memory_usage">Memory Usage</div>
          <div class="chart-box" id="chart-memory"></div>
        </article>
        <article class="panel">
          <div class="label" data-i18n="node.download_upload">Download / Upload</div>
          <div class="chart-box" id="chart-network"></div>
        </article>
        <article class="panel">
          <div class="label" data-i18n="node.websocket_rtt">WebSocket RTT</div>
          <div class="chart-box" id="chart-latency"></div>
        </article>
      </section>

      <section class="panel disks">
        <div class="label" data-i18n="node.mounted_disks">Mounted Disks</div>
        <div id="disks" style="margin-top: 14px;"></div>
      </section>
    </div>
"#;

/// A node's page template, part: the opening of the script with its three placeholders.
pub const NODE_TEMPLATE_SCRIPT_CONFIG: &'static str = "\n    <script>\n      const NODE_ID = __NODE_ID_JSON__;\n      const REFRESH_MS = __REFRESH_MS__;\n      const I18N_ASSET_PATH = \"__I18N_ASSET_PATH__\";\n";

/// A node's page template, part: the first half of the script's helpers (i18n and formatting).
pub const NODE_TEMPLATE_SCRIPT_SETUP: &'static str = r#"      const LANGUAGE_STORAGE_KEY = "ximonitor.ui.language";
      const RETENTION_WINDOW_HOURS = 24 * 14;
      const OVERVIEW_HISTORY_MAX_POINTS = 1440;
      const DETAIL_HISTORY_MAX_POINTS = 720;
      const MIN_SELECTION_MS = 30 * 60 * 1000;
      const CUSTOM_PRESET_KEY = "custom";
      const PRESET_WINDOWS = [
        { key: "last_24h", hours: 24 },
        { key: "last_3d", hours: 72 },
        { key: "last_7d", hours: 168 },
        { key: "last_14d", hours: 336 }
      ];
      let I18N = { en: { "__label": "English" } };
      let currentLanguage = "en";
      let latestNode = null;
      let overviewHistory = [];
      let latestHistory = [];
      let refreshTimer = null;
      let activeBrushDrag = null;
      let detailRequestVersion = 0;
      const chartState = {
        peakClipEnabled: false,
        activePresetKey: "last_24h",
        selectedStartMs: null,
        selectedEndMs: null
      };

      function escapeHtml(value) {
        return String(value)
          .replaceAll("&", "&amp;")
          .replaceAll("<", "&lt;")
          .replaceAll(">", "&gt;")
          .replaceAll('"', "&quot;")
          .replaceAll("'", "&#39;");
      }

      function templateText(value, vars = {}) {
        return String(value).replace(/\{(\w+)\}/g, (_, key) => String(vars[key] ?? ""));
      }

      function supportedLanguages() {
        return Object.keys(I18N).filter((key) => key && typeof I18N[key] === "object");
      }

      function resolveLanguage(candidate) {
        const languages = supportedLanguages();
        if (candidate && languages.includes(candidate)) {
          return candidate;
        }
        const base = String(candidate || "").split("-")[0].toLowerCase();
        const matched = languages.find((language) => language.toLowerCase().startsWith(base));
        return matched || (languages.includes("en") ? "en" : languages[0] || "en");
      }

      function t(key, vars = {}) {
        const primary = I18N[currentLanguage] || {};
        const fallback = I18N.en || {};
        return templateText(primary[key] ?? fallback[key] ?? key, vars);
      }

      function languageLabel(language) {
        return (I18N[language] && I18N[language].__label) || language;
      }

      function storeLanguage(language) {
        try {
          window.localStorage.setItem(LANGUAGE_STORAGE_KEY, language);
        } catch (_error) {
          // 在隐私模式或受限浏览器中 localStorage 可能不可用,这里静默忽略。
        }
      }

      function loadStoredLanguage() {
        try {
          return window.localStorage.getItem(LANGUAGE_STORAGE_KEY);
        } catch (_error) {
          return null;
        }
      }

      async function loadI18n() {
        try {
          const response = await fetch(I18N_ASSET_PATH, {
            headers: { "accept": "application/json" },
          });
          if (!response.ok) {
            throw new Error(`${I18N_ASSET_PATH} -> ${response.status}`);
          }
          I18N = await response.json();
        } catch (error) {
          console.warn("failed to load ui translations", error);
        }
        currentLanguage = resolveLanguage(loadStoredLanguage() || navigator.language);
        storeLanguage(currentLanguage);
      }

      function bindLanguageSelector(onChange) {
        const select = document.getElementById("language-select");
        const renderOptions = () => {
          select.innerHTML = supportedLanguages().map((language) => `
            <option value="${escapeHtml(language)}">${escapeHtml(languageLabel(language))}</option>
          `).join("");
          select.value = currentLanguage;
        };

        renderOptions();
        select.addEventListener("change", (event) => {
          currentLanguage = resolveLanguage(event.target.value);
          storeLanguage(currentLanguage);
          renderOptions();
          onChange();
        });
      }

      function fmtBytes(bytes) {
        if (bytes == null) return t("common.not_available");
        const units = ["B", "KB", "MB", "GB", "TB", "PB"];
        let value = Number(bytes);
        let index = 0;
        while (value >= 1024 && index < units.length - 1) {
          value /= 1024;
          index += 1;
        }
        return `${value.toFixed(value >= 100 || index === 0 ? 0 : 1)} ${units[index]}`;
      }

      function fmtRate(bytes) {
        if (bytes == null) return t("common.not_available");
        return `${fmtBytes(bytes)}/s`;
      }

      function fmtPercent(value) {
        if (value == null || Number.isNaN(Number(value))) return t("common.not_available");
        return `${Number(value).toFixed(1)}%`;
      }

      function fmtLatency(value) {
        if (value == null) return t("common.not_available");
        return `${Math.round(value)} ms`;
      }

      function fmtUptime(seconds) {
        if (seconds == null || Number.isNaN(Number(seconds))) {
          return t("common.not_available");
        }
        const totalHours = Math.floor(Number(seconds) / 3600);
        const days = Math.floor(totalHours / 24);
        const hours = totalHours % 24;
        if (days > 0) {
          return t("node.uptime.days_hours", { days, hours });
        }
        return t("node.uptime.hours", { hours: totalHours });
      }

      function fmtDateTime(value) {
        return new Date(value).toLocaleString(currentLanguage);
      }

      function fetchJson(url) {
        return fetch(url, { headers: { "accept": "application/json" } }).then((response) => {
          if (!response.ok) throw new Error(`${url} -> ${response.status}`);
          return response.json();
        });
      }

      function normalizeHistory(history) {
        if (!Array.isArray(history)) {
          return [];
        }
        return history
          .map((point) => ({
            ...point,
            _ts: Date.parse(point.recorded_at)
          }))
          .filter((point) => Number.isFinite(point._ts))
          .sort((left, right) => left._ts - right._ts);
      }

      function historyBounds(history) {
        if (!Array.isArray(history) || history.length === 0) {
          return null;
        }
        return {
          startMs: history[0]._ts,
          endMs: history[history.length - 1]._ts
        };
      }

      function findPreset(key) {
        return PRESET_WINDOWS.find((preset) => preset.key === key) || null;
      }

      function selectionDurationMs() {
        if (chartState.selectedStartMs == null || chartState.selectedEndMs == null) {
          return 0;
        }
        return Math.max(chartState.selectedEndMs - chartState.selectedStartMs, 0);
      }

      function formatDurationLabel(durationMs) {
        const totalMinutes = Math.max(1, Math.round(durationMs / 60000));
        const days = Math.floor(totalMinutes / (24 * 60));
        const hours = Math.floor((totalMinutes % (24 * 60)) / 60);
        const minutes = totalMinutes % 60;

        if (days > 0) {
          return t("node.window.span_days_hours", { days, hours });
        }
        if (hours > 0) {
          return t("node.window.span_hours_minutes", { hours, minutes });
        }
        return t("node.window.span_minutes", { minutes: totalMinutes });
      }

      function formatWindowHeadline() {
        const preset = findPreset(chartState.activePresetKey);
        if (preset) {
          if (preset.hours < 24) {
            return t("node.window.last_hours", { hours: preset.hours });
          }
          return t("node.window.last_days", { days: preset.hours / 24 });
        }
        return t("node.window.custom", { span: formatDurationLabel(selectionDurationMs()) });
      }

      function clampSelection(startMs, endMs) {
        const bounds = historyBounds(overviewHistory);
        if (!bounds) {
          return null;
        }
        if (bounds.endMs <= bounds.startMs) {
          return {
            startMs: bounds.startMs,
            endMs: bounds.endMs
          };
        }

        const minSpan = Math.min(MIN_SELECTION_MS, bounds.endMs - bounds.startMs);
        let clampedStart = Math.max(bounds.startMs, Math.min(startMs, bounds.endMs));
        let clampedEnd = Math.max(bounds.startMs, Math.min(endMs, bounds.endMs));

        if (clampedEnd < clampedStart) {
          const swap = clampedStart;
          clampedStart = clampedEnd;
          clampedEnd = swap;
        }

        if (clampedEnd - clampedStart < minSpan) {
          clampedEnd = Math.min(bounds.endMs, clampedStart + minSpan);
          clampedStart = Math.max(bounds.startMs, clampedEnd - minSpan);
        }

        return {
          startMs: clampedStart,
          endMs: clampedEnd
        };
      }

      function renderPresetButtons() {
        const root = document.getElementById("history-presets");
        root.innerHTML = PRESET_WINDOWS.map((preset) => `
          <button
            type="button"
            class="preset-button ${chartState.activePresetKey === preset.key ? "active" : ""}"
            data-preset-key="${escapeHtml(preset.key)}"
          >${escapeHtml(t(`node.preset.${preset.key}`))}</button>
        `).join("");
      }

      function renderBrushOverview() {
        const root = document.getElementById("history-brush-chart");
        if (!Array.isArray(overviewHistory) || overviewHistory.length === 0) {
          root.innerHTML = "";
          return;
        }

        const width = 1000;
        const height = 118;
        const paddingX = 8;
        const paddingY = 12;
        const values = overviewHistory
          .map((point) => point.cpu_usage_percent)
          .filter((value) => value != null && Number.isFinite(Number(value)))
          .map((value) => Number(value));

        if (values.length === 0) {
          root.innerHTML = "";
          return;
        }

        const min = Math.min(...values);
        const max = Math.max(...values);
        const span = Math.max(max - min, 1);

        let started = false;
        const linePath = overviewHistory.map((point, index) => {
          const value = point.cpu_usage_percent;
          if (value == null) {
            return null;
          }
          const x = paddingX + ((width - paddingX * 2) * index) / Math.max(overviewHistory.length - 1, 1);
          const y = height - paddingY - (((Number(value) - min) / span) * (height - paddingY * 2));
          const command = started ? "L" : "M";
          started = true;
          return `${command}${x.toFixed(1)},${y.toFixed(1)}`;
        }).filter(Boolean).join(" ");

        const areaPath = `${linePath} L ${width - paddingX},${height - paddingY} L ${paddingX},${height - paddingY} Z`;

        root.innerHTML = `
          <svg viewBox="0 0 ${width} ${height}" width="100%" height="100%" preserveAspectRatio="none" aria-hidden="true">
            <defs>
              <linearGradient id="brushGradient" x1="0" y1="0" x2="0" y2="1">
                <stop offset="0%" stop-color="rgba(15,118,110,0.24)" />
                <stop offset="100%" stop-color="rgba(15,118,110,0.04)" />
              </linearGradient>
            </defs>
            <path d="${areaPath}" fill="url(#brushGradient)" stroke="none" />
            <path d="${linePath}" fill="none" stroke="rgba(15,118,110,0.78)" stroke-width="2.1" stroke-linecap="round" stroke-linejoin="round" />
          </svg>
        `;
      }

      function syncBrushSelection() {
        const selection = document.getElementById("history-brush-selection");
        const bounds = historyBounds(overviewHistory);
        if (!bounds || chartState.selectedStartMs == null || chartState.selectedEndMs == null) {
          selection.style.display = "none";
          document.getElementById("history-brush-start").textContent = "--";
          document.getElementById("history-brush-end").textContent = "--";
          return;
        }

        selection.style.display = "block";
        const totalSpan = Math.max(bounds.endMs - bounds.startMs, 1);
        const leftPercent = ((chartState.selectedStartMs - bounds.startMs) / totalSpan) * 100;
        const rightPercent = ((bounds.endMs - chartState.selectedEndMs) / totalSpan) * 100;
        selection.style.left = `${Math.max(0, leftPercent)}%`;
        selection.style.right = `${Math.max(0, rightPercent)}%`;
        document.getElementById("history-brush-start").textContent = fmtDateTime(chartState.selectedStartMs);
        document.getElementById("history-brush-end").textContent = fmtDateTime(chartState.selectedEndMs);
      }

      function syncControls() {
        document.getElementById("history-window-value").textContent = formatWindowHeadline();
        document.getElementById("history-window-range").textContent =
          chartState.selectedStartMs != null && chartState.selectedEndMs != null
            ? t("node.window.range", {
                start: fmtDateTime(chartState.selectedStartMs),
                end: fmtDateTime(chartState.selectedEndMs)
              })
            : "--";
        const toggle = document.getElementById("peak-clip-toggle");
        toggle.textContent = chartState.peakClipEnabled ? t("node.clip.on") : t("node.clip.off");
        toggle.classList.toggle("active", chartState.peakClipEnabled);
        renderPresetButtons();
        syncBrushSelection();
      }

      function quantile(values, ratio) {
        if (!Array.isArray(values) || values.length === 0) return null;
        const sorted = [...values].sort((left, right) => left - right);
        const index = Math.min(sorted.length - 1, Math.max(0, Math.ceil(sorted.length * ratio) - 1));
        return sorted[index];
      }

      function chartBounds(values, clipSpikes) {
        const actualMin = Math.min(...values);
        const actualMax = Math.max(...values);
        let displayMax = actualMax;
        let clipped = false;

        if (clipSpikes && values.length >= 12) {
          const clippedMax = quantile(values, 0.98);
          if (clippedMax != null && clippedMax > actualMin && clippedMax < actualMax) {
            displayMax = clippedMax;
            clipped = true;
          }
        }

        return {
          actualMin,
          actualMax,
          displayMin: actualMin,
          displayMax,
          clipped,
        };
      }

"#;

/// A node's page template, part: the second half of the script: charts, controls and the refresh loop.
pub const NODE_TEMPLATE_SCRIPT_RENDER: &'static str = r#"      function renderSparkline(points, colors, formatter, options = {}) {
        if (!Array.isArray(points) || points.length === 0) {
          return `<div class="empty">${escapeHtml(t("node.waiting_history"))}</div>`;
        }

        const width = 640;
        const height = 210;
        const padding = 16;
        const allValues = points.flatMap((point) => point.values).filter((value) => value != null);
        if (allValues.length === 0) {
          return `<div class="empty">${escapeHtml(t("node.no_numeric_history"))}</div>`;
        }

        const bounds = chartBounds(allValues, options.clipSpikes);
        const span = Math.max(bounds.displayMax - bounds.displayMin, 1);
        const series = colors.map((color, seriesIndex) => {
          let started = false;
          const path = points.map((point, pointIndex) => {
            const value = point.values[seriesIndex];
            if (value == null) return null;
            const plottedValue = Math.min(Math.max(value, bounds.displayMin), bounds.displayMax);
            const x = padding + ((width - padding * 2) * pointIndex) / Math.max(points.length - 1, 1);
            const y = height - padding - (((plottedValue - bounds.displayMin) / span) * (height - padding * 2));
            const command = started ? "L" : "M";
            started = true;
            return `${command}${x.toFixed(1)},${y.toFixed(1)}`;
          }).filter(Boolean).join(" ");
          return `<path d="${path}" fill="none" stroke="${color}" stroke-width="3.2" stroke-linecap="round" stroke-linejoin="round" />`;
        }).join("");

        const footer = bounds.clipped
          ? t("node.chart.clipped_range", {
              start: formatter(bounds.displayMin),
              end: formatter(bounds.displayMax),
              peak: formatter(bounds.actualMax),
            })
          : t("node.chart.range", {
              start: formatter(bounds.displayMin),
              end: formatter(bounds.actualMax),
            });

        return `
          <svg viewBox="0 0 ${width} ${height}" width="100%" height="100%" preserveAspectRatio="none" aria-hidden="true">
            <rect x="0" y="0" width="${width}" height="${height}" fill="transparent" />
            ${series}
          </svg>
          <div style="position:absolute;left:18px;bottom:16px;font-size:0.82rem;color:#5d6875;">${escapeHtml(footer)}</div>
        `;
      }

      function filterHistoryBySelection(history) {
        if (!Array.isArray(history) || history.length === 0) {
          return [];
        }
        if (chartState.selectedStartMs == null || chartState.selectedEndMs == null) {
          return history;
        }

        const filtered = history.filter((point) => (
          point._ts >= chartState.selectedStartMs && point._ts <= chartState.selectedEndMs
        ));
        if (filtered.length > 0) {
          return filtered;
        }

        let before = null;
        let after = null;
        for (const point of history) {
          if (point._ts < chartState.selectedStartMs) {
            before = point;
            continue;
          }
          if (point._ts > chartState.selectedEndMs) {
            after = point;
            break;
          }
        }

        return [before, after].filter(Boolean);
      }

      function renderStats(node) {
        const snapshot = node.snapshot || {};
        const memory = snapshot.memory || {};
        const cards = [
          [t("node.stats.cpu"), fmtPercent(snapshot.cpu_usage_percent)],
          [t("node.stats.load"), snapshot.load ? `${snapshot.load.one.toFixed(2)} / ${snapshot.load.five.toFixed(2)} / ${snapshot.load.fifteen.toFixed(2)}` : t("common.not_available")],
          [t("node.stats.download_upload"), `${fmtRate(snapshot.network?.rx_bytes_per_sec)} / ${fmtRate(snapshot.network?.tx_bytes_per_sec)}`],
          [t("node.stats.latency"), fmtLatency(node.latency_ms)],
          [t("node.stats.memory"), `${fmtBytes(memory.used_bytes)} / ${fmtBytes(memory.total_bytes)}`],
          [t("node.stats.swap"), `${fmtBytes(memory.swap_used_bytes)} / ${fmtBytes(memory.swap_total_bytes)}`],
          [t("node.stats.uptime"), fmtUptime(snapshot.uptime_secs)],
          [t("node.stats.agent"), node.identity.agent_version || t("common.not_available")],
        ];
        document.getElementById("stats").innerHTML = cards.map(([label, value]) => `
          <article class="panel">
            <div class="label">${escapeHtml(label)}</div>
            <div class="value">${escapeHtml(value)}</div>
          </article>
        `).join("");
      }

      function renderDisks(node) {
        const disks = node.snapshot?.disks || [];
        const root = document.getElementById("disks");
        if (disks.length === 0) {
          root.innerHTML = `<div class="empty">${escapeHtml(t("node.no_disks"))}</div>`;
          return;
        }
        root.innerHTML = `
          <table>
            <thead>
              <tr>
                <th>${escapeHtml(t("node.disk.device"))}</th>
                <th>${escapeHtml(t("node.disk.mount"))}</th>
                <th>${escapeHtml(t("node.disk.filesystem"))}</th>
                <th>${escapeHtml(t("node.disk.usage"))}</th>
                <th>${escapeHtml(t("node.disk.capacity"))}</th>
              </tr>
            </thead>
            <tbody>
              ${disks.map((disk) => `
                <tr>
                  <td>${escapeHtml(disk.device)}</td>
                  <td>${escapeHtml(disk.mount_point)}</td>
                  <td>${escapeHtml(disk.fs_type)}</td>
                  <td>${fmtPercent(disk.used_percent)}</td>
                  <td>${fmtBytes(disk.used_bytes)} / ${fmtBytes(disk.total_bytes)}</td>
                </tr>
              `).join("")}
            </tbody>
          </table>
        `;
      }

      function displayedHistory() {
        if (Array.isArray(latestHistory) && latestHistory.length > 0) {
          return latestHistory;
        }
        return filterHistoryBySelection(overviewHistory);
      }

      function renderHistory(history) {
        document.getElementById("chart-cpu").innerHTML = renderSparkline(
          history.map((point) => ({ values: [point.cpu_usage_percent] })),
          ["var(--chart-a)"],
          (value) => `${value.toFixed(1)}%`,
          { clipSpikes: chartState.peakClipEnabled }
        );
        document.getElementById("chart-memory").innerHTML = renderSparkline(
          history.map((point) => ({ values: [point.memory_used_percent] })),
          ["var(--chart-b)"],
          (value) => `${value.toFixed(1)}%`,
          { clipSpikes: chartState.peakClipEnabled }
        );
        document.getElementById("chart-network").innerHTML = renderSparkline(
          history.map((point) => ({ values: [point.rx_bytes_per_sec, point.tx_bytes_per_sec] })),
          ["var(--chart-c)", "var(--chart-a)"],
          (value) => fmtRate(value),
          { clipSpikes: chartState.peakClipEnabled }
        );
        document.getElementById("chart-latency").innerHTML = renderSparkline(
          history.map((point) => ({ values: [point.latency_ms] })),
          ["var(--chart-d)"],
          (value) => `${Math.round(value)} ms`,
          { clipSpikes: chartState.peakClipEnabled }
        );
      }

      function renderNodeHeader(node) {
        document.getElementById("title").textContent = node.identity.node_label || t("common.node_unavailable");
        document.getElementById("meta").innerHTML = `
          ${escapeHtml(node.identity.node_id)} · ${escapeHtml(node.identity.hostname || t("common.unknown_host"))} ·
          ${escapeHtml(node.identity.os || t("common.unknown_os"))} ·
          ${escapeHtml(node.online ? t("common.online") : t("common.offline"))}
        `;
      }

      function renderUpdatedAt(node) {
        document.getElementById("updated").textContent = node.last_seen
          ? t("common.last_seen", { time: fmtDateTime(node.last_seen) })
          : t("common.no_heartbeat_yet");
      }

      function rerenderNode() {
        document.documentElement.lang = currentLanguage;
        document.title = t("node.page_title");
        document.querySelectorAll("[data-i18n]").forEach((element) => {
          element.textContent = t(element.dataset.i18n);
        });
        renderBrushOverview();
        syncControls();
        if (latestNode) {
          renderNodeHeader(latestNode);
          renderUpdatedAt(latestNode);
          renderStats(latestNode);
          renderDisks(latestNode);
        } else {
          document.getElementById("updated").textContent = t("common.waiting_for_node_data");
          document.getElementById("title").textContent = t("node.loading");
        }
        renderHistory(displayedHistory());
      }

      function scheduleRefresh() {
        if (refreshTimer != null) {
          window.clearTimeout(refreshTimer);
        }
        refreshTimer = window.setTimeout(refresh, REFRESH_MS);
      }

      function xToHistoryMs(clientX) {
        const bounds = historyBounds(overviewHistory);
        if (!bounds) {
          return null;
        }
        const stage = document.getElementById("history-brush-stage");
        const rect = stage.getBoundingClientRect();
        if (rect.width <= 0) {
          return bounds.endMs;
        }
        const ratio = Math.min(1, Math.max(0, (clientX - rect.left) / rect.width));
        return bounds.startMs + ((bounds.endMs - bounds.startMs) * ratio);
      }

      function updateSelection(startMs, endMs, activePresetKey) {
        const selection = clampSelection(startMs, endMs);
        if (!selection) {
          return false;
        }
        chartState.selectedStartMs = selection.startMs;
        chartState.selectedEndMs = selection.endMs;
        chartState.activePresetKey = activePresetKey;
        return true;
      }

      function applyPresetWindow(presetKey, shouldFetch = true) {
        const preset = findPreset(presetKey);
        const bounds = historyBounds(overviewHistory);
        if (!preset || !bounds) {
          return;
        }
        const endMs = bounds.endMs;
        const startMs = Math.max(bounds.startMs, endMs - (preset.hours * 3600 * 1000));
        if (!updateSelection(startMs, endMs, preset.key)) {
          return;
        }
        latestHistory = filterHistoryBySelection(overviewHistory);
        rerenderNode();
        if (shouldFetch) {
          void fetchDetailHistory();
        }
      }

      function ensureSelectionState() {
        const bounds = historyBounds(overviewHistory);
        if (!bounds) {
          chartState.selectedStartMs = null;
          chartState.selectedEndMs = null;
          latestHistory = [];
          return;
        }

        if (chartState.activePresetKey !== CUSTOM_PRESET_KEY) {
          applyPresetWindow(chartState.activePresetKey, false);
          return;
        }

        if (chartState.selectedStartMs == null || chartState.selectedEndMs == null) {
          applyPresetWindow("last_24h", false);
          return;
        }

        const selection = clampSelection(chartState.selectedStartMs, chartState.selectedEndMs);
        if (selection) {
          chartState.selectedStartMs = selection.startMs;
          chartState.selectedEndMs = selection.endMs;
          latestHistory = filterHistoryBySelection(overviewHistory);
        }
      }

      async function fetchDetailHistory() {
        const selection = clampSelection(chartState.selectedStartMs, chartState.selectedEndMs);
        if (!selection) {
          latestHistory = [];
          rerenderNode();
          return;
        }

        const requestVersion = ++detailRequestVersion;
        const params = new URLSearchParams({
          start: String(Math.floor(selection.startMs / 1000)),
          end: String(Math.ceil(selection.endMs / 1000)),
          max_points: String(DETAIL_HISTORY_MAX_POINTS)
        });

        try {
          const history = normalizeHistory(
            await fetchJson(`/api/nodes/${encodeURIComponent(NODE_ID)}/history?${params.toString()}`)
          );
          if (requestVersion !== detailRequestVersion) {
            return;
          }
          latestHistory = history.length > 0 ? history : filterHistoryBySelection(overviewHistory);
        } catch (error) {
          console.warn("failed to refresh selected history; falling back to overview samples", error);
          if (requestVersion !== detailRequestVersion) {
            return;
          }
          latestHistory = filterHistoryBySelection(overviewHistory);
        }

        renderHistory(displayedHistory());
      }

      function beginBrushDrag(mode, event) {
        const bounds = historyBounds(overviewHistory);
        if (!bounds || chartState.selectedStartMs == null || chartState.selectedEndMs == null) {
          return;
        }

        const pointerMs = xToHistoryMs(event.clientX);
        if (pointerMs == null) {
          return;
        }

        const selectionElement = document.getElementById("history-brush-selection");
        selectionElement.classList.toggle("dragging", mode === "move");
        activeBrushDrag = {
          mode,
          pointerOffsetMs: pointerMs - chartState.selectedStartMs,
          selectionSpanMs: chartState.selectedEndMs - chartState.selectedStartMs
        };

        const onPointerMove = (moveEvent) => {
          if (!activeBrushDrag) {
            return;
          }
          const nextPointerMs = xToHistoryMs(moveEvent.clientX);
          if (nextPointerMs == null) {
            return;
          }

          if (activeBrushDrag.mode === "start") {
            updateSelection(nextPointerMs, chartState.selectedEndMs, CUSTOM_PRESET_KEY);
          } else if (activeBrushDrag.mode === "end") {
            updateSelection(chartState.selectedStartMs, nextPointerMs, CUSTOM_PRESET_KEY);
          } else {
            const nextStart = nextPointerMs - activeBrushDrag.pointerOffsetMs;
            updateSelection(
              nextStart,
              nextStart + activeBrushDrag.selectionSpanMs,
              CUSTOM_PRESET_KEY
            );
          }

          latestHistory = filterHistoryBySelection(overviewHistory);
          syncControls();
          renderHistory(displayedHistory());
        };

        const onPointerUp = () => {
          selectionElement.classList.remove("dragging");
          window.removeEventListener("pointermove", onPointerMove);
          window.removeEventListener("pointerup", onPointerUp);
          activeBrushDrag = null;
          void fetchDetailHistory();
        };

        window.addEventListener("pointermove", onPointerMove);
        window.addEventListener("pointerup", onPointerUp);
      }

      function bindControls() {
        document.getElementById("history-presets").addEventListener("click", (event) => {
          const target = event.target.closest("[data-preset-key]");
          if (!target) {
            return;
          }
          applyPresetWindow(target.dataset.presetKey, true);
        });

        document.getElementById("peak-clip-toggle").addEventListener("click", () => {
          chartState.peakClipEnabled = !chartState.peakClipEnabled;
          syncControls();
          renderHistory(displayedHistory());
        });

        const brushStage = document.getElementById("history-brush-stage");
        const brushSelection = document.getElementById("history-brush-selection");
        brushStage.addEventListener("pointerdown", (event) => {
          const handle = event.target.closest("[data-handle]");
          if (handle) {
            event.preventDefault();
            beginBrushDrag(handle.dataset.handle, event);
            return;
          }

          if (brushSelection.contains(event.target)) {
            event.preventDefault();
            beginBrushDrag("move", event);
            return;
          }

          const pointerMs = xToHistoryMs(event.clientX);
          if (pointerMs == null) {
            return;
          }
          const currentSpan = Math.max(selectionDurationMs(), MIN_SELECTION_MS);
          updateSelection(
            pointerMs - (currentSpan / 2),
            pointerMs + (currentSpan / 2),
            CUSTOM_PRESET_KEY
          );
          latestHistory = filterHistoryBySelection(overviewHistory);
          syncControls();
          renderHistory(displayedHistory());
          void fetchDetailHistory();
        });

        syncControls();
      }

      async function refresh() {
        let node;
        try {
          node = await fetchJson(`/api/nodes/${encodeURIComponent(NODE_ID)}`);
        } catch (error) {
          document.getElementById("title").textContent = t("common.node_unavailable");
          document.getElementById("meta").textContent = error.message;
          scheduleRefresh();
          return;
        }

        latestNode = node;

        try {
          const overviewParams = new URLSearchParams({
            window_hours: String(RETENTION_WINDOW_HOURS),
            max_points: String(OVERVIEW_HISTORY_MAX_POINTS)
          });
          overviewHistory = normalizeHistory(
            await fetchJson(`/api/nodes/${encodeURIComponent(NODE_ID)}/history?${overviewParams.toString()}`)
          );
        } catch (error) {
          console.warn("failed to refresh overview history", error);
          overviewHistory = [];
          latestHistory = [];
        }

        ensureSelectionState();
        rerenderNode();
        await fetchDetailHistory();
        scheduleRefresh();
      }

      async function init() {
        await loadI18n();
        bindLanguageSelector(() => {
          rerenderNode();
        });
        bindControls();
        rerenderNode();
        refresh();
      }

      init();
    </script>
  </body>
</html>
"#;

} // verus!

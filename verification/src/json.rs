//! JSON string literals: how `serde_json` writes a string, the escaping that
//! keeps such a literal inside an HTML `<script>` element, and how a JSON
//! reader decodes a literal.

use vstd::prelude::*;

use vstd::string::*;

use crate::text::{chars_of, lemma_replace_all_absent, lemma_replace_char_concat, occurs_at, occurs_in, replace_all};

verus! {

/// The lower-case hexadecimal digit of `d`.
pub open spec fn hex_digit(d: int) -> char
    recommends
        0 <= d < 16,
{
    if d < 10 {
        ((d + 48) as u32) as char
    } else {
        ((d + 87) as u32) as char
    }
}

/// The value of a hexadecimal digit of either case.
pub open spec fn hex_value(c: char) -> Option<int> {
    if '0' <= c <= '9' {
        Some(c as int - 48)
    } else if 'a' <= c <= 'f' {
        Some(c as int - 87)
    } else if 'A' <= c <= 'F' {
        Some(c as int - 55)
    } else {
        None
    }
}

/// How `serde_json` writes one character inside a string literal: `"` and
/// `\` and the control characters below U+0020 are escaped (the usual short
/// escapes where JSON has one, `\u00XX` with lower-case hex otherwise); every
/// other character stands for itself.
pub open spec fn json_escape_char(c: char) -> Seq<char> {
    let code = c as int;
    if c == '"' {
        seq!['\\', '"']
    } else if c == '\\' {
        seq!['\\', '\\']
    } else if code == 8 {
        seq!['\\', 'b']
    } else if code == 9 {
        seq!['\\', 't']
    } else if code == 10 {
        seq!['\\', 'n']
    } else if code == 12 {
        seq!['\\', 'f']
    } else if code == 13 {
        seq!['\\', 'r']
    } else if code < 32 {
        seq!['\\', 'u', '0', '0', hex_digit(code / 16), hex_digit(code % 16)]
    } else {
        seq![c]
    }
}

/// The escaped characters of `s`, one after the other.
pub open spec fn json_escaped(s: Seq<char>) -> Seq<char>
    decreases s.len(),
{
    if s.len() == 0 {
        Seq::empty()
    } else {
        json_escape_char(s[0]) + json_escaped(s.skip(1))
    }
}

/// The JSON text that `serde_json::to_string` writes for a string `s`.
pub open spec fn json_string_literal(s: Seq<char>) -> Seq<char> {
    seq!['"'] + json_escaped(s) + seq!['"']
}

/// The escape written for `<` inside a script: `\u003c`.
pub open spec fn lt_escape() -> Seq<char> {
    seq!['\\', 'u', '0', '0', '3', 'c']
}

/// One character of a literal that may stand inside a `<script>` element:
/// as `serde_json` writes it, except that `<` becomes `\u003c`.
pub open spec fn script_escape_char(c: char) -> Seq<char> {
    if c == '<' {
        lt_escape()
    } else {
        json_escape_char(c)
    }
}

/// The script-safe escaped characters of `s`, one after the other.
pub open spec fn script_escaped(s: Seq<char>) -> Seq<char>
    decreases s.len(),
{
    if s.len() == 0 {
        Seq::empty()
    } else {
        script_escape_char(s[0]) + script_escaped(s.skip(1))
    }
}

/// The JSON string literal of `s` that holds no `<`.
pub open spec fn script_string_literal(s: Seq<char>) -> Seq<char> {
    seq!['"'] + script_escaped(s) + seq!['"']
}

/// The character that the escape `\e` stands for, for the one-letter escapes of JSON.
pub open spec fn short_escape_value(e: char) -> Option<char> {
    if e == '"' {
        Some('"')
    } else if e == '\\' {
        Some('\\')
    } else if e == '/' {
        Some('/')
    } else if e == 'b' {
        Some(8u32 as char)
    } else if e == 'f' {
        Some(12u32 as char)
    } else if e == 'n' {
        Some(10u32 as char)
    } else if e == 'r' {
        Some(13u32 as char)
    } else if e == 't' {
        Some(9u32 as char)
    } else {
        None
    }
}

/// The code of the four hex digits `t[1..5]`, where they are hex digits.
pub open spec fn hex4_value(t: Seq<char>) -> Option<int>
    recommends
        t.len() >= 5,
{
    match (hex_value(t[1]), hex_value(t[2]), hex_value(t[3]), hex_value(t[4])) {
        (Some(a), Some(b), Some(c), Some(d)) => Some(((a * 16 + b) * 16 + c) * 16 + d),
        _ => None,
    }
}

/// `c` prepended to a decoded rest, where the rest decodes.
pub open spec fn prepend_decoded(c: char, rest: Option<Seq<char>>) -> Option<Seq<char>> {
    match rest {
        Some(r) => Some(seq![c] + r),
        None => None,
    }
}

/// What the characters between the quotes of a JSON string literal denote,
/// as RFC 8259 reads them: `None` where they are not well formed (an
/// unescaped quote or control character, or an unknown escape). A `\u`
/// escape that names a surrogate is not accepted here.
pub open spec fn json_unescape(t: Seq<char>) -> Option<Seq<char>>
    decreases t.len(),
{
    if t.len() == 0 {
        Some(Seq::empty())
    } else if t[0] == '\\' {
        if t.len() < 2 {
            None
        } else if short_escape_value(t[1]) is Some {
            prepend_decoded(short_escape_value(t[1])->0, json_unescape(t.skip(2)))
        } else if t[1] == 'u' && t.len() >= 6 {
            let h = t.skip(1);
            match hex4_value(h) {
                Some(code) => if code < 0xD800 || 0xDFFF < code {
                    prepend_decoded((code as u32) as char, json_unescape(t.skip(6)))
                } else {
                    None
                },
                None => None,
            }
        } else {
            None
        }
    } else if t[0] == '"' || (t[0] as int) < 32 {
        None
    } else {
        prepend_decoded(t[0], json_unescape(t.skip(1)))
    }
}

/// The string that a JSON string literal denotes, or `None` where `lit` is
/// not one.
pub open spec fn json_string_value(lit: Seq<char>) -> Option<Seq<char>> {
    if lit.len() >= 2 && lit[0] == '"' && lit[lit.len() - 1] == '"' {
        json_unescape(lit.subrange(1, lit.len() - 1))
    } else {
        None
    }
}


/// A hex digit reads back as its value, and is an ordinary visible character.
proof fn lemma_hex_digit(d: int)
    requires
        0 <= d < 16,
    ensures
        hex_value(hex_digit(d)) == Some(d),
        48 <= hex_digit(d) as int <= 102,
        hex_digit(d) != '<',
        hex_digit(d) != '"',
        hex_digit(d) != '\\',
{
    assert(d == 0 || d == 1 || d == 2 || d == 3 || d == 4 || d == 5 || d == 6 || d == 7 || d == 8
        || d == 9 || d == 10 || d == 11 || d == 12 || d == 13 || d == 14 || d == 15);
}

/// Every character of the script escape of `c` is visible (code 32 or more)
/// and is not `<`.
proof fn lemma_script_escape_char_safe(c: char)
    ensures
        script_escape_char(c).len() > 0,
        forall|i: int| 0 <= i < script_escape_char(c).len() ==>
            #[trigger] script_escape_char(c)[i] != '<' && script_escape_char(c)[i] as int >= 32,
{
    let code = c as int;
    if c != '<' && c != '"' && c != '\\' && code != 8 && code != 9 && code != 10 && code != 12 && code != 13 && code < 32 {
        lemma_hex_digit(code / 16);
        lemma_hex_digit(code % 16);
    }
}

/// The serde escape of `c` holds `<` only where `c` is `<`, and is then `<` alone.
proof fn lemma_json_escape_char_lt(c: char)
    ensures
        c == '<' ==> json_escape_char(c) == seq!['<'],
        c != '<' ==> !occurs_in(json_escape_char(c), seq!['<']),
{
    let e = json_escape_char(c);
    let code = c as int;
    if c != '<' {
        if c != '"' && c != '\\' && code != 8 && code != 9 && code != 10 && code != 12 && code != 13 && code < 32 {
            lemma_hex_digit(code / 16);
            lemma_hex_digit(code % 16);
        }
        assert forall|i: int| !occurs_at(e, seq!['<'], i) by {
            if occurs_at(e, seq!['<'], i) {
                assert(e.subrange(i, i + 1)[0] == e[i]);
            }
        }
    }
}

/// Escaping `<` in the serde escapes gives the script escapes.
proof fn lemma_replace_lt_escaped(s: Seq<char>)
    ensures
        replace_all(json_escaped(s), seq!['<'], lt_escape()) == script_escaped(s),
    decreases s.len(),
{
    if s.len() > 0 {
        let c = s[0];
        lemma_replace_lt_escaped(s.skip(1));
        lemma_replace_char_concat(json_escape_char(c), json_escaped(s.skip(1)), '<', lt_escape());
        lemma_json_escape_char_lt(c);
        if c == '<' {
            let one = seq!['<'];
            assert(occurs_at(one, one, 0)) by {
                assert(one.subrange(0, 1) =~= one);
            }
            assert(one.skip(1) =~= Seq::<char>::empty());
            assert(replace_all(one.skip(1), one, lt_escape()) =~= Seq::<char>::empty());
            assert(replace_all(one, one, lt_escape()) == lt_escape() + replace_all(one.skip(1), one, lt_escape()));
            assert(replace_all(one, one, lt_escape()) =~= lt_escape());
        } else {
            lemma_replace_all_absent(json_escape_char(c), seq!['<'], lt_escape());
        }
    }
}

/// Escaping `<` in the literal that `serde_json` writes gives the script-safe
/// literal.
pub proof fn lemma_replace_lt_literal(s: Seq<char>)
    ensures
        replace_all(json_string_literal(s), seq!['<'], lt_escape()) == script_string_literal(s),
{
    let q = seq!['"'];
    lemma_replace_lt_escaped(s);
    lemma_replace_char_concat(q + json_escaped(s), q, '<', lt_escape());
    lemma_replace_char_concat(q, json_escaped(s), '<', lt_escape());
    assert(!occurs_in(q, seq!['<'])) by {
        assert forall|i: int| !occurs_at(q, seq!['<'], i) by {
            if occurs_at(q, seq!['<'], i) {
                assert(q.subrange(i, i + 1)[0] == q[i]);
            }
        }
    }
    lemma_replace_all_absent(q, seq!['<'], lt_escape());
}

/// Reading the script escape of `c` gives `c`, and reading goes on after it.
proof fn lemma_script_escape_char_decodes(c: char, t: Seq<char>)
    ensures
        json_unescape(script_escape_char(c) + t) == prepend_decoded(c, json_unescape(t)),
{
    let e = script_escape_char(c);
    let u = e + t;
    let code = c as int;
    if c == '<' {
        assert(u[0] == '\\' && u[1] == 'u');
        let h = u.skip(1);
        assert(h[1] == '0' && h[2] == '0' && h[3] == '3' && h[4] == 'c');
        assert(hex4_value(h) == Some(60int));
        assert((60u32 as char) == c);
        assert(u.skip(6) =~= t);
    } else if c == '"' || c == '\\' || code == 8 || code == 9 || code == 10 || code == 12 || code == 13 {
        assert(u[0] == '\\');
        assert(u.skip(2) =~= t);
    } else if code < 32 {
        lemma_hex_digit(code / 16);
        lemma_hex_digit(code % 16);
        assert(u[0] == '\\' && u[1] == 'u');
        let h = u.skip(1);
        assert(h[1] == '0' && h[2] == '0' && h[3] == hex_digit(code / 16) && h[4] == hex_digit(code % 16));
        assert(hex4_value(h) == Some(code));
        assert(((code as u32) as char) == c);
        assert(u.skip(6) =~= t);
    } else {
        assert(u[0] == c);
        assert(u.skip(1) =~= t);
    }
}

/// Reading the script escapes of `s` gives `s`.
proof fn lemma_script_escaped_decodes(s: Seq<char>)
    ensures
        json_unescape(script_escaped(s)) == Some(s),
    decreases s.len(),
{
    if s.len() == 0 {
        assert(script_escaped(s) =~= Seq::<char>::empty());
        assert(s =~= Seq::<char>::empty());
    } else {
        lemma_script_escaped_decodes(s.skip(1));
        lemma_script_escape_char_decodes(s[0], script_escaped(s.skip(1)));
        assert(seq![s[0]] + s.skip(1) =~= s);
    }
}

/// Every character of the script escapes of `s` is visible and is not `<`.
proof fn lemma_script_escaped_safe(s: Seq<char>)
    ensures
        forall|i: int| 0 <= i < script_escaped(s).len() ==>
            #[trigger] script_escaped(s)[i] != '<' && script_escaped(s)[i] as int >= 32,
    decreases s.len(),
{
    if s.len() > 0 {
        lemma_script_escaped_safe(s.skip(1));
        lemma_script_escape_char_safe(s[0]);
        let e = script_escape_char(s[0]);
        let r = script_escaped(s.skip(1));
        assert forall|i: int| 0 <= i < script_escaped(s).len() implies
            #[trigger] script_escaped(s)[i] != '<' && script_escaped(s)[i] as int >= 32 by {
            if i < e.len() {
                assert(script_escaped(s)[i] == e[i]);
            } else {
                assert(script_escaped(s)[i] == r[i - e.len()]);
            }
        }
    }
}

/// The script-safe literal of `s` is a JSON string literal that reads back
/// as `s`: it begins and ends with a quote, and every character of it is
/// visible (code 32 or more) and is not `<`, so it cannot close a script.
pub proof fn lemma_script_literal(s: Seq<char>)
    ensures
        json_string_value(script_string_literal(s)) == Some(s),
        script_string_literal(s)[0] == '"',
        script_string_literal(s)[script_string_literal(s).len() - 1] == '"',
        forall|i: int| 0 <= i < script_string_literal(s).len() ==>
            #[trigger] script_string_literal(s)[i] != '<' && script_string_literal(s)[i] as int >= 32,
{
    let lit = script_string_literal(s);
    let body = script_escaped(s);
    lemma_script_escaped_decodes(s);
    lemma_script_escaped_safe(s);
    assert(lit.subrange(1, lit.len() - 1) =~= body);
    assert forall|i: int| 0 <= i < lit.len() implies #[trigger] lit[i] != '<' && lit[i] as int >= 32 by {
        if 0 < i < lit.len() - 1 {
            assert(lit[i] == body[i - 1]);
        }
    }
}

/// Reading the serde escape of `c` gives `c`, and reading goes on after it.
proof fn lemma_json_escape_char_decodes(c: char, t: Seq<char>)
    ensures
        json_unescape(json_escape_char(c) + t) == prepend_decoded(c, json_unescape(t)),
{
    if c == '<' {
        let u = json_escape_char(c) + t;
        assert(u[0] == '<');
        assert(u.skip(1) =~= t);
    } else {
        lemma_script_escape_char_decodes(c, t);
    }
}

/// Reading the serde escapes of `s` gives `s`.
proof fn lemma_json_escaped_decodes(s: Seq<char>)
    ensures
        json_unescape(json_escaped(s)) == Some(s),
    decreases s.len(),
{
    if s.len() == 0 {
        assert(json_escaped(s) =~= Seq::<char>::empty());
        assert(s =~= Seq::<char>::empty());
    } else {
        lemma_json_escaped_decodes(s.skip(1));
        lemma_json_escape_char_decodes(s[0], json_escaped(s.skip(1)));
        assert(seq![s[0]] + s.skip(1) =~= s);
    }
}

/// The literal that `serde_json` writes for `s` is a JSON string literal
/// that reads back as `s`.
pub proof fn lemma_json_literal_reads_back(s: Seq<char>)
    ensures
        json_string_value(json_string_literal(s)) == Some(s),
{
    let lit = json_string_literal(s);
    lemma_json_escaped_decodes(s);
    assert(lit.subrange(1, lit.len() - 1) =~= json_escaped(s));
}

/// Two strings with the same script-safe literal are the same string.
pub proof fn lemma_script_literal_injective(a: Seq<char>, b: Seq<char>)
    requires
        script_string_literal(a) == script_string_literal(b),
    ensures
        a == b,
{
    lemma_script_literal(a);
    lemma_script_literal(b);
}

/// The escapes of a concatenation are the escapes of its parts.
proof fn lemma_json_escaped_concat(a: Seq<char>, b: Seq<char>)
    ensures
        json_escaped(a + b) == json_escaped(a) + json_escaped(b),
    decreases a.len(),
{
    if a.len() == 0 {
        assert(a + b =~= b);
        assert(json_escaped(a) =~= Seq::<char>::empty());
        assert(json_escaped(a) + json_escaped(b) =~= json_escaped(b));
    } else {
        assert((a + b).skip(1) =~= a.skip(1) + b);
        assert((a + b)[0] == a[0]);
        lemma_json_escaped_concat(a.skip(1), b);
        assert(json_escaped(a + b) =~= json_escaped(a) + json_escaped(b));
    }
}

/// Escaping one character more appends that character's escape.
proof fn lemma_json_escaped_push(s: Seq<char>, i: int)
    requires
        0 <= i < s.len(),
    ensures
        json_escaped(s.take(i + 1)) == json_escaped(s.take(i)) + json_escape_char(s[i]),
{
    let one = seq![s[i]];
    assert(s.take(i + 1) =~= s.take(i) + one);
    lemma_json_escaped_concat(s.take(i), one);
    assert(one.skip(1) =~= Seq::<char>::empty());
    assert(json_escaped(one.skip(1)) =~= Seq::<char>::empty());
    assert(json_escaped(one) =~= json_escape_char(s[i]));
}

/// The lower-case hex digit of `d` as a one-character string.
fn hex_str(d: u32) -> (res: &'static str)
    requires
        d < 16,
    ensures
        res@ == seq![hex_digit(d as int)],
{
    if d == 0 {
        proof { reveal_strlit("0"); }
        "0"
    } else
    if d == 1 {
        proof { reveal_strlit("1"); }
        "1"
    } else
    if d == 2 {
        proof { reveal_strlit("2"); }
        "2"
    } else
    if d == 3 {
        proof { reveal_strlit("3"); }
        "3"
    } else
    if d == 4 {
        proof { reveal_strlit("4"); }
        "4"
    } else
    if d == 5 {
        proof { reveal_strlit("5"); }
        "5"
    } else
    if d == 6 {
        proof { reveal_strlit("6"); }
        "6"
    } else
    if d == 7 {
        proof { reveal_strlit("7"); }
        "7"
    } else
    if d == 8 {
        proof { reveal_strlit("8"); }
        "8"
    } else
    if d == 9 {
        proof { reveal_strlit("9"); }
        "9"
    } else
    if d == 10 {
        proof { reveal_strlit("a"); }
        "a"
    } else
    if d == 11 {
        proof { reveal_strlit("b"); }
        "b"
    } else
    if d == 12 {
        proof { reveal_strlit("c"); }
        "c"
    } else
    if d == 13 {
        proof { reveal_strlit("d"); }
        "d"
    } else
    if d == 14 {
        proof { reveal_strlit("e"); }
        "e"
    } else {
        proof { reveal_strlit("f"); }
        "f"
    }
}

/// The code of a character.
fn char_code(c: char) -> (res: u32)
    ensures
        res as int == c as int,
{
    c as u32
}

/// Appends the escape of a character that `serde_json` escapes.
fn push_json_escape(out: &mut String, c: char)
    requires
        c == '"' || c == '\\' || (c as int) < 32,
    ensures
        final(out)@ == old(out)@ + json_escape_char(c),
{
    let code = c as u32;
    assert(code as int == c as int);
    if c == '"' {
        proof { reveal_strlit("\\\""); }
        out.append("\\\"");
    } else if c == '\\' {
        proof { reveal_strlit("\\\\"); }
        out.append("\\\\");
    } else if code == 8 {
        proof { reveal_strlit("\\b"); }
        out.append("\\b");
    } else if code == 9 {
        proof { reveal_strlit("\\t"); }
        out.append("\\t");
    } else if code == 10 {
        proof { reveal_strlit("\\n"); }
        out.append("\\n");
    } else if code == 12 {
        proof { reveal_strlit("\\f"); }
        out.append("\\f");
    } else if code == 13 {
        proof { reveal_strlit("\\r"); }
        out.append("\\r");
    } else {
        proof { reveal_strlit("\\u00"); }
        out.append("\\u00");
        out.append(hex_str(code / 16));
        out.append(hex_str(code % 16));
        assert(final(out)@ =~= old(out)@ + json_escape_char(c));
    }
}

/// Writes the JSON string literal of `s` exactly as `serde_json::to_string`
/// does: a quote, each character escaped by `json_escape_char`, a quote. It
/// reads back as `s`.
pub fn json_string_literal_of(s: &str) -> (res: String)
    ensures
        res@ == json_string_literal(s@),
        json_string_value(res@) == Some(s@),
{
    let text = chars_of(s);
    let n = text.len();
    let mut out = String::new();
    proof { reveal_strlit("\""); }
    out.append("\"");
    let mut seg_start: usize = 0;
    let mut i: usize = 0;
    assert(s@.take(0) =~= Seq::<char>::empty());
    assert(json_escaped(s@.take(0)) =~= Seq::<char>::empty());
    assert(s@.subrange(0, 0) =~= Seq::<char>::empty());
    while i < n
        invariant
            text@ == s@,
            n == text.len(),
            seg_start <= i <= n,
            out@ + s@.subrange(seg_start as int, i as int) == seq!['"'] + json_escaped(s@.take(i as int)),
        decreases n - i,
    {
        let c = text[i];
        let code = char_code(c);
        proof { lemma_json_escaped_push(s@, i as int); }
        let ghost before = out@;
        let ghost seg = s@.subrange(seg_start as int, i as int);
        if c == '"' || c == '\\' || code < 32 {
            out.append(s.substring_char(seg_start, i));
            push_json_escape(&mut out, c);
            assert(out@ =~= (before + seg) + json_escape_char(c));
            assert(seq!['"'] + json_escaped(s@.take(i + 1)) =~= (seq!['"'] + json_escaped(s@.take(i as int))) + json_escape_char(c));
            i = i + 1;
            seg_start = i;
            assert(s@.subrange(seg_start as int, i as int) =~= Seq::<char>::empty());
        } else {
            assert(json_escape_char(c) == seq![c]);
            assert(s@.subrange(seg_start as int, i + 1) =~= s@.subrange(seg_start as int, i as int).push(c));
            assert(before + s@.subrange(seg_start as int, i + 1) =~= (before + seg) + json_escape_char(c));
            assert(seq!['"'] + json_escaped(s@.take(i + 1)) =~= (seq!['"'] + json_escaped(s@.take(i as int))) + json_escape_char(c));
            i = i + 1;
        }
    }
    assert(s@.take(n as int) =~= s@);
    let ghost body = out@;
    out.append(s.substring_char(seg_start, n));
    out.append("\"");
    assert(out@ =~= body + s@.subrange(seg_start as int, n as int) + seq!['"']);
    assert(out@ =~= json_string_literal(s@));
    proof { lemma_json_literal_reads_back(s@); }
    out
}

/// Calls `serde_json::to_string` on `s`. Claimed of it, as its source shows
/// (`serialize_str` and `format_escaped_str` in `ser.rs`, writing into a
/// `Vec` that never fails): it succeeds, with a quote, the characters of `s`
/// escaped by the `ESCAPE` table, and a quote.
#[verifier::external_body]
pub(crate) fn json_string_of(s: &str) -> (res: Option<String>)
    ensures
        res is Some,
        res->0@ == json_string_literal(s@),
{
    serde_json::to_string(s).ok()
}

} // verus!

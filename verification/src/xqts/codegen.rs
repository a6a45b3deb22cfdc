use vstd::prelude::*;
use crate::xqts::text::{chars_of, lowercase, push_char, replace_all, spec_lowercase, spec_replace, string_of_range, utf8_decode};

verus! {

/// What `quick_xml::escape::unescape` gives for raw XML character data:
/// `None` where it reports an error (an unknown or unterminated entity).
pub uninterp spec fn spec_xml_unescape(raw: Seq<u8>) -> Option<Seq<u8>>;

/// Replaces the XML entity and character references of `raw`
/// (`quick_xml::escape::unescape`). The result is named by
/// `spec_xml_unescape`; the one fact stated besides is that data without an
/// `&` comes back unchanged, as the crate's source shows.
#[verifier::external_body]
fn xml_unescape(raw: &[u8]) -> (r: Option<Vec<u8>>)
    ensures
        r.is_none() == spec_xml_unescape(raw@).is_none(),
        r.is_some() ==> spec_xml_unescape(raw@) == Some(r.unwrap()@),
        !raw@.contains(38u8) ==> r.is_some() && r.unwrap()@ == raw@,
{
    match quick_xml::escape::unescape(raw) {
        Ok(data) => Some(data.into_owned()),
        Err(_) => None,
    }
}

/// The text that `string_cleanup` gives for raw character data, or `None`
/// where unescaping or UTF-8 decoding fails.
pub open spec fn spec_string_cleanup(data: Seq<u8>) -> Option<Seq<char>> {
    match spec_xml_unescape(data) {
        Some(bytes) => if vstd::utf8::valid_utf8(bytes) {
            Some(spec_replace(vstd::utf8::decode_utf8(bytes), "\r"@, "\n"@))
        } else {
            None
        },
        None => None,
    }
}

/// Unescapes XML character data, decodes it as UTF-8 and turns every
/// carriage return into a line feed. `None` where the data cannot be
/// unescaped or is not UTF-8.
pub fn string_cleanup(data: &[u8]) -> (r: Option<String>)
    ensures
        r is Some <==> spec_string_cleanup(data@) is Some,
        r matches Some(s) ==> s@ == spec_string_cleanup(data@)->0,
{
    match xml_unescape(data) {
        Some(bytes) => match utf8_decode(bytes.as_slice()) {
            Some(text) => {
                proof {
                    reveal_strlit("\r");
                }
                Some(replace_all(text.as_str(), "\r", "\n"))
            },
            None => None,
        },
        None => None,
    }
}

/// Escapes backslashes and double quotes so that the text can stand in a
/// Rust string literal.
pub open spec fn spec_cleanup(data: Seq<char>) -> Seq<char> {
    spec_replace(spec_replace(data, "\\"@, "\\\\"@), "\""@, "\\\""@)
}

pub fn cleanup(data: String) -> (r: String)
    ensures
        r@ == spec_cleanup(data@),
{
    proof {
        reveal_strlit("\\");
        reveal_strlit("\"");
    }
    let a = replace_all(data.as_str(), "\\", "\\\\");
    replace_all(a.as_str(), "\"", "\\\"")
}

/// The name of the generated test function for a test case name.
pub open spec fn spec_fn_name(name: Seq<char>) -> Seq<char> {
    spec_replace(
        spec_replace(
            spec_replace(
                spec_replace(
                    spec_replace(
                        spec_replace(spec_lowercase(name), "%"@, "_pc_"@),
                        "+"@,
                        "_plus_"@,
                    ),
                    "."@,
                    "_dot_"@,
                ),
                "-"@,
                "_dash_"@,
            ),
            ":"@,
            "_dots_"@,
        ),
        "__"@,
        "_"@,
    )
}

pub fn fn_name(name: String) -> (r: String)
    ensures
        r@ == spec_fn_name(name@),
{
    proof {
        reveal_strlit("%");
        reveal_strlit("+");
        reveal_strlit(".");
        reveal_strlit("-");
        reveal_strlit(":");
        reveal_strlit("__");
    }
    let s = lowercase(name.as_str());
    let s = replace_all(s.as_str(), "%", "_pc_");
    let s = replace_all(s.as_str(), "+", "_plus_");
    let s = replace_all(s.as_str(), ".", "_dot_");
    let s = replace_all(s.as_str(), "-", "_dash_");
    let s = replace_all(s.as_str(), ":", "_dots_");
    replace_all(s.as_str(), "__", "_")
}

/// The indentation that starts a generated check: a disjunct inside an
/// `assert!` for "any-of", a statement otherwise.
pub open spec fn spec_build_prefix(any_of_flag: bool) -> Seq<char> {
    if any_of_flag {
        "            || bool_"@
    } else {
        "        "@
    }
}

pub fn build_prefix(any_of_flag: bool) -> (r: String)
    ensures
        r@ == spec_build_prefix(any_of_flag),
{
    if any_of_flag {
        String::from_str("            || bool_")
    } else {
        String::from_str("        ")
    }
}

/// What ends a generated check: a `;` for a statement, then a new line.
pub open spec fn spec_check_end(any_of_flag: bool) -> Seq<char> {
    if any_of_flag {
        "\n"@
    } else {
        ";"@ + "\n"@
    }
}

/// A generated call of a check that takes the result alone.
pub open spec fn spec_check_result(fn_name: Seq<char>, any_of_flag: bool) -> Seq<char> {
    spec_build_prefix(any_of_flag) + fn_name + "(&result)"@ + spec_check_end(any_of_flag)
}

pub fn check_result(fn_name: String, any_of_flag: bool) -> (r: String)
    ensures
        r@ == spec_check_result(fn_name@, any_of_flag),
{
    let mut buf = String::new();
    buf.append(build_prefix(any_of_flag).as_str());
    buf.append(fn_name.as_str());
    buf.append("(&result)");
    if !any_of_flag {
        buf.append(";");
    }
    buf.append("\n");
    assert(buf@ =~= spec_check_result(fn_name@, any_of_flag));
    buf
}

/// A generated call of a check that takes the result and an expected
/// value, written as an escaped string literal.
pub open spec fn spec_check_result_value(
    fn_name: Seq<char>,
    assert: Seq<char>,
    any_of_flag: bool,
) -> Seq<char> {
    spec_build_prefix(any_of_flag) + fn_name + "(&result, \""@ + spec_cleanup(assert) + "\")"@
        + spec_check_end(any_of_flag)
}

pub fn check_result_value(fn_name: String, assert: String, any_of_flag: bool) -> (r: String)
    ensures
        r@ == spec_check_result_value(fn_name@, assert@, any_of_flag),
{
    let mut buf = String::new();
    buf.append(build_prefix(any_of_flag).as_str());
    buf.append(fn_name.as_str());
    buf.append("(&result, \"");
    buf.append(cleanup(assert).as_str());
    buf.append("\")");
    if !any_of_flag {
        buf.append(";");
    }
    buf.append("\n");
    assert(buf@ =~= spec_check_result_value(fn_name@, assert@, any_of_flag));
    buf
}

/// Index of the last `/` in `s` before position `end`, if any.
pub open spec fn last_slash_before(s: Seq<char>, end: int) -> Option<int>
    decreases end,
{
    if end <= 0 {
        None
    } else if s[end - 1] == '/' {
        Some(end - 1)
    } else {
        last_slash_before(s, end - 1)
    }
}

/// The directory part of a path: everything up to and including its last
/// `/`, or `/` alone when the path has none.
pub open spec fn spec_folder(path: Seq<char>) -> Seq<char> {
    match last_slash_before(path, path.len() as int) {
        Some(i) => path.subrange(0, i + 1),
        None => seq!['/'],
    }
}

pub fn folder(path: String) -> (r: String)
    ensures
        r@ == spec_folder(path@),
{
    let cs = chars_of(path.as_str());
    let mut end: usize = cs.len();
    while end > 0
        invariant
            cs@ == path@,
            end <= cs@.len(),
            last_slash_before(path@, end as int) == last_slash_before(path@, path@.len() as int),
        decreases end,
    {
        if cs[end - 1] == '/' {
            return string_of_range(cs.as_slice(), 0, end);
        }
        end = end - 1;
    }
    let mut r = String::new();
    push_char(&mut r, '/');
    r
}


proof fn lemma_last_slash_found(s: Seq<char>, end: int)
    requires
        end <= s.len(),
    ensures
        last_slash_before(s, end) matches Some(i) ==> 0 <= i < end && s[i] == '/',
    decreases end,
{
    if end > 0 && s[end - 1] != '/' {
        lemma_last_slash_found(s, end - 1);
    }
}

/// The folder of a path ends with `/`, and where the path holds a `/` it is
/// the path up to its last `/`.
pub proof fn law_folder_ends_with_slash(path: Seq<char>)
    ensures
        spec_folder(path).len() > 0,
        spec_folder(path)[spec_folder(path).len() - 1] == '/',
        last_slash_before(path, path.len() as int) is Some ==> spec_folder(path).is_prefix_of(path),
{
    lemma_last_slash_found(path, path.len() as int);
}

/// Each occurrence of the character `c` replaced by `t`, scanning left to
/// right.
pub open spec fn char_replaced(s: Seq<char>, c: char, t: Seq<char>) -> Seq<char>
    decreases s.len(),
{
    if s.len() == 0 {
        Seq::empty()
    } else {
        (if s[0] == c { t } else { seq![s[0]] }) + char_replaced(s.drop_first(), c, t)
    }
}

/// The text with each backslash and quotation mark escaped by a backslash.
pub open spec fn escaped(s: Seq<char>) -> Seq<char>
    decreases s.len(),
{
    if s.len() == 0 {
        Seq::empty()
    } else {
        (if s[0] == '\\' || s[0] == '"' { seq!['\\', s[0]] } else { seq![s[0]] }) + escaped(s.drop_first())
    }
}

/// The text with each backslash escape turned back: a backslash and the
/// character after it become that character.
pub open spec fn unescaped(s: Seq<char>) -> Seq<char>
    decreases s.len(),
{
    if s.len() == 0 {
        Seq::empty()
    } else if s[0] == '\\' && s.len() >= 2 {
        seq![s[1]] + unescaped(s.subrange(2, s.len() as int))
    } else {
        seq![s[0]] + unescaped(s.drop_first())
    }
}

proof fn lemma_replace_one_char(s: Seq<char>, c: char, t: Seq<char>)
    ensures
        spec_replace(s, seq![c], t) == char_replaced(s, c, t),
    decreases s.len(),
{
    if s.len() > 0 {
        lemma_replace_one_char(s.drop_first(), c, t);
        assert(s.subrange(1, s.len() as int) =~= s.drop_first());
        if s[0] == c {
            assert(s.subrange(0, 1) =~= seq![c]);
        } else {
            assert(s.subrange(0, 1) != seq![c]) by {
                assert(s.subrange(0, 1)[0] == s[0]);
            }
        }
    }
}

proof fn lemma_char_replaced_append(a: Seq<char>, b: Seq<char>, c: char, t: Seq<char>)
    ensures
        char_replaced(a + b, c, t) == char_replaced(a, c, t) + char_replaced(b, c, t),
    decreases a.len(),
{
    if a.len() == 0 {
        assert(a + b =~= b);
    } else {
        lemma_char_replaced_append(a.drop_first(), b, c, t);
        assert((a + b).drop_first() =~= a.drop_first() + b);
        assert((a + b)[0] == a[0]);
    }
}

proof fn lemma_cleanup_escapes(s: Seq<char>)
    ensures
        char_replaced(char_replaced(s, '\\', seq!['\\', '\\']), '"', seq!['\\', '"']) == escaped(s),
    decreases s.len(),
{
    if s.len() > 0 {
        lemma_cleanup_escapes(s.drop_first());
        let head: Seq<char> = if s[0] == '\\' { seq!['\\', '\\'] } else { seq![s[0]] };
        lemma_char_replaced_append(head, char_replaced(s.drop_first(), '\\', seq!['\\', '\\']), '"', seq!['\\', '"']);
        reveal_with_fuel(char_replaced, 3);
        if s[0] == '\\' {
            assert(char_replaced(head, '"', seq!['\\', '"']) =~= seq!['\\', '\\']);
        } else if s[0] == '"' {
            assert(char_replaced(head, '"', seq!['\\', '"']) =~= seq!['\\', '"']);
        } else {
            assert(char_replaced(head, '"', seq!['\\', '"']) =~= seq![s[0]]);
        }
    }
}

proof fn lemma_unescape_escaped(s: Seq<char>)
    ensures
        unescaped(escaped(s)) == s,
    decreases s.len(),
{
    if s.len() > 0 {
        lemma_unescape_escaped(s.drop_first());
        let rest = escaped(s.drop_first());
        let e = escaped(s);
        if s[0] == '\\' || s[0] == '"' {
            assert(e =~= seq!['\\', s[0]] + rest);
            assert(e.subrange(2, e.len() as int) =~= rest);
        } else {
            assert(e =~= seq![s[0]] + rest);
            assert(e.drop_first() =~= rest);
        }
        assert(s =~= seq![s[0]] + s.drop_first());
    }
}

/// Escaping a text for a Rust string literal with `cleanup` loses nothing:
/// turning each backslash escape back gives the text again.
pub proof fn law_cleanup_round_trip(s: Seq<char>)
    ensures
        unescaped(spec_cleanup(s)) == s,
{
    reveal_strlit("\\");
    reveal_strlit("\\\\");
    reveal_strlit("\"");
    reveal_strlit("\\\"");
    assert("\\"@ =~= seq!['\\']);
    assert("\\\\"@ =~= seq!['\\', '\\']);
    assert("\""@ =~= seq!['"']);
    assert("\\\""@ =~= seq!['\\', '"']);
    lemma_replace_one_char(s, '\\', seq!['\\', '\\']);
    lemma_replace_one_char(char_replaced(s, '\\', seq!['\\', '\\']), '"', seq!['\\', '"']);
    lemma_cleanup_escapes(s);
    lemma_unescape_escaped(s);
}

} // verus!

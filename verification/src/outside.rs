//! Calls into other crates, and into parts of the standard library, whose
//! results are taken as they come.
//!
//! What a regular expression finds in a text, and what a JSON text means, are
//! given names here: functions of the arguments alone. The rest of the library
//! states what it does over those names.
use vstd::prelude::*;
use vstd::utf8::{decode_utf8, valid_utf8};

use crate::json::Json;
use crate::text::{
    all_ascii, ascii_lower, lemma_last_index_of, occurs_at, opt_text, split_last,
};

verus! {

/// What group `group` of the leftmost match of `pattern` in `text` covers;
/// nothing where the pattern is no regular expression, where it has no match or
/// where the group takes no part in it. Group 0 is the whole match.
pub uninterp spec fn regex_group(pattern: Seq<char>, text: Seq<char>, group: usize) -> Option<
    Seq<char>,
>;

/// `text` with `replacement` in place of each match of `pattern`; the text as it
/// is where the pattern is no regular expression.
pub uninterp spec fn regex_replaced(
    pattern: Seq<char>,
    text: Seq<char>,
    replacement: Seq<char>,
) -> Seq<char>;

/// Whether `pattern` is a regular expression that has a match in `text`.
pub uninterp spec fn regex_matches(pattern: Seq<char>, text: Seq<char>) -> bool;

/// The JSON value that the bytes write down, if they write down one.
pub uninterp spec fn json_value(bytes: Seq<u8>) -> Option<Json>;

/// The characters that the bytes stand for in UTF-8, with U+FFFD for what is no
/// UTF-8.
pub uninterp spec fn utf8_lossy(bytes: Seq<u8>) -> Seq<char>;

/// The text in Unicode lower case.
pub uninterp spec fn lower_case(text: Seq<char>) -> Seq<char>;

/// The characters that have a meaning of their own in a regular expression.
pub open spec fn is_regex_meta(c: char) -> bool {
    ||| c == '\\'
    ||| c == '.'
    ||| c == '+'
    ||| c == '*'
    ||| c == '?'
    ||| c == '('
    ||| c == ')'
    ||| c == '|'
    ||| c == '['
    ||| c == ']'
    ||| c == '{'
    ||| c == '}'
    ||| c == '^'
    ||| c == '$'
    ||| c == '#'
    ||| c == '&'
    ||| c == '-'
    ||| c == '~'
}

/// A text with a backslash in front of each character that has a meaning of its
/// own in a regular expression.
pub open spec fn regex_escaped(text: Seq<char>) -> Seq<char>
    decreases text.len(),
{
    if text.len() == 0 {
        Seq::empty()
    } else if is_regex_meta(text.last()) {
        regex_escaped(text.drop_last()).push('\\').push(text.last())
    } else {
        regex_escaped(text.drop_last()).push(text.last())
    }
}

/// `regex::Regex::captures`, on the expression that `regex::Regex::new` makes of
/// the pattern: what one group of the leftmost match covers. A pattern that is
/// no regular expression, a text without a match and a group without a part in
/// the match all give nothing.
#[verifier::external_body]
pub(crate) fn find_group(pattern: &str, text: &str, group: usize) -> (r: Option<String>)
    ensures
        opt_text(r) == regex_group(pattern@, text@, group),
{
    let captures = regex::Regex::new(pattern).ok()?.captures(text)?;
    captures.get(group).map(|found| found.as_str().to_owned())
}

/// `regex::Regex::replace_all`, on the expression that `regex::Regex::new` makes
/// of the pattern: the text with the replacement in place of each match. A text
/// without a match stays as it is, and so does any text where the pattern is no
/// regular expression.
#[verifier::external_body]
pub(crate) fn replace_matches(pattern: &str, text: &str, replacement: &str) -> (r: String)
    ensures
        r@ == regex_replaced(pattern@, text@, replacement@),
        !regex_matches(pattern@, text@) ==> r@ == text@,
{
    match regex::Regex::new(pattern) {
        Ok(regex) => regex.replace_all(text, replacement).into_owned(),
        Err(_) => text.to_owned(),
    }
}

/// `regex::Regex::is_match`, on the expression that `regex::Regex::new` makes of
/// the pattern: whether it has a match in the text. A pattern that is no regular
/// expression has none.
#[verifier::external_body]
pub(crate) fn has_match(pattern: &str, text: &str) -> (r: bool)
    ensures
        r == regex_matches(pattern@, text@),
{
    regex::Regex::new(pattern).is_ok_and(|regex| regex.is_match(text))
}

/// `regex::escape`: the text with a backslash in front of each character that
/// has a meaning of its own in a regular expression.
#[verifier::external_body]
pub(crate) fn escape_pattern(text: &str) -> (r: String)
    ensures
        r@ == regex_escaped(text@),
{
    regex::escape(text)
}

/// `serde_json::from_slice`, read as a `serde_json::Value`: the value that the
/// bytes write down. Nothing where they are no JSON text.
#[verifier::external_body]
pub(crate) fn parse_json(bytes: &[u8]) -> (r: Option<Json>)
    ensures
        r == json_value(bytes@),
{
    serde_json::from_slice::<serde_json::Value>(bytes).ok().map(json_of)
}

#[verifier::external_type_specification]
#[verifier::external_body]
pub struct ExValue(serde_json::Value);

/// A `serde_json::Value` as the library holds it: each kind of value as the kind
/// of the same meaning, arrays item by item and objects member by member in the
/// order in which `serde_json::Map` walks them.
#[verifier::external_body]
fn json_of(value: serde_json::Value) -> Json {
    match value {
        serde_json::Value::Null => Json::Null,
        serde_json::Value::Bool(truth) => Json::Bool(truth),
        serde_json::Value::Number(_) => Json::Number,
        serde_json::Value::String(text) => Json::Text(text),
        serde_json::Value::Array(items) => Json::Array(items.into_iter().map(json_of).collect()),
        serde_json::Value::Object(members) => Json::Object(
            members.into_iter().map(|(name, value)| (name, json_of(value))).collect(),
        ),
    }
}

/// `String::from_utf8_lossy`: the characters of the bytes. Bytes that are UTF-8
/// give exactly the characters that they encode.
#[verifier::external_body]
pub(crate) fn decode_lossy(bytes: &[u8]) -> (r: String)
    ensures
        r@ == utf8_lossy(bytes@),
        valid_utf8(bytes@) ==> r@ == decode_utf8(bytes@),
{
    String::from_utf8_lossy(bytes).into_owned()
}

/// `str::to_lowercase`: the text in lower case. A text of ASCII characters only
/// changes in its letters `A` to `Z`.
#[verifier::external_body]
pub(crate) fn to_lower(text: &str) -> (r: String)
    ensures
        r@ == lower_case(text@),
        all_ascii(text@) ==> r@ == ascii_lower(text@),
{
    text.to_lowercase()
}

/// What some platform takes for the end of a component.
pub open spec fn is_separator(c: char) -> bool {
    c == '/' || c == '\\'
}

/// A path whose last component every platform finds behind the same `/`: it does
/// not start with two separators, and that component holds neither a backslash nor
/// a colon.
pub open spec fn is_portable_path(path: Seq<char>) -> bool {
    let component = last_component(path);
    &&& !(path.len() >= 2 && is_separator(path[0]) && is_separator(path[1]))
    &&& !component.contains('\\')
    &&& !component.contains(':')
}

/// The last component of a path: the text behind its last slash, where empty
/// components and `.` behind a slash do not count.
pub open spec fn last_component(path: Seq<char>) -> Seq<char>
    decreases path.len(),
{
    match split_last(path, '/') {
        Some((front, name)) => {
            proof {
                lemma_last_index_of(path, '/');
            }
            if name.len() == 0 || name == "."@ {
                last_component(front)
            } else {
                name
            }
        },
        None => path,
    }
}

/// `name` stands at the end of `path` as a component: at its start or behind a
/// separator or a colon, and with nothing behind it but separators and `.`
/// components.
pub open spec fn ends_path(path: Seq<char>, name: Seq<char>) -> bool {
    exists|at: int| #[trigger]
        occurs_at(path, name, at) && name.len() > 0 && (at == 0 || is_separator(path[at - 1])
            || path[at - 1] == ':') && forall|k: int|
            at + name.len() <= k < path.len() ==> is_separator(#[trigger] path[k]) || (path[k]
                == '.' && is_separator(path[k - 1]))
}

/// `name` is what a platform may take for the file name of `path`. It stands at the
/// end of the path. On the paths whose last component all platforms read alike it is
/// that component, and there is none where that is empty or `..`; a lone `.` may
/// count for a name or not.
pub open spec fn is_file_name(path: Seq<char>, name: Option<Seq<char>>) -> bool {
    let component = last_component(path);
    &&& name matches Some(n) ==> ends_path(path, n)
    &&& is_portable_path(path) ==> if component.len() == 0 || component == ".."@ {
        name is None
    } else if component == "."@ {
        name is None || name == Some(component)
    } else {
        name == Some(component)
    }
}

/// `std::path::Path::file_name`: the last component of a path, if there is one; a
/// path that ends in `..` has none. Repeated and trailing separators and each `.` but
/// a leading one are passed over. How a path falls into components is the
/// platform's: a backslash separates on some and is part of a name on others, and so
/// a colon may end a prefix. Of every path this says that a name stands at its end;
/// which name it is, it says for the paths on which platforms agree. Whether a leading
/// `.` that nothing follows is such a component is left open.
#[verifier::external_body]
pub(crate) fn file_name(path: &str) -> (r: Option<String>)
    ensures
        is_file_name(path@, opt_text(r)),
{
    std::path::Path::new(path).file_name().and_then(|name| name.to_str()).map(|name| name.to_owned())
}

/// A text is escaped character by character: one with a meaning of its own gets a
/// backslash in front of it, and any other stands for itself.
pub proof fn law_patterns_are_escaped_by_character(first: Seq<char>, second: Seq<char>, c: char)
    ensures
        regex_escaped(first + second) == regex_escaped(first) + regex_escaped(second),
        regex_escaped(seq![c]) == if r"\.+*?()|[]{}^$#&-~"@.contains(c) {
            seq!['\\', c]
        } else {
            seq![c]
        },
    decreases second.len(),
{
    reveal_strlit(r"\.+*?()|[]{}^$#&-~");
    let marks = r"\.+*?()|[]{}^$#&-~"@;
    assert(marks.contains(c) == is_regex_meta(c)) by {
        if is_regex_meta(c) {
            assert(marks[0] == c || marks[1] == c || marks[2] == c || marks[3] == c || marks[4] == c
                || marks[5] == c || marks[6] == c || marks[7] == c || marks[8] == c || marks[9] == c
                || marks[10] == c || marks[11] == c || marks[12] == c || marks[13] == c || marks[14]
                == c || marks[15] == c || marks[16] == c || marks[17] == c);
        }
    }
    reveal_with_fuel(regex_escaped, 2);
    assert(seq![c].drop_last() =~= Seq::<char>::empty());
    assert(regex_escaped(seq![c]) =~= if is_regex_meta(c) {
        seq!['\\', c]
    } else {
        seq![c]
    });
    if second.len() == 0 {
        assert(first + second =~= first);
        assert(regex_escaped(first) + regex_escaped(second) =~= regex_escaped(first));
    } else {
        assert((first + second).drop_last() =~= first + second.drop_last());
        law_patterns_are_escaped_by_character(first, second.drop_last(), c);
        assert(regex_escaped(first + second) =~= regex_escaped(first) + regex_escaped(second));
    }
}

} // verus!

//! What is taken out of every text that the tool generates: encoded
//! authorization messages, credentials and terminal control characters.
use vstd::prelude::*;

use crate::outside::{regex_matches, regex_replaced, replace_matches};
use crate::text::{
    chars_of, find_from, find_part, is_control_char, is_white_space, lemma_find_from, occurs_at,
    occurs_in, opt_text, part_of, skip_space, skip_word, texts,
};

verus! {

/// The two spellings with which AWS announces an encoded authorization message.
pub const MARKER: &'static str = "Encoded authorization failure message:";

pub const LOWER_MARKER: &'static str = "encoded authorization failure message:";

/// What stands in place of an encoded authorization message.
pub const REDACTED: &'static str = "[REDACTED]";

/// An AWS access key identifier.
pub const ACCESS_KEY_PATTERN: &'static str = r"\b(?:AKIA|ASIA)[A-Z0-9]{16}\b";

pub const ACCESS_KEY_REPLACEMENT: &'static str = "[REDACTED_ACCESS_KEY]";

/// A bearer token.
pub const BEARER_PATTERN: &'static str = r"(?i)\bBearer\s+[A-Za-z0-9._~+/=-]+";

pub const BEARER_REPLACEMENT: &'static str = "Bearer [REDACTED]";

/// A credential under a name that tells it for one.
pub const CREDENTIAL_PATTERN: &'static str =
    r#"(?i)\b(?:aws_secret_access_key|secretaccesskey|sessiontoken|securitytoken|x-amz-security-token|authorization)\s*["']?\s*[:=]\s*["']?[^\s"',}]+"#;

pub const CREDENTIAL_REPLACEMENT: &'static str = "[REDACTED_CREDENTIAL]";

/// `text` with the word behind each marker replaced. The search goes on behind
/// the replaced word.
pub open spec fn without_payloads(text: Seq<char>, marker: Seq<char>) -> Seq<char>
    decreases text.len(),
{
    match find_from(text, marker, 0) {
        Some(at) => {
            let start = skip_space(text, at + marker.len());
            let end = skip_word(text, start);
            if end <= 0 || end > text.len() || start < 0 {
                text
            } else {
                text.take(start) + REDACTED@ + without_payloads(text.skip(end), marker)
            }
        },
        None => text,
    }
}

/// `text` without encoded authorization messages.
pub open spec fn without_encoded_messages(text: Seq<char>) -> Seq<char> {
    without_payloads(without_payloads(text, MARKER@), LOWER_MARKER@)
}

/// `text` after each credential pattern has been replaced in it, one by one.
pub open spec fn without_credentials(text: Seq<char>) -> Seq<char> {
    let keys = regex_replaced(ACCESS_KEY_PATTERN@, text, ACCESS_KEY_REPLACEMENT@);
    let tokens = regex_replaced(BEARER_PATTERN@, keys, BEARER_REPLACEMENT@);
    regex_replaced(CREDENTIAL_PATTERN@, tokens, CREDENTIAL_REPLACEMENT@)
}

/// A character that a terminal may be shown.
pub open spec fn is_printable(c: char) -> bool {
    c == '\n' || c == '\t' || !is_control_char(c)
}

/// `text` with U+FFFD in place of each control character but line feeds and tabs.
pub open spec fn without_controls(text: Seq<char>) -> Seq<char> {
    text.map_values(|c: char| if is_printable(c) { c } else { '\u{fffd}' })
}

/// What the tool shows of a text.
pub open spec fn sanitized(text: Seq<char>) -> Seq<char> {
    without_controls(without_credentials(without_encoded_messages(text)))
}

/// What the tool shows of an optional text.
pub open spec fn sanitized_option(text: Option<Seq<char>>) -> Option<Seq<char>> {
    match text {
        Some(t) => Some(sanitized(t)),
        None => None,
    }
}

/// What the tool shows of each text of a list.
pub open spec fn sanitized_list(list: Seq<Seq<char>>) -> Seq<Seq<char>> {
    list.map_values(|t: Seq<char>| sanitized(t))
}

/// Every marker in the text is followed by white space, if any, and then by the
/// words that stand in place of the encoded message.
pub open spec fn payloads_redacted(text: Seq<char>, marker: Seq<char>) -> bool {
    forall|at: int| #[trigger]
        occurs_at(text, marker, at) ==> occurs_at(
            text,
            REDACTED@,
            skip_space(text, at + marker.len()),
        )
}

/// Between a marker that ends at `behind` and the words at `at` that stand in place
/// of the encoded message there is white space alone, some of it perhaps masked.
pub open spec fn hidden_at(text: Seq<char>, behind: int, at: int) -> bool {
    &&& behind <= at
    &&& occurs_at(text, REDACTED@, at)
    &&& forall|k: int|
        behind <= k < at ==> is_white_space(#[trigger] text[k]) || text[k] == '\u{fffd}'
}

/// Every marker in the text is followed by the words that stand in place of the
/// encoded message, with nothing before them but white space, some of it perhaps
/// masked.
pub open spec fn payloads_hidden(text: Seq<char>, marker: Seq<char>) -> bool {
    forall|at: int| #[trigger]
        occurs_at(text, marker, at) ==> exists|words: int| #[trigger]
            hidden_at(text, at + marker.len(), words)
}

/// No character of the text can steer a terminal.
pub open spec fn no_controls(text: Seq<char>) -> bool {
    forall|i: int| 0 <= i < text.len() ==> is_printable(#[trigger] text[i])
}

proof fn lemma_skip_space(text: Seq<char>, from: int)
    requires
        0 <= from <= text.len(),
    ensures
        from <= skip_space(text, from) <= text.len(),
        forall|k: int| from <= k < skip_space(text, from) ==> is_white_space(#[trigger] text[k]),
        skip_space(text, from) < text.len() ==> !is_white_space(text[skip_space(text, from)]),
    decreases text.len() - from,
{
    if from < text.len() && is_white_space(text[from]) {
        lemma_skip_space(text, from + 1);
    }
}

proof fn lemma_skip_word(text: Seq<char>, from: int)
    requires
        0 <= from <= text.len(),
    ensures
        from <= skip_word(text, from) <= text.len(),
    decreases text.len() - from,
{
    if from < text.len() && !is_white_space(text[from]) {
        lemma_skip_word(text, from + 1);
    }
}

/// `text` without the word behind each marker.
fn redact_payloads(text: &str, marker: &str) -> (r: String)
    requires
        marker@.len() > 0,
    ensures
        r@ == without_payloads(text@, marker@),
{
    let sign = chars_of(marker);
    let mut rest = chars_of(text);
    let mut left: String = text.to_owned();
    let mut out = String::new();
    loop
        invariant
            sign@ == marker@,
            marker@.len() > 0,
            rest@ == left@,
            without_payloads(text@, marker@) =~= out@ + without_payloads(left@, marker@),
        decreases rest.len(),
    {
        match find_part(&rest, &sign, 0) {
            None => {
                out.append(left.as_str());
                return out;
            },
            Some(at) => {
                let mut start: usize = at + sign.len();
                proof {
                    lemma_skip_space(rest@, start as int);
                }
                let ghost value_start = skip_space(rest@, start as int);
                while start < rest.len() && rest[start].is_whitespace()
                    invariant
                        start <= rest@.len(),
                        skip_space(rest@, start as int) == value_start,
                    decreases rest.len() - start,
                {
                    start += 1;
                }
                let mut end: usize = start;
                proof {
                    lemma_skip_word(rest@, end as int);
                }
                let ghost value_end = skip_word(rest@, end as int);
                while end < rest.len() && !rest[end].is_whitespace()
                    invariant
                        end <= rest@.len(),
                        skip_word(rest@, end as int) == value_end,
                    decreases rest.len() - end,
                {
                    end += 1;
                }
                assert(left@.subrange(0, start as int) =~= left@.take(start as int));
                assert(left@.subrange(end as int, left@.len() as int) =~= left@.skip(end as int));
                out.append(part_of(left.as_str(), 0, start).as_str());
                out.append(REDACTED);
                let behind = part_of(left.as_str(), end, rest.len());
                rest = chars_of(behind.as_str());
                left = behind;
            },
        }
    }
}

/// `text` without encoded authorization messages.
pub fn redact_encoded_messages(text: &str) -> (r: String)
    ensures
        r@ == without_encoded_messages(text@),
{
    proof {
        reveal_strlit("Encoded authorization failure message:");
        reveal_strlit("encoded authorization failure message:");
    }
    let first = redact_payloads(text, MARKER);
    redact_payloads(first.as_str(), LOWER_MARKER)
}

/// `text` with U+FFFD in place of each control character but line feeds and tabs.
pub fn mask_controls(text: &str) -> (r: String)
    ensures
        r@ == without_controls(text@),
{
    let mut out = String::new();
    for c in it: text.chars()
        invariant
            out@ =~= without_controls(text@).take(it.index()),
            it.seq() == text@,
    {
        if c == '\n' || c == '\t' || !c.is_control() {
            out.push(c);
        } else {
            out.push('\u{fffd}');
        }
    }
    out
}

/// Nothing in the text has the shape of a credential.
pub open spec fn has_no_credentials(text: Seq<char>) -> bool {
    &&& !regex_matches(ACCESS_KEY_PATTERN@, text)
    &&& !regex_matches(BEARER_PATTERN@, text)
    &&& !regex_matches(CREDENTIAL_PATTERN@, text)
}

/// Nothing in the text has to be redacted: it announces no encoded message, holds
/// nothing in the shape of a credential and cannot steer a terminal.
pub open spec fn is_harmless(text: Seq<char>) -> bool {
    &&& !occurs_in(text, MARKER@)
    &&& !occurs_in(text, LOWER_MARKER@)
    &&& has_no_credentials(text)
    &&& no_controls(text)
}

/// What the tool shows of a text. A text that holds nothing to redact is shown as
/// it is. Where nothing is left in the shape of a credential once the encoded
/// messages are gone, no other character changes but the control characters, and
/// every announcement of an encoded message is shown without it.
pub fn sanitize_generated_text(input: &str) -> (r: String)
    ensures
        r@ == sanitized(input@),
        is_harmless(input@) ==> r@ == input@,
        has_no_credentials(without_encoded_messages(input@)) ==> {
            &&& r@ == without_controls(without_encoded_messages(input@))
            &&& payloads_hidden(r@, MARKER@)
            &&& payloads_hidden(r@, LOWER_MARKER@)
        },
{
    let plain = redact_encoded_messages(input);
    proof {
        law_encoded_messages_are_redacted(input@);
        lemma_find_from(input@, MARKER@, 0);
        lemma_find_from(input@, LOWER_MARKER@, 0);
        if no_controls(input@) {
            assert(without_controls(input@) =~= input@);
        }
    }
    let keys = replace_matches(ACCESS_KEY_PATTERN, plain.as_str(), ACCESS_KEY_REPLACEMENT);
    let tokens = replace_matches(BEARER_PATTERN, keys.as_str(), BEARER_REPLACEMENT);
    let safe = replace_matches(CREDENTIAL_PATTERN, tokens.as_str(), CREDENTIAL_REPLACEMENT);
    mask_controls(safe.as_str())
}

/// What the tool shows of an optional text.
pub fn sanitize_option(input: &Option<String>) -> (r: Option<String>)
    ensures
        opt_text(r) == sanitized_option(opt_text(*input)),
{
    match input {
        Some(text) => Some(sanitize_generated_text(text.as_str())),
        None => None,
    }
}

/// What the tool shows of each text of a list.
pub fn sanitize_list(input: &Vec<String>) -> (r: Vec<String>)
    ensures
        texts(r@) == sanitized_list(texts(input@)),
{
    let mut out: Vec<String> = Vec::new();
    let mut i: usize = 0;
    while i < input.len()
        invariant
            i <= input@.len(),
            texts(out@) =~= sanitized_list(texts(input@)).take(i as int),
        decreases input.len() - i,
    {
        broadcast use crate::text::lemma_texts_push;

        out.push(sanitize_generated_text(input[i].as_str()));
        i += 1;
    }
    out
}

/// What makes a text a marker: it is longer than the words that stand in place
/// of a payload, holds no bracket, starts with no white space, and holds the
/// character that it ends with nowhere else.
spec fn is_marker(marker: Seq<char>) -> bool {
    &&& marker.len() >= REDACTED@.len()
    &&& !is_white_space(marker[0])
    &&& marker.last() == ':'
    &&& forall|k: int| 0 <= k < marker.len() - 1 ==> #[trigger] marker[k] != ':'
    &&& forall|k: int| 0 <= k < marker.len() ==> #[trigger] marker[k] != '[' && marker[k] != ']'
}

proof fn lemma_markers()
    ensures
        is_marker(MARKER@),
        is_marker(LOWER_MARKER@),
{
    reveal_strlit("Encoded authorization failure message:");
    reveal_strlit("encoded authorization failure message:");
    reveal_strlit("[REDACTED]");
}

proof fn lemma_redacted_chars()
    ensures
        REDACTED@.len() == 10,
        REDACTED@[0] == '[',
        REDACTED@[9] == ']',
        forall|k: int|
            0 <= k < 10 ==> !is_white_space(#[trigger] REDACTED@[k]) && REDACTED@[k] != ':',
{
    reveal_strlit("[REDACTED]");
}

/// White space ends where the first other character stands.
proof fn lemma_space_ends(text: Seq<char>, from: int, end: int)
    requires
        0 <= from <= end <= text.len(),
        forall|k: int| from <= k < end ==> is_white_space(#[trigger] text[k]),
        end < text.len() ==> !is_white_space(text[end]),
    ensures
        skip_space(text, from) == end,
    decreases end - from,
{
    if from < end {
        lemma_space_ends(text, from + 1, end);
    }
}

/// What stands at a position, character by character.
proof fn lemma_occurs_chars(text: Seq<char>, part: Seq<char>, at: int)
    requires
        0 <= at,
        at + part.len() <= text.len(),
    ensures
        occurs_at(text, part, at) <==> forall|k: int|
            0 <= k < part.len() ==> #[trigger] text[at + k] == part[k],
{
    let there = text.subrange(at, at + part.len());
    if occurs_at(text, part, at) {
        assert forall|k: int| 0 <= k < part.len() implies #[trigger] text[at + k] == part[k] by {
            assert(there[k] == text[at + k]);
        }
    }
    if forall|k: int| 0 <= k < part.len() ==> #[trigger] text[at + k] == part[k] {
        assert forall|k: int| 0 <= k < part.len() implies there[k] == part[k] by {
            assert(there[k] == text[at + k]);
        }
        assert(there =~= part);
    }
}

/// Two texts hold the same part where they hold the same characters.
proof fn lemma_occurs_elsewhere(
    text: Seq<char>,
    other: Seq<char>,
    part: Seq<char>,
    at: int,
    there: int,
)
    requires
        occurs_at(text, part, at),
        0 <= there,
        there + part.len() <= other.len(),
        forall|k: int| 0 <= k < part.len() ==> #[trigger] text[at + k] == other[there + k],
    ensures
        occurs_at(other, part, there),
{
    lemma_occurs_chars(text, part, at);
    lemma_occurs_chars(other, part, there);
    assert forall|k: int| 0 <= k < part.len() implies #[trigger] other[there + k] == part[k] by {
        assert(text[at + k] == other[there + k]);
    }
}

/// A text put together of a front, the words in place of a payload and a rest.
proof fn lemma_put_together(front: Seq<char>, rest: Seq<char>, marker: Seq<char>)
    requires
        is_marker(marker),
        payloads_redacted(rest, marker),
        forall|at: int| #[trigger]
            occurs_at(front, marker, at) ==> ({
                let q = skip_space(front, at + marker.len());
                q == front.len() || occurs_at(front, REDACTED@, q)
            }),
    ensures
        payloads_redacted(front + REDACTED@ + rest, marker),
{
    let whole = front + REDACTED@ + rest;
    let n = front.len() as int;
    lemma_redacted_chars();
    assert forall|at: int| #[trigger] occurs_at(whole, marker, at) implies occurs_at(
        whole,
        REDACTED@,
        skip_space(whole, at + marker.len()),
    ) by {
        lemma_occurs_chars(whole, marker, at);
        let behind = at + marker.len();
        if behind <= n {
            lemma_occurs_elsewhere(whole, front, marker, at, at);
            lemma_skip_space(front, behind);
            let q = skip_space(front, behind);
            if q == n {
                assert(whole[n] == REDACTED@[0]);
                lemma_space_ends(whole, behind, n);
                assert(whole.subrange(n, n + 10) =~= REDACTED@);
            } else {
                lemma_space_ends(whole, behind, q);
                lemma_occurs_chars(front, REDACTED@, q);
                lemma_occurs_elsewhere(front, whole, REDACTED@, q, q);
            }
        } else if at <= n {
            assert(whole[at + (n - at)] == marker[n - at]);
            assert(whole[n] == REDACTED@[0]);
        } else if at < n + 10 {
            assert(whole[at + (n + 9 - at)] == marker[n + 9 - at]);
            assert(whole[n + 9] == REDACTED@[9]);
        } else {
            let there = at - n - 10;
            lemma_occurs_elsewhere(whole, rest, marker, at, there);
            lemma_skip_space(rest, there + marker.len());
            let q = skip_space(rest, there + marker.len());
            lemma_space_ends(whole, behind, q + n + 10);
            lemma_occurs_elsewhere(rest, whole, REDACTED@, q, q + n + 10);
        }
    }
}

/// After a marker has been searched for, its payloads are replaced.
proof fn lemma_payloads_redacted(text: Seq<char>, marker: Seq<char>)
    requires
        is_marker(marker),
    ensures
        payloads_redacted(without_payloads(text, marker), marker),
    decreases text.len(),
{
    lemma_redacted_chars();
    lemma_find_from(text, marker, 0);
    match find_from(text, marker, 0) {
        Some(first) => {
            let behind = first + marker.len();
            lemma_skip_space(text, behind);
            let start = skip_space(text, behind);
            lemma_skip_word(text, start);
            let end = skip_word(text, start);
            let front = text.take(start);
            let rest = without_payloads(text.skip(end), marker);
            lemma_payloads_redacted(text.skip(end), marker);
            lemma_occurs_chars(text, marker, first);
            assert forall|at: int| #[trigger] occurs_at(front, marker, at) implies skip_space(
                front,
                at + marker.len(),
            ) == front.len() by {
                lemma_occurs_chars(front, marker, at);
                lemma_occurs_elsewhere(front, text, marker, at, at);
                if at != first {
                    assert(at > first);
                    if at < behind {
                        assert(text[first + (marker.len() - 1)] == ':');
                        assert(front[at + (behind - 1 - at)] == marker[behind - 1 - at]);
                    } else {
                        assert(front[at + 0] == marker[0]);
                        assert(is_white_space(text[at]));
                    }
                }
                lemma_space_ends(front, behind, start);
            }
            lemma_put_together(front, rest, marker);
        },
        None => {},
    }
}

/// A search for another marker leaves the payloads of the first one replaced.
proof fn lemma_stay_redacted(text: Seq<char>, marker: Seq<char>, other: Seq<char>)
    requires
        is_marker(marker),
        is_marker(other),
        payloads_redacted(text, marker),
    ensures
        payloads_redacted(without_payloads(text, other), marker),
    decreases text.len(),
{
    lemma_redacted_chars();
    lemma_find_from(text, other, 0);
    match find_from(text, other, 0) {
        Some(first) => {
            let behind = first + other.len();
            lemma_skip_space(text, behind);
            let start = skip_space(text, behind);
            lemma_skip_word(text, start);
            let end = skip_word(text, start);
            let front = text.take(start);
            let tail = text.skip(end);
            assert forall|at: int| #[trigger] occurs_at(tail, marker, at) implies occurs_at(
                tail,
                REDACTED@,
                skip_space(tail, at + marker.len()),
            ) by {
                lemma_occurs_elsewhere(tail, text, marker, at, at + end);
                lemma_skip_space(text, at + end + marker.len());
                let q = skip_space(text, at + end + marker.len());
                lemma_space_ends(tail, at + marker.len(), q - end);
                lemma_occurs_elsewhere(text, tail, REDACTED@, q, q - end);
            }
            lemma_stay_redacted(tail, marker, other);
            lemma_occurs_chars(text, other, first);
            assert forall|at: int| #[trigger] occurs_at(front, marker, at) implies ({
                let q = skip_space(front, at + marker.len());
                q == front.len() || occurs_at(front, REDACTED@, q)
            }) by {
                lemma_occurs_elsewhere(front, text, marker, at, at);
                let from = at + marker.len();
                lemma_skip_space(text, from);
                let q = skip_space(text, from);
                lemma_occurs_chars(text, REDACTED@, q);
                if q + 10 <= start {
                    lemma_space_ends(front, from, q);
                    lemma_occurs_elsewhere(text, front, REDACTED@, q, q);
                } else if q >= start {
                    lemma_space_ends(front, from, start);
                } else {
                    assert(text[q + (start - 1 - q)] == REDACTED@[start - 1 - q]);
                    if start > behind {
                        assert(is_white_space(text[start - 1]));
                    } else {
                        assert(text[first + (other.len() - 1)] == ':');
                    }
                }
            }
            lemma_put_together(front, without_payloads(tail, other), marker);
        },
        None => {},
    }
}

/// Masking control characters shows no encoded message that was replaced.
proof fn lemma_masked_stay_hidden(text: Seq<char>, marker: Seq<char>)
    requires
        payloads_redacted(text, marker),
        no_controls(marker),
        !marker.contains('\u{fffd}'),
    ensures
        payloads_hidden(without_controls(text), marker),
{
    let shown = without_controls(text);
    lemma_redacted_chars();
    assert forall|at: int| #[trigger] occurs_at(shown, marker, at) implies exists|words: int|
        #[trigger] hidden_at(shown, at + marker.len(), words) by {
        lemma_occurs_chars(shown, marker, at);
        assert forall|k: int| 0 <= k < marker.len() implies #[trigger] shown[at + k] == text[at
            + k] by {
            assert(shown[at + k] == marker[k]);
            assert(marker.contains(marker[k]));
        }
        lemma_occurs_elsewhere(shown, text, marker, at, at);
        let behind = at + marker.len();
        lemma_skip_space(text, behind);
        let words = skip_space(text, behind);
        lemma_occurs_chars(text, REDACTED@, words);
        assert forall|k: int| 0 <= k < REDACTED@.len() implies #[trigger] text[words + k]
            == shown[words + k] by {
            reveal_strlit("[REDACTED]");
            assert(text[words + k] == REDACTED@[k]);
        }
        lemma_occurs_elsewhere(text, shown, REDACTED@, words, words);
        assert(hidden_at(shown, behind, words));
    }
}

/// Encoded authorization messages are redacted: once a text has gone through,
/// every announcement of such a message is followed by the words that stand in
/// its place, in whichever of the two spellings it is made. So it is too once the
/// control characters are masked, where a control character for white space in front
/// of those words may be among the masked ones.
pub proof fn law_encoded_messages_are_redacted(text: Seq<char>)
    ensures
        payloads_redacted(without_encoded_messages(text), MARKER@),
        payloads_redacted(without_encoded_messages(text), LOWER_MARKER@),
        payloads_hidden(without_controls(without_encoded_messages(text)), MARKER@),
        payloads_hidden(without_controls(without_encoded_messages(text)), LOWER_MARKER@),
{
    lemma_markers();
    let first = without_payloads(text, MARKER@);
    lemma_payloads_redacted(text, MARKER@);
    lemma_stay_redacted(first, MARKER@, LOWER_MARKER@);
    lemma_payloads_redacted(first, LOWER_MARKER@);
    reveal_strlit("Encoded authorization failure message:");
    reveal_strlit("encoded authorization failure message:");
    lemma_masked_stay_hidden(without_encoded_messages(text), MARKER@);
    lemma_masked_stay_hidden(without_encoded_messages(text), LOWER_MARKER@);
}

/// Terminal control characters are redacted: nothing that the tool shows of a
/// text can steer a terminal.
pub proof fn law_generated_text_has_no_controls(text: Seq<char>)
    ensures
        no_controls(sanitized(text)),
{
}

/// The character at a position can be shown, or there is none.
pub open spec fn shown_at(text: Seq<char>, at: int) -> bool {
    at >= text.len() || is_printable(text[at])
}

/// The eight characters from a position on can be shown.
pub open spec fn eight_shown(text: Seq<char>, from: int) -> bool {
    &&& shown_at(text, from)
    &&& shown_at(text, from + 1)
    &&& shown_at(text, from + 2)
    &&& shown_at(text, from + 3)
    &&& shown_at(text, from + 4)
    &&& shown_at(text, from + 5)
    &&& shown_at(text, from + 6)
    &&& shown_at(text, from + 7)
}

/// The sixteen characters from a position on can be shown.
pub open spec fn sixteen_shown(text: Seq<char>, from: int) -> bool {
    eight_shown(text, from) && eight_shown(text, from + 8)
}

/// A short phrase whose characters can all be shown cannot steer a terminal.
pub proof fn lemma_short_phrase(text: Seq<char>)
    requires
        text.len() <= 32,
        sixteen_shown(text, 0),
        sixteen_shown(text, 16),
    ensures
        no_controls(text),
{
}

/// A phrase whose characters can all be shown cannot steer a terminal.
pub proof fn lemma_phrase(text: Seq<char>)
    requires
        text.len() <= 144,
        sixteen_shown(text, 0),
        sixteen_shown(text, 16),
        sixteen_shown(text, 32),
        sixteen_shown(text, 48),
        sixteen_shown(text, 64),
        sixteen_shown(text, 80),
        sixteen_shown(text, 96),
        sixteen_shown(text, 112),
        sixteen_shown(text, 128),
    ensures
        no_controls(text),
{
    assert forall|i: int| 0 <= i < text.len() implies is_printable(#[trigger] text[i]) by {
        assert(shown_at(text, i)) by {
            let from = i - i % 8;
            assert(eight_shown(text, from));
        }
    }
}

/// Two texts that cannot steer a terminal cannot do so together.
pub broadcast proof fn lemma_no_controls_in_both(first: Seq<char>, second: Seq<char>)
    requires
        no_controls(first),
        no_controls(second),
    ensures
        #[trigger] no_controls(first + second),
{
    assert forall|i: int| 0 <= i < (first + second).len() implies is_printable(
        #[trigger] (first + second)[i],
    ) by {
        if i < first.len() {
            assert(is_printable(first[i]));
        } else {
            assert(is_printable(second[i - first.len()]));
        }
    }
}

/// What is searched for and what stands in its place, to the letter.
pub proof fn law_what_is_redacted()
    ensures
        MARKER@ == "Encoded authorization failure message:"@,
        LOWER_MARKER@ == "encoded authorization failure message:"@,
        REDACTED@ == "[REDACTED]"@,
        ACCESS_KEY_PATTERN@ == r"\b(?:AKIA|ASIA)[A-Z0-9]{16}\b"@,
        ACCESS_KEY_REPLACEMENT@ == "[REDACTED_ACCESS_KEY]"@,
        BEARER_PATTERN@ == r"(?i)\bBearer\s+[A-Za-z0-9._~+/=-]+"@,
        BEARER_REPLACEMENT@ == "Bearer [REDACTED]"@,
        CREDENTIAL_PATTERN@
            == r#"(?i)\b(?:aws_secret_access_key|secretaccesskey|sessiontoken|securitytoken|x-amz-security-token|authorization)\s*["']?\s*[:=]\s*["']?[^\s"',}]+"#@,
        CREDENTIAL_REPLACEMENT@ == "[REDACTED_CREDENTIAL]"@,
{
}

/// Of a text only control characters are masked, but for line feeds and tabs, and each
/// by one U+FFFD; every other character is shown as it is.
pub proof fn law_control_characters_are_masked(text: Seq<char>, i: int)
    requires
        0 <= i < text.len(),
    ensures
        ({
            let c = text[i];
            let control = c <= '\u{1f}' || '\u{7f}' <= c <= '\u{9f}';
            &&& without_controls(text).len() == text.len()
            &&& control && c != '\n' && c != '\t' ==> without_controls(text)[i] == '\u{fffd}'
            &&& !control || c == '\n' || c == '\t' ==> without_controls(text)[i] == c
        }),
{
}

/// What is shown of a text has gone through every step: encoded messages first, then
/// access keys, bearer tokens and named credentials, and control characters last.
pub proof fn law_shown_texts_went_through_every_step(text: Seq<char>)
    ensures
        ({
            let plain = without_payloads(
                without_payloads(text, "Encoded authorization failure message:"@),
                "encoded authorization failure message:"@,
            );
            let keys = regex_replaced(ACCESS_KEY_PATTERN@, plain, "[REDACTED_ACCESS_KEY]"@);
            let tokens = regex_replaced(BEARER_PATTERN@, keys, "Bearer [REDACTED]"@);
            let rest = regex_replaced(CREDENTIAL_PATTERN@, tokens, "[REDACTED_CREDENTIAL]"@);
            sanitized(text) == without_controls(rest)
        }),
{
}

/// Only the word behind a marker is replaced: what stands in front of the first marker,
/// the marker, and the white space behind it stay, and the search goes on behind the
/// word. A text without a marker stays as it is.
pub proof fn law_payloads_alone_are_replaced(
    front: Seq<char>,
    marker: Seq<char>,
    space: Seq<char>,
    word: Seq<char>,
    rest: Seq<char>,
)
    requires
        marker.len() > 0,
        forall|k: int| 0 <= k < space.len() ==> is_white_space(#[trigger] space[k]),
        forall|k: int| 0 <= k < word.len() ==> !is_white_space(#[trigger] word[k]),
        rest.len() > 0 ==> is_white_space(rest[0]),
        word.len() == 0 ==> rest.len() == 0,
        forall|k: int|
            0 <= k < front.len() ==> !#[trigger] occurs_at(
                front + marker + space + word + rest,
                marker,
                k,
            ),
    ensures
        without_payloads(front + marker + space + word + rest, marker) == front + marker + space
            + "[REDACTED]"@ + without_payloads(rest, marker),
        !occurs_in(front, marker) ==> without_payloads(front, marker) == front,
{
    let text = front + marker + space + word + rest;
    let at = front.len() as int;
    lemma_find_from(text, marker, 0);
    lemma_find_from(front, marker, 0);
    assert(text.subrange(at, at + marker.len()) =~= marker);
    assert(occurs_at(text, marker, at));
    assert(find_from(text, marker, 0) == Some(at));
    let behind = at + marker.len();
    let start = behind + space.len();
    assert forall|k: int| behind <= k < start implies is_white_space(#[trigger] text[k]) by {
        assert(text[k] == space[k - behind]);
    }
    if start < text.len() {
        assert(text[start] == word[0]);
    }
    lemma_space_ends(text, behind, start);
    let end = start + word.len();
    assert forall|k: int| start <= k < end implies !is_white_space(#[trigger] text[k]) by {
        assert(text[k] == word[k - start]);
    }
    if end < text.len() {
        assert(text[end] == rest[0]);
    }
    lemma_word_ends(text, start, end);
    assert(text.take(start) =~= front + marker + space);
    assert(text.skip(end) =~= rest);
}

/// A word ends where the first white space stands.
proof fn lemma_word_ends(text: Seq<char>, from: int, end: int)
    requires
        0 <= from <= end <= text.len(),
        forall|k: int| from <= k < end ==> !is_white_space(#[trigger] text[k]),
        end < text.len() ==> is_white_space(text[end]),
    ensures
        skip_word(text, from) == end,
    decreases end - from,
{
    if from < end {
        lemma_word_ends(text, from + 1, end);
    }
}

/// Optional texts and lists of texts are shown text by text.
pub proof fn law_texts_are_shown_one_by_one(list: Seq<Seq<char>>, text: Seq<char>, i: int)
    requires
        0 <= i < list.len(),
    ensures
        sanitized_option(Some(text)) == Some(sanitized(text)),
        sanitized_option(None) is None,
        sanitized_list(list).len() == list.len(),
        sanitized_list(list)[i] == sanitized(list[i]),
{
}

} // verus!

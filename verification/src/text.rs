//! Plain text: spec functions over sequences of characters, and the verified
//! operations on strings that the rest of the library is written with.
use vstd::prelude::*;

verus! {

/// `part` stands in `text` at position `at`.
pub open spec fn occurs_at(text: Seq<char>, part: Seq<char>, at: int) -> bool {
    0 <= at <= text.len() - part.len() && text.subrange(at, at + part.len()) == part
}

/// `part` stands somewhere in `text`.
pub open spec fn occurs_in(text: Seq<char>, part: Seq<char>) -> bool {
    exists|at: int| occurs_at(text, part, at)
}

/// The first position from `from` on at which `part` stands in `text`.
pub open spec fn find_from(text: Seq<char>, part: Seq<char>, from: int) -> Option<int>
    decreases text.len() - from + 1,
{
    if from < 0 || from > text.len() - part.len() {
        None
    } else if occurs_at(text, part, from) {
        Some(from)
    } else {
        find_from(text, part, from + 1)
    }
}

/// The first position from `from` on that holds `c`; the length where there is none.
pub open spec fn index_of(text: Seq<char>, c: char, from: int) -> int
    decreases text.len() - from,
{
    if from < 0 || from >= text.len() {
        text.len() as int
    } else if text[from] == c {
        from
    } else {
        index_of(text, c, from + 1)
    }
}

/// The last position that holds `c`; `-1` where there is none.
pub open spec fn last_index_of(text: Seq<char>, c: char) -> int
    decreases text.len(),
{
    if text.len() == 0 {
        -1
    } else if text.last() == c {
        text.len() - 1
    } else {
        last_index_of(text.drop_last(), c)
    }
}

/// The text in front of the first `c`, and the text behind it.
pub open spec fn split_first(text: Seq<char>, c: char) -> Option<(Seq<char>, Seq<char>)> {
    let at = index_of(text, c, 0);
    if at < text.len() {
        Some((text.take(at), text.skip(at + 1)))
    } else {
        None
    }
}

/// The text in front of the last `c`, and the text behind it.
pub open spec fn split_last(text: Seq<char>, c: char) -> Option<(Seq<char>, Seq<char>)> {
    let at = last_index_of(text, c);
    if at >= 0 {
        Some((text.take(at), text.skip(at + 1)))
    } else {
        None
    }
}

/// The text behind the last `c`, or all of it where no `c` stands in it.
pub open spec fn after_last(text: Seq<char>, c: char) -> Seq<char> {
    match split_last(text, c) {
        Some((_, behind)) => behind,
        None => text,
    }
}

/// The pieces of `text` between the first `n - 1` occurrences of `c`; the last
/// piece is all that is left.
pub open spec fn pieces(text: Seq<char>, c: char, n: nat) -> Seq<Seq<char>>
    decreases n,
{
    if n <= 1 {
        seq![text]
    } else {
        match split_first(text, c) {
            Some((piece, rest)) => seq![piece] + pieces(rest, c, (n - 1) as nat),
            None => seq![text],
        }
    }
}

/// `text` starts with `prefix`.
pub open spec fn begins_with(text: Seq<char>, prefix: Seq<char>) -> bool {
    occurs_at(text, prefix, 0)
}

/// What follows `prefix` in a text that starts with it.
pub open spec fn behind_prefix(text: Seq<char>, prefix: Seq<char>) -> Option<Seq<char>> {
    if begins_with(text, prefix) {
        Some(text.skip(prefix.len() as int))
    } else {
        None
    }
}

/// The characters with the Unicode property White_Space.
pub open spec fn is_white_space(c: char) -> bool {
    ||| '\u{9}' <= c <= '\u{d}'
    ||| c == ' '
    ||| c == '\u{85}'
    ||| c == '\u{a0}'
    ||| c == '\u{1680}'
    ||| '\u{2000}' <= c <= '\u{200a}'
    ||| c == '\u{2028}'
    ||| c == '\u{2029}'
    ||| c == '\u{202f}'
    ||| c == '\u{205f}'
    ||| c == '\u{3000}'
}

/// The control characters: the Unicode general category Cc.
pub open spec fn is_control_char(c: char) -> bool {
    c <= '\u{1f}' || '\u{7f}' <= c <= '\u{9f}'
}

/// `text` without the white space that it starts with.
pub open spec fn trimmed_front(text: Seq<char>) -> Seq<char>
    decreases text.len(),
{
    if text.len() > 0 && is_white_space(text[0]) {
        trimmed_front(text.drop_first())
    } else {
        text
    }
}

/// `text` without the white space that it ends with.
pub open spec fn trimmed_back(text: Seq<char>) -> Seq<char>
    decreases text.len(),
{
    if text.len() > 0 && is_white_space(text.last()) {
        trimmed_back(text.drop_last())
    } else {
        text
    }
}

/// `text` without white space at either end.
pub open spec fn trimmed(text: Seq<char>) -> Seq<char> {
    trimmed_back(trimmed_front(text))
}

/// The first position from `from` on that holds no white space, or the length.
pub open spec fn skip_space(text: Seq<char>, from: int) -> int
    decreases text.len() - from,
{
    if 0 <= from < text.len() && is_white_space(text[from]) {
        skip_space(text, from + 1)
    } else {
        from
    }
}

/// The first position from `from` on that holds white space, or the length.
pub open spec fn skip_word(text: Seq<char>, from: int) -> int
    decreases text.len() - from,
{
    if 0 <= from < text.len() && !is_white_space(text[from]) {
        skip_word(text, from + 1)
    } else {
        from
    }
}

pub open spec fn is_ascii_digit(c: char) -> bool {
    '0' <= c <= '9'
}

pub open spec fn is_ascii_lower(c: char) -> bool {
    'a' <= c <= 'z'
}

pub open spec fn is_ascii_upper(c: char) -> bool {
    'A' <= c <= 'Z'
}

pub open spec fn is_ascii_alphanumeric(c: char) -> bool {
    is_ascii_digit(c) || is_ascii_lower(c) || is_ascii_upper(c)
}

/// An ASCII upper case letter in lower case; any other character as it is.
pub open spec fn ascii_lower_char(c: char) -> char {
    if is_ascii_upper(c) {
        ((c as u8) + 32) as char
    } else {
        c
    }
}

/// The ASCII upper case letters of a text in lower case.
pub open spec fn ascii_lower(text: Seq<char>) -> Seq<char> {
    text.map_values(|c: char| ascii_lower_char(c))
}

/// Every character is in the ASCII range.
pub open spec fn all_ascii(text: Seq<char>) -> bool {
    forall|i: int| 0 <= i < text.len() ==> text[i] <= '\u{7f}'
}

/// The two texts differ at most in the case of ASCII letters.
pub open spec fn same_ignoring_case(a: Seq<char>, b: Seq<char>) -> bool {
    ascii_lower(a) == ascii_lower(b)
}

/// `text` without any `c`.
pub open spec fn without_char(text: Seq<char>, c: char) -> Seq<char>
    decreases text.len(),
{
    if text.len() == 0 {
        text
    } else if text.last() == c {
        without_char(text.drop_last(), c)
    } else {
        without_char(text.drop_last(), c).push(text.last())
    }
}

pub open spec fn digit(n: int) -> char {
    (48 + n) as char
}

/// A number in decimal digits.
pub open spec fn decimal(n: nat) -> Seq<char>
    decreases n,
{
    if n < 10 {
        seq![digit(n as int)]
    } else {
        decimal(n / 10).push(digit((n % 10) as int))
    }
}

/// The parts with `separator` between each two.
pub open spec fn joined(parts: Seq<Seq<char>>, separator: Seq<char>) -> Seq<char>
    decreases parts.len(),
{
    if parts.len() == 0 {
        Seq::empty()
    } else if parts.len() == 1 {
        parts[0]
    } else {
        joined(parts.drop_last(), separator) + separator + parts.last()
    }
}

/// The lines of a text, without their endings `\n` or `\r\n`; the last line may
/// lack one.
pub open spec fn lines_of(text: Seq<char>) -> Seq<Seq<char>>
    decreases text.len(),
{
    let end = index_of(text, '\n', 0);
    if text.len() == 0 {
        Seq::empty()
    } else if end >= text.len() || end < 0 {
        seq![text]
    } else {
        seq![without_return(text.take(end))] + lines_of(text.skip(end + 1))
    }
}

/// A line without the carriage return in front of its line feed.
pub open spec fn without_return(line: Seq<char>) -> Seq<char> {
    if line.len() > 0 && line.last() == '\r' {
        line.drop_last()
    } else {
        line
    }
}

/// `a` comes before `b` in the order of their characters.
pub open spec fn comes_before(a: Seq<char>, b: Seq<char>) -> bool
    decreases a.len(),
{
    if b.len() == 0 {
        false
    } else if a.len() == 0 {
        true
    } else if a[0] == b[0] {
        comes_before(a.drop_first(), b.drop_first())
    } else {
        a[0] < b[0]
    }
}

/// Each text comes before every later one; so none is there twice.
pub open spec fn strictly_sorted(list: Seq<Seq<char>>) -> bool {
    forall|i: int, j: int| 0 <= i < j < list.len() ==> comes_before(list[i], list[j])
}

/// The characters of an optional string.
pub open spec fn opt_text(text: Option<String>) -> Option<Seq<char>> {
    match text {
        Some(s) => Some(s@),
        None => None,
    }
}

/// The characters of an optional string slice.
pub open spec fn opt_str(text: Option<&str>) -> Option<Seq<char>> {
    match text {
        Some(s) => Some(s@),
        None => None,
    }
}

/// The characters of each string of a list.
pub open spec fn texts(list: Seq<String>) -> Seq<Seq<char>> {
    Seq::new(list.len(), |i: int| list[i]@)
}

/// The characters of each string slice of a list.
pub open spec fn strs(list: Seq<&str>) -> Seq<Seq<char>> {
    Seq::new(list.len(), |i: int| list[i]@)
}

/// The characters of each pair of strings of a list.
pub open spec fn text_pairs(list: Seq<(String, String)>) -> Seq<(Seq<char>, Seq<char>)> {
    Seq::new(list.len(), |i: int| (list[i].0@, list[i].1@))
}

/// The texts of a longer list.
pub broadcast proof fn lemma_texts_push(list: Seq<String>, text: String)
    ensures
        #[trigger] texts(list.push(text)) == texts(list).push(text@),
{
    assert(texts(list.push(text)) =~= texts(list).push(text@));
}

/// `String::push`: appends the character to the end of the string.
pub assume_specification[ String::push ](s: &mut String, c: char)
    ensures
        final(s)@ == old(s)@.push(c),
;

/// `char::is_whitespace`: whether a character has the property White_Space.
pub assume_specification[ char::is_whitespace ](c: char) -> (r: bool)
    ensures
        r == is_white_space(c),
;

/// `char::is_control`: whether a character is in the general category Cc.
pub assume_specification[ char::is_control ](c: char) -> (r: bool)
    ensures
        r == is_control_char(c),
;

/// The characters of a text.
pub fn chars_of(text: &str) -> (r: Vec<char>)
    ensures
        r@ == text@,
{
    let mut out: Vec<char> = Vec::new();
    for c in it: text.chars()
        invariant
            out@ == text@.take(it.index()),
            it.seq() == text@,
    {
        out.push(c);
    }
    out
}

/// The text from position `from` up to position `to`.
pub fn part_of(text: &str, from: usize, to: usize) -> (r: String)
    requires
        from <= to <= text@.len(),
    ensures
        r@ == text@.subrange(from as int, to as int),
{
    text.substring_char(from, to).to_owned()
}

/// Whether two texts are the same.
pub fn same_text(a: &str, b: &str) -> (r: bool)
    ensures
        r == (a@ == b@),
{
    a.to_owned() == b.to_owned()
}

/// Whether two optional texts are the same.
pub fn same_option(a: &Option<String>, b: &Option<String>) -> (r: bool)
    ensures
        r == (opt_text(*a) == opt_text(*b)),
{
    match (a, b) {
        (Some(x), Some(y)) => same_text(x.as_str(), y.as_str()),
        (None, None) => true,
        _ => false,
    }
}

/// A copy of an optional string.
pub fn copy_option(text: &Option<String>) -> (r: Option<String>)
    ensures
        opt_text(r) == opt_text(*text),
{
    match text {
        Some(s) => Some(s.clone()),
        None => None,
    }
}

/// A copy of a list of strings.
pub fn copy_texts(list: &Vec<String>) -> (r: Vec<String>)
    ensures
        texts(r@) == texts(list@),
{
    let mut out: Vec<String> = Vec::new();
    let mut i: usize = 0;
    while i < list.len()
        invariant
            i <= list.len(),
            texts(out@) =~= texts(list@).take(i as int),
        decreases list.len() - i,
    {
        broadcast use lemma_texts_push;

        out.push(list[i].clone());
        i += 1;
    }
    out
}

/// Whether `part` stands in `text` at position `at`.
fn stands_at(text: &Vec<char>, part: &Vec<char>, at: usize) -> (r: bool)
    ensures
        r == occurs_at(text@, part@, at as int),
{
    if part.len() > text.len() || at > text.len() - part.len() {
        return false;
    }
    let mut i: usize = 0;
    while i < part.len()
        invariant
            i <= part.len(),
            at + part.len() <= text.len(),
            forall|k: int| 0 <= k < i ==> text@[at + k] == part@[k],
        decreases part.len() - i,
    {
        if text[at + i] != part[i] {
            assert(text@.subrange(at as int, at + part@.len())[i as int] == text@[at + i]);
            return false;
        }
        i += 1;
    }
    assert(text@.subrange(at as int, at + part@.len()) =~= part@);
    true
}

/// The first position from `from` on at which `part` stands in `text`.
pub fn find_part(text: &Vec<char>, part: &Vec<char>, from: usize) -> (r: Option<usize>)
    ensures
        match find_from(text@, part@, from as int) {
            Some(at) => r == Some(at as usize) && from <= at <= text@.len() - part@.len()
                && occurs_at(text@, part@, at),
            None => r is None,
        },
{
    if part.len() > text.len() {
        return None;
    }
    let mut at: usize = from;
    while at <= text.len() - part.len()
        invariant
            part.len() <= text.len(),
            from <= at,
            find_from(text@, part@, from as int) == find_from(text@, part@, at as int),
        decreases text.len() + 1 - at,
    {
        if stands_at(text, part, at) {
            return Some(at);
        }
        assert(part@.len() > 0) by {
            if part@.len() == 0 {
                assert(text@.subrange(at as int, at as int) =~= part@);
            }
        }
        at += 1;
    }
    None
}

/// A part stands in a text just where a search from the front finds one.
pub proof fn lemma_find_from(text: Seq<char>, part: Seq<char>, from: int)
    requires
        0 <= from,
    ensures
        match find_from(text, part, from) {
            Some(at) => from <= at && occurs_at(text, part, at) && forall|k: int|
                from <= k < at ==> !occurs_at(text, part, k),
            None => forall|k: int| from <= k ==> !occurs_at(text, part, k),
        },
    decreases text.len() - from + 1,
{
    if from <= text.len() - part.len() && !occurs_at(text, part, from) {
        lemma_find_from(text, part, from + 1);
    }
}

/// Whether `part` stands somewhere in `text`.
pub fn contains(text: &str, part: &str) -> (r: bool)
    ensures
        r == occurs_in(text@, part@),
{
    proof {
        lemma_find_from(text@, part@, 0);
    }
    find_part(&chars_of(text), &chars_of(part), 0).is_some()
}

/// Whether `text` starts with `prefix`.
pub fn starts_with(text: &str, prefix: &str) -> (r: bool)
    ensures
        r == begins_with(text@, prefix@),
{
    stands_at(&chars_of(text), &chars_of(prefix), 0)
}

/// What follows `prefix` in a text that starts with it.
pub fn strip_prefix(text: &str, prefix: &str) -> (r: Option<String>)
    ensures
        opt_text(r) == behind_prefix(text@, prefix@),
{
    let chars = chars_of(text);
    let front = chars_of(prefix);
    if stands_at(&chars, &front, 0) {
        Some(part_of(text, front.len(), chars.len()))
    } else {
        None
    }
}

/// The first position from `from` on that holds `c`, or the length.
pub fn find_char(text: &Vec<char>, c: char, from: usize) -> (r: usize)
    requires
        from <= text@.len(),
    ensures
        r == index_of(text@, c, from as int),
        from <= r <= text@.len(),
{
    let mut at: usize = from;
    while at < text.len()
        invariant
            from <= at <= text.len(),
            index_of(text@, c, from as int) == index_of(text@, c, at as int),
        decreases text.len() - at,
    {
        if text[at] == c {
            return at;
        }
        at += 1;
    }
    at
}

/// The text in front of the first `c`, and the text behind it.
pub fn split_once(text: &str, c: char) -> (r: Option<(String, String)>)
    ensures
        match split_first(text@, c) {
            Some((front, behind)) => r matches Some((f, b)) && f@ == front && b@ == behind,
            None => r is None,
        },
{
    let chars = chars_of(text);
    let at = find_char(&chars, c, 0);
    if at < chars.len() {
        Some((part_of(text, 0, at), part_of(text, at + 1, chars.len())))
    } else {
        None
    }
}

/// The text in front of the last `c`, and the text behind it.
pub fn split_once_back(text: &str, c: char) -> (r: Option<(String, String)>)
    ensures
        match split_last(text@, c) {
            Some((front, behind)) => r matches Some((f, b)) && f@ == front && b@ == behind,
            None => r is None,
        },
{
    let chars = chars_of(text);
    let mut end: usize = chars.len();
    assert(chars@.take(end as int) =~= chars@);
    while end > 0
        invariant
            chars@ == text@,
            end <= chars@.len(),
            last_index_of(chars@.take(end as int), c) == last_index_of(text@, c),
        decreases end,
    {
        assert(chars@.take(end as int).drop_last() =~= chars@.take(end - 1));
        if chars[end - 1] == c {
            return Some((part_of(text, 0, end - 1), part_of(text, end, chars.len())));
        }
        end -= 1;
    }
    None
}

/// The text behind the last `c`, or all of it where no `c` stands in it.
pub fn behind_last(text: &str, c: char) -> (r: String)
    ensures
        r@ == after_last(text@, c),
{
    match split_once_back(text, c) {
        Some((_, behind)) => behind,
        None => text.to_owned(),
    }
}

/// The pieces of `text` between the first `n - 1` occurrences of `c`.
pub fn split_pieces(text: &str, c: char, n: usize) -> (r: Vec<String>)
    ensures
        texts(r@) == pieces(text@, c, n as nat),
{
    let mut out: Vec<String> = Vec::new();
    let mut rest: String = text.to_owned();
    let mut left: usize = n;
    while left > 1
        invariant
            pieces(text@, c, n as nat) =~= texts(out@) + pieces(rest@, c, left as nat),
        decreases left,
    {
        broadcast use lemma_texts_push;

        match split_once(rest.as_str(), c) {
            Some((piece, behind)) => {
                out.push(piece);
                rest = behind;
            },
            None => {
                out.push(rest);
                return out;
            },
        }
        left -= 1;
    }
    proof {
        lemma_texts_push(out@, rest);
    }
    out.push(rest);
    out
}

/// `text` without white space at either end.
pub fn trim(text: &str) -> (r: String)
    ensures
        r@ == trimmed(text@),
{
    let chars = chars_of(text);
    let mut start: usize = 0;
    assert(chars@.skip(0) =~= chars@);
    while start < chars.len() && chars[start].is_whitespace()
        invariant
            start <= chars@.len(),
            trimmed_front(chars@) == trimmed_front(chars@.skip(start as int)),
        decreases chars.len() - start,
    {
        assert(chars@.skip(start as int).drop_first() =~= chars@.skip(start + 1));
        start += 1;
    }
    let mut end: usize = chars.len();
    assert(chars@.skip(start as int) =~= chars@.subrange(start as int, end as int));
    while end > start && chars[end - 1].is_whitespace()
        invariant
            start <= end <= chars@.len(),
            trimmed_back(chars@.skip(start as int)) == trimmed_back(
                chars@.subrange(start as int, end as int),
            ),
        decreases end,
    {
        assert(chars@.subrange(start as int, end as int).drop_last() =~= chars@.subrange(
            start as int,
            end - 1,
        ));
        end -= 1;
    }
    part_of(text, start, end)
}

/// An ASCII upper case letter in lower case; any other character as it is.
fn lower_char(c: char) -> (r: char)
    ensures
        r == ascii_lower_char(c),
{
    if 'A' <= c && c <= 'Z' {
        ((c as u8) + 32) as char
    } else {
        c
    }
}

/// The ASCII upper case letters of a text in lower case.
pub fn lower_ascii(text: &str) -> (r: String)
    ensures
        r@ == ascii_lower(text@),
{
    let mut out = String::new();
    for c in it: text.chars()
        invariant
            out@ =~= ascii_lower(text@).take(it.index()),
            it.seq() == text@,
    {
        out.push(lower_char(c));
    }
    out
}

/// Whether two texts differ at most in the case of ASCII letters.
pub fn equal_ignoring_case(a: &str, b: &str) -> (r: bool)
    ensures
        r == same_ignoring_case(a@, b@),
{
    lower_ascii(a) == lower_ascii(b)
}

/// `text` without any `c`.
pub fn remove_char(text: &str, c: char) -> (r: String)
    ensures
        r@ == without_char(text@, c),
{
    let chars = chars_of(text);
    let mut out = String::new();
    let mut i: usize = 0;
    while i < chars.len()
        invariant
            chars@ == text@,
            i <= chars@.len(),
            out@ =~= without_char(chars@.take(i as int), c),
        decreases chars.len() - i,
    {
        assert(chars@.take(i + 1).drop_last() =~= chars@.take(i as int));
        if chars[i] != c {
            out.push(chars[i]);
        }
        i += 1;
    }
    assert(chars@.take(i as int) =~= chars@);
    out
}

/// Whether every character is an ASCII letter, a digit or a hyphen.
pub fn all_name_chars(text: &str) -> (r: bool)
    ensures
        r == forall|i: int|
            0 <= i < text@.len() ==> is_ascii_alphanumeric(#[trigger] text@[i]) || text@[i] == '-',
{
    let chars = chars_of(text);
    let mut i: usize = 0;
    while i < chars.len()
        invariant
            chars@ == text@,
            i <= chars@.len(),
            forall|k: int|
                0 <= k < i ==> is_ascii_alphanumeric(#[trigger] text@[k]) || text@[k] == '-',
        decreases chars.len() - i,
    {
        let c = chars[i];
        let plain = ('0' <= c && c <= '9') || ('a' <= c && c <= 'z') || ('A' <= c && c <= 'Z');
        if !plain && c != '-' {
            assert(!is_ascii_alphanumeric(text@[i as int]));
            return false;
        }
        i += 1;
    }
    true
}

/// Whether every character is a decimal digit.
pub fn all_digits(text: &str) -> (r: bool)
    ensures
        r == forall|i: int| 0 <= i < text@.len() ==> is_ascii_digit(#[trigger] text@[i]),
{
    let chars = chars_of(text);
    let mut i: usize = 0;
    while i < chars.len()
        invariant
            chars@ == text@,
            i <= chars@.len(),
            forall|k: int| 0 <= k < i ==> is_ascii_digit(#[trigger] text@[k]),
        decreases chars.len() - i,
    {
        let c = chars[i];
        if !('0' <= c && c <= '9') {
            assert(!is_ascii_digit(text@[i as int]));
            return false;
        }
        i += 1;
    }
    true
}

/// A number in decimal digits.
pub fn decimal_of(n: usize) -> (r: String)
    ensures
        r@ == decimal(n as nat),
    decreases n,
{
    let last: char = (48u8 + (n % 10) as u8) as char;
    if n < 10 {
        let mut out = String::new();
        out.push(last);
        out
    } else {
        let mut out = decimal_of(n / 10);
        out.push(last);
        out
    }
}

/// The parts with `separator` between each two.
pub fn join(parts: &Vec<String>, separator: &str) -> (r: String)
    ensures
        r@ == joined(texts(parts@), separator@),
{
    let mut out = String::new();
    let mut i: usize = 0;
    while i < parts.len()
        invariant
            i <= parts.len(),
            out@ =~= joined(texts(parts@).take(i as int), separator@),
        decreases parts.len() - i,
    {
        assert(texts(parts@).take(i + 1).drop_last() =~= texts(parts@).take(i as int));
        if i > 0 {
            out.append(separator);
        }
        out.append(parts[i].as_str());
        i += 1;
    }
    assert(texts(parts@).take(i as int) =~= texts(parts@));
    out
}

/// The lines of a text, without their endings.
pub fn lines(text: &str) -> (r: Vec<String>)
    ensures
        texts(r@) == lines_of(text@),
{
    let chars = chars_of(text);
    let mut out: Vec<String> = Vec::new();
    let mut start: usize = 0;
    assert(text@.skip(0) =~= text@);
    while start < chars.len()
        invariant
            chars@ == text@,
            start <= chars@.len(),
            lines_of(text@) =~= texts(out@) + lines_of(text@.skip(start as int)),
        decreases chars.len() - start,
    {
        broadcast use lemma_texts_push;

        let end = find_char(&chars, '\n', start);
        proof {
            lemma_index_of_skip(text@, '\n', start as int);
        }
        let ghost rest = text@.skip(start as int);
        if end >= chars.len() {
            assert(text@.subrange(start as int, text@.len() as int) =~= rest);
            out.push(part_of(text, start, chars.len()));
            return out;
        }
        assert(rest.take(end - start) =~= text@.subrange(start as int, end as int));
        assert(rest.skip(end - start + 1) =~= text@.skip(end + 1));
        if end > start && chars[end - 1] == '\r' {
            assert(rest.take(end - start).drop_last() =~= text@.subrange(start as int, end - 1));
            out.push(part_of(text, start, end - 1));
        } else {
            out.push(part_of(text, start, end));
        }
        start = end + 1;
    }
    out
}

/// No `c` stands in front of the first one.
pub proof fn lemma_index_of(text: Seq<char>, c: char, from: int)
    requires
        0 <= from <= text.len(),
    ensures
        from <= index_of(text, c, from) <= text.len(),
        forall|k: int| from <= k < index_of(text, c, from) ==> #[trigger] text[k] != c,
        index_of(text, c, from) < text.len() ==> text[index_of(text, c, from)] == c,
    decreases text.len() - from,
{
    if from < text.len() && text[from] != c {
        lemma_index_of(text, c, from + 1);
    }
}

/// The last `c` of a text stands in it, where there is one.
pub proof fn lemma_last_index_of(text: Seq<char>, c: char)
    ensures
        -1 <= last_index_of(text, c) < text.len(),
        last_index_of(text, c) >= 0 ==> text[last_index_of(text, c)] == c,
    decreases text.len(),
{
    if text.len() > 0 && text.last() != c {
        lemma_last_index_of(text.drop_last(), c);
    }
}

/// The first `c` of a text is where the text in front of it holds none.
pub proof fn lemma_index_of_is(text: Seq<char>, c: char, from: int, at: int)
    requires
        0 <= from <= at < text.len(),
        text[at] == c,
        forall|k: int| from <= k < at ==> #[trigger] text[k] != c,
    ensures
        index_of(text, c, from) == at,
    decreases at - from,
{
    if from < at {
        lemma_index_of_is(text, c, from + 1, at);
    }
}

/// A text put together around a `c` falls apart there, where its front holds none.
pub proof fn lemma_split_first_of(front: Seq<char>, c: char, behind: Seq<char>)
    requires
        !front.contains(c),
    ensures
        split_first(front.push(c) + behind, c) == Some((front, behind)),
{
    let text = front.push(c) + behind;
    let at = front.len() as int;
    assert forall|k: int| 0 <= k < at implies #[trigger] text[k] != c by {
        assert(text[k] == front[k]);
    }
    lemma_index_of_is(text, c, 0, at);
    assert(text.take(at) =~= front);
    assert(text.skip(at + 1) =~= behind);
}

/// No piece but the last one holds the character between the pieces.
pub proof fn lemma_pieces(text: Seq<char>, c: char, n: nat, i: int)
    requires
        0 <= i < pieces(text, c, n).len() - 1,
    ensures
        !pieces(text, c, n)[i].contains(c),
    decreases n,
{
    lemma_index_of(text, c, 0);
    match split_first(text, c) {
        Some((piece, rest)) => {
            if i > 0 {
                lemma_pieces(rest, c, (n - 1) as nat, i - 1);
            }
        },
        None => {},
    }
}

/// A search in the rest of a text is the search from there on.
pub proof fn lemma_index_of_skip(text: Seq<char>, c: char, from: int)
    requires
        0 <= from <= text.len(),
    ensures
        index_of(text.skip(from), c, 0) == index_of(text, c, from) - from,
{
    lemma_index_of_shift(text, c, from, 0);
}

proof fn lemma_index_of_shift(text: Seq<char>, c: char, start: int, from: int)
    requires
        0 <= start,
        0 <= from,
        start + from <= text.len(),
    ensures
        index_of(text.skip(start), c, from) == index_of(text, c, start + from) - start,
    decreases text.len() - start - from,
{
    if start + from < text.len() {
        assert(text.skip(start)[from] == text[start + from]);
        if text[start + from] != c {
            lemma_index_of_shift(text, c, start, from + 1);
        }
    }
}

/// A text falls apart at the first character of a kind into a front without one and
/// the rest behind it; it does just where the character stands in it.
pub proof fn law_text_falls_apart_at_the_first(text: Seq<char>, c: char)
    ensures
        split_first(text, c) is Some <==> text.contains(c),
        split_first(text, c) matches Some((front, behind)) ==> !front.contains(c) && text == front
            + seq![c] + behind,
{
    lemma_index_of(text, c, 0);
    let at = index_of(text, c, 0);
    if at < text.len() {
        assert(text[at] == c);
        assert(text =~= text.take(at) + seq![c] + text.skip(at + 1));
    }
}

/// A text falls apart at the last character of a kind, so that what is behind it holds
/// none; the text behind it is told for the whole.
pub proof fn law_text_falls_apart_at_the_last(front: Seq<char>, c: char, behind: Seq<char>)
    requires
        !behind.contains(c),
    ensures
        split_last(front + seq![c] + behind, c) == Some((front, behind)),
        after_last(front + seq![c] + behind, c) == behind,
    decreases behind.len(),
{
    let text = front + seq![c] + behind;
    if behind.len() == 0 {
        assert(text.take(front.len() as int) =~= front);
        assert(text.skip(front.len() as int + 1) =~= behind);
    } else {
        let shorter = behind.drop_last();
        assert(behind.contains(behind.last()));
        assert(!shorter.contains(c)) by {
            if shorter.contains(c) {
                let k = choose|k: int| 0 <= k < shorter.len() && shorter[k] == c;
                assert(behind[k] == c);
            }
        }
        assert(text.drop_last() =~= front + seq![c] + shorter);
        law_text_falls_apart_at_the_last(front, c, shorter);
        lemma_last_index_of(text.drop_last(), c);
        let at = last_index_of(text, c);
        assert(text.drop_last().take(at) == front);
        assert(front.len() == at);
        assert(text.take(at) =~= front);
        assert(text.skip(at + 1) =~= behind);
    }
}

/// A text without a character does not fall apart at it.
pub proof fn law_text_without_it_stays_whole(text: Seq<char>, c: char)
    requires
        !text.contains(c),
    ensures
        split_first(text, c) is None,
        split_last(text, c) is None,
        after_last(text, c) == text,
{
    law_text_falls_apart_at_the_first(text, c);
    lemma_last_index_of(text, c);
    if last_index_of(text, c) >= 0 {
        assert(text.contains(text[last_index_of(text, c)]));
    }
}

/// A part stands in every text that is put together around it, and a text that it
/// stands in falls apart around it.
pub proof fn law_parts_stand_inside(
    front: Seq<char>,
    part: Seq<char>,
    behind: Seq<char>,
    text: Seq<char>,
)
    ensures
        occurs_in(front + part + behind, part),
        occurs_in(text, part) ==> exists|before: Seq<char>, after: Seq<char>| text
            == #[trigger] (before + part + after),
        begins_with(part + behind, part),
        begins_with(text, part) ==> exists|after: Seq<char>| text == #[trigger] (part + after),
        behind_prefix(part + behind, part) == Some(behind),
        behind_prefix(text, part) matches Some(rest) ==> text == part + rest,
        behind_prefix(text, part) is None ==> !begins_with(text, part),
{
    let whole = front + part + behind;
    assert(whole.subrange(front.len() as int, (front.len() + part.len()) as int) =~= part);
    assert(occurs_at(whole, part, front.len() as int));
    if occurs_in(text, part) {
        let at = choose|at: int| occurs_at(text, part, at);
        assert(text =~= text.take(at) + part + text.skip(at + part.len()));
    }
    assert((part + behind).subrange(0, part.len() as int) =~= part);
    assert((part + behind).skip(part.len() as int) =~= behind);
    if begins_with(text, part) {
        assert(text =~= part + text.skip(part.len() as int));
    }
}

/// In lower case the letters `A` to `Z` are those from `a` to `z`, thirty-two places
/// on, and every other character is itself.
pub proof fn law_lower_case_changes_capitals_alone(text: Seq<char>, i: int)
    requires
        0 <= i < text.len(),
    ensures
        ascii_lower(text).len() == text.len(),
        'A' <= text[i] <= 'Z' ==> ascii_lower(text)[i] as u32 == text[i] as u32 + 32,
        !('A' <= text[i] <= 'Z') ==> ascii_lower(text)[i] == text[i],
{
}

/// Two characters are the same, or a capital of the letters `A` to `Z` and its small
/// letter.
pub open spec fn is_same_letter(c: char, d: char) -> bool {
    ||| c == d
    ||| 'A' <= c <= 'Z' && d as u32 == c as u32 + 32
    ||| 'A' <= d <= 'Z' && c as u32 == d as u32 + 32
}

proof fn lemma_same_letter(c: char, d: char)
    ensures
        ascii_lower_char(c) == ascii_lower_char(d) <==> is_same_letter(c, d),
{
    let (x, y) = (c as u32, d as u32);
    let (lower_x, lower_y) = (ascii_lower_char(c) as u32, ascii_lower_char(d) as u32);
    assert('A' <= c <= 'Z' ==> 65 <= x <= 90 && lower_x == x + 32);
    assert('A' <= d <= 'Z' ==> 65 <= y <= 90 && lower_y == y + 32);
    assert(!('A' <= c <= 'Z') ==> lower_x == x && !(65 <= x <= 90));
    assert(!('A' <= d <= 'Z') ==> lower_y == y && !(65 <= y <= 90));
    assert(lower_x == lower_y <==> ascii_lower_char(c) == ascii_lower_char(d));
    assert(x == y <==> c == d);
}

/// Two texts are the same but for case where each two of their characters are.
pub proof fn law_case_is_ignored(a: Seq<char>, b: Seq<char>)
    ensures
        same_ignoring_case(a, b) <==> a.len() == b.len() && forall|i: int|
            0 <= i < a.len() ==> is_same_letter(#[trigger] a[i], b[i]),
{
    let (x, y) = (ascii_lower(a), ascii_lower(b));
    if same_ignoring_case(a, b) {
        assert(a.len() == x.len() && b.len() == y.len());
        assert forall|i: int| 0 <= i < a.len() implies is_same_letter(#[trigger] a[i], b[i]) by {
            assert(x[i] == ascii_lower_char(a[i]));
            assert(y[i] == ascii_lower_char(b[i]));
            lemma_same_letter(a[i], b[i]);
        }
    }
    if a.len() == b.len() && forall|i: int|
        0 <= i < a.len() ==> is_same_letter(#[trigger] a[i], b[i]) {
        assert forall|i: int| 0 <= i < a.len() implies x[i] == y[i] by {
            assert(is_same_letter(a[i], b[i]));
            lemma_same_letter(a[i], b[i]);
        }
        assert(x =~= y);
    }
}

/// A character is taken out of a text wherever it stands, and nothing else is.
pub proof fn law_characters_are_taken_out(a: Seq<char>, b: Seq<char>, d: char, c: char)
    ensures
        without_char(a + b, c) == without_char(a, c) + without_char(b, c),
        without_char(seq![d], c) == if d == c {
            Seq::empty()
        } else {
            seq![d]
        },
    decreases b.len(),
{
    reveal_with_fuel(without_char, 2);
    assert(seq![d].drop_last() =~= Seq::<char>::empty());
    assert(without_char(seq![d], c) =~= if d == c {
        Seq::empty()
    } else {
        seq![d]
    });
    if b.len() == 0 {
        assert(a + b =~= a);
        assert(without_char(a, c) + without_char(b, c) =~= without_char(a, c));
    } else {
        assert((a + b).drop_last() =~= a + b.drop_last());
        law_characters_are_taken_out(a, b.drop_last(), d, c);
        assert(without_char(a + b, c) =~= without_char(a, c) + without_char(b, c));
    }
}

/// Every character of the text is white space.
pub open spec fn all_white_space(text: Seq<char>) -> bool {
    forall|i: int| 0 <= i < text.len() ==> is_white_space(#[trigger] text[i])
}

proof fn lemma_trimmed_front(text: Seq<char>) -> (front: Seq<char>)
    ensures
        all_white_space(front),
        text == front + trimmed_front(text),
        trimmed_front(text).len() > 0 ==> !is_white_space(trimmed_front(text)[0]),
    decreases text.len(),
{
    if text.len() > 0 && is_white_space(text[0]) {
        let rest = lemma_trimmed_front(text.drop_first());
        let front = seq![text[0]] + rest;
        assert(text =~= seq![text[0]] + text.drop_first());
        assert(text =~= front + trimmed_front(text));
        front
    } else {
        assert(text =~= Seq::<char>::empty() + text);
        Seq::empty()
    }
}

proof fn lemma_trimmed_back(text: Seq<char>) -> (behind: Seq<char>)
    ensures
        all_white_space(behind),
        text == trimmed_back(text) + behind,
        trimmed_back(text).len() > 0 ==> !is_white_space(trimmed_back(text).last()),
    decreases text.len(),
{
    if text.len() > 0 && is_white_space(text.last()) {
        let rest = lemma_trimmed_back(text.drop_last());
        let behind = rest.push(text.last());
        assert(text =~= text.drop_last().push(text.last()));
        assert(text =~= trimmed_back(text) + behind);
        behind
    } else {
        assert(text =~= text + Seq::<char>::empty());
        Seq::empty()
    }
}

/// Of a text only the white space at its ends is trimmed, and all of that.
pub proof fn law_white_space_is_trimmed(text: Seq<char>)
    ensures
        exists|front: Seq<char>, behind: Seq<char>|
            all_white_space(front) && all_white_space(behind) && text == #[trigger] (front
                + trimmed(text) + behind),
        trimmed(text).len() > 0 ==> !is_white_space(trimmed(text)[0]) && !is_white_space(
            trimmed(text).last(),
        ),
{
    let front = lemma_trimmed_front(text);
    let behind = lemma_trimmed_back(trimmed_front(text));
    assert(text =~= front + trimmed(text) + behind);
    if trimmed(text).len() > 0 {
        assert(trimmed(text)[0] == trimmed_front(text)[0]);
    }
}

/// What lists are joined to stands one behind the other with the separator between
/// them; one text alone is itself, and none is nothing.
pub proof fn law_lists_are_joined(
    first: Seq<Seq<char>>,
    second: Seq<Seq<char>>,
    one: Seq<char>,
    separator: Seq<char>,
)
    ensures
        joined(Seq::empty(), separator) == Seq::<char>::empty(),
        joined(seq![one], separator) == one,
        first.len() > 0 && second.len() > 0 ==> joined(first + second, separator) == joined(
            first,
            separator,
        ) + separator + joined(second, separator),
    decreases second.len(),
{
    if first.len() > 0 && second.len() > 0 {
        let all = first + second;
        assert(all.drop_last() =~= first + second.drop_last());
        if second.len() == 1 {
            assert(first + second.drop_last() =~= first);
        } else {
            law_lists_are_joined(first, second.drop_last(), one, separator);
        }
        assert(joined(all, separator) =~= joined(first, separator) + separator + joined(
            second,
            separator,
        ));
    }
}

/// The number that decimal digits stand for.
pub open spec fn number_of(digits: Seq<char>) -> int
    decreases digits.len(),
{
    if digits.len() == 0 {
        0
    } else {
        10 * number_of(digits.drop_last()) + (digits.last() as int - '0' as int)
    }
}

/// The digits of a number stand for it, and the first one is a zero only where there
/// is no other.
pub proof fn law_digits_stand_for_the_number(n: nat)
    ensures
        number_of(decimal(n)) == n,
        decimal(n).len() > 0,
        forall|i: int| 0 <= i < decimal(n).len() ==> '0' <= #[trigger] decimal(n)[i] <= '9',
        decimal(n)[0] == '0' ==> n == 0,
    decreases n,
{
    reveal_with_fuel(number_of, 2);
    if n < 10 {
        assert(decimal(n).drop_last() =~= Seq::<char>::empty());
    } else {
        law_digits_stand_for_the_number(n / 10);
        assert(decimal(n).drop_last() =~= decimal(n / 10));
        assert(decimal(n)[0] == decimal(n / 10)[0]);
    }
}

/// A line ends at the first line feed, and a carriage return in front of it goes with
/// it; what has no line feed is one line, and nothing is none.
pub proof fn law_lines_end_at_line_feeds(line: Seq<char>, rest: Seq<char>)
    requires
        !line.contains('\n'),
    ensures
        lines_of(Seq::empty()).len() == 0,
        line.len() > 0 ==> lines_of(line) == seq![line],
        line.len() > 0 && line.last() == '\r' ==> lines_of(line + seq!['\n'] + rest) == seq![
            line.drop_last(),
        ] + lines_of(rest),
        line.len() == 0 || line.last() != '\r' ==> lines_of(line + seq!['\n'] + rest) == seq![line]
            + lines_of(rest),
{
    lemma_index_of(line, '\n', 0);
    if index_of(line, '\n', 0) < line.len() {
        assert(line.contains(line[index_of(line, '\n', 0)]));
    }
    let text = line + seq!['\n'] + rest;
    let at = line.len() as int;
    assert forall|k: int| 0 <= k < at implies #[trigger] text[k] != '\n' by {
        assert(line.contains(line[k]));
    }
    lemma_index_of_is(text, '\n', 0, at);
    assert(text.take(at) =~= line);
    assert(text.skip(at + 1) =~= rest);
}

/// One text comes before another where it is a proper start of it, or has the smaller
/// character where they first differ.
pub proof fn law_order_is_by_the_first_difference(a: Seq<char>, b: Seq<char>)
    ensures
        comes_before(a, b) <==> exists|k: int|
            0 <= k <= a.len() && k < b.len() && #[trigger] a.take(k) == b.take(k) && (k == a.len()
                || a[k] < b[k]),
    decreases a.len(),
{
    if comes_before(a, b) {
        if a.len() == 0 {
            assert(a.take(0) =~= b.take(0));
        } else if a[0] == b[0] {
            let (ra, rb) = (a.drop_first(), b.drop_first());
            law_order_is_by_the_first_difference(ra, rb);
            let k = choose|k: int|
                0 <= k <= ra.len() && k < rb.len() && #[trigger] ra.take(k) == rb.take(k) && (k
                    == ra.len() || ra[k] < rb[k]);
            assert(a.take(k + 1) =~= seq![a[0]] + ra.take(k));
            assert(b.take(k + 1) =~= seq![b[0]] + rb.take(k));
        } else {
            assert(a.take(0) =~= b.take(0));
        }
    }
    if exists|k: int|
        0 <= k <= a.len() && k < b.len() && #[trigger] a.take(k) == b.take(k) && (k == a.len()
            || a[k] < b[k]) {
        let k = choose|k: int|
            0 <= k <= a.len() && k < b.len() && #[trigger] a.take(k) == b.take(k) && (k == a.len()
                || a[k] < b[k]);
        if k > 0 {
            let (ra, rb) = (a.drop_first(), b.drop_first());
            assert(a.take(k)[0] == b.take(k)[0]);
            assert(ra.take(k - 1) =~= a.take(k).drop_first());
            assert(rb.take(k - 1) =~= b.take(k).drop_first());
            law_order_is_by_the_first_difference(ra, rb);
        }
    }
}

/// The pieces of a text, joined with the character between them, are the text. There
/// are no more than asked for, and where there are fewer the character stands in none.
pub proof fn law_pieces_make_the_text(text: Seq<char>, c: char, n: nat)
    requires
        n > 0,
    ensures
        0 < pieces(text, c, n).len() <= n,
        joined(pieces(text, c, n), seq![c]) == text,
        forall|i: int|
            0 <= i < pieces(text, c, n).len() - 1 ==> !(#[trigger] pieces(text, c, n)[i]).contains(
                c,
            ),
        pieces(text, c, n).len() < n ==> !pieces(text, c, n).last().contains(c),
    decreases n,
{
    law_text_falls_apart_at_the_first(text, c);
    law_lists_are_joined(Seq::empty(), Seq::empty(), text, seq![c]);
    if n > 1 {
        if let Some((piece, rest)) = split_first(text, c) {
            let others = pieces(rest, c, (n - 1) as nat);
            law_pieces_make_the_text(rest, c, (n - 1) as nat);
            law_lists_are_joined(seq![piece], others, piece, seq![c]);
            assert(pieces(text, c, n) =~= seq![piece] + others);
            assert forall|i: int| 0 <= i < pieces(text, c, n).len() - 1 implies !(
            #[trigger] pieces(text, c, n)[i]).contains(c) by {
                if i > 0 {
                    assert(pieces(text, c, n)[i] == others[i - 1]);
                }
            }
        }
    }
}

} // verus!

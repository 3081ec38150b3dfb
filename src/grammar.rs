//! The grammar of the dialect, stated over the input as a sequence of characters.
//!
//! Every rule reads the input from a position `p` and either succeeds with the
//! position just after what it consumed and a value, or fails with the position
//! where it stopped and the kind of step that did not match.
use vstd::prelude::*;

use crate::entity::{BlockModel, ErrorKind, InlineModel};

verus! {

/// Outcome of a rule: `Ok((end, value))` or `Err((stop, kind))`.
pub type Outcome<T> = Result<(int, T), (int, ErrorKind)>;

/// The character at `p` exists and is `c`.
pub open spec fn at(s: Seq<char>, p: int, c: char) -> bool {
    0 <= p < s.len() && s[p] == c
}

/// Three backticks start at `p`.
pub open spec fn fence_at(s: Seq<char>, p: int) -> bool {
    at(s, p, '`') && at(s, p + 1, '`') && at(s, p + 2, '`')
}

/// End of the longest run from `p` of characters other than `d` and a line feed.
pub open spec fn run_end(s: Seq<char>, p: int, d: char) -> int
    decreases s.len() - p,
{
    if 0 <= p < s.len() && s[p] != d && s[p] != '\n' {
        run_end(s, p + 1, d)
    } else {
        p
    }
}

/// End of the longest run from `p` of copies of `c`.
pub open spec fn repeat_end(s: Seq<char>, p: int, c: char) -> int
    decreases s.len() - p,
{
    if at(s, p, c) {
        repeat_end(s, p + 1, c)
    } else {
        p
    }
}

pub open spec fn is_digit(c: char) -> bool {
    '0' <= c <= '9'
}

pub open spec fn is_alphanumeric(c: char) -> bool {
    ('a' <= c <= 'z') || ('A' <= c <= 'Z') || ('0' <= c <= '9')
}

/// End of the longest run of decimal digits from `p`.
pub open spec fn digit_end(s: Seq<char>, p: int) -> int
    decreases s.len() - p,
{
    if 0 <= p < s.len() && is_digit(s[p]) {
        digit_end(s, p + 1)
    } else {
        p
    }
}

/// End of the longest run of ASCII letters and digits from `p`.
pub open spec fn alnum_end(s: Seq<char>, p: int) -> int
    decreases s.len() - p,
{
    if 0 <= p < s.len() && is_alphanumeric(s[p]) {
        alnum_end(s, p + 1)
    } else {
        p
    }
}

/// A line terminator (`\n` or `\r\n`) at `p`, and where it ends.
pub open spec fn line_ending(s: Seq<char>, p: int) -> Option<int> {
    if at(s, p, '\n') {
        Some(p + 1)
    } else if at(s, p, '\r') && at(s, p + 1, '\n') {
        Some(p + 2)
    } else {
        None
    }
}

/// The first position from `p` on where three backticks start.
pub open spec fn find_fence(s: Seq<char>, p: int) -> Option<int>
    decreases s.len() - p,
{
    if p < 0 || p + 3 > s.len() {
        None
    } else if fence_at(s, p) {
        Some(p)
    } else {
        find_fence(s, p + 1)
    }
}

// ---------------------------------------------------------------- inline rules

/// Text after an opener at `a`: at least one character other than `c` and a
/// line feed, then `c`.
pub open spec fn enclosed(s: Seq<char>, a: int, c: char) -> Outcome<Seq<char>> {
    let e = run_end(s, a, c);
    if e == a {
        Err((a, ErrorKind::IsNot))
    } else if !at(s, e, c) {
        Err((e, ErrorKind::Tag))
    } else {
        Ok((e + 1, s.subrange(a, e)))
    }
}

/// A span `d...d` on one line, with at least one character inside.
pub open spec fn single_span(s: Seq<char>, p: int, d: char) -> Outcome<Seq<char>> {
    if !at(s, p, d) {
        Err((p, ErrorKind::Tag))
    } else {
        enclosed(s, p + 1, d)
    }
}

/// A bold span `**...**` on one line, with no `*` inside.
pub open spec fn bold_span(s: Seq<char>, p: int) -> Outcome<Seq<char>> {
    if !(at(s, p, '*') && at(s, p + 1, '*')) {
        Err((p, ErrorKind::Tag))
    } else {
        let a = p + 2;
        let e = run_end(s, a, '*');
        if e == a {
            Err((a, ErrorKind::IsNot))
        } else if !(at(s, e, '*') && at(s, e + 1, '*')) {
            Err((e, ErrorKind::Tag))
        } else {
            Ok((e + 2, s.subrange(a, e)))
        }
    }
}

/// `label](target)` after an opening bracket at `a - 1`.
pub open spec fn link_parts(s: Seq<char>, a: int) -> Outcome<(Seq<char>, Seq<char>)> {
    match enclosed(s, a, ']') {
        Err(f) => Err(f),
        Ok((q, label)) => if !at(s, q, '(') {
            Err((q, ErrorKind::Tag))
        } else {
            match enclosed(s, q + 1, ')') {
                Err(f) => Err(f),
                Ok((r, target)) => Ok((r, (label, target))),
            }
        },
    }
}

/// A link `[label](target)`.
pub open spec fn link_span(s: Seq<char>, p: int) -> Outcome<(Seq<char>, Seq<char>)> {
    if !at(s, p, '[') {
        Err((p, ErrorKind::Tag))
    } else {
        link_parts(s, p + 1)
    }
}

/// An image `![alt](target)`.
pub open spec fn image_span(s: Seq<char>, p: int) -> Outcome<(Seq<char>, Seq<char>)> {
    if !(at(s, p, '!') && at(s, p + 1, '[')) {
        Err((p, ErrorKind::Tag))
    } else {
        link_parts(s, p + 2)
    }
}

/// Characters that end a run of plain text.
pub open spec fn is_special(c: char) -> bool {
    c == '*' || c == '`' || c == '~' || c == '[' || c == '\\' || c == '\n' || c == '\r'
}

/// Characters that a backslash turns into a literal.
pub open spec fn is_escapable(c: char) -> bool {
    c == '*' || c == '`' || c == '[' || c == ']' || c == '~' || c == '!'
}

/// One unit of plain text at `p`: an ordinary character, or a backslash and
/// the delimiter it escapes. Gives the end and the character it stands for.
pub open spec fn plain_step(s: Seq<char>, p: int) -> Option<(int, char)> {
    if 0 <= p < s.len() && !is_special(s[p]) && !(s[p] == '!' && at(s, p + 1, '[')) {
        Some((p + 1, s[p]))
    } else if at(s, p, '\\') && 0 <= p + 1 < s.len() && is_escapable(s[p + 1]) {
        Some((p + 2, s[p + 1]))
    } else {
        None
    }
}

/// The longest run of plain units from `p`: its end and its decoded text.
pub open spec fn plain_run(s: Seq<char>, p: int) -> (int, Seq<char>)
    decreases s.len() - p,
{
    if p < s.len() {
        match plain_step(s, p) {
            Some((q, c)) => {
                let rest = plain_run(s, q);
                (rest.0, seq![c] + rest.1)
            },
            None => (p, seq![]),
        }
    } else {
        (p, seq![])
    }
}

/// Plain text: at least one plain unit.
pub open spec fn plaintext(s: Seq<char>, p: int) -> Outcome<Seq<char>> {
    if plain_step(s, p) is None {
        Err((p, ErrorKind::Tag))
    } else {
        Ok(plain_run(s, p))
    }
}

/// A line feed occurs at or after `p`.
pub open spec fn newline_ahead(s: Seq<char>, p: int) -> bool {
    exists|j: int| p <= j < s.len() && #[trigger] s[j] == '\n'
}

/// On a terminated line where no other inline rule matches at `p`, the
/// character at `p` is taken literally, followed by a run of plain text.
pub open spec fn literal(s: Seq<char>, p: int) -> Option<(int, Seq<char>)> {
    if 0 <= p < s.len() && s[p] != '\n' && s[p] != '\r' && newline_ahead(s, p) {
        let rest = plain_run(s, p + 1);
        Some((rest.0, seq![s[p]] + rest.1))
    } else {
        None
    }
}

/// One inline element at `p`; the rules are tried in this order.
pub open spec fn inline_element(s: Seq<char>, p: int) -> Option<(int, InlineModel)> {
    if single_span(s, p, '*') is Ok {
        let (q, t) = single_span(s, p, '*')->Ok_0;
        Some((q, InlineModel::Italic(t)))
    } else if single_span(s, p, '~') is Ok {
        let (q, t) = single_span(s, p, '~')->Ok_0;
        Some((q, InlineModel::Strike(t)))
    } else if single_span(s, p, '`') is Ok {
        let (q, t) = single_span(s, p, '`')->Ok_0;
        Some((q, InlineModel::InlineCode(t)))
    } else if bold_span(s, p) is Ok {
        let (q, t) = bold_span(s, p)->Ok_0;
        Some((q, InlineModel::Bold(t)))
    } else if image_span(s, p) is Ok {
        let (q, (a, u)) = image_span(s, p)->Ok_0;
        Some((q, InlineModel::Image(a, u)))
    } else if link_span(s, p) is Ok {
        let (q, (l, u)) = link_span(s, p)->Ok_0;
        Some((q, InlineModel::Link(l, u)))
    } else if plaintext(s, p) is Ok {
        let (q, t) = plaintext(s, p)->Ok_0;
        Some((q, InlineModel::Plaintext(t)))
    } else if literal(s, p) is Some {
        let (q, t) = literal(s, p)->Some_0;
        Some((q, InlineModel::Plaintext(t)))
    } else {
        None
    }
}

/// The longest sequence of inline elements from `p`; an element that consumes
/// nothing ends it.
pub open spec fn inline_run(s: Seq<char>, p: int) -> (int, Seq<InlineModel>)
    decreases s.len() - p,
{
    match inline_element(s, p) {
        Some((q, m)) => if p < q <= s.len() {
            let rest = inline_run(s, q);
            (rest.0, seq![m] + rest.1)
        } else {
            (p, seq![])
        },
        None => (p, seq![]),
    }
}

/// The inline content of a line, then its line feed.
pub open spec fn text(s: Seq<char>, p: int) -> Outcome<Seq<InlineModel>> {
    let r = inline_run(s, p);
    if at(s, r.0, '\n') {
        Ok((r.0 + 1, r.1))
    } else {
        Err((r.0, ErrorKind::Tag))
    }
}

// ----------------------------------------------------------------- block rules

/// One or more `#`, then a space; the value is the number of `#`.
pub open spec fn header_tag(s: Seq<char>, p: int) -> Outcome<nat> {
    let e = repeat_end(s, p, '#');
    if e == p {
        Err((p, ErrorKind::TakeWhile1))
    } else if !at(s, e, ' ') {
        Err((e, ErrorKind::Tag))
    } else {
        Ok((e + 1, (e - p) as nat))
    }
}

/// A heading: its marker, then a line of inline content.
pub open spec fn header(s: Seq<char>, p: int) -> Outcome<(nat, Seq<InlineModel>)> {
    match header_tag(s, p) {
        Err(f) => Err(f),
        Ok((q, n)) => match text(s, q) {
            Err(f) => Err(f),
            Ok((r, t)) => Ok((r, (n, t))),
        },
    }
}

/// `- `; the value is the dash.
pub open spec fn unordered_tag(s: Seq<char>, p: int) -> Outcome<Seq<char>> {
    if !at(s, p, '-') {
        Err((p, ErrorKind::Tag))
    } else if !at(s, p + 1, ' ') {
        Err((p + 1, ErrorKind::Tag))
    } else {
        Ok((p + 2, s.subrange(p, p + 1)))
    }
}

/// One or more digits, a dot and a space; the value is the digits.
pub open spec fn ordered_tag(s: Seq<char>, p: int) -> Outcome<Seq<char>> {
    let e = digit_end(s, p);
    if e == p {
        Err((p, ErrorKind::TakeWhile1))
    } else if !at(s, e, '.') {
        Err((e, ErrorKind::Tag))
    } else if !at(s, e + 1, ' ') {
        Err((e + 1, ErrorKind::Tag))
    } else {
        Ok((e + 2, s.subrange(p, e)))
    }
}

/// The marker of a list item of the given kind.
pub open spec fn list_tag(s: Seq<char>, p: int, ordered: bool) -> Outcome<Seq<char>> {
    if ordered {
        ordered_tag(s, p)
    } else {
        unordered_tag(s, p)
    }
}

/// A list item: its marker, then a line of inline content.
pub open spec fn list_element(s: Seq<char>, p: int, ordered: bool) -> Outcome<Seq<InlineModel>> {
    match list_tag(s, p, ordered) {
        Err(f) => Err(f),
        Ok((q, _)) => text(s, q),
    }
}

/// The longest run of items of one kind from `p`.
pub open spec fn list_items(s: Seq<char>, p: int, ordered: bool) -> (int, Seq<Seq<InlineModel>>)
    decreases s.len() - p,
{
    match list_element(s, p, ordered) {
        Ok((q, t)) => if p < q <= s.len() {
            let rest = list_items(s, q, ordered);
            (rest.0, seq![t] + rest.1)
        } else {
            (p, seq![])
        },
        Err(_) => (p, seq![]),
    }
}

/// A list: at least one item, then every item of the same kind that follows.
pub open spec fn list(s: Seq<char>, p: int, ordered: bool) -> Outcome<Seq<Seq<InlineModel>>> {
    match list_element(s, p, ordered) {
        Err(f) => Err(f),
        Ok(_) => Ok(list_items(s, p, ordered)),
    }
}

/// `---` and a line terminator; the value is the terminator.
pub open spec fn horizontal_rule(s: Seq<char>, p: int) -> Outcome<Seq<char>> {
    if !(at(s, p, '-') && at(s, p + 1, '-') && at(s, p + 2, '-')) {
        Err((p, ErrorKind::Tag))
    } else {
        match line_ending(s, p + 3) {
            Some(q) => Ok((q, s.subrange(p + 3, q))),
            None => Err((p + 3, ErrorKind::CrLf)),
        }
    }
}

/// A fenced code block: three backticks, an optional alphanumeric language,
/// a line terminator, the body up to the next three backticks, and those.
pub open spec fn code_block(s: Seq<char>, p: int) -> Outcome<(Seq<char>, Seq<char>)> {
    if !fence_at(s, p) {
        Err((p, ErrorKind::Tag))
    } else {
        let a = p + 3;
        let b = alnum_end(s, a);
        match line_ending(s, b) {
            None => Err((b, ErrorKind::CrLf)),
            Some(c) => match find_fence(s, c) {
                None => Err((c, ErrorKind::TakeUntil)),
                Some(j) => Ok((j + 3, (s.subrange(a, b), s.subrange(c, j)))),
            },
        }
    }
}

/// One block at `p`. The rules are tried in order; a line that starts like a
/// heading or a code fence but does not complete one is an error rather than
/// a plain line.
pub open spec fn block(s: Seq<char>, p: int) -> Outcome<BlockModel> {
    if horizontal_rule(s, p) is Ok {
        Ok((horizontal_rule(s, p)->Ok_0.0, BlockModel::HorizontalRule))
    } else if header(s, p) is Ok {
        let (q, (n, t)) = header(s, p)->Ok_0;
        Ok((q, BlockModel::Heading(n, t)))
    } else if list(s, p, false) is Ok {
        let (q, items) = list(s, p, false)->Ok_0;
        Ok((q, BlockModel::UnorderedList(items)))
    } else if list(s, p, true) is Ok {
        let (q, items) = list(s, p, true)->Ok_0;
        Ok((q, BlockModel::OrderedList(items)))
    } else if code_block(s, p) is Ok {
        let (q, (lang, body)) = code_block(s, p)->Ok_0;
        Ok((q, BlockModel::Codeblock(lang, body)))
    } else if at(s, p, '#') {
        Err(header(s, p)->Err_0)
    } else if fence_at(s, p) {
        Err(code_block(s, p)->Err_0)
    } else {
        match text(s, p) {
            Ok((q, t)) => Ok((q, BlockModel::Line(t))),
            Err(f) => Err(f),
        }
    }
}

/// The blocks from `p` to the end of the input; there is at least one, and a
/// block must match at every position reached. A block that consumes nothing
/// is an error.
pub open spec fn blocks(s: Seq<char>, p: int) -> Result<Seq<BlockModel>, (int, ErrorKind)>
    decreases s.len() - p,
{
    match block(s, p) {
        Err(f) => Err(f),
        Ok((q, b)) => if !(p < q <= s.len()) {
            Err((p, ErrorKind::Tag))
        } else if q == s.len() {
            Ok(seq![b])
        } else {
            match blocks(s, q) {
                Err(f) => Err(f),
                Ok(bs) => Ok(seq![b] + bs),
            }
        },
    }
}

/// The whole document.
pub open spec fn document(s: Seq<char>) -> Result<Seq<BlockModel>, (int, ErrorKind)> {
    blocks(s, 0)
}

} // verus!

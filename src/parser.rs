//! The parser: each rule of `grammar` as an executable function over a
//! character vector and a position, and the same rules on string slices.
use vstd::prelude::*;

use crate::chars::{chars_of, collect, push_char};
use crate::entity::{
    BlockModel, ErrorKind, InlineModel, Markdown, MarkdownInline, MarkdownText, ParseError,
};
use crate::grammar::{
    alnum_end, at, block, blocks, bold_span, code_block, digit_end, document, enclosed,
    fence_at, find_fence, header, header_tag, horizontal_rule, image_span, inline_element,
    inline_run, is_alphanumeric, line_ending, link_parts, link_span, list, list_element,
    list_items, literal, newline_ahead, ordered_tag, plain_run, plain_step, plaintext,
    repeat_end, run_end, single_span, text, unordered_tag, Outcome,
};

verus! {

/// Result of a rule at a position: the end and the value, or where it stopped and why.
pub type Step<T> = Result<(usize, T), (usize, ErrorKind)>;

/// The mathematical value of a step.
pub open spec fn lift<T: DeepView>(r: Step<T>) -> Outcome<T::V> {
    match r {
        Ok((q, v)) => Ok((q as int, v.deep_view())),
        Err((q, k)) => Err((q as int, k)),
    }
}

/// The position that a step reports lies in `[p, n]`.
pub open spec fn within<T>(r: Step<T>, p: int, n: int) -> bool {
    match r {
        Ok((q, _)) => p <= q <= n,
        Err((q, _)) => p <= q <= n,
    }
}

/// What a parse of the whole string `i` returns when the grammar gives `m`:
/// on success the rest of the input after the match and the value, on failure
/// the rest of the input from where it stopped and the reason.
pub open spec fn answers<'a, T: DeepView>(
    i: Seq<char>,
    r: Result<(&'a str, T), ParseError<'a>>,
    m: Outcome<T::V>,
) -> bool {
    match m {
        Ok((q, v)) => r is Ok && r->Ok_0.0@ == i.subrange(q, i.len() as int)
            && r->Ok_0.1.deep_view() == v,
        Err((q, k)) => r is Err && r->Err_0.input@ == i.subrange(q, i.len() as int)
            && r->Err_0.kind == k,
    }
}

fn at_exec(s: &Vec<char>, p: usize, c: char) -> (r: bool)
    ensures
        r == at(s@, p as int, c),
        s@.len() <= usize::MAX,
{
    p < s.len() && s[p] == c
}

fn fence_at_exec(s: &Vec<char>, p: usize) -> (r: bool)
    ensures
        r == fence_at(s@, p as int),
        s@.len() <= usize::MAX,
{
    at_exec(s, p, '`') && at_exec(s, p + 1, '`') && at_exec(s, p + 2, '`')
}

fn run_end_exec(s: &Vec<char>, p: usize, d: char) -> (r: usize)
    requires
        p <= s@.len(),
    ensures
        r == run_end(s@, p as int, d),
        p <= r <= s@.len(),
{
    let mut i = p;
    while i < s.len() && s[i] != d && s[i] != '\n'
        invariant
            p <= i <= s@.len(),
            run_end(s@, i as int, d) == run_end(s@, p as int, d),
        decreases s@.len() - i,
    {
        i += 1;
    }
    i
}

fn repeat_end_exec(s: &Vec<char>, p: usize, c: char) -> (r: usize)
    requires
        p <= s@.len(),
    ensures
        r == repeat_end(s@, p as int, c),
        p <= r <= s@.len(),
{
    let mut i = p;
    while i < s.len() && s[i] == c
        invariant
            p <= i <= s@.len(),
            repeat_end(s@, i as int, c) == repeat_end(s@, p as int, c),
        decreases s@.len() - i,
    {
        i += 1;
    }
    i
}

fn digit_end_exec(s: &Vec<char>, p: usize) -> (r: usize)
    requires
        p <= s@.len(),
    ensures
        r == digit_end(s@, p as int),
        p <= r <= s@.len(),
{
    let mut i = p;
    while i < s.len() && '0' <= s[i] && s[i] <= '9'
        invariant
            p <= i <= s@.len(),
            digit_end(s@, i as int) == digit_end(s@, p as int),
        decreases s@.len() - i,
    {
        i += 1;
    }
    i
}

fn is_alphanumeric_exec(c: char) -> (r: bool)
    ensures
        r == is_alphanumeric(c),
{
    ('a' <= c && c <= 'z') || ('A' <= c && c <= 'Z') || ('0' <= c && c <= '9')
}

fn alnum_end_exec(s: &Vec<char>, p: usize) -> (r: usize)
    requires
        p <= s@.len(),
    ensures
        r == alnum_end(s@, p as int),
        p <= r <= s@.len(),
{
    let mut i = p;
    while i < s.len() && is_alphanumeric_exec(s[i])
        invariant
            p <= i <= s@.len(),
            alnum_end(s@, i as int) == alnum_end(s@, p as int),
        decreases s@.len() - i,
    {
        i += 1;
    }
    i
}

fn line_ending_exec(s: &Vec<char>, p: usize) -> (r: Option<usize>)
    requires
        p <= s@.len(),
    ensures
        r matches Some(q) ==> line_ending(s@, p as int) == Some(q as int) && p < q <= s@.len(),
        r is None ==> line_ending(s@, p as int) is None,
{
    if at_exec(s, p, '\n') {
        Some(p + 1)
    } else if at_exec(s, p, '\r') && at_exec(s, p + 1, '\n') {
        Some(p + 2)
    } else {
        None
    }
}

fn find_fence_exec(s: &Vec<char>, p: usize) -> (r: Option<usize>)
    requires
        p <= s@.len(),
    ensures
        r matches Some(j) ==> find_fence(s@, p as int) == Some(j as int) && p <= j && j + 3
            <= s@.len(),
        r is None ==> find_fence(s@, p as int) is None,
        s@.len() <= usize::MAX,
{
    let mut i = p;
    while s.len() >= 3 && i <= s.len() - 3
        invariant
            p <= i <= s@.len(),
            find_fence(s@, i as int) == find_fence(s@, p as int),
        decreases s@.len() - i,
    {
        if fence_at_exec(s, i) {
            return Some(i);
        }
        i += 1;
    }
    None
}

// ---------------------------------------------------------------- inline rules

fn enclosed_exec(s: &Vec<char>, a: usize, c: char) -> (r: Step<String>)
    requires
        a <= s@.len(),
    ensures
        lift(r) == enclosed(s@, a as int, c),
        within(r, a as int, s@.len() as int),
{
    let e = run_end_exec(s, a, c);
    if e == a {
        Err((a, ErrorKind::IsNot))
    } else if !at_exec(s, e, c) {
        Err((e, ErrorKind::Tag))
    } else {
        Ok((e + 1, collect(s, a, e)))
    }
}

fn single_span_exec(s: &Vec<char>, p: usize, d: char) -> (r: Step<String>)
    requires
        p <= s@.len(),
    ensures
        lift(r) == single_span(s@, p as int, d),
        within(r, p as int, s@.len() as int),
{
    if !at_exec(s, p, d) {
        Err((p, ErrorKind::Tag))
    } else {
        enclosed_exec(s, p + 1, d)
    }
}

fn bold_span_exec(s: &Vec<char>, p: usize) -> (r: Step<String>)
    requires
        p <= s@.len(),
    ensures
        lift(r) == bold_span(s@, p as int),
        within(r, p as int, s@.len() as int),
{
    if !(at_exec(s, p, '*') && at_exec(s, p + 1, '*')) {
        Err((p, ErrorKind::Tag))
    } else {
        let a = p + 2;
        let e = run_end_exec(s, a, '*');
        if e == a {
            Err((a, ErrorKind::IsNot))
        } else if !(at_exec(s, e, '*') && at_exec(s, e + 1, '*')) {
            Err((e, ErrorKind::Tag))
        } else {
            Ok((e + 2, collect(s, a, e)))
        }
    }
}

fn link_parts_exec(s: &Vec<char>, a: usize) -> (r: Step<(String, String)>)
    requires
        a <= s@.len(),
    ensures
        lift(r) == link_parts(s@, a as int),
        within(r, a as int, s@.len() as int),
{
    match enclosed_exec(s, a, ']') {
        Err(f) => Err(f),
        Ok((q, label)) => {
            if !at_exec(s, q, '(') {
                Err((q, ErrorKind::Tag))
            } else {
                match enclosed_exec(s, q + 1, ')') {
                    Err(f) => Err(f),
                    Ok((r, target)) => Ok((r, (label, target))),
                }
            }
        },
    }
}

fn link_span_exec(s: &Vec<char>, p: usize) -> (r: Step<(String, String)>)
    requires
        p <= s@.len(),
    ensures
        lift(r) == link_span(s@, p as int),
        within(r, p as int, s@.len() as int),
{
    if !at_exec(s, p, '[') {
        Err((p, ErrorKind::Tag))
    } else {
        link_parts_exec(s, p + 1)
    }
}

fn image_span_exec(s: &Vec<char>, p: usize) -> (r: Step<(String, String)>)
    requires
        p <= s@.len(),
    ensures
        lift(r) == image_span(s@, p as int),
        within(r, p as int, s@.len() as int),
{
    if !(at_exec(s, p, '!') && at_exec(s, p + 1, '[')) {
        Err((p, ErrorKind::Tag))
    } else {
        link_parts_exec(s, p + 2)
    }
}

} // verus!

verus! {

fn plain_step_exec(s: &Vec<char>, p: usize) -> (r: Option<(usize, char)>)
    requires
        p <= s@.len(),
    ensures
        r matches Some((q, c)) ==> plain_step(s@, p as int) == Some((q as int, c)) && p < q
            <= s@.len(),
        r is None ==> plain_step(s@, p as int) is None,
{
    if p < s.len() {
        let c = s[p];
        if !(c == '*' || c == '`' || c == '~' || c == '[' || c == '\\' || c == '\n' || c == '\r')
            && !(c == '!' && at_exec(s, p + 1, '[')) {
            return Some((p + 1, c));
        }
        if c == '\\' && p + 1 < s.len() {
            let d = s[p + 1];
            if d == '*' || d == '`' || d == '[' || d == ']' || d == '~' || d == '!' {
                return Some((p + 2, d));
            }
        }
    }
    None
}

fn plain_run_exec(s: &Vec<char>, p: usize) -> (r: (usize, String))
    requires
        p <= s@.len(),
    ensures
        r.0 == plain_run(s@, p as int).0,
        r.1@ == plain_run(s@, p as int).1,
        p <= r.0 <= s@.len(),
{
    let mut acc = String::new();
    let mut i = p;
    loop
        invariant
            p <= i <= s@.len(),
            plain_run(s@, p as int).0 == plain_run(s@, i as int).0,
            plain_run(s@, p as int).1 == acc@ + plain_run(s@, i as int).1,
        decreases s@.len() - i,
    {
        if i >= s.len() {
            assert(acc@ + plain_run(s@, i as int).1 =~= acc@);
            return (i, acc);
        }
        match plain_step_exec(s, i) {
            None => {
                assert(acc@ + plain_run(s@, i as int).1 =~= acc@);
                return (i, acc);
            },
            Some((q, c)) => {
                let ghost before = acc@;
                push_char(&mut acc, c);
                assert(before + plain_run(s@, i as int).1 =~= acc@ + plain_run(s@, q as int).1);
                i = q;
            },
        }
    }
}

fn plaintext_exec(s: &Vec<char>, p: usize) -> (r: Step<String>)
    requires
        p <= s@.len(),
    ensures
        lift(r) == plaintext(s@, p as int),
        within(r, p as int, s@.len() as int),
{
    if plain_step_exec(s, p).is_none() {
        Err((p, ErrorKind::Tag))
    } else {
        Ok(plain_run_exec(s, p))
    }
}

fn newline_ahead_exec(s: &Vec<char>, p: usize) -> (r: bool)
    requires
        p <= s@.len(),
    ensures
        r == newline_ahead(s@, p as int),
{
    let mut i = p;
    while i < s.len()
        invariant
            p <= i <= s@.len(),
            forall|j: int| p <= j < i ==> s@[j] != '\n',
        decreases s@.len() - i,
    {
        if s[i] == '\n' {
            return true;
        }
        i += 1;
    }
    false
}

fn literal_exec(s: &Vec<char>, p: usize) -> (r: Option<(usize, String)>)
    requires
        p <= s@.len(),
    ensures
        r matches Some((q, t)) ==> literal(s@, p as int) == Some((q as int, t@)) && p < q
            <= s@.len(),
        r is None ==> literal(s@, p as int) is None,
{
    if p < s.len() && s[p] != '\n' && s[p] != '\r' && newline_ahead_exec(s, p) {
        let mut t = String::new();
        push_char(&mut t, s[p]);
        let (q, rest) = plain_run_exec(s, p + 1);
        t.append(rest.as_str());
        assert(t@ =~= seq![s@[p as int]] + plain_run(s@, p + 1).1);
        Some((q, t))
    } else {
        None
    }
}

fn inline_exec(s: &Vec<char>, p: usize) -> (r: Option<(usize, MarkdownInline)>)
    requires
        p <= s@.len(),
    ensures
        r matches Some((q, m)) ==> inline_element(s@, p as int) == Some((q as int, m.deep_view()))
            && p <= q <= s@.len(),
        r is None ==> inline_element(s@, p as int) is None,
{
    if let Ok((q, t)) = single_span_exec(s, p, '*') {
        return Some((q, MarkdownInline::Italic(t)));
    }
    if let Ok((q, t)) = single_span_exec(s, p, '~') {
        return Some((q, MarkdownInline::Strike(t)));
    }
    if let Ok((q, t)) = single_span_exec(s, p, '`') {
        return Some((q, MarkdownInline::InlineCode(t)));
    }
    if let Ok((q, t)) = bold_span_exec(s, p) {
        return Some((q, MarkdownInline::Bold(t)));
    }
    if let Ok((q, (a, u))) = image_span_exec(s, p) {
        return Some((q, MarkdownInline::Image(a, u)));
    }
    if let Ok((q, (l, u))) = link_span_exec(s, p) {
        return Some((q, MarkdownInline::Link(l, u)));
    }
    if let Ok((q, t)) = plaintext_exec(s, p) {
        return Some((q, MarkdownInline::Plaintext(t)));
    }
    if let Some((q, t)) = literal_exec(s, p) {
        return Some((q, MarkdownInline::Plaintext(t)));
    }
    None
}

fn inline_run_exec(s: &Vec<char>, p: usize) -> (r: (usize, MarkdownText))
    requires
        p <= s@.len(),
    ensures
        r.0 == inline_run(s@, p as int).0,
        r.1.deep_view() == inline_run(s@, p as int).1,
        p <= r.0 <= s@.len(),
{
    let mut acc: MarkdownText = Vec::new();
    let mut i = p;
    loop
        invariant
            p <= i <= s@.len(),
            inline_run(s@, p as int).0 == inline_run(s@, i as int).0,
            inline_run(s@, p as int).1 == acc.deep_view() + inline_run(s@, i as int).1,
        decreases s@.len() - i,
    {
        match inline_exec(s, i) {
            Some((q, m)) => {
                if q <= i {
                    assert(acc.deep_view() + inline_run(s@, i as int).1 =~= acc.deep_view());
                    return (i, acc);
                }
                let ghost before = acc.deep_view();
                let ghost mv = m.deep_view();
                acc.push(m);
                assert(acc.deep_view() =~= before.push(mv));
                assert(before + inline_run(s@, i as int).1 =~= acc.deep_view() + inline_run(
                    s@,
                    q as int,
                ).1);
                i = q;
            },
            None => {
                assert(acc.deep_view() + inline_run(s@, i as int).1 =~= acc.deep_view());
                return (i, acc);
            },
        }
    }
}

fn text_exec(s: &Vec<char>, p: usize) -> (r: Step<MarkdownText>)
    requires
        p <= s@.len(),
    ensures
        lift(r) == text(s@, p as int),
        within(r, p as int, s@.len() as int),
{
    let (q, items) = inline_run_exec(s, p);
    if at_exec(s, q, '\n') {
        Ok((q + 1, items))
    } else {
        Err((q, ErrorKind::Tag))
    }
}

} // verus!

verus! {

// ----------------------------------------------------------------- block rules

fn header_tag_exec(s: &Vec<char>, p: usize) -> (r: Step<usize>)
    requires
        p <= s@.len(),
    ensures
        r matches Ok((q, n)) ==> header_tag(s@, p as int) == Ok::<(int, nat), (int, ErrorKind)>(
            (q as int, n as nat),
        ),
        r matches Err((q, k)) ==> header_tag(s@, p as int) == Err::<(int, nat), (int, ErrorKind)>(
            (q as int, k),
        ),
        within(r, p as int, s@.len() as int),
{
    let e = repeat_end_exec(s, p, '#');
    if e == p {
        Err((p, ErrorKind::TakeWhile1))
    } else if !at_exec(s, e, ' ') {
        Err((e, ErrorKind::Tag))
    } else {
        Ok((e + 1, e - p))
    }
}

fn header_exec(s: &Vec<char>, p: usize) -> (r: Step<(usize, MarkdownText)>)
    requires
        p <= s@.len(),
    ensures
        r matches Ok((q, (n, t))) ==> header(s@, p as int) == Ok::<
            (int, (nat, Seq<InlineModel>)),
            (int, ErrorKind),
        >((q as int, (n as nat, t.deep_view()))),
        r matches Err((q, k)) ==> header(s@, p as int) == Err::<
            (int, (nat, Seq<InlineModel>)),
            (int, ErrorKind),
        >((q as int, k)),
        within(r, p as int, s@.len() as int),
{
    match header_tag_exec(s, p) {
        Err(f) => Err(f),
        Ok((q, n)) => match text_exec(s, q) {
            Err(f) => Err(f),
            Ok((r, t)) => Ok((r, (n, t))),
        },
    }
}

fn unordered_tag_exec(s: &Vec<char>, p: usize) -> (r: Step<String>)
    requires
        p <= s@.len(),
    ensures
        lift(r) == unordered_tag(s@, p as int),
        within(r, p as int, s@.len() as int),
{
    if !at_exec(s, p, '-') {
        Err((p, ErrorKind::Tag))
    } else if !at_exec(s, p + 1, ' ') {
        Err((p + 1, ErrorKind::Tag))
    } else {
        Ok((p + 2, collect(s, p, p + 1)))
    }
}

fn ordered_tag_exec(s: &Vec<char>, p: usize) -> (r: Step<String>)
    requires
        p <= s@.len(),
    ensures
        lift(r) == ordered_tag(s@, p as int),
        within(r, p as int, s@.len() as int),
{
    let e = digit_end_exec(s, p);
    if e == p {
        Err((p, ErrorKind::TakeWhile1))
    } else if !at_exec(s, e, '.') {
        Err((e, ErrorKind::Tag))
    } else if !at_exec(s, e + 1, ' ') {
        Err((e + 1, ErrorKind::Tag))
    } else {
        Ok((e + 2, collect(s, p, e)))
    }
}

fn list_element_exec(s: &Vec<char>, p: usize, ordered: bool) -> (r: Step<MarkdownText>)
    requires
        p <= s@.len(),
    ensures
        lift(r) == list_element(s@, p as int, ordered),
        within(r, p as int, s@.len() as int),
{
    let tag = if ordered {
        ordered_tag_exec(s, p)
    } else {
        unordered_tag_exec(s, p)
    };
    match tag {
        Err(f) => Err(f),
        Ok((q, _)) => text_exec(s, q),
    }
}

fn list_items_exec(s: &Vec<char>, p: usize, ordered: bool) -> (r: (usize, Vec<MarkdownText>))
    requires
        p <= s@.len(),
    ensures
        r.0 == list_items(s@, p as int, ordered).0,
        r.1.deep_view() == list_items(s@, p as int, ordered).1,
        p <= r.0 <= s@.len(),
{
    let mut acc: Vec<MarkdownText> = Vec::new();
    let mut i = p;
    loop
        invariant
            p <= i <= s@.len(),
            list_items(s@, p as int, ordered).0 == list_items(s@, i as int, ordered).0,
            list_items(s@, p as int, ordered).1 == acc.deep_view() + list_items(
                s@,
                i as int,
                ordered,
            ).1,
        decreases s@.len() - i,
    {
        match list_element_exec(s, i, ordered) {
            Ok((q, t)) => {
                if q <= i {
                    assert(acc.deep_view() + list_items(s@, i as int, ordered).1
                        =~= acc.deep_view());
                    return (i, acc);
                }
                let ghost before = acc.deep_view();
                let ghost tv = t.deep_view();
                acc.push(t);
                assert(acc.deep_view() =~= before.push(tv));
                assert(before + list_items(s@, i as int, ordered).1 =~= acc.deep_view()
                    + list_items(s@, q as int, ordered).1);
                i = q;
            },
            Err(_) => {
                assert(acc.deep_view() + list_items(s@, i as int, ordered).1 =~= acc.deep_view());
                return (i, acc);
            },
        }
    }
}

fn list_exec(s: &Vec<char>, p: usize, ordered: bool) -> (r: Step<Vec<MarkdownText>>)
    requires
        p <= s@.len(),
    ensures
        lift(r) == list(s@, p as int, ordered),
        within(r, p as int, s@.len() as int),
{
    match list_element_exec(s, p, ordered) {
        Err(f) => Err(f),
        Ok(_) => Ok(list_items_exec(s, p, ordered)),
    }
}

fn horizontal_rule_exec(s: &Vec<char>, p: usize) -> (r: Step<String>)
    requires
        p <= s@.len(),
    ensures
        lift(r) == horizontal_rule(s@, p as int),
        within(r, p as int, s@.len() as int),
{
    if !(at_exec(s, p, '-') && at_exec(s, p + 1, '-') && at_exec(s, p + 2, '-')) {
        Err((p, ErrorKind::Tag))
    } else {
        match line_ending_exec(s, p + 3) {
            Some(q) => Ok((q, collect(s, p + 3, q))),
            None => Err((p + 3, ErrorKind::CrLf)),
        }
    }
}

fn code_block_exec(s: &Vec<char>, p: usize) -> (r: Step<(String, String)>)
    requires
        p <= s@.len(),
    ensures
        lift(r) == code_block(s@, p as int),
        within(r, p as int, s@.len() as int),
{
    if !fence_at_exec(s, p) {
        Err((p, ErrorKind::Tag))
    } else {
        let a = p + 3;
        let b = alnum_end_exec(s, a);
        match line_ending_exec(s, b) {
            None => Err((b, ErrorKind::CrLf)),
            Some(c) => match find_fence_exec(s, c) {
                None => Err((c, ErrorKind::TakeUntil)),
                Some(j) => Ok((j + 3, (collect(s, a, b), collect(s, c, j)))),
            },
        }
    }
}

fn block_exec(s: &Vec<char>, p: usize) -> (r: Step<Markdown>)
    requires
        p <= s@.len(),
    ensures
        lift(r) == block(s@, p as int),
        within(r, p as int, s@.len() as int),
{
    if let Ok((q, _)) = horizontal_rule_exec(s, p) {
        return Ok((q, Markdown::HorizontalRule));
    }
    let heading = header_exec(s, p);
    if let Ok((q, (n, t))) = heading {
        return Ok((q, Markdown::Heading(n, t)));
    }
    if let Ok((q, items)) = list_exec(s, p, false) {
        return Ok((q, Markdown::UnorderedList(items)));
    }
    if let Ok((q, items)) = list_exec(s, p, true) {
        return Ok((q, Markdown::OrderedList(items)));
    }
    let code = code_block_exec(s, p);
    if let Ok((q, (lang, body))) = code {
        return Ok((q, Markdown::Codeblock(lang, body)));
    }
    if at_exec(s, p, '#') {
        if let Err(f) = heading {
            return Err(f);
        }
    }
    if fence_at_exec(s, p) {
        if let Err(f) = code {
            return Err(f);
        }
    }
    match text_exec(s, p) {
        Ok((q, t)) => Ok((q, Markdown::Line(t))),
        Err(f) => Err(f),
    }
}

/// Parses the blocks of `s` from `p` to its end.
fn blocks_exec(s: &Vec<char>, p: usize) -> (r: Result<Vec<Markdown>, (usize, ErrorKind)>)
    requires
        p <= s@.len(),
    ensures
        r matches Ok(v) ==> blocks(s@, p as int) == Ok::<Seq<BlockModel>, (int, ErrorKind)>(
            v.deep_view(),
        ),
        r matches Err((q, k)) ==> blocks(s@, p as int) == Err::<Seq<BlockModel>, (int, ErrorKind)>(
            (q as int, k),
        ) && q <= s@.len(),
{
    let mut acc: Vec<Markdown> = Vec::new();
    let mut i = p;
    loop
        invariant
            p <= i <= s@.len(),
            blocks(s@, i as int) is Ok ==> blocks(s@, p as int) == Ok::<
                Seq<BlockModel>,
                (int, ErrorKind),
            >(acc.deep_view() + blocks(s@, i as int)->Ok_0),
            blocks(s@, i as int) is Err ==> blocks(s@, p as int) == blocks(s@, i as int),
        decreases s@.len() - i,
    {
        match block_exec(s, i) {
            Err(f) => {
                return Err(f);
            },
            Ok((q, b)) => {
                if q <= i {
                    return Err((i, ErrorKind::Tag));
                }
                let ghost before = acc.deep_view();
                let ghost bv = b.deep_view();
                acc.push(b);
                assert(acc.deep_view() =~= before.push(bv));
                if q == s.len() {
                    assert(before + seq![bv] =~= acc.deep_view());
                    return Ok(acc);
                }
                assert(blocks(s@, q as int) is Ok ==> before + (seq![bv] + blocks(
                    s@,
                    q as int,
                )->Ok_0) =~= acc.deep_view() + blocks(s@, q as int)->Ok_0);
                i = q;
            },
        }
    }
}

} // verus!

verus! {

// ------------------------------------------------------- rules on string slices

/// A heading level as the parser returns it.
pub open spec fn level_outcome(m: Outcome<nat>) -> Outcome<usize> {
    match m {
        Ok((q, n)) => Ok((q, n as usize)),
        Err(f) => Err(f),
    }
}

/// A heading as the parser returns it.
pub open spec fn heading_outcome(m: Outcome<(nat, Seq<InlineModel>)>) -> Outcome<
    (usize, Seq<InlineModel>),
> {
    match m {
        Ok((q, (n, t))) => Ok((q, (n as usize, t))),
        Err(f) => Err(f),
    }
}

/// An inline element as the parser returns it: where no rule matches, it
/// fails where it started.
pub open spec fn inline_outcome(s: Seq<char>, p: int) -> Outcome<InlineModel> {
    match inline_element(s, p) {
        Some((q, m)) => Ok((q, m)),
        None => Err((p, ErrorKind::Tag)),
    }
}

/// A whole document as the parser returns it: on success nothing is left.
pub open spec fn document_outcome(s: Seq<char>) -> Outcome<Seq<BlockModel>> {
    match document(s) {
        Ok(bs) => Ok((s.len() as int, bs)),
        Err(f) => Err(f),
    }
}

fn finish<'a, T: DeepView>(i: &'a str, r: Step<T>) -> (out: Result<(&'a str, T), ParseError<'a>>)
    requires
        within(r, 0, i@.len() as int),
    ensures
        answers(i@, out, lift(r)),
{
    let n = i.unicode_len();
    match r {
        Ok((q, v)) => Ok((i.substring_char(q, n), v)),
        Err((q, k)) => Err(ParseError { input: i.substring_char(q, n), kind: k }),
    }
}

/// Parses a whole document into its blocks.
pub fn parse_markdown<'a>(i: &'a str) -> (r: Result<(&'a str, Vec<Markdown>), ParseError<'a>>)
    ensures
        answers(i@, r, document_outcome(i@)),
{
    let s = chars_of(i);
    let step = match blocks_exec(&s, 0) {
        Ok(v) => Ok((s.len(), v)),
        Err(f) => Err(f),
    };
    finish(i, step)
}

/// `---` and a line terminator.
pub fn parse_horizontal_rule<'a>(i: &'a str) -> (r: Result<(&'a str, String), ParseError<'a>>)
    ensures
        answers(i@, r, horizontal_rule(i@, 0)),
{
    let s = chars_of(i);
    finish(i, horizontal_rule_exec(&s, 0))
}

/// A bold span `**...**`.
pub fn parse_boldtext<'a>(i: &'a str) -> (r: Result<(&'a str, String), ParseError<'a>>)
    ensures
        answers(i@, r, bold_span(i@, 0)),
{
    let s = chars_of(i);
    finish(i, bold_span_exec(&s, 0))
}

/// An italic span `*...*`.
pub fn parse_italics<'a>(i: &'a str) -> (r: Result<(&'a str, String), ParseError<'a>>)
    ensures
        answers(i@, r, single_span(i@, 0, '*')),
{
    let s = chars_of(i);
    finish(i, single_span_exec(&s, 0, '*'))
}

/// A strikethrough span `~...~`.
pub fn parse_strike<'a>(i: &'a str) -> (r: Result<(&'a str, String), ParseError<'a>>)
    ensures
        answers(i@, r, single_span(i@, 0, '~')),
{
    let s = chars_of(i);
    finish(i, single_span_exec(&s, 0, '~'))
}

/// An inline code span `` `...` ``.
pub fn parse_inline_code<'a>(i: &'a str) -> (r: Result<(&'a str, String), ParseError<'a>>)
    ensures
        answers(i@, r, single_span(i@, 0, '`')),
{
    let s = chars_of(i);
    finish(i, single_span_exec(&s, 0, '`'))
}

/// A link `[label](target)`; the value is the label and the target.
pub fn parse_link<'a>(i: &'a str) -> (r: Result<(&'a str, (String, String)), ParseError<'a>>)
    ensures
        answers(i@, r, link_span(i@, 0)),
{
    let s = chars_of(i);
    finish(i, link_span_exec(&s, 0))
}

/// An image `![alt](target)`; the value is the alt text and the target.
pub fn parse_image<'a>(i: &'a str) -> (r: Result<(&'a str, (String, String)), ParseError<'a>>)
    ensures
        answers(i@, r, image_span(i@, 0)),
{
    let s = chars_of(i);
    finish(i, image_span_exec(&s, 0))
}

/// A run of plain text, with escaped delimiters decoded.
pub fn parse_plaintext<'a>(i: &'a str) -> (r: Result<(&'a str, String), ParseError<'a>>)
    ensures
        answers(i@, r, plaintext(i@, 0)),
{
    let s = chars_of(i);
    finish(i, plaintext_exec(&s, 0))
}

/// One inline element.
pub fn parse_markdown_inline<'a>(i: &'a str) -> (r: Result<(&'a str, MarkdownInline), ParseError<'a>>)
    ensures
        answers(i@, r, inline_outcome(i@, 0)),
{
    let s = chars_of(i);
    let step = match inline_exec(&s, 0) {
        Some((q, m)) => Ok((q, m)),
        None => Err((0, ErrorKind::Tag)),
    };
    finish(i, step)
}

/// The inline content of a line and its line feed.
pub fn parse_markdown_text<'a>(i: &'a str) -> (r: Result<(&'a str, MarkdownText), ParseError<'a>>)
    ensures
        answers(i@, r, text(i@, 0)),
{
    let s = chars_of(i);
    finish(i, text_exec(&s, 0))
}

/// A heading marker: one or more `#` and a space; the value is the level.
pub fn parse_header_tag<'a>(i: &'a str) -> (r: Result<(&'a str, usize), ParseError<'a>>)
    ensures
        answers(i@, r, level_outcome(header_tag(i@, 0))),
{
    let s = chars_of(i);
    finish(i, header_tag_exec(&s, 0))
}

/// A heading line; the value is the level and the content.
pub fn parse_header<'a>(i: &'a str) -> (r: Result<(&'a str, (usize, MarkdownText)), ParseError<'a>>)
    ensures
        answers(i@, r, heading_outcome(header(i@, 0))),
{
    let s = chars_of(i);
    finish(i, header_exec(&s, 0))
}

/// The marker `- ` of an unordered item; the value is the dash.
pub fn parse_unordered_list_tag<'a>(i: &'a str) -> (r: Result<(&'a str, String), ParseError<'a>>)
    ensures
        answers(i@, r, unordered_tag(i@, 0)),
{
    let s = chars_of(i);
    finish(i, unordered_tag_exec(&s, 0))
}

/// One unordered item line.
pub fn parse_unordered_list_element<'a>(i: &'a str) -> (r: Result<
    (&'a str, MarkdownText),
    ParseError<'a>,
>)
    ensures
        answers(i@, r, list_element(i@, 0, false)),
{
    let s = chars_of(i);
    finish(i, list_element_exec(&s, 0, false))
}

/// A run of unordered items.
pub fn parse_unordered_list<'a>(i: &'a str) -> (r: Result<
    (&'a str, Vec<MarkdownText>),
    ParseError<'a>,
>)
    ensures
        answers(i@, r, list(i@, 0, false)),
{
    let s = chars_of(i);
    finish(i, list_exec(&s, 0, false))
}

/// The marker `<digits>. ` of an ordered item; the value is the digits.
pub fn parse_ordered_list_tag<'a>(i: &'a str) -> (r: Result<(&'a str, String), ParseError<'a>>)
    ensures
        answers(i@, r, ordered_tag(i@, 0)),
{
    let s = chars_of(i);
    finish(i, ordered_tag_exec(&s, 0))
}

/// One ordered item line.
pub fn parse_ordered_list_element<'a>(i: &'a str) -> (r: Result<
    (&'a str, MarkdownText),
    ParseError<'a>,
>)
    ensures
        answers(i@, r, list_element(i@, 0, true)),
{
    let s = chars_of(i);
    finish(i, list_element_exec(&s, 0, true))
}

/// A run of ordered items.
pub fn parse_ordered_list<'a>(i: &'a str) -> (r: Result<
    (&'a str, Vec<MarkdownText>),
    ParseError<'a>,
>)
    ensures
        answers(i@, r, list(i@, 0, true)),
{
    let s = chars_of(i);
    finish(i, list_exec(&s, 0, true))
}

/// A fenced code block; the value is the language and the body.
pub fn parse_code_block<'a>(i: &'a str) -> (r: Result<(&'a str, (String, String)), ParseError<'a>>)
    ensures
        answers(i@, r, code_block(i@, 0)),
{
    let s = chars_of(i);
    finish(i, code_block_exec(&s, 0))
}

} // verus!

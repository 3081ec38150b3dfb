//! Properties of the grammar and of the parser as a whole.
use vstd::prelude::*;

use crate::entity::{BlockModel, InlineModel, Markdown, ParseError};
use crate::grammar::{
    alnum_end, at, block, digit_end, header, horizontal_rule, inline_run, list, list_element, is_escapable, plain_step, plaintext, text, blocks, code_block, document, fence_at, find_fence, inline_element,
    is_alphanumeric, is_digit, list_items, newline_ahead, plain_run, repeat_end, run_end,
};
use crate::parser::{answers, document_outcome};
use crate::translator::render;

verus! {

proof fn lemma_run_end(s: Seq<char>, p: int, d: char, e: int)
    requires
        0 <= p <= e <= s.len(),
        forall|k: int| p <= k < e ==> s[k] != d && s[k] != '\n',
        e < s.len() ==> (s[e] == d || s[e] == '\n'),
    ensures
        run_end(s, p, d) == e,
    decreases e - p,
{
    if p < e {
        lemma_run_end(s, p + 1, d, e);
    }
}

proof fn lemma_repeat_end(s: Seq<char>, p: int, c: char, e: int)
    requires
        0 <= p <= e <= s.len(),
        forall|k: int| p <= k < e ==> s[k] == c,
        !at(s, e, c),
    ensures
        repeat_end(s, p, c) == e,
    decreases e - p,
{
    if p < e {
        lemma_repeat_end(s, p + 1, c, e);
    }
}

proof fn lemma_alnum_end(s: Seq<char>, p: int, e: int)
    requires
        0 <= p <= e <= s.len(),
        forall|k: int| p <= k < e ==> is_alphanumeric(s[k]),
        e < s.len() ==> !is_alphanumeric(s[e]),
    ensures
        alnum_end(s, p) == e,
    decreases e - p,
{
    if p < e {
        lemma_alnum_end(s, p + 1, e);
    }
}

proof fn lemma_find_fence(s: Seq<char>, c: int, j: int)
    requires
        0 <= c <= j,
        fence_at(s, j),
        forall|k: int| c <= k < j ==> !fence_at(s, k),
    ensures
        find_fence(s, c) == Some(j),
    decreases j - c,
{
    if c < j {
        lemma_find_fence(s, c + 1, j);
    }
}

/// Parsing and rendering depend on the text alone: two results that meet the
/// contract of `parse_markdown` for the same text agree, and so does the HTML
/// that `translate` makes of the blocks they hold.
pub proof fn law_deterministic<'a, 'b>(
    i: Seq<char>,
    r1: Result<(&'a str, Vec<Markdown>), ParseError<'a>>,
    r2: Result<(&'b str, Vec<Markdown>), ParseError<'b>>,
)
    requires
        answers(i, r1, document_outcome(i)),
        answers(i, r2, document_outcome(i)),
    ensures
        r1 is Ok <==> r2 is Ok,
        r1 is Ok ==> r1->Ok_0.0@ == r2->Ok_0.0@ && r1->Ok_0.1.deep_view()
            == r2->Ok_0.1.deep_view() && render(r1->Ok_0.1.deep_view()) == render(
            r2->Ok_0.1.deep_view(),
        ),
        r1 is Err ==> r1->Err_0.input@ == r2->Err_0.input@ && r1->Err_0.kind == r2->Err_0.kind,
{
}

/// A `*` with no other `*` after it on its line starts no span: on that line
/// it becomes plain text, followed by the plain text after it.
pub proof fn law_unmatched_star_is_plain(s: Seq<char>, p: int, j: int)
    requires
        0 <= p < j < s.len(),
        s[p] == '*',
        s[j] == '\n',
        forall|k: int| p < k < j ==> s[k] != '*' && s[k] != '\n',
    ensures
        inline_element(s, p) == Some(
            (plain_run(s, p + 1).0, InlineModel::Plaintext(seq!['*'] + plain_run(s, p + 1).1)),
        ),
{
    lemma_run_end(s, p + 1, '*', j);
    assert(newline_ahead(s, p)) by {
        assert(p <= j < s.len() && s[j] == '\n');
    }
}

proof fn lemma_escaped_run(s: Seq<char>, p: int, n: int, m: int)
    requires
        0 <= p,
        0 <= m <= n,
        p + 2 * n < s.len(),
        forall|k: int| 0 <= k < n ==> #[trigger] s[p + 2 * k] == '\\' && is_escapable(s[p + 2 * k + 1]),
        s[p + 2 * n] == '\n',
    ensures
        plain_run(s, p + 2 * m) == (
            p + 2 * n,
            Seq::new((n - m) as nat, |k: int| s[p + 2 * (m + k) + 1]),
        ),
    decreases n - m,
{
    let q = p + 2 * m;
    if m < n {
        lemma_escaped_run(s, p, n, m + 1);
        assert(s[q] == '\\' && is_escapable(s[q + 1]));
        assert(plain_step(s, q) == Some((q + 2, s[q + 1])));
        assert(seq![s[q + 1]] + Seq::new((n - m - 1) as nat, |k: int| s[p + 2 * (m + 1 + k) + 1])
            =~= Seq::new((n - m) as nat, |k: int| s[p + 2 * (m + k) + 1]));
    } else {
        assert(Seq::new((n - m) as nat, |k: int| s[p + 2 * (m + k) + 1]) =~= Seq::<char>::empty());
    }
}

/// A line made of backslash-escaped delimiters is one run of plain text that
/// holds the delimiters themselves, with no span read into it.
pub proof fn law_escapes_are_literal(s: Seq<char>, p: int, n: int)
    requires
        0 <= p,
        1 <= n,
        p + 2 * n < s.len(),
        forall|k: int| 0 <= k < n ==> #[trigger] s[p + 2 * k] == '\\' && is_escapable(s[p + 2 * k + 1]),
        s[p + 2 * n] == '\n',
    ensures
        text(s, p) == Ok::<(int, Seq<InlineModel>), (int, crate::entity::ErrorKind)>(
            (
                p + 2 * n + 1,
                seq![InlineModel::Plaintext(Seq::new(n as nat, |k: int| s[p + 2 * k + 1]))],
            ),
        ),
{
    lemma_escaped_run(s, p, n, 0);
    assert(Seq::new((n - 0) as nat, |k: int| s[p + 2 * (0 + k) + 1]) =~= Seq::new(
        n as nat,
        |k: int| s[p + 2 * k + 1],
    ));
    let dec = Seq::new(n as nat, |k: int| s[p + 2 * k + 1]);
    let q = p + 2 * n;
    assert(s[p + 2 * 0] == '\\' && is_escapable(s[p + 2 * 0 + 1]));
    assert(plain_step(s, p) is Some);
    assert(plaintext(s, p) == Ok::<(int, Seq<char>), (int, crate::entity::ErrorKind)>((q, dec)));
    assert(inline_element(s, p) == Some((q, InlineModel::Plaintext(dec))));
    assert(inline_element(s, q) is None);
    assert(inline_run(s, q) == (q, Seq::<InlineModel>::empty()));
    assert(inline_run(s, p).1 =~= seq![InlineModel::Plaintext(dec)]);
}

/// A run of list items of one kind never takes in an item of the other kind:
/// a line that starts with a digit ends an unordered run, and a line that
/// starts with a dash ends an ordered run.
pub proof fn law_list_kinds_do_not_mix(s: Seq<char>, p: int)
    ensures
        0 <= p < s.len() && is_digit(s[p]) ==> list_items(s, p, false) == (
            p,
            Seq::<Seq<InlineModel>>::empty(),
        ),
        at(s, p, '-') ==> list_items(s, p, true) == (p, Seq::<Seq<InlineModel>>::empty()),
{
    assert(list_items(s, p, false) == (p, Seq::<Seq<InlineModel>>::empty())
        <== 0 <= p < s.len() && is_digit(s[p]));
    assert(list_items(s, p, true) == (p, Seq::<Seq<InlineModel>>::empty()) <== at(s, p, '-'));
}

/// A line that starts with `#` marks but has no space after them is no
/// heading, and the parse fails there rather than read it otherwise.
pub proof fn law_heading_needs_space(s: Seq<char>, p: int, k: int)
    requires
        0 <= p,
        1 <= k,
        p + k <= s.len(),
        forall|i: int| p <= i < p + k ==> s[i] == '#',
        p + k < s.len() ==> s[p + k] != '#' && s[p + k] != ' ',
    ensures
        block(s, p) is Err,
        blocks(s, p) is Err,
        p == 0 ==> document(s) is Err,
{
    lemma_repeat_end(s, p, '#', p + k);
    assert(!is_digit(s[p]));
}

/// A fenced code block keeps its body as it stands between the fences, line
/// feeds and shorter runs of backticks included, and its language as written.
pub proof fn law_code_block_verbatim(s: Seq<char>, p: int, b: int, j: int)
    requires
        0 <= p,
        p + 3 <= b < j,
        fence_at(s, p),
        forall|k: int| p + 3 <= k < b ==> is_alphanumeric(s[k]),
        s[b] == '\n',
        fence_at(s, j),
        forall|k: int| b + 1 <= k < j ==> !fence_at(s, k),
    ensures
        code_block(s, p) == Ok::<(int, (Seq<char>, Seq<char>)), (int, crate::entity::ErrorKind)>(
            (j + 3, (s.subrange(p + 3, b), s.subrange(b + 1, j))),
        ),
        block(s, p) == Ok::<(int, BlockModel), (int, crate::entity::ErrorKind)>(
            (j + 3, BlockModel::Codeblock(s.subrange(p + 3, b), s.subrange(b + 1, j))),
        ),
{
    lemma_alnum_end(s, p + 3, b);
    lemma_find_fence(s, b + 1, j);
    lemma_repeat_end(s, p, '#', p);
    assert(!is_digit(s[p]));
}

proof fn lemma_ends_not_before(s: Seq<char>, p: int, c: char)
    ensures
        digit_end(s, p) >= p,
        repeat_end(s, p, c) >= p,
        alnum_end(s, p) >= p,
    decreases s.len() - p,
{
    if 0 <= p < s.len() {
        lemma_ends_not_before(s, p + 1, c);
    }
}

proof fn lemma_inline_run_bounds(s: Seq<char>, p: int)
    requires
        0 <= p <= s.len(),
    ensures
        p <= inline_run(s, p).0 <= s.len(),
    decreases s.len() - p,
{
    if let Some((q, m)) = inline_element(s, p) {
        if p < q <= s.len() {
            lemma_inline_run_bounds(s, q);
        }
    }
}

proof fn lemma_text_bounds(s: Seq<char>, p: int)
    requires
        0 <= p <= s.len(),
    ensures
        text(s, p) matches Ok((q, _)) ==> p < q <= s.len(),
{
    lemma_inline_run_bounds(s, p);
}

proof fn lemma_list_items_bounds(s: Seq<char>, p: int, ordered: bool)
    requires
        0 <= p <= s.len(),
    ensures
        p <= list_items(s, p, ordered).0 <= s.len(),
        list_element(s, p, ordered) is Ok ==> p < list_items(s, p, ordered).0,
    decreases s.len() - p,
{
    if let Ok((q, t)) = list_element(s, p, ordered) {
        let tag_end = if ordered {
            crate::grammar::ordered_tag(s, p)->Ok_0.0
        } else {
            crate::grammar::unordered_tag(s, p)->Ok_0.0
        };
        lemma_ends_not_before(s, p, '#');
        lemma_text_bounds(s, tag_end);
        lemma_list_items_bounds(s, q, ordered);
    }
}

proof fn lemma_find_fence_bounds(s: Seq<char>, p: int)
    ensures
        find_fence(s, p) matches Some(j) ==> p <= j && j + 3 <= s.len(),
    decreases s.len() - p,
{
    if !(p < 0 || p + 3 > s.len()) && !fence_at(s, p) {
        lemma_find_fence_bounds(s, p + 1);
    }
}

/// Every block that matches consumes at least one character and stays within
/// the input, so a document is read from start to end without standing still.
pub proof fn law_block_advances(s: Seq<char>, p: int)
    requires
        0 <= p <= s.len(),
    ensures
        block(s, p) matches Ok((q, _)) ==> p < q <= s.len(),
{
    lemma_ends_not_before(s, p, '#');
    lemma_ends_not_before(s, p + 3, '#');
    lemma_text_bounds(s, p);
    if let Ok((q, _)) = crate::grammar::header_tag(s, p) {
        lemma_text_bounds(s, q);
    }
    lemma_list_items_bounds(s, p, false);
    lemma_list_items_bounds(s, p, true);
    let b = alnum_end(s, p + 3);
    if let Some(c) = crate::grammar::line_ending(s, b) {
        lemma_find_fence_bounds(s, c);
    }
}

} // verus!

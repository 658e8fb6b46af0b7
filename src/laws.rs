//! Properties that hold of every conversion, proved over the conversion's
//! specification.

use vstd::prelude::*;

use crate::convert::{
    attribute_v, attrs_upto, chapter_v, conv, conv_list, conv_para, is_container,
    last_book_code, milestone_v, usj_content, verse_sid, verse_v,
};
use crate::syntax::{child_text, is_blank, is_data_only, marker_of, or_empty, Category, SyntaxNode};
use crate::text::tag_name;
use crate::usj::{ItemV, NodeV};

verus! {

/// No chapter marker stands in the tree `n`.
pub open spec fn chapter_free(n: SyntaxNode) -> bool
    decreases n, 1nat,
{
    n.kind != Category::ChapterMarker && chapter_free_list(n.children@, 0)
}

/// No chapter marker stands in the trees of `s` from index `i` on.
pub open spec fn chapter_free_list(s: Seq<SyntaxNode>, i: int) -> bool
    decreases s, s.len() - i,
{
    if 0 <= i < s.len() {
        chapter_free(s[i]) && chapter_free_list(s, i + 1)
    } else {
        true
    }
}

/// `b` begins with the items of `a`.
pub open spec fn extends(a: Seq<ItemV>, b: Seq<ItemV>) -> bool {
    a.len() <= b.len() && forall|k: int| 0 <= k < a.len() ==> #[trigger] b[k] == a[k]
}

/// Converting a tree without chapter markers leaves the chapter context as it
/// was.
pub proof fn lemma_conv_keeps_chapter(n: SyntaxNode, ch: Option<Seq<char>>, out: Seq<ItemV>)
    requires
        chapter_free(n),
    ensures
        conv(n, ch, out).1 == ch,
    decreases n, 1nat,
{
    if !is_blank(n) {
        if n.kind == Category::Inline || n.kind == Category::Other {
            lemma_list_keeps_chapter(n.children@, 0, ch, out);
        } else if n.kind == Category::Para || n.kind == Category::LineBreak {
            lemma_para_keeps_chapter(n.children@, 0, ch, Seq::empty(), Seq::empty());
        } else if is_container(n.kind) {
            lemma_list_keeps_chapter(n.children@, 0, ch, Seq::empty());
        }
    }
}

pub proof fn lemma_list_keeps_chapter(
    s: Seq<SyntaxNode>,
    i: int,
    ch: Option<Seq<char>>,
    out: Seq<ItemV>,
)
    requires
        chapter_free_list(s, i),
    ensures
        conv_list(s, i, ch, out).1 == ch,
    decreases s, s.len() - i,
{
    if 0 <= i < s.len() {
        lemma_conv_keeps_chapter(s[i], ch, out);
        let r = conv(s[i], ch, out);
        lemma_list_keeps_chapter(s, i + 1, r.1, r.0);
    }
}

pub proof fn lemma_para_keeps_chapter(
    s: Seq<SyntaxNode>,
    i: int,
    ch: Option<Seq<char>>,
    inner: Seq<ItemV>,
    outer: Seq<ItemV>,
)
    requires
        chapter_free_list(s, i),
    ensures
        conv_para(s, i, ch, inner, outer).2 == ch,
    decreases s, s.len() - i,
{
    if 0 <= i < s.len() {
        if crate::convert::is_inline(s[i].kind) {
            lemma_conv_keeps_chapter(s[i], ch, inner);
            let r = conv(s[i], ch, inner);
            lemma_para_keeps_chapter(s, i + 1, r.1, r.0, outer);
        } else {
            lemma_conv_keeps_chapter(s[i], ch, outer);
            let r = conv(s[i], ch, outer);
            lemma_para_keeps_chapter(s, i + 1, r.1, inner, r.0);
        }
    }
}

/// The number of the last chapter marker met in `n`, in the order in which a
/// conversion visits nodes, or `ch` where it meets none.
pub open spec fn last_chapter(n: SyntaxNode, ch: Option<Seq<char>>) -> Option<Seq<char>>
    decreases n, 1nat,
{
    if is_blank(n) {
        ch
    } else if n.kind == Category::ChapterMarker {
        child_text(n, Category::ChapterNumber)
    } else if n.kind == Category::Inline || n.kind == Category::Other || n.kind == Category::Para
        || n.kind == Category::LineBreak || is_container(n.kind) {
        last_chapter_list(n.children@, 0, ch)
    } else {
        ch
    }
}

/// The number of the last chapter marker met in the nodes of `s` from `i` on,
/// or `ch` where they hold none.
pub open spec fn last_chapter_list(s: Seq<SyntaxNode>, i: int, ch: Option<Seq<char>>) -> Option<
    Seq<char>,
>
    decreases s, s.len() - i,
{
    if 0 <= i < s.len() {
        last_chapter_list(s, i + 1, last_chapter(s[i], ch))
    } else {
        ch
    }
}

/// The chapter context after a conversion is the number of the last chapter
/// marker met so far, whatever the output: paragraphs that split their
/// children between two sequences still visit them in document order.
pub proof fn lemma_context_is_last_chapter(n: SyntaxNode, ch: Option<Seq<char>>, out: Seq<ItemV>)
    ensures
        conv(n, ch, out).1 == last_chapter(n, ch),
    decreases n, 1nat,
{
    if !is_blank(n) {
        if n.kind == Category::Inline || n.kind == Category::Other {
            lemma_list_context(n.children@, 0, ch, out);
        } else if n.kind == Category::Para || n.kind == Category::LineBreak {
            lemma_para_context(n.children@, 0, ch, Seq::empty(), Seq::empty());
        } else if is_container(n.kind) {
            lemma_list_context(n.children@, 0, ch, Seq::empty());
        }
    }
}

pub proof fn lemma_list_context(s: Seq<SyntaxNode>, i: int, ch: Option<Seq<char>>, out: Seq<ItemV>)
    ensures
        conv_list(s, i, ch, out).1 == last_chapter_list(s, i, ch),
    decreases s, s.len() - i,
{
    if 0 <= i < s.len() {
        lemma_context_is_last_chapter(s[i], ch, out);
        let r = conv(s[i], ch, out);
        lemma_list_context(s, i + 1, r.1, r.0);
    }
}

pub proof fn lemma_para_context(
    s: Seq<SyntaxNode>,
    i: int,
    ch: Option<Seq<char>>,
    inner: Seq<ItemV>,
    outer: Seq<ItemV>,
)
    ensures
        conv_para(s, i, ch, inner, outer).2 == last_chapter_list(s, i, ch),
    decreases s, s.len() - i,
{
    if 0 <= i < s.len() {
        if crate::convert::is_inline(s[i].kind) {
            lemma_context_is_last_chapter(s[i], ch, inner);
            let r = conv(s[i], ch, inner);
            lemma_para_context(s, i + 1, r.1, r.0, outer);
        } else {
            lemma_context_is_last_chapter(s[i], ch, outer);
            let r = conv(s[i], ch, outer);
            lemma_para_context(s, i + 1, r.1, inner, r.0);
        }
    }
}

/// A conversion only appends to the sequence it is given.
pub proof fn lemma_conv_extends(n: SyntaxNode, ch: Option<Seq<char>>, out: Seq<ItemV>)
    ensures
        extends(out, conv(n, ch, out).0),
    decreases n, 1nat,
{
    if !is_blank(n) {
        if n.kind == Category::Inline || n.kind == Category::Other {
            lemma_list_extends(n.children@, 0, ch, out);
        } else if n.kind == Category::ChapterMarker {
            let num = child_text(n, Category::ChapterNumber);
            lemma_list_extends(n.children@, 0, num, out.push(ItemV::Node(chapter_v(n, out))));
        }
    }
}

pub proof fn lemma_list_extends(s: Seq<SyntaxNode>, i: int, ch: Option<Seq<char>>, out: Seq<ItemV>)
    ensures
        extends(out, conv_list(s, i, ch, out).0),
    decreases s, s.len() - i,
{
    if 0 <= i < s.len() {
        lemma_conv_extends(s[i], ch, out);
        let r = conv(s[i], ch, out);
        lemma_list_extends(s, i + 1, r.1, r.0);
    }
}

/// Converting `s` from `i` on is converting `s` up to `j` and then the rest.
pub proof fn lemma_list_split(
    s: Seq<SyntaxNode>,
    i: int,
    j: int,
    ch: Option<Seq<char>>,
    out: Seq<ItemV>,
)
    requires
        0 <= i <= j <= s.len(),
    ensures
        ({
            let st = conv_list(s.subrange(0, j), i, ch, out);
            conv_list(s, i, ch, out) == conv_list(s, j, st.1, st.0)
        }),
    decreases j - i,
{
    if i < j {
        let r = conv(s[i], ch, out);
        assert(s.subrange(0, j)[i] == s[i]);
        lemma_list_split(s, i + 1, j, r.1, r.0);
    }
}

proof fn lemma_free_list(s: Seq<SyntaxNode>, i: int)
    requires
        0 <= i,
        forall|k: int| i <= k < s.len() ==> chapter_free(#[trigger] s[k]),
    ensures
        chapter_free_list(s, i),
    decreases s.len() - i,
{
    if i < s.len() {
        lemma_free_list(s, i + 1);
    }
}

/// Among sibling nodes, every node that follows a chapter marker, with no
/// chapter marker in any node between them, is converted in the context of
/// that chapter's number; a verse there gets the sid
/// `<chapter-number>:<verse-number>`.
pub proof fn lemma_verse_follows_chapter(
    s: Seq<SyntaxNode>,
    i: int,
    j: int,
    ch: Option<Seq<char>>,
    out: Seq<ItemV>,
)
    requires
        0 <= i < j < s.len(),
        s[i].kind == Category::ChapterMarker,
        !is_blank(s[i]),
        forall|k: int| i < k < j ==> chapter_free(#[trigger] s[k]),
    ensures
        ({
            let st = conv_list(s.subrange(0, j), i, ch, out);
            let num = child_text(s[i], Category::ChapterNumber);
            &&& conv_list(s, i, ch, out) == conv_list(s, j, st.1, st.0)
            &&& st.1 == num
            &&& (s[j].kind == Category::Verse && !is_blank(s[j])) ==> conv(s[j], st.1, st.0).0
                == st.0.push(ItemV::Node(verse_v(s[j], num)))
            &&& num is Some ==> verse_sid(num, child_text(s[j], Category::VerseNumber)) == num->0
                + ":"@ + or_empty(child_text(s[j], Category::VerseNumber))
        }),
{
    lemma_list_split(s, i, j, ch, out);
    let p = s.subrange(0, j);
    assert(p[i] == s[i]);
    let r = conv(s[i], ch, out);
    assert forall|k: int| i + 1 <= k < p.len() implies chapter_free(#[trigger] p[k]) by {
        assert(p[k] == s[k]);
    }
    lemma_free_list(p, i + 1);
    lemma_list_keeps_chapter(p, i + 1, r.1, r.0);
}

/// A chapter marker emits its chapter node first, whose sid is the code of
/// the last book node emitted before it and the chapter number; the code is
/// empty where no book node was emitted before.
pub proof fn lemma_chapter_sid(n: SyntaxNode, ch: Option<Seq<char>>, out: Seq<ItemV>)
    requires
        n.kind == Category::ChapterMarker,
        !is_blank(n),
    ensures
        conv(n, ch, out).0.len() > out.len(),
        conv(n, ch, out).0[out.len() as int] == ItemV::Node(chapter_v(n, out)),
        conv(n, ch, out).1 == child_text(n, Category::ChapterNumber),
        (forall|k: int| 0 <= k < out.len() ==> !(#[trigger] out[k] is Node && out[k]->Node_0 is Book))
            ==> last_book_code(out) == Seq::<char>::empty(),
        forall|k: int, code: Option<Seq<char>>, c: Seq<ItemV>|
            0 <= k < out.len() && out[k] == ItemV::Node(NodeV::Book { code, content: c }) && (
            forall|m: int| k < m < out.len() ==> !(#[trigger] out[m] is Node && out[m]->Node_0 is Book))
                ==> last_book_code(out) == or_empty(code),
{
    let num = child_text(n, Category::ChapterNumber);
    lemma_list_extends(n.children@, 0, num, out.push(ItemV::Node(chapter_v(n, out))));
    lemma_no_book(out);
    assert forall|k: int, code: Option<Seq<char>>, c: Seq<ItemV>|
        0 <= k < out.len() && out[k] == ItemV::Node(NodeV::Book { code, content: c }) && (
        forall|m: int| k < m < out.len() ==> !(#[trigger] out[m] is Node && out[m]->Node_0 is Book))
            implies last_book_code(out) == or_empty(code) by {
        lemma_last_book(out, k);
    }
}

proof fn lemma_no_book(out: Seq<ItemV>)
    ensures
        (forall|k: int| 0 <= k < out.len() ==> !(#[trigger] out[k] is Node && out[k]->Node_0 is Book))
            ==> last_book_code(out) == Seq::<char>::empty(),
    decreases out.len(),
{
    if out.len() > 0 {
        lemma_no_book(out.drop_last());
        if forall|k: int| 0 <= k < out.len() ==> !(#[trigger] out[k] is Node && out[k]->Node_0 is Book) {
            assert(!(out[out.len() - 1] is Node && out[out.len() - 1]->Node_0 is Book));
            assert forall|k: int| 0 <= k < out.drop_last().len() implies !(
            #[trigger] out.drop_last()[k] is Node && out.drop_last()[k]->Node_0 is Book) by {
                assert(out.drop_last()[k] == out[k]);
            }
        }
    }
}

proof fn lemma_last_book(out: Seq<ItemV>, k: int)
    requires
        0 <= k < out.len(),
        out[k] is Node && out[k]->Node_0 is Book,
        forall|m: int| k < m < out.len() ==> !(#[trigger] out[m] is Node && out[m]->Node_0 is Book),
    ensures
        last_book_code(out) == or_empty(out[k]->Node_0->Book_code),
    decreases out.len(),
{
    if k < out.len() - 1 {
        let d = out.drop_last();
        assert(!(out[out.len() - 1] is Node && out[out.len() - 1]->Node_0 is Book));
        assert forall|m: int| k < m < d.len() implies !(#[trigger] d[m] is Node && d[m]->Node_0
            is Book) by {
            assert(d[m] == out[m]);
        }
        lemma_last_book(d, k);
    }
}

/// A node whose text is white space alone adds nothing and leaves the
/// context as it was.
pub proof fn lemma_blank_adds_nothing(n: SyntaxNode, ch: Option<Seq<char>>, out: Seq<ItemV>)
    requires
        is_blank(n),
    ensures
        conv(n, ch, out) == (out, ch),
{
}

/// A node of a category that only carries data for the node above it adds
/// nothing where it is met on its own.
pub proof fn lemma_data_only_adds_nothing(n: SyntaxNode, ch: Option<Seq<char>>, out: Seq<ItemV>)
    requires
        is_data_only(n.kind),
    ensures
        conv(n, ch, out) == (out, ch),
{
}

/// The marker of a node whose tag is followed by a level number is the tag's
/// name followed by that number, and the level number adds no content.
pub proof fn lemma_numbered_marker(n: SyntaxNode, ch: Option<Seq<char>>, out: Seq<ItemV>)
    requires
        n.children@.len() > 1,
        n.children@[0].kind == Category::Tag,
        n.children@[0].text is Some,
        n.children@[1].kind == Category::Numbered,
        n.children@[1].text is Some,
    ensures
        marker_of(n) == tag_name(n.children@[0].text->0@) + n.children@[1].text->0@,
        conv(n.children@[1], ch, out) == (out, ch),
{
    lemma_data_only_adds_nothing(n.children@[1], ch, out);
}

/// Exactly the attribute children of a milestone make its content; with none,
/// it has no content, and with one, that attribute alone.
pub proof fn lemma_milestone_content(n: SyntaxNode, ch: Option<Seq<char>>, out: Seq<ItemV>)
    requires
        n.kind == Category::Milestone,
        !is_blank(n),
    ensures
        conv(n, ch, out) == (out.push(ItemV::Node(milestone_v(n))), ch),
        (forall|k: int| 0 <= k < n.children@.len() ==> (#[trigger] n.children@[k]).kind
            != Category::Attribute) ==> milestone_v(n)->Milestone_content is None,
        forall|j: int|
            0 <= j < n.children@.len() && (#[trigger] n.children@[j]).kind == Category::Attribute
                && (forall|k: int|
                0 <= k < n.children@.len() && k != j ==> (#[trigger] n.children@[k]).kind
                    != Category::Attribute) ==> milestone_v(n)->Milestone_content == Some(
                seq![ItemV::Node(attribute_v(n.children@[j]))],
            ),
{
    let s = n.children@;
    lemma_attrs_none(s, s.len() as int);
    assert forall|j: int|
        0 <= j < s.len() && (#[trigger] s[j]).kind == Category::Attribute && (forall|k: int|
            0 <= k < s.len() && k != j ==> (#[trigger] s[k]).kind != Category::Attribute)
            implies milestone_v(n)->Milestone_content == Some(
        seq![ItemV::Node(attribute_v(s[j]))],
    ) by {
        lemma_attrs_one(s, s.len() as int, j);
    }
}

proof fn lemma_attrs_none(s: Seq<SyntaxNode>, k: int)
    requires
        0 <= k <= s.len(),
    ensures
        (forall|m: int| 0 <= m < k ==> (#[trigger] s[m]).kind != Category::Attribute)
            ==> attrs_upto(s, k) == Seq::<ItemV>::empty(),
    decreases k,
{
    if k > 0 {
        lemma_attrs_none(s, k - 1);
    }
}

proof fn lemma_attrs_one(s: Seq<SyntaxNode>, k: int, j: int)
    requires
        0 <= j < k <= s.len(),
        s[j].kind == Category::Attribute,
        forall|m: int| 0 <= m < k && m != j ==> (#[trigger] s[m]).kind != Category::Attribute,
    ensures
        attrs_upto(s, k) == seq![ItemV::Node(attribute_v(s[j]))],
    decreases k,
{
    if k - 1 == j {
        lemma_attrs_none(s, j);
        assert(attrs_upto(s, j).push(ItemV::Node(attribute_v(s[j]))) =~= seq![
            ItemV::Node(attribute_v(s[j])),
        ]);
    } else {
        lemma_attrs_one(s, k - 1, j);
    }
}

/// Converting the same tree twice gives the same document: a conversion
/// depends on the tree alone.
pub proof fn lemma_conversion_repeats(a: SyntaxNode, b: SyntaxNode)
    requires
        a == b,
    ensures
        usj_content(a) == usj_content(b),
{
}

} // verus!

//! The tree-to-document transformer: a dispatcher over node categories, one
//! handler per marker family, and the chapter context threaded through them.

use vstd::prelude::*;

use crate::syntax::{
    child_text, is_blank, marker_of, nested_text, or_empty, Category, SyntaxNode,
};
use crate::text::{has_char, join};
use crate::usj::{
    item_v, items_v, lemma_items_v, lemma_items_v_concat, lemma_items_v_empty,
    lemma_items_v_push, node_v, opt_v, Align, DocNode, Item, ItemV, NodeV, Usj,
};

verus! {

/// The state of one conversion: the number of the chapter seen last.
#[derive(Debug)]
pub struct Context {
    pub chapter: Option<String>,
}

impl Context {
    pub open spec fn chapter_v(&self) -> Option<Seq<char>> {
        opt_v(self.chapter)
    }

    /// The context at the start of a conversion: no chapter seen yet.
    pub fn new() -> (r: Context)
        ensures
            r.chapter is None,
    {
        Context { chapter: None }
    }
}

/// Why a conversion could not run.
#[derive(Clone, Copy, PartialEq, Eq, Debug, Structural)]
pub enum UsjError {
    /// No syntax tree was given.
    MissingTree,
}

/// Categories that nest inside the paragraph that holds them; any other child
/// of a paragraph closes it and goes to the sequence around it.
pub open spec fn is_inline(k: Category) -> bool {
    match k {
        Category::Text | Category::Inline | Category::Note | Category::Verse
        | Category::LineBreak | Category::Milestone => true,
        _ => false,
    }
}

/// The code of the last book node of `out`, or empty where there is none.
pub open spec fn last_book_code(out: Seq<ItemV>) -> Seq<char>
    decreases out.len(),
{
    if out.len() == 0 {
        Seq::empty()
    } else {
        match out.last() {
            ItemV::Node(NodeV::Book { code, .. }) => or_empty(code),
            _ => last_book_code(out.drop_last()),
        }
    }
}

/// `<book-code> <chapter-number>`.
pub open spec fn chapter_sid(book: Seq<char>, number: Option<Seq<char>>) -> Seq<char> {
    book + " "@ + or_empty(number)
}

/// The chapter component of a verse sid: the chapter number, or `0` before
/// any chapter.
pub open spec fn or_zero(c: Option<Seq<char>>) -> Seq<char> {
    match c {
        Some(c) => c,
        None => "0"@,
    }
}

/// `<chapter-number>:<verse-number>`, with `0` for a missing chapter.
pub open spec fn verse_sid(chapter: Option<Seq<char>>, number: Option<Seq<char>>) -> Seq<char> {
    or_zero(chapter) + ":"@ + or_empty(number)
}

/// Cells whose marker holds an `r` are aligned to the end.
pub open spec fn align_of(marker: Seq<char>) -> Align {
    if marker.contains('r') {
        Align::End
    } else {
        Align::Start
    }
}

pub open spec fn book_v(n: SyntaxNode) -> NodeV {
    NodeV::Book {
        code: child_text(n, Category::BookCode),
        content: match child_text(n, Category::Description) {
            Some(d) => if d.len() > 0 {
                seq![ItemV::Text(d)]
            } else {
                Seq::empty()
            },
            None => Seq::empty(),
        },
    }
}

/// The chapter node for marker `n`, emitted after the items `out`.
pub open spec fn chapter_v(n: SyntaxNode, out: Seq<ItemV>) -> NodeV {
    NodeV::Chapter {
        number: child_text(n, Category::ChapterNumber),
        sid: chapter_sid(last_book_code(out), child_text(n, Category::ChapterNumber)),
        altnumber: nested_text(n, Category::AltNumber, Category::ChapterNumber),
        pubnumber: nested_text(n, Category::PubNumber, Category::Text),
    }
}

/// The verse node for marker `n`, in chapter `chapter`.
pub open spec fn verse_v(n: SyntaxNode, chapter: Option<Seq<char>>) -> NodeV {
    NodeV::Verse {
        number: child_text(n, Category::VerseNumber),
        sid: verse_sid(chapter, child_text(n, Category::VerseNumber)),
        altnumber: nested_text(n, Category::AltNumber, Category::VerseNumber),
        pubnumber: nested_text(n, Category::PubNumber, Category::Text),
    }
}

pub open spec fn attribute_v(n: SyntaxNode) -> NodeV {
    NodeV::Attribute {
        name: child_text(n, Category::AttributeName),
        value: child_text(n, Category::AttributeValue),
    }
}

/// The attribute nodes for the attribute nodes among the first `k` of `s`.
pub open spec fn attrs_upto(s: Seq<SyntaxNode>, k: int) -> Seq<ItemV>
    decreases k,
{
    if k <= 0 || k > s.len() {
        Seq::empty()
    } else if s[k - 1].kind == Category::Attribute {
        attrs_upto(s, k - 1).push(ItemV::Node(attribute_v(s[k - 1])))
    } else {
        attrs_upto(s, k - 1)
    }
}

/// A milestone holds its attributes only, and no content where it has none.
pub open spec fn milestone_v(n: SyntaxNode) -> NodeV {
    let a = attrs_upto(n.children@, n.children@.len() as int);
    NodeV::Milestone {
        marker: marker_of(n),
        content: if a.len() == 0 {
            None
        } else {
            Some(a)
        },
    }
}

/// The node that holds a converted body `content`, for a node `n` of a
/// category that builds its own content sequence.
pub open spec fn container_v(n: SyntaxNode, content: Seq<ItemV>) -> NodeV {
    match n.kind {
        Category::Char => NodeV::Char { marker: marker_of(n), content },
        Category::Note => NodeV::Note {
            marker: marker_of(n),
            caller: child_text(n, Category::Caller),
            content,
        },
        Category::Table => NodeV::Table { content },
        Category::Row => NodeV::Row { marker: marker_of(n), content },
        Category::Cell => NodeV::Cell {
            marker: marker_of(n),
            align: align_of(marker_of(n)),
            content,
        },
        Category::Sidebar => NodeV::Sidebar { marker: marker_of(n), content },
        _ => NodeV::Figure { marker: marker_of(n), content },
    }
}

pub open spec fn is_container(k: Category) -> bool {
    match k {
        Category::Char | Category::Note | Category::Table | Category::Row | Category::Cell
        | Category::Sidebar | Category::Figure => true,
        _ => false,
    }
}

/// Converting node `n` after the items `out`, in chapter `ch`: the items after
/// the conversion, and the chapter then.
pub open spec fn conv(n: SyntaxNode, ch: Option<Seq<char>>, out: Seq<ItemV>) -> (
    Seq<ItemV>,
    Option<Seq<char>>,
)
    decreases n, 1nat,
{
    if is_blank(n) {
        (out, ch)
    } else {
        match n.kind {
            Category::Text => match n.text {
                Some(t) => (out.push(ItemV::Text(t@)), ch),
                None => (out, ch),
            },
            Category::Id => (out.push(ItemV::Node(book_v(n))), ch),
            Category::ChapterMarker => {
                let num = child_text(n, Category::ChapterNumber);
                let r = conv_list(n.children@, 0, num, out.push(ItemV::Node(chapter_v(n, out))));
                (r.0, num)
            },
            Category::Verse => (out.push(ItemV::Node(verse_v(n, ch))), ch),
            Category::Para | Category::LineBreak => {
                let r = conv_para(n.children@, 0, ch, Seq::empty(), Seq::empty());
                (out.push(ItemV::Node(NodeV::Para { marker: marker_of(n), content: r.0 })) + r.1, r.2)
            },
            Category::Milestone => (out.push(ItemV::Node(milestone_v(n))), ch),
            Category::Attribute => (out.push(ItemV::Node(attribute_v(n))), ch),
            Category::Cat => (
                out.push(
                    ItemV::Node(NodeV::Category { category: child_text(n, Category::CategoryText) }),
                ),
                ch,
            ),
            Category::Inline | Category::Other => conv_list(n.children@, 0, ch, out),
            k => if is_container(k) {
                let r = conv_list(n.children@, 0, ch, Seq::empty());
                (out.push(ItemV::Node(container_v(n, r.0))), r.1)
            } else {
                (out, ch)
            },
        }
    }
}

/// Converting the nodes of `s` from index `i` on, one after another.
pub open spec fn conv_list(s: Seq<SyntaxNode>, i: int, ch: Option<Seq<char>>, out: Seq<ItemV>) -> (
    Seq<ItemV>,
    Option<Seq<char>>,
)
    decreases s, s.len() - i,
{
    if 0 <= i < s.len() {
        let r = conv(s[i], ch, out);
        conv_list(s, i + 1, r.1, r.0)
    } else {
        (out, ch)
    }
}

/// Converting the children `s` of a paragraph from index `i` on: inline ones
/// into the paragraph's content `inner`, the others into `outer`.
pub open spec fn conv_para(
    s: Seq<SyntaxNode>,
    i: int,
    ch: Option<Seq<char>>,
    inner: Seq<ItemV>,
    outer: Seq<ItemV>,
) -> (Seq<ItemV>, Seq<ItemV>, Option<Seq<char>>)
    decreases s, s.len() - i,
{
    if 0 <= i < s.len() {
        if is_inline(s[i].kind) {
            let r = conv(s[i], ch, inner);
            conv_para(s, i + 1, r.1, r.0, outer)
        } else {
            let r = conv(s[i], ch, outer);
            conv_para(s, i + 1, r.1, inner, r.0)
        }
    } else {
        (inner, outer, ch)
    }
}

/// The content of the document converted from `tree`.
pub open spec fn usj_content(tree: SyntaxNode) -> Seq<ItemV> {
    conv(tree, None, Seq::empty()).0
}

/// The code of the last book node in `out`.
pub fn last_book(out: &Vec<Item>) -> (r: String)
    ensures
        r@ == last_book_code(items_v(out@)),
{
    let ghost v = items_v(out@);
    proof {
        lemma_items_v(out@);
        assert(v.subrange(0, v.len() as int) =~= v);
    }
    let mut i = out.len();
    while i > 0
        invariant
            i <= out@.len(),
            v == items_v(out@),
            v.len() == out@.len(),
            forall|j: int| 0 <= j < out@.len() ==> #[trigger] v[j] == item_v(out@[j]),
            last_book_code(v) == last_book_code(v.subrange(0, i as int)),
        decreases i,
    {
        let ghost pre = v.subrange(0, i as int);
        proof {
            assert(pre.last() == item_v(out@[i - 1]));
            assert(pre.drop_last() =~= v.subrange(0, i - 1));
        }
        match &out[i - 1] {
            Item::Node(DocNode::Book { code, .. }) => {
                return match code {
                    Some(c) => c.clone(),
                    None => String::new(),
                };
            },
            _ => {},
        }
        i = i - 1;
    }
    String::new()
}

/// Emits the book node for an identification node.
pub fn node_2_usj_id(n: &SyntaxNode, out: &mut Vec<Item>)
    requires
        n.kind == Category::Id,
        !is_blank(*n),
    ensures
        items_v(final(out)@) == items_v(old(out)@).push(ItemV::Node(book_v(*n))),
{
    let code = n.child_text(Category::BookCode);
    let mut content: Vec<Item> = Vec::new();
    match n.child_text(Category::Description) {
        Some(d) => {
            if d.unicode_len() > 0 {
                content.push(Item::Text(d));
            }
        },
        None => {},
    }
    let node = DocNode::Book { code, content };
    proof {
        lemma_items_v(content@);
        assert(node_v(node) == book_v(*n)) by {
            match child_text(*n, Category::Description) {
                Some(d) => {
                    if d.len() > 0 {
                        assert(items_v(content@) =~= seq![ItemV::Text(d)]);
                    } else {
                        assert(items_v(content@) =~= Seq::<ItemV>::empty());
                    }
                },
                None => {
                    assert(items_v(content@) =~= Seq::<ItemV>::empty());
                },
            }
        }
        lemma_items_v_push(out@, Item::Node(node));
    }
    out.push(Item::Node(node));
}

/// Emits the verse node for a verse marker, in chapter `chapter`.
pub fn node_2_usj_verse(n: &SyntaxNode, chapter: &Option<String>, out: &mut Vec<Item>)
    requires
        n.kind == Category::Verse,
        !is_blank(*n),
    ensures
        items_v(final(out)@) == items_v(old(out)@).push(
            ItemV::Node(verse_v(*n, opt_v(*chapter))),
        ),
{
    let number = n.child_text(Category::VerseNumber);
    let chap = match chapter {
        Some(c) => c.clone(),
        None => String::from_str("0"),
    };
    let mut sid = join(chap.as_str(), ":");
    match &number {
        Some(v) => sid.append(v.as_str()),
        None => {
            proof {
                assert(sid@ =~= sid@ + Seq::<char>::empty());
            }
        },
    }
    let altnumber = n.nested_text(Category::AltNumber, Category::VerseNumber);
    let pubnumber = n.nested_text(Category::PubNumber, Category::Text);
    let node = DocNode::Verse { number, sid, altnumber, pubnumber };
    proof {
        lemma_items_v_push(out@, Item::Node(node));
    }
    out.push(Item::Node(node));
}

/// The attribute node for an attribute.
pub fn node_2_usj_attrib(n: &SyntaxNode) -> (r: DocNode)
    ensures
        node_v(r) == attribute_v(*n),
{
    DocNode::Attribute {
        name: n.child_text(Category::AttributeName),
        value: n.child_text(Category::AttributeValue),
    }
}


/// Whether nodes of category `k` nest inside the paragraph that holds them.
pub fn is_inline_kind(k: Category) -> (r: bool)
    ensures
        r == is_inline(k),
{
    match k {
        Category::Text | Category::Inline | Category::Note | Category::Verse
        | Category::LineBreak | Category::Milestone => true,
        _ => false,
    }
}

/// The dispatcher: appends to `out` what node `n` converts to, and carries the
/// chapter context on.
pub fn node_2_usj(n: &SyntaxNode, ctx: &mut Context, out: &mut Vec<Item>)
    ensures
        (items_v(final(out)@), final(ctx).chapter_v()) == conv(
            *n,
            old(ctx).chapter_v(),
            items_v(old(out)@),
        ),
    decreases n, 1nat,
{
    if n.blank() {
        return;
    }
    match n.kind {
        Category::Text => match &n.text {
            Some(t) => {
                let item = Item::Text(t.clone());
                proof {
                    lemma_items_v_push(out@, item);
                }
                out.push(item);
            },
            None => {},
        },
        Category::Id => node_2_usj_id(n, out),
        Category::ChapterMarker => node_2_usj_chapter(n, ctx, out),
        Category::Verse => node_2_usj_verse(n, &ctx.chapter, out),
        Category::Para | Category::LineBreak => node_2_usj_para(n, ctx, out),
        Category::Char => node_2_usj_char(n, ctx, out),
        Category::Note => node_2_usj_notes(n, ctx, out),
        Category::Table | Category::Row | Category::Cell => node_2_usj_table(n, ctx, out),
        Category::Milestone => node_2_usj_milestone(n, out),
        Category::Attribute => {
            let item = Item::Node(node_2_usj_attrib(n));
            proof {
                lemma_items_v_push(out@, item);
            }
            out.push(item);
        },
        Category::Sidebar | Category::Figure | Category::Cat => node_2_usj_special(n, ctx, out),
        Category::Inline | Category::Other => node_2_usj_children(&n.children, ctx, out),
        _ => {},
    }
}

/// Converts the nodes `s` in order, each through the dispatcher, into `out`.
pub fn node_2_usj_children(s: &Vec<SyntaxNode>, ctx: &mut Context, out: &mut Vec<Item>)
    ensures
        (items_v(final(out)@), final(ctx).chapter_v()) == conv_list(
            s@,
            0,
            old(ctx).chapter_v(),
            items_v(old(out)@),
        ),
    decreases s, 0nat,
{
    let ghost ch0 = ctx.chapter_v();
    let ghost out0 = items_v(out@);
    let len = s.len();
    let mut i: usize = 0;
    while i < len
        invariant
            len == s@.len(),
            i <= len,
            conv_list(s@, 0, ch0, out0) == conv_list(
                s@,
                i as int,
                ctx.chapter_v(),
                items_v(out@),
            ),
        decreases len - i,
    {
        node_2_usj(&s[i], ctx, out);
        i = i + 1;
    }
}

/// Emits the chapter node for a chapter marker, makes its number the
/// current chapter, and converts what the marker holds besides.
pub fn node_2_usj_chapter(n: &SyntaxNode, ctx: &mut Context, out: &mut Vec<Item>)
    requires
        n.kind == Category::ChapterMarker,
        !is_blank(*n),
    ensures
        (items_v(final(out)@), final(ctx).chapter_v()) == conv(
            *n,
            old(ctx).chapter_v(),
            items_v(old(out)@),
        ),
    decreases n, 0nat,
{
    let number = n.child_text(Category::ChapterNumber);
    let book = last_book(out);
    let mut sid = join(book.as_str(), " ");
    match &number {
        Some(v) => sid.append(v.as_str()),
        None => {
            proof {
                assert(sid@ =~= sid@ + Seq::<char>::empty());
            }
        },
    }
    let altnumber = n.nested_text(Category::AltNumber, Category::ChapterNumber);
    let pubnumber = n.nested_text(Category::PubNumber, Category::Text);
    let node = DocNode::Chapter { number, sid, altnumber, pubnumber };
    proof {
        lemma_items_v_push(out@, Item::Node(node));
    }
    out.push(Item::Node(node));
    ctx.chapter = n.child_text(Category::ChapterNumber);
    node_2_usj_children(&n.children, ctx, out);
    ctx.chapter = n.child_text(Category::ChapterNumber);
}

/// Emits a paragraph node: inline children go into its content, the others
/// follow it in `out`.
pub fn node_2_usj_para(n: &SyntaxNode, ctx: &mut Context, out: &mut Vec<Item>)
    requires
        n.kind == Category::Para || n.kind == Category::LineBreak,
        !is_blank(*n),
    ensures
        (items_v(final(out)@), final(ctx).chapter_v()) == conv(
            *n,
            old(ctx).chapter_v(),
            items_v(old(out)@),
        ),
    decreases n, 0nat,
{
    let ghost ch0 = ctx.chapter_v();
    let ghost out0 = out@;
    let marker = n.marker();
    let mut inner: Vec<Item> = Vec::new();
    let mut outer: Vec<Item> = Vec::new();
    proof {
        lemma_items_v_empty();
    }
    let len = n.children.len();
    let mut i: usize = 0;
    while i < len
        invariant
            len == n.children@.len(),
            i <= len,
            out@ == out0,
            conv_para(n.children@, 0, ch0, Seq::empty(), Seq::empty()) == conv_para(
                n.children@,
                i as int,
                ctx.chapter_v(),
                items_v(inner@),
                items_v(outer@),
            ),
        decreases len - i,
    {
        if is_inline_kind(n.children[i].kind) {
            node_2_usj(&n.children[i], ctx, &mut inner);
        } else {
            node_2_usj(&n.children[i], ctx, &mut outer);
        }
        i = i + 1;
    }
    let item = Item::Node(DocNode::Para { marker, content: inner });
    proof {
        lemma_items_v_push(out@, item);
        lemma_items_v_concat(out@.push(item), outer@);
    }
    out.push(item);
    out.append(&mut outer);
}

/// Emits a character span node holding the conversion of its children.
pub fn node_2_usj_char(n: &SyntaxNode, ctx: &mut Context, out: &mut Vec<Item>)
    requires
        n.kind == Category::Char,
        !is_blank(*n),
    ensures
        (items_v(final(out)@), final(ctx).chapter_v()) == conv(
            *n,
            old(ctx).chapter_v(),
            items_v(old(out)@),
        ),
    decreases n, 0nat,
{
    let marker = n.marker();
    let mut content: Vec<Item> = Vec::new();
    proof {
        lemma_items_v_empty();
    }
    node_2_usj_children(&n.children, ctx, &mut content);
    let item = Item::Node(DocNode::Char { marker, content });
    proof {
        lemma_items_v_push(out@, item);
    }
    out.push(item);
}

/// Emits a footnote or cross-reference node with its caller and content.
pub fn node_2_usj_notes(n: &SyntaxNode, ctx: &mut Context, out: &mut Vec<Item>)
    requires
        n.kind == Category::Note,
        !is_blank(*n),
    ensures
        (items_v(final(out)@), final(ctx).chapter_v()) == conv(
            *n,
            old(ctx).chapter_v(),
            items_v(old(out)@),
        ),
    decreases n, 0nat,
{
    let marker = n.marker();
    let caller = n.child_text(Category::Caller);
    let mut content: Vec<Item> = Vec::new();
    proof {
        lemma_items_v_empty();
    }
    node_2_usj_children(&n.children, ctx, &mut content);
    let item = Item::Node(DocNode::Note { marker, caller, content });
    proof {
        lemma_items_v_push(out@, item);
    }
    out.push(item);
}

/// Emits a table, row or cell node holding the conversion of its children.
pub fn node_2_usj_table(n: &SyntaxNode, ctx: &mut Context, out: &mut Vec<Item>)
    requires
        n.kind == Category::Table || n.kind == Category::Row || n.kind == Category::Cell,
        !is_blank(*n),
    ensures
        (items_v(final(out)@), final(ctx).chapter_v()) == conv(
            *n,
            old(ctx).chapter_v(),
            items_v(old(out)@),
        ),
    decreases n, 0nat,
{
    let mut content: Vec<Item> = Vec::new();
    proof {
        lemma_items_v_empty();
    }
    node_2_usj_children(&n.children, ctx, &mut content);
    let node = match n.kind {
        Category::Table => DocNode::Table { content },
        Category::Row => DocNode::Row { marker: n.marker(), content },
        _ => {
            let marker = n.marker();
            let align = if has_char(marker.as_str(), 'r') {
                Align::End
            } else {
                Align::Start
            };
            DocNode::Cell { marker, align, content }
        },
    };
    let item = Item::Node(node);
    proof {
        lemma_items_v_push(out@, item);
    }
    out.push(item);
}

/// Emits a milestone node whose content is its attributes, or none where it
/// has no attribute.
pub fn node_2_usj_milestone(n: &SyntaxNode, out: &mut Vec<Item>)
    requires
        n.kind == Category::Milestone,
        !is_blank(*n),
    ensures
        items_v(final(out)@) == items_v(old(out)@).push(ItemV::Node(milestone_v(*n))),
{
    let marker = n.marker();
    let mut attrs: Vec<Item> = Vec::new();
    proof {
        lemma_items_v_empty();
    }
    let len = n.children.len();
    let mut i: usize = 0;
    while i < len
        invariant
            len == n.children@.len(),
            i <= len,
            items_v(attrs@) == attrs_upto(n.children@, i as int),
        decreases len - i,
    {
        if n.children[i].kind == Category::Attribute {
            let item = Item::Node(node_2_usj_attrib(&n.children[i]));
            proof {
                lemma_items_v_push(attrs@, item);
            }
            attrs.push(item);
        }
        i = i + 1;
    }
    proof {
        lemma_items_v(attrs@);
    }
    let content = if attrs.len() == 0 {
        None
    } else {
        Some(attrs)
    };
    let item = Item::Node(DocNode::Milestone { marker, content });
    proof {
        lemma_items_v_push(out@, item);
    }
    out.push(item);
}

/// Emits a sidebar or figure node holding the conversion of its children, or
/// a category node holding its category text.
pub fn node_2_usj_special(n: &SyntaxNode, ctx: &mut Context, out: &mut Vec<Item>)
    requires
        n.kind == Category::Sidebar || n.kind == Category::Figure || n.kind == Category::Cat,
        !is_blank(*n),
    ensures
        (items_v(final(out)@), final(ctx).chapter_v()) == conv(
            *n,
            old(ctx).chapter_v(),
            items_v(old(out)@),
        ),
    decreases n, 0nat,
{
    let node = if n.kind == Category::Cat {
        DocNode::Category { category: n.child_text(Category::CategoryText) }
    } else {
        let marker = n.marker();
        let mut content: Vec<Item> = Vec::new();
        proof {
            lemma_items_v_empty();
        }
        node_2_usj_children(&n.children, ctx, &mut content);
        if n.kind == Category::Sidebar {
            DocNode::Sidebar { marker, content }
        } else {
            DocNode::Figure { marker, content }
        }
    };
    let item = Item::Node(node);
    proof {
        lemma_items_v_push(out@, item);
    }
    out.push(item);
}

/// Converts a whole syntax tree into a document; fails only where there is
/// no tree.
pub fn usj_generator(tree: Option<&SyntaxNode>) -> (r: Result<Usj, UsjError>)
    ensures
        match tree {
            None => r is Err && r->Err_0 == UsjError::MissingTree,
            Some(t) => r is Ok && r->Ok_0.kind@ == "USJ"@ && r->Ok_0.version@ == "3.1"@
                && r->Ok_0.content_v() == usj_content(*t),
        },
{
    match tree {
        None => Err(UsjError::MissingTree),
        Some(t) => {
            let mut ctx = Context::new();
            let mut content: Vec<Item> = Vec::new();
            proof {
                lemma_items_v_empty();
            }
            node_2_usj(t, &mut ctx, &mut content);
            Ok(Usj { kind: String::from_str("USJ"), version: String::from_str("3.1"), content })
        },
    }
}

} // verus!

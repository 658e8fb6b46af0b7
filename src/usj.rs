//! The document model that a conversion builds, and its mathematical view.

use vstd::prelude::*;

verus! {

/// Horizontal alignment of a table cell.
#[derive(Clone, Copy, PartialEq, Eq, Debug, Structural)]
pub enum Align {
    Start,
    End,
}

/// An entry of a content sequence: a bare string or a document node.
#[derive(Debug, PartialEq)]
pub enum Item {
    Text(String),
    Node(DocNode),
}

/// A structured node of the document, one variant per category.
#[derive(Debug, PartialEq)]
#[allow(inconsistent_fields)]
pub enum DocNode {
    Book { code: Option<String>, content: Vec<Item> },
    Chapter {
        number: Option<String>,
        sid: String,
        altnumber: Option<String>,
        pubnumber: Option<String>,
    },
    Verse {
        number: Option<String>,
        sid: String,
        altnumber: Option<String>,
        pubnumber: Option<String>,
    },
    Para { marker: String, content: Vec<Item> },
    Char { marker: String, content: Vec<Item> },
    Note { marker: String, caller: Option<String>, content: Vec<Item> },
    Table { content: Vec<Item> },
    Row { marker: String, content: Vec<Item> },
    Cell { marker: String, align: Align, content: Vec<Item> },
    /// `content` is `None` where the milestone carries no attribute.
    Milestone { marker: String, content: Option<Vec<Item>> },
    Attribute { name: Option<String>, value: Option<String> },
    Sidebar { marker: String, content: Vec<Item> },
    Figure { marker: String, content: Vec<Item> },
    Category { category: Option<String> },
}

/// A whole converted document.
#[derive(Debug, PartialEq)]
pub struct Usj {
    /// Always `USJ`.
    pub kind: String,
    /// Always `3.1`.
    pub version: String,
    pub content: Vec<Item>,
}

/// The view of an [`Item`].
pub enum ItemV {
    Text(Seq<char>),
    Node(NodeV),
}

/// The view of a [`DocNode`]: the same fields, with texts as `Seq<char>`.
#[allow(inconsistent_fields)]
pub enum NodeV {
    Book { code: Option<Seq<char>>, content: Seq<ItemV> },
    Chapter {
        number: Option<Seq<char>>,
        sid: Seq<char>,
        altnumber: Option<Seq<char>>,
        pubnumber: Option<Seq<char>>,
    },
    Verse {
        number: Option<Seq<char>>,
        sid: Seq<char>,
        altnumber: Option<Seq<char>>,
        pubnumber: Option<Seq<char>>,
    },
    Para { marker: Seq<char>, content: Seq<ItemV> },
    Char { marker: Seq<char>, content: Seq<ItemV> },
    Note { marker: Seq<char>, caller: Option<Seq<char>>, content: Seq<ItemV> },
    Table { content: Seq<ItemV> },
    Row { marker: Seq<char>, content: Seq<ItemV> },
    Cell { marker: Seq<char>, align: Align, content: Seq<ItemV> },
    Milestone { marker: Seq<char>, content: Option<Seq<ItemV>> },
    Attribute { name: Option<Seq<char>>, value: Option<Seq<char>> },
    Sidebar { marker: Seq<char>, content: Seq<ItemV> },
    Figure { marker: Seq<char>, content: Seq<ItemV> },
    Category { category: Option<Seq<char>> },
}

pub open spec fn opt_v(o: Option<String>) -> Option<Seq<char>> {
    match o {
        Some(s) => Some(s@),
        None => None,
    }
}

pub open spec fn item_v(i: Item) -> ItemV
    decreases i, 0nat,
{
    match i {
        Item::Text(s) => ItemV::Text(s@),
        Item::Node(n) => ItemV::Node(node_v(n)),
    }
}

pub open spec fn node_v(n: DocNode) -> NodeV
    decreases n, 0nat,
{
    match n {
        DocNode::Book { code, content } => NodeV::Book {
            code: opt_v(code),
            content: items_upto(content@, content@.len() as int),
        },
        DocNode::Chapter { number, sid, altnumber, pubnumber } => NodeV::Chapter {
            number: opt_v(number),
            sid: sid@,
            altnumber: opt_v(altnumber),
            pubnumber: opt_v(pubnumber),
        },
        DocNode::Verse { number, sid, altnumber, pubnumber } => NodeV::Verse {
            number: opt_v(number),
            sid: sid@,
            altnumber: opt_v(altnumber),
            pubnumber: opt_v(pubnumber),
        },
        DocNode::Para { marker, content } => NodeV::Para {
            marker: marker@,
            content: items_upto(content@, content@.len() as int),
        },
        DocNode::Char { marker, content } => NodeV::Char {
            marker: marker@,
            content: items_upto(content@, content@.len() as int),
        },
        DocNode::Note { marker, caller, content } => NodeV::Note {
            marker: marker@,
            caller: opt_v(caller),
            content: items_upto(content@, content@.len() as int),
        },
        DocNode::Table { content } => NodeV::Table {
            content: items_upto(content@, content@.len() as int),
        },
        DocNode::Row { marker, content } => NodeV::Row {
            marker: marker@,
            content: items_upto(content@, content@.len() as int),
        },
        DocNode::Cell { marker, align, content } => NodeV::Cell {
            marker: marker@,
            align,
            content: items_upto(content@, content@.len() as int),
        },
        DocNode::Milestone { marker, content } => NodeV::Milestone {
            marker: marker@,
            content: match content {
                Some(c) => Some(items_upto(c@, c@.len() as int)),
                None => None,
            },
        },
        DocNode::Attribute { name, value } => NodeV::Attribute {
            name: opt_v(name),
            value: opt_v(value),
        },
        DocNode::Sidebar { marker, content } => NodeV::Sidebar {
            marker: marker@,
            content: items_upto(content@, content@.len() as int),
        },
        DocNode::Figure { marker, content } => NodeV::Figure {
            marker: marker@,
            content: items_upto(content@, content@.len() as int),
        },
        DocNode::Category { category } => NodeV::Category { category: opt_v(category) },
    }
}

/// The views of the first `k` items of `s`.
pub open spec fn items_upto(s: Seq<Item>, k: int) -> Seq<ItemV>
    decreases s, k,
{
    if k <= 0 || k > s.len() {
        Seq::empty()
    } else {
        items_upto(s, k - 1).push(item_v(s[k - 1]))
    }
}

/// The view of a content sequence.
pub open spec fn items_v(s: Seq<Item>) -> Seq<ItemV> {
    items_upto(s, s.len() as int)
}

impl Usj {
    /// The view of the document's content.
    pub open spec fn content_v(&self) -> Seq<ItemV> {
        items_v(self.content@)
    }
}

pub proof fn lemma_items_upto(s: Seq<Item>, k: int)
    requires
        0 <= k <= s.len(),
    ensures
        items_upto(s, k).len() == k,
        forall|j: int| 0 <= j < k ==> #[trigger] items_upto(s, k)[j] == item_v(s[j]),
    decreases k,
{
    if k > 0 {
        lemma_items_upto(s, k - 1);
    }
}

/// The view of a sequence holds the view of each item, at its index.
pub proof fn lemma_items_v(s: Seq<Item>)
    ensures
        items_v(s).len() == s.len(),
        forall|j: int| 0 <= j < s.len() ==> #[trigger] items_v(s)[j] == item_v(s[j]),
{
    lemma_items_upto(s, s.len() as int);
}

pub proof fn lemma_items_v_push(s: Seq<Item>, x: Item)
    ensures
        items_v(s.push(x)) == items_v(s).push(item_v(x)),
{
    lemma_items_v(s);
    lemma_items_v(s.push(x));
    assert(items_v(s.push(x)) =~= items_v(s).push(item_v(x)));
}

pub proof fn lemma_items_v_concat(a: Seq<Item>, b: Seq<Item>)
    ensures
        items_v(a + b) == items_v(a) + items_v(b),
{
    lemma_items_v(a);
    lemma_items_v(b);
    lemma_items_v(a + b);
    assert(items_v(a + b) =~= items_v(a) + items_v(b));
}

pub proof fn lemma_items_v_empty()
    ensures
        items_v(Seq::<Item>::empty()) == Seq::<ItemV>::empty(),
{
    lemma_items_v(Seq::<Item>::empty());
    assert(items_v(Seq::<Item>::empty()) =~= Seq::<ItemV>::empty());
}

} // verus!

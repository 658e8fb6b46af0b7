//! The syntax tree handed to the converter, and structural extraction over it.

use vstd::prelude::*;

use crate::text::{tag_name, tag_name_of, trim, trim_of};
use crate::usj::opt_v;

verus! {

/// The grammar category of a syntax node.
#[derive(Clone, Copy, PartialEq, Eq, Debug, Structural)]
pub enum Category {
    /// Book identification: a book code and an optional description.
    Id,
    BookCode,
    Description,
    /// A chapter marker: a chapter number and optional alternate and
    /// publication numbers.
    ChapterMarker,
    ChapterNumber,
    /// A verse marker: a verse number and optional alternate and publication
    /// numbers.
    Verse,
    VerseNumber,
    /// Holds an alternate chapter or verse number.
    AltNumber,
    /// Holds the text of a published chapter or verse number.
    PubNumber,
    /// Plain text.
    Text,
    /// An inline run (verse text, a footnote or cross-reference group) that
    /// adds no node of its own.
    Inline,
    /// A paragraph, poetry, title, list or other single-line block marker.
    Para,
    /// A blank line marker.
    LineBreak,
    /// The tag that opens or closes a marker.
    Tag,
    /// The level number that follows a marker tag.
    Numbered,
    /// A character style span.
    Char,
    /// A footnote or cross-reference.
    Note,
    Caller,
    Table,
    Row,
    Cell,
    /// A milestone or a namespace marker.
    Milestone,
    Attribute,
    AttributeName,
    AttributeValue,
    Sidebar,
    Figure,
    /// A category marker.
    Cat,
    CategoryText,
    /// Any category without a rule of its own.
    Other,
}

/// A node of the syntax tree: its category, its text (`None` where the source
/// bytes could not be decoded), and its children in document order.
#[derive(Debug)]
pub struct SyntaxNode {
    pub kind: Category,
    pub text: Option<String>,
    pub children: Vec<SyntaxNode>,
}

/// Categories that only carry data for the node above them, and add nothing
/// to a content sequence when met on their own.
pub open spec fn is_data_only(k: Category) -> bool {
    match k {
        Category::BookCode | Category::Description | Category::ChapterNumber
        | Category::VerseNumber | Category::AltNumber | Category::PubNumber | Category::Tag
        | Category::Numbered | Category::Caller | Category::AttributeName
        | Category::AttributeValue | Category::CategoryText => true,
        _ => false,
    }
}

/// Whether a node's text is white space alone; such a node adds nothing.
pub open spec fn is_blank(n: SyntaxNode) -> bool {
    match n.text {
        Some(t) => trim_of(t@).len() == 0,
        None => false,
    }
}

/// A node's text, trimmed; `None` where it could not be decoded.
pub open spec fn trimmed_text(n: SyntaxNode) -> Option<Seq<char>> {
    match n.text {
        Some(t) => Some(trim_of(t@)),
        None => None,
    }
}

/// The index of the first node of category `k` in `s` from `i` on, or the
/// length of `s` where there is none.
pub open spec fn find_kind(s: Seq<SyntaxNode>, k: Category, i: int) -> int
    decreases s.len() - i,
{
    if 0 <= i < s.len() {
        if s[i].kind == k {
            i
        } else {
            find_kind(s, k, i + 1)
        }
    } else {
        s.len() as int
    }
}

/// The trimmed text of the first child of `n` of category `k`.
pub open spec fn child_text(n: SyntaxNode, k: Category) -> Option<Seq<char>> {
    let j = find_kind(n.children@, k, 0);
    if j < n.children@.len() {
        trimmed_text(n.children@[j])
    } else {
        None
    }
}

/// The trimmed text of the first child of category `inner` of the first child
/// of `n` of category `outer`.
pub open spec fn nested_text(n: SyntaxNode, outer: Category, inner: Category) -> Option<
    Seq<char>,
> {
    let j = find_kind(n.children@, outer, 0);
    if j < n.children@.len() {
        child_text(n.children@[j], inner)
    } else {
        None
    }
}

/// The marker name of `n`: the name of its leading tag, followed by the level
/// number where one comes next; empty where `n` has no readable leading tag.
pub open spec fn marker_of(n: SyntaxNode) -> Seq<char> {
    let c = n.children@;
    if c.len() > 0 && c[0].kind == Category::Tag && c[0].text is Some {
        let base = tag_name(c[0].text->0@);
        if c.len() > 1 && c[1].kind == Category::Numbered && c[1].text is Some {
            base + c[1].text->0@
        } else {
            base
        }
    } else {
        Seq::empty()
    }
}

/// The value an optional text stands for where a text is needed.
pub open spec fn or_empty(o: Option<Seq<char>>) -> Seq<char> {
    match o {
        Some(s) => s,
        None => Seq::empty(),
    }
}

impl SyntaxNode {
    /// A node with the given category, text and children.
    pub fn new(kind: Category, text: Option<String>, children: Vec<SyntaxNode>) -> (r: SyntaxNode)
        ensures
            r.kind == kind,
            r.text == text,
            r.children == children,
    {
        SyntaxNode { kind, text, children }
    }

    /// Whether the text of this node is white space alone.
    pub fn blank(&self) -> (r: bool)
        ensures
            r == is_blank(*self),
    {
        match &self.text {
            Some(t) => {
                let tt = trim(t.as_str());
                tt.unicode_len() == 0
            },
            None => false,
        }
    }

    /// The trimmed text of this node.
    pub fn trimmed(&self) -> (r: Option<String>)
        ensures
            opt_v(r) == trimmed_text(*self),
    {
        match &self.text {
            Some(t) => Some(trim(t.as_str())),
            None => None,
        }
    }

    /// The index of the first child of category `k`, or the number of
    /// children where there is none.
    pub fn find_child(&self, k: Category) -> (r: usize)
        ensures
            r as int == find_kind(self.children@, k, 0),
    {
        let n = self.children.len();
        let mut i: usize = 0;
        while i < n
            invariant
                n == self.children@.len(),
                i <= n,
                find_kind(self.children@, k, 0) == find_kind(self.children@, k, i as int),
            decreases n - i,
        {
            if self.children[i].kind == k {
                return i;
            }
            i = i + 1;
        }
        n
    }

    /// The trimmed text of the first child of category `k`.
    pub fn child_text(&self, k: Category) -> (r: Option<String>)
        ensures
            opt_v(r) == child_text(*self, k),
    {
        let j = self.find_child(k);
        if j < self.children.len() {
            self.children[j].trimmed()
        } else {
            None
        }
    }

    /// The trimmed text of the first child of category `inner` of the first
    /// child of category `outer`.
    pub fn nested_text(&self, outer: Category, inner: Category) -> (r: Option<String>)
        ensures
            opt_v(r) == nested_text(*self, outer, inner),
    {
        let j = self.find_child(outer);
        if j < self.children.len() {
            self.children[j].child_text(inner)
        } else {
            None
        }
    }

    /// The marker name of this node.
    pub fn marker(&self) -> (r: String)
        ensures
            r@ == marker_of(*self),
    {
        let c = &self.children;
        if c.len() > 0 && c[0].kind == Category::Tag {
            match &c[0].text {
                Some(t) => {
                    let base = tag_name_of(t.as_str());
                    if c.len() > 1 && c[1].kind == Category::Numbered {
                        match &c[1].text {
                            Some(d) => {
                                let mut m = base;
                                m.append(d.as_str());
                                m
                            },
                            None => base,
                        }
                    } else {
                        base
                    }
                },
                None => String::new(),
            }
        } else {
            String::new()
        }
    }
}

} // verus!

use usfm_usj::convert::{node_2_usj, usj_generator, Context, UsjError};
use usfm_usj::syntax::{Category, SyntaxNode};
use usfm_usj::text::{has_char, join, strip_escapes, tag_name_of};
use usfm_usj::usj::{Align, DocNode, Item, Usj};

fn leaf(kind: Category, text: &str) -> SyntaxNode {
    SyntaxNode::new(kind, Some(text.to_string()), Vec::new())
}

fn node(kind: Category, text: &str, children: Vec<SyntaxNode>) -> SyntaxNode {
    SyntaxNode::new(kind, Some(text.to_string()), children)
}

fn s(t: &str) -> String {
    t.to_string()
}

fn book(code: &str) -> SyntaxNode {
    node(
        Category::Id,
        &format!("\\id {}", code),
        vec![leaf(Category::Tag, "\\id "), leaf(Category::BookCode, code)],
    )
}

fn chapter(num: &str) -> SyntaxNode {
    node(
        Category::ChapterMarker,
        &format!("\\c {}", num),
        vec![leaf(Category::Tag, "\\c "), leaf(Category::ChapterNumber, num)],
    )
}

fn verse(num: &str) -> SyntaxNode {
    node(
        Category::Verse,
        &format!("\\v {} ", num),
        vec![leaf(Category::Tag, "\\v "), leaf(Category::VerseNumber, &format!("{} ", num))],
    )
}

fn para(marker: &str, children: Vec<SyntaxNode>) -> SyntaxNode {
    let mut all = vec![leaf(Category::Tag, &format!("\\{}", marker))];
    all.extend(children);
    node(Category::Para, &format!("\\{} ...", marker), all)
}

fn convert(tree: &SyntaxNode) -> Usj {
    usj_generator(Some(tree)).unwrap()
}

fn verse_sids(items: &[Item], acc: &mut Vec<String>) {
    for item in items {
        if let Item::Node(n) = item {
            match n {
                DocNode::Verse { sid, .. } => acc.push(sid.clone()),
                DocNode::Para { content, .. } => verse_sids(content, acc),
                _ => {}
            }
        }
    }
}

fn sample_book() -> SyntaxNode {
    node(
        Category::Other,
        "\\id GEN ...",
        vec![
            node(Category::Other, "\\id GEN", vec![book("GEN")]),
            node(
                Category::Other,
                "\\c 1 ...",
                vec![
                    chapter("1"),
                    para("p", vec![verse("1"), leaf(Category::Text, "In the beginning"), verse("2")]),
                ],
            ),
            node(Category::Other, "\\c 2 ...", vec![chapter("2"), para("p", vec![verse("1")])]),
        ],
    )
}

#[test]
fn document_has_type_and_version() {
    let doc = convert(&sample_book());
    assert_eq!(doc.kind, "USJ");
    assert_eq!(doc.version, "3.1");
}

#[test]
fn missing_tree_is_an_error() {
    assert_eq!(usj_generator(None), Err(UsjError::MissingTree));
}

#[test]
fn verse_sids_follow_chapters() {
    let doc = convert(&sample_book());
    let mut sids = Vec::new();
    verse_sids(&doc.content, &mut sids);
    assert_eq!(sids, vec![s("1:1"), s("1:2"), s("2:1")]);
}

#[test]
fn chapter_sid_uses_book_code() {
    let doc = convert(&sample_book());
    let chapters: Vec<&DocNode> = doc
        .content
        .iter()
        .filter_map(|i| match i {
            Item::Node(n @ DocNode::Chapter { .. }) => Some(n),
            _ => None,
        })
        .collect();
    assert_eq!(
        chapters,
        vec![
            &DocNode::Chapter { number: Some(s("1")), sid: s("GEN 1"), altnumber: None, pubnumber: None },
            &DocNode::Chapter { number: Some(s("2")), sid: s("GEN 2"), altnumber: None, pubnumber: None },
        ]
    );
}

#[test]
fn chapter_sid_without_book_has_empty_code() {
    let doc = convert(&node(Category::Other, "\\c 3", vec![chapter("3")]));
    assert_eq!(
        doc.content,
        vec![Item::Node(DocNode::Chapter { number: Some(s("3")), sid: s(" 3"), altnumber: None, pubnumber: None })]
    );
}

#[test]
fn book_node_holds_code_and_description() {
    let id = node(
        Category::Id,
        "\\id MAT Matthew",
        vec![leaf(Category::Tag, "\\id "), leaf(Category::BookCode, "MAT"), leaf(Category::Description, " Matthew ")],
    );
    let doc = convert(&id);
    assert_eq!(
        doc.content,
        vec![Item::Node(DocNode::Book { code: Some(s("MAT")), content: vec![Item::Text(s("Matthew"))] })]
    );
}

#[test]
fn verse_before_any_chapter_is_in_chapter_zero() {
    let doc = convert(&para("p", vec![verse("4")]));
    let mut sids = Vec::new();
    verse_sids(&doc.content, &mut sids);
    assert_eq!(sids, vec![s("0:4")]);
}

#[test]
fn chapter_and_verse_alternate_and_published_numbers() {
    let c = node(
        Category::ChapterMarker,
        "\\c 1 \\ca 2\\ca* \\cp A",
        vec![
            leaf(Category::Tag, "\\c "),
            leaf(Category::ChapterNumber, "1"),
            node(Category::AltNumber, "\\ca 2\\ca*", vec![leaf(Category::Tag, "\\ca "), leaf(Category::ChapterNumber, "2")]),
            node(Category::PubNumber, "\\cp A", vec![leaf(Category::Tag, "\\cp "), leaf(Category::Text, "A ")]),
        ],
    );
    let v = node(
        Category::Verse,
        "\\v 5 \\va 6\\va*",
        vec![
            leaf(Category::Tag, "\\v "),
            leaf(Category::VerseNumber, "5 "),
            node(Category::AltNumber, "\\va 6\\va*", vec![leaf(Category::Tag, "\\va "), leaf(Category::VerseNumber, "6")]),
        ],
    );
    let doc = convert(&node(Category::Other, "...", vec![c, v]));
    assert_eq!(
        doc.content,
        vec![
            Item::Node(DocNode::Chapter {
                number: Some(s("1")),
                sid: s(" 1"),
                altnumber: Some(s("2")),
                pubnumber: Some(s("A")),
            }),
            Item::Node(DocNode::Verse { number: Some(s("5")), sid: s("1:5"), altnumber: Some(s("6")), pubnumber: None }),
        ]
    );
}

#[test]
fn blank_nodes_add_nothing() {
    let p = para("p", vec![leaf(Category::Text, "  \n"), leaf(Category::Text, "word")]);
    let doc = convert(&node(Category::Other, "...", vec![p, leaf(Category::Text, " "), node(Category::Para, " ", vec![])]));
    assert_eq!(
        doc.content,
        vec![Item::Node(DocNode::Para { marker: s("p"), content: vec![Item::Text(s("word"))] })]
    );
}

#[test]
fn numbered_marker_joins_level() {
    let q = node(
        Category::Para,
        "\\q1 line",
        vec![leaf(Category::Tag, "\\q"), leaf(Category::Numbered, "1"), leaf(Category::Text, "line")],
    );
    let doc = convert(&q);
    assert_eq!(
        doc.content,
        vec![Item::Node(DocNode::Para { marker: s("q1"), content: vec![Item::Text(s("line"))] })]
    );
}

#[test]
fn paragraph_closes_before_block_children() {
    let table = node(Category::Table, "\\tr ...", vec![]);
    let p = para("p", vec![leaf(Category::Text, "a"), table]);
    let doc = convert(&p);
    assert_eq!(
        doc.content,
        vec![
            Item::Node(DocNode::Para { marker: s("p"), content: vec![Item::Text(s("a"))] }),
            Item::Node(DocNode::Table { content: vec![] }),
        ]
    );
}

fn cell(tag: &str, text: &str) -> SyntaxNode {
    node(Category::Cell, &format!("{} {}", tag, text), vec![leaf(Category::Tag, tag), leaf(Category::Text, text)])
}

#[test]
fn cell_alignment_follows_marker() {
    let row = node(Category::Row, "\\tr ...", vec![leaf(Category::Tag, "\\tr "), cell("\\tcr1", "x"), cell("\\tc2", "y")]);
    let doc = convert(&node(Category::Table, "\\tr ...", vec![row]));
    assert_eq!(
        doc.content,
        vec![Item::Node(DocNode::Table {
            content: vec![Item::Node(DocNode::Row {
                marker: s("tr"),
                content: vec![
                    Item::Node(DocNode::Cell { marker: s("tcr1"), align: Align::End, content: vec![Item::Text(s("x"))] }),
                    Item::Node(DocNode::Cell { marker: s("tc2"), align: Align::Start, content: vec![Item::Text(s("y"))] }),
                ],
            })],
        })]
    );
}

#[test]
fn cell_markers_tcr_and_tc() {
    let doc = convert(&node(Category::Other, "...", vec![cell("\\tcr", "a"), cell("\\tc", "b")]));
    let aligns: Vec<Align> = doc
        .content
        .iter()
        .filter_map(|i| match i {
            Item::Node(DocNode::Cell { align, .. }) => Some(*align),
            _ => None,
        })
        .collect();
    assert_eq!(aligns, vec![Align::End, Align::Start]);
}

fn attribute(name: &str, value: &str) -> SyntaxNode {
    node(
        Category::Attribute,
        &format!("{}=\"{}\"", name, value),
        vec![leaf(Category::AttributeName, name), leaf(Category::Other, "="), leaf(Category::AttributeValue, value)],
    )
}

#[test]
fn milestone_without_attributes_has_no_content() {
    let ms = node(Category::Milestone, "\\ts\\*", vec![leaf(Category::Tag, "\\ts"), leaf(Category::Tag, "\\*")]);
    let doc = convert(&ms);
    assert_eq!(doc.content, vec![Item::Node(DocNode::Milestone { marker: s("ts"), content: None })]);
}

#[test]
fn milestone_with_one_attribute() {
    let ms = node(
        Category::Milestone,
        "\\qt-s |sid=\"a\"\\*",
        vec![leaf(Category::Tag, "\\qt-s"), leaf(Category::Other, "|"), attribute("sid", "a"), leaf(Category::Tag, "\\*")],
    );
    let doc = convert(&ms);
    assert_eq!(
        doc.content,
        vec![Item::Node(DocNode::Milestone {
            marker: s("qt-s"),
            content: Some(vec![Item::Node(DocNode::Attribute { name: Some(s("sid")), value: Some(s("a")) })]),
        })]
    );
}

#[test]
fn footnote_with_caller_and_text() {
    let f = node(
        Category::Note,
        "\\f + hello\\f*",
        vec![
            leaf(Category::Tag, "\\f "),
            leaf(Category::Caller, "+"),
            node(Category::Inline, "hello", vec![leaf(Category::Text, "hello")]),
            leaf(Category::Tag, "\\f*"),
        ],
    );
    let doc = convert(&f);
    assert_eq!(
        doc.content,
        vec![Item::Node(DocNode::Note { marker: s("f"), caller: Some(s("+")), content: vec![Item::Text(s("hello"))] })]
    );
}

#[test]
fn nested_char_marker_drops_plus() {
    let c = node(
        Category::Char,
        "\\+nd Lord\\+nd*",
        vec![leaf(Category::Tag, "\\+nd "), leaf(Category::Text, "Lord"), leaf(Category::Tag, "\\+nd*")],
    );
    let doc = convert(&c);
    assert_eq!(
        doc.content,
        vec![Item::Node(DocNode::Char { marker: s("nd"), content: vec![Item::Text(s("Lord"))] })]
    );
}

#[test]
fn category_sidebar_and_figure() {
    let cat = node(
        Category::Cat,
        "\\cat People\\cat*",
        vec![leaf(Category::Tag, "\\cat"), leaf(Category::CategoryText, " People"), leaf(Category::Tag, "\\cat*")],
    );
    let esb = node(Category::Sidebar, "\\esb ... \\esbe", vec![leaf(Category::Tag, "\\esb"), cat, leaf(Category::Tag, "\\esbe")]);
    let fig = node(Category::Figure, "\\fig cap\\fig*", vec![leaf(Category::Tag, "\\fig"), leaf(Category::Text, "cap")]);
    let doc = convert(&node(Category::Other, "...", vec![esb, fig]));
    assert_eq!(
        doc.content,
        vec![
            Item::Node(DocNode::Sidebar {
                marker: s("esb"),
                content: vec![Item::Node(DocNode::Category { category: Some(s("People")) })],
            }),
            Item::Node(DocNode::Figure { marker: s("fig"), content: vec![Item::Text(s("cap"))] }),
        ]
    );
}

#[test]
fn undecodable_text_leaves_field_unset() {
    let v = node(
        Category::Verse,
        "\\v 1",
        vec![leaf(Category::Tag, "\\v "), SyntaxNode::new(Category::VerseNumber, None, Vec::new())],
    );
    let mut ctx = Context::new();
    let mut out = Vec::new();
    node_2_usj(&v, &mut ctx, &mut out);
    assert_eq!(
        out,
        vec![Item::Node(DocNode::Verse { number: None, sid: s("0:"), altnumber: None, pubnumber: None })]
    );
}

#[test]
fn converting_twice_gives_same_document() {
    let tree = sample_book();
    assert_eq!(convert(&tree), convert(&tree));
}

#[test]
fn context_is_per_conversion() {
    let mut first = Context::new();
    let mut out = Vec::new();
    node_2_usj(&chapter("7"), &mut first, &mut out);
    assert_eq!(first.chapter, Some(s("7")));
    let doc = convert(&para("p", vec![verse("1")]));
    let mut sids = Vec::new();
    verse_sids(&doc.content, &mut sids);
    assert_eq!(sids, vec![s("0:1")]);
}

#[test]
fn text_helpers() {
    assert_eq!(tag_name_of("\\p \n"), "p");
    assert_eq!(tag_name_of("  \\+add "), "add");
    assert_eq!(strip_escapes("\\+w x\\+w*"), "w xw*");
    assert!(has_char("tcr", 'r'));
    assert!(!has_char("tc", 'r'));
    assert_eq!(join("GEN", " 1"), "GEN 1");
}

use vstd::prelude::*;
use crate::paragraph::Paragraph;
use crate::section_property::SectionProperty;
use crate::table::Table;
use crate::xml_builder::{
    concat_xml, declaration_xml, element_xml, end_tag, indent, lemma_concat_xml_alike,
    lemma_concat_xml_append, lemma_concat_xml_empty, lemma_concat_xml_push, lit, start_tag,
    Attribute, BuildXML, FrameView, Last, XMLBuilder, XMLBuilderView,
};

verus! {

/// One piece of body content.
pub enum DocumentChild {
    Paragraph(Paragraph),
    Table(Table),
}

impl BuildXML for DocumentChild {
    open spec fn xml(&self) -> Seq<u8> {
        match self {
            DocumentChild::Paragraph(p) => p.xml(),
            DocumentChild::Table(t) => t.xml(),
        }
    }

    fn build(&self) -> (r: Vec<u8>) {
        match self {
            DocumentChild::Paragraph(p) => p.build(),
            DocumentChild::Table(t) => t.build(),
        }
    }
}

/// The namespace declarations of the root element, and the namespaces that
/// readers may ignore, in order.
#[verifier::opaque]
pub open spec fn document_attrs() -> Seq<(Seq<u8>, Seq<u8>)> {
    seq![
        (lit("xmlns:o"), lit("urn:schemas-microsoft-com:office:office")),
        (lit("xmlns:r"), lit("http://schemas.openxmlformats.org/officeDocument/2006/relationships")),
        (lit("xmlns:v"), lit("urn:schemas-microsoft-com:vml")),
        (lit("xmlns:w"), lit("http://schemas.openxmlformats.org/wordprocessingml/2006/main")),
        (lit("xmlns:w10"), lit("urn:schemas-microsoft-com:office:word")),
        (lit("xmlns:wp"), lit("http://schemas.openxmlformats.org/drawingml/2006/wordprocessingDrawing")),
        (lit("xmlns:wps"), lit("http://schemas.microsoft.com/office/word/2010/wordprocessingShape")),
        (lit("xmlns:wpg"), lit("http://schemas.microsoft.com/office/word/2010/wordprocessingGroup")),
        (lit("xmlns:mc"), lit("http://schemas.openxmlformats.org/markup-compatibility/2006")),
        (lit("xmlns:wp14"), lit("http://schemas.microsoft.com/office/word/2010/wordprocessingDrawing")),
        (lit("xmlns:w14"), lit("http://schemas.microsoft.com/office/word/2010/wordml")),
        (lit("mc:Ignorable"), lit("w14 wp14")),
    ]
}

fn document_attributes() -> (r: Vec<Attribute>)
    ensures
        r@.map_values(|a: Attribute| a@) == document_attrs(),
{
    let mut r: Vec<Attribute> = Vec::new();
    r.push(Attribute::new("xmlns:o", "urn:schemas-microsoft-com:office:office"));
    r.push(Attribute::new("xmlns:r", "http://schemas.openxmlformats.org/officeDocument/2006/relationships"));
    r.push(Attribute::new("xmlns:v", "urn:schemas-microsoft-com:vml"));
    r.push(Attribute::new("xmlns:w", "http://schemas.openxmlformats.org/wordprocessingml/2006/main"));
    r.push(Attribute::new("xmlns:w10", "urn:schemas-microsoft-com:office:word"));
    r.push(Attribute::new("xmlns:wp", "http://schemas.openxmlformats.org/drawingml/2006/wordprocessingDrawing"));
    r.push(Attribute::new("xmlns:wps", "http://schemas.microsoft.com/office/word/2010/wordprocessingShape"));
    r.push(Attribute::new("xmlns:wpg", "http://schemas.microsoft.com/office/word/2010/wordprocessingGroup"));
    r.push(Attribute::new("xmlns:mc", "http://schemas.openxmlformats.org/markup-compatibility/2006"));
    r.push(Attribute::new("xmlns:wp14", "http://schemas.microsoft.com/office/word/2010/wordprocessingDrawing"));
    r.push(Attribute::new("xmlns:w14", "http://schemas.microsoft.com/office/word/2010/wordml"));
    r.push(Attribute::new("mc:Ignorable", "w14 wp14"));
    reveal(document_attrs);
    assert(r@.map_values(|a: Attribute| a@) =~= document_attrs());
    r
}

/// A builder inside the body of the main document part, with `body` written
/// there so far.
spec fn doc_view(body: Seq<u8>, last: Last) -> XMLBuilderView {
    XMLBuilderView {
        out: declaration_xml(true),
        out_last: Last::Element,
        stack: seq![
            FrameView {
                name: lit("w:document"),
                start: start_tag(lit("w:document"), document_attrs()),
                content: Seq::empty(),
                last: Last::Nothing,
            },
            FrameView { name: lit("w:body"), start: start_tag(lit("w:body"), seq![]), content: body, last },
        ],
    }
}

proof fn lemma_doc_view_piece(body: Seq<u8>, last: Last, bytes: Seq<u8>, kind: Last)
    ensures
        doc_view(body, last).with_piece(bytes, kind) == doc_view(body + bytes, kind),
{
    assert(doc_view(body, last).with_piece(bytes, kind).stack =~= doc_view(body + bytes, kind).stack);
}

fn open_document() -> (b: XMLBuilder)
    ensures
        b@ == doc_view(Seq::empty(), Last::Nothing),
{
    let mut b = XMLBuilder::with_declaration(true);
    b.open_element("w:document", &document_attributes());
    let none: Vec<Attribute> = Vec::new();
    assert(none@.map_values(|a: Attribute| a@) =~= seq![]);
    b.open_element("w:body", &none);
    assert(b@.stack =~= doc_view(Seq::empty(), Last::Nothing).stack);
    b
}

spec fn body_xml(body: Seq<u8>) -> Seq<u8> {
    start_tag(lit("w:body"), seq![]) + lit(">") + body + end_tag(lit("w:body"))
}

spec fn root_view(body: Seq<u8>) -> XMLBuilderView {
    XMLBuilderView {
        out: declaration_xml(true),
        out_last: Last::Element,
        stack: seq![
            FrameView {
                name: lit("w:document"),
                start: start_tag(lit("w:document"), document_attrs()),
                content: lit("\n") + indent(1) + body_xml(body),
                last: Last::Element,
            },
        ],
    }
}

proof fn lemma_close_body(body: Seq<u8>)
    ensures
        doc_view(body, Last::Text).closed() == root_view(body),
{
    let v = doc_view(body, Last::Text);
    assert(v.stack.drop_last() =~= seq![v.stack[0]]);
    assert(element_xml(v.stack[1], 1) == body_xml(body));
    assert(v.closed().stack =~= root_view(body).stack);
}

proof fn lemma_close_root(body: Seq<u8>)
    ensures
        root_view(body).closed().out == document_head() + body + document_tail(),
        root_view(body).closed().stack.len() == 0,
{
    let v = root_view(body);
    assert(v.stack.drop_last() =~= Seq::<FrameView>::empty());
    assert(indent(0) =~= Seq::<u8>::empty());
    assert(v.closed().out =~= document_head() + body + document_tail());
}

fn close_document(b: XMLBuilder, Ghost(body): Ghost<Seq<u8>>) -> (r: Vec<u8>)
    requires
        b@ == doc_view(body, Last::Text),
    ensures
        r@ == document_head() + body + document_tail(),
{
    let mut b = b;
    proof {
        lemma_close_body(body);
        lemma_close_root(body);
    }
    b.close();
    b.close();
    b.build()
}

/// The prolog and the start tag of the root element.
pub open spec fn document_root_open() -> Seq<u8> {
    declaration_xml(true) + lit("\n") + start_tag(lit("w:document"), document_attrs()) + lit(">")
}

/// Everything before the body's content.
pub open spec fn document_head() -> Seq<u8> {
    document_root_open() + lit("\n") + indent(1) + start_tag(lit("w:body"), seq![]) + lit(">")
}

/// Everything after the section layout.
pub open spec fn document_tail() -> Seq<u8> {
    end_tag(lit("w:body")) + lit("\n") + end_tag(lit("w:document"))
}

/// The main document part: the body holds the markup of each child in order,
/// then the section layout.
pub open spec fn document_xml(children: Seq<DocumentChild>, section: SectionProperty) -> Seq<u8> {
    document_head() + concat_xml(children) + section.xml() + document_tail()
}

/// A document body: its content in order, and the layout of its one section.
pub struct Document {
    pub children: Vec<DocumentChild>,
    pub section_property: SectionProperty,
}

impl Document {
    /// A document with no content and the default layout.
    pub fn new() -> (r: Document)
        ensures
            r.children@.len() == 0,
            r.section_property == SectionProperty::spec_new(),
    {
        Document::default()
    }

    /// The document with `p` added after its content.
    pub fn add_paragraph(self, p: Paragraph) -> (r: Document)
        ensures
            r.children@ == self.children@.push(DocumentChild::Paragraph(p)),
            r.section_property == self.section_property,
    {
        let mut r = self;
        r.children.push(DocumentChild::Paragraph(p));
        r
    }

    /// The document with `t` added after its content.
    pub fn add_table(self, t: Table) -> (r: Document)
        ensures
            r.children@ == self.children@.push(DocumentChild::Table(t)),
            r.section_property == self.section_property,
    {
        let mut r = self;
        r.children.push(DocumentChild::Table(t));
        r
    }
}

impl Default for Document {
    fn default() -> (r: Document)
        ensures
            r.children@.len() == 0,
            r.section_property == SectionProperty::spec_new(),
    {
        Document { children: Vec::new(), section_property: SectionProperty::new() }
    }
}

impl BuildXML for Document {
    open spec fn xml(&self) -> Seq<u8> {
        document_xml(self.children@, self.section_property)
    }

    fn build(&self) -> (r: Vec<u8>) {
        let mut b = open_document();
        b.add_children(&self.children);
        let ghost children = concat_xml(self.children@);
        proof {
            if self.children@.len() == 0 {
                lemma_concat_xml_empty(self.children@);
                assert(Seq::<u8>::empty() + children =~= children);
            } else {
                lemma_doc_view_piece(Seq::empty(), Last::Nothing, children, Last::Text);
                assert(Seq::<u8>::empty() + children =~= children);
            }
        }
        let ghost last = b@.stack[1].last;
        assert(b@ == doc_view(children, last));
        b.add_child(&self.section_property);
        proof {
            lemma_doc_view_piece(children, last, self.section_property.xml(), Last::Text);
        }
        let r = close_document(b, Ghost(children + self.section_property.xml()));
        assert(r@ =~= self.xml());
        r
    }
}


/// The body holds the markup of the nodes in the order they were appended,
/// and the section layout comes last: for nodes `children` followed by nodes
/// `more`, the body is the markup of `children`, then that of `more`, then
/// the section layout.
pub proof fn lemma_body_in_append_order(
    children: Seq<DocumentChild>,
    more: Seq<DocumentChild>,
    section: SectionProperty,
)
    ensures
        document_xml(children + more, section) == document_head() + concat_xml(children)
            + concat_xml(more) + section.xml() + document_tail(),
{
    lemma_concat_xml_append(children, more);
    assert(document_xml(children + more, section) =~= document_head() + concat_xml(children)
        + concat_xml(more) + section.xml() + document_tail());
}

/// Appending one node puts its markup after that of every node before it and
/// just before the section layout.
pub proof fn lemma_append_goes_last(
    children: Seq<DocumentChild>,
    node: DocumentChild,
    section: SectionProperty,
)
    ensures
        document_xml(children.push(node), section) == document_head() + concat_xml(children)
            + node.xml() + section.xml() + document_tail(),
{
    lemma_concat_xml_push(children, node);
}

/// Rendering depends on nothing but what the document holds: two documents
/// whose nodes render alike, position by position, and whose section layouts
/// are equal render to the same bytes.
pub proof fn lemma_render_deterministic(a: &Document, b: &Document)
    requires
        a.children@.len() == b.children@.len(),
        forall|i: int| 0 <= i < a.children@.len() ==> #[trigger] a.children@[i].xml()
            == b.children@[i].xml(),
        a.section_property == b.section_property,
    ensures
        a.xml() == b.xml(),
{
    lemma_concat_xml_alike(a.children@, b.children@);
}

/// A document with no content has a body that holds the section layout alone.
pub proof fn lemma_empty_body(section: SectionProperty)
    ensures
        document_xml(Seq::empty(), section) == document_head() + section.xml() + document_tail(),
{
    lemma_concat_xml_empty(Seq::<DocumentChild>::empty());
    assert(document_xml(Seq::empty(), section) =~= document_head() + section.xml()
        + document_tail());
}

/// Whatever the content, the output starts with the prolog and the root
/// start tag with its fixed namespace declarations, in their fixed order.
pub proof fn lemma_root_fixed(children: Seq<DocumentChild>, section: SectionProperty)
    ensures
        document_xml(children, section).subrange(0, document_root_open().len() as int)
            == document_root_open(),
{
    let x = document_xml(children, section);
    let rest = lit("\n") + indent(1) + start_tag(lit("w:body"), seq![]) + lit(">") + concat_xml(
        children,
    ) + section.xml() + document_tail();
    assert(x =~= document_root_open() + rest);
    assert(x.subrange(0, document_root_open().len() as int) =~= document_root_open());
}

} // verus!

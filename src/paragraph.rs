use vstd::prelude::*;
use vstd::utf8::encode_utf8;
use crate::xml_builder::{
    concat_xml, empty_element, lemma_concat_xml_empty, escape, lit, text_element, Attribute, BuildXML, XMLBuilder,
};

verus! {

/// The style a paragraph refers to, by its id.
pub struct ParagraphStyle {
    pub val: String,
}

impl ParagraphStyle {
    pub fn new(val: &str) -> (r: ParagraphStyle)
        ensures
            r.val@ == val@,
    {
        ParagraphStyle { val: String::from_str(val) }
    }
}

impl BuildXML for ParagraphStyle {
    open spec fn xml(&self) -> Seq<u8> {
        empty_element(lit("w:pStyle"), seq![(lit("w:val"), encode_utf8(self.val@))])
    }

    fn build(&self) -> (r: Vec<u8>) {
        let mut attrs: Vec<Attribute> = Vec::new();
        attrs.push(Attribute::new("w:val", self.val.as_str()));
        proof {
            reveal(lit);
        }
        let mut b = XMLBuilder::new();
        b.open_element("w:pStyle", &attrs);
        assert(attrs@.map_values(|a: Attribute| a@) =~= seq![(lit("w:val"), encode_utf8(self.val@))]);
        b.close();
        b.build()
    }
}

/// Character formatting of a run; the defaults alone.
pub struct RunProperty {}

impl RunProperty {
    pub fn new() -> (r: RunProperty) {
        RunProperty {  }
    }
}

impl BuildXML for RunProperty {
    open spec fn xml(&self) -> Seq<u8> {
        empty_element(lit("w:rPr"), seq![])
    }

    fn build(&self) -> (r: Vec<u8>) {
        let attrs: Vec<Attribute> = Vec::new();
        let mut b = XMLBuilder::new();
        b.open_element("w:rPr", &attrs);
        assert(attrs@.map_values(|a: Attribute| a@) =~= seq![]);
        b.close();
        b.build()
    }
}


/// Paragraph formatting: its style and the run formatting of its mark.
pub struct ParagraphProperty {
    pub style: ParagraphStyle,
    pub run_property: RunProperty,
}

impl ParagraphProperty {
    /// The `Normal` style and default run formatting.
    pub fn new() -> (r: ParagraphProperty)
        ensures
            r.style.val@ == "Normal"@,
    {
        ParagraphProperty { style: ParagraphStyle::new("Normal"), run_property: RunProperty::new() }
    }
}

impl BuildXML for ParagraphProperty {
    open spec fn xml(&self) -> Seq<u8> {
        text_element(lit("w:pPr"), seq![], self.style.xml() + self.run_property.xml())
    }

    fn build(&self) -> (r: Vec<u8>) {
        let attrs: Vec<Attribute> = Vec::new();
        let mut b = XMLBuilder::new();
        b.open_element("w:pPr", &attrs);
        assert(attrs@.map_values(|a: Attribute| a@) =~= seq![]);
        b.add_child(&self.style);
        b.add_child(&self.run_property);
        b.close();
        let r = b.build();
        assert(r@ =~= self.xml());
        r
    }
}

/// A piece of text inside a run.
pub struct Text {
    pub text: String,
    /// Whether readers keep leading and trailing spaces.
    pub preserve_space: bool,
}

impl Text {
    /// Text whose spaces are kept.
    pub fn new(text: &str) -> (r: Text)
        ensures
            r.text@ == text@,
            r.preserve_space,
    {
        Text { text: String::from_str(text), preserve_space: true }
    }
}

/// The attributes of a text element.
pub open spec fn text_attrs(preserve_space: bool) -> Seq<(Seq<u8>, Seq<u8>)> {
    if preserve_space {
        seq![(lit("xml:space"), lit("preserve"))]
    } else {
        seq![]
    }
}

impl BuildXML for Text {
    open spec fn xml(&self) -> Seq<u8> {
        text_element(lit("w:t"), text_attrs(self.preserve_space), escape(encode_utf8(self.text@)))
    }

    fn build(&self) -> (r: Vec<u8>) {
        let mut attrs: Vec<Attribute> = Vec::new();
        if self.preserve_space {
            attrs.push(Attribute::new("xml:space", "preserve"));
        }
        assert(attrs@.map_values(|a: Attribute| a@) =~= text_attrs(self.preserve_space));
        let mut b = XMLBuilder::new();
        b.open_element("w:t", &attrs);
        b.add_text(self.text.as_str());
        proof {
            reveal(lit);
        }
        b.close();
        let r = b.build();
        assert(r@ =~= self.xml());
        r
    }
}

/// A stretch of text with one formatting.
pub struct Run {
    pub run_property: RunProperty,
    pub children: Vec<Text>,
}

impl Run {
    /// A run with no text and default formatting.
    pub fn new() -> (r: Run)
        ensures
            r.children@.len() == 0,
    {
        Run { run_property: RunProperty::new(), children: Vec::new() }
    }

    /// The run with a piece of text added at its end.
    pub fn add_text(self, text: &str) -> (r: Run)
        ensures
            r.children@.len() == self.children@.len() + 1,
            r.children@.drop_last() == self.children@,
            r.children@.last().text@ == text@,
            r.children@.last().preserve_space,
    {
        let mut r = self;
        r.children.push(Text::new(text));
        assert(r.children@.drop_last() =~= self.children@);
        r
    }
}

impl BuildXML for Run {
    open spec fn xml(&self) -> Seq<u8> {
        text_element(lit("w:r"), seq![], self.run_property.xml() + concat_xml(self.children@))
    }

    fn build(&self) -> (r: Vec<u8>) {
        let attrs: Vec<Attribute> = Vec::new();
        let mut b = XMLBuilder::new();
        b.open_element("w:r", &attrs);
        assert(attrs@.map_values(|a: Attribute| a@) =~= seq![]);
        b.add_child(&self.run_property);
        b.add_children(&self.children);
        proof {
            if self.children@.len() == 0 {
                lemma_concat_xml_empty(self.children@);
            }
        }
        b.close();
        let r = b.build();
        assert(r@ =~= self.xml());
        r
    }
}

/// A paragraph: its formatting and its runs, in order.
pub struct Paragraph {
    pub property: ParagraphProperty,
    pub runs: Vec<Run>,
}

impl Paragraph {
    /// An empty paragraph in the `Normal` style.
    pub fn new() -> (r: Paragraph)
        ensures
            r.runs@.len() == 0,
            r.property.style.val@ == "Normal"@,
    {
        Paragraph { property: ParagraphProperty::new(), runs: Vec::new() }
    }

    /// The paragraph with `run` added after its runs.
    pub fn add_run(self, run: Run) -> (r: Paragraph)
        ensures
            r.runs@ == self.runs@.push(run),
            r.property == self.property,
    {
        let mut r = self;
        r.runs.push(run);
        r
    }

    /// The paragraph in the style with id `id`.
    pub fn style(self, id: &str) -> (r: Paragraph)
        ensures
            r.runs@ == self.runs@,
            r.property.style.val@ == id@,
            r.property.run_property == self.property.run_property,
    {
        let mut r = self;
        r.property.style = ParagraphStyle::new(id);
        r
    }
}

impl BuildXML for Paragraph {
    open spec fn xml(&self) -> Seq<u8> {
        text_element(lit("w:p"), seq![], self.property.xml() + concat_xml(self.runs@))
    }

    fn build(&self) -> (r: Vec<u8>) {
        let attrs: Vec<Attribute> = Vec::new();
        let mut b = XMLBuilder::new();
        b.open_element("w:p", &attrs);
        assert(attrs@.map_values(|a: Attribute| a@) =~= seq![]);
        b.add_child(&self.property);
        b.add_children(&self.runs);
        proof {
            if self.runs@.len() == 0 {
                lemma_concat_xml_empty(self.runs@);
            }
        }
        b.close();
        let r = b.build();
        assert(r@ =~= self.xml());
        r
    }
}

} // verus!

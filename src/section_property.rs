use vstd::prelude::*;
use crate::xml_builder::{
    decimal, empty_element, end_tag, indent, lit, start_tag, Attribute, BuildXML, XMLBuilder,
};

verus! {

/// Page width and height, in twentieths of a point.
#[derive(Clone, Copy, Debug, PartialEq, Eq, Structural)]
pub struct PageSize {
    pub w: u32,
    pub h: u32,
}

impl PageSize {
    /// An A4 page.
    pub fn new() -> (r: PageSize)
        ensures
            r.w == 11906 && r.h == 16838,
    {
        PageSize { w: 11906, h: 16838 }
    }
}

impl BuildXML for PageSize {
    open spec fn xml(&self) -> Seq<u8> {
        empty_element(
            lit("w:pgSz"),
            seq![(lit("w:w"), decimal(self.w as nat)), (lit("w:h"), decimal(self.h as nat))],
        )
    }

    fn build(&self) -> (r: Vec<u8>) {
        let mut attrs: Vec<Attribute> = Vec::new();
        attrs.push(Attribute::number("w:w", self.w));
        attrs.push(Attribute::number("w:h", self.h));
        assert(attrs@.map_values(|a: Attribute| a@) =~= seq![
            (lit("w:w"), decimal(self.w as nat)),
            (lit("w:h"), decimal(self.h as nat)),
        ]);
        let mut b = XMLBuilder::new();
        b.open_element("w:pgSz", &attrs);
        b.close();
        b.build()
    }
}

/// Page margins, in twentieths of a point.
#[derive(Clone, Copy, Debug, PartialEq, Eq, Structural)]
pub struct PageMargin {
    pub top: u32,
    pub right: u32,
    pub bottom: u32,
    pub left: u32,
    pub header: u32,
    pub footer: u32,
    pub gutter: u32,
}

impl PageMargin {
    /// The default margins.
    pub fn new() -> (r: PageMargin)
        ensures
            r.top == 1985 && r.right == 1701 && r.bottom == 1701 && r.left == 1701,
            r.header == 851 && r.footer == 992 && r.gutter == 0,
    {
        PageMargin { top: 1985, right: 1701, bottom: 1701, left: 1701, header: 851, footer: 992, gutter: 0 }
    }
}

/// The attributes of the margins element, in order.
pub open spec fn margin_attrs(m: PageMargin) -> Seq<(Seq<u8>, Seq<u8>)> {
    seq![
        (lit("w:top"), decimal(m.top as nat)),
        (lit("w:right"), decimal(m.right as nat)),
        (lit("w:bottom"), decimal(m.bottom as nat)),
        (lit("w:left"), decimal(m.left as nat)),
        (lit("w:header"), decimal(m.header as nat)),
        (lit("w:footer"), decimal(m.footer as nat)),
        (lit("w:gutter"), decimal(m.gutter as nat)),
    ]
}

impl BuildXML for PageMargin {
    open spec fn xml(&self) -> Seq<u8> {
        empty_element(lit("w:pgMar"), margin_attrs(*self))
    }

    fn build(&self) -> (r: Vec<u8>) {
        let mut attrs: Vec<Attribute> = Vec::new();
        attrs.push(Attribute::number("w:top", self.top));
        attrs.push(Attribute::number("w:right", self.right));
        attrs.push(Attribute::number("w:bottom", self.bottom));
        attrs.push(Attribute::number("w:left", self.left));
        attrs.push(Attribute::number("w:header", self.header));
        attrs.push(Attribute::number("w:footer", self.footer));
        attrs.push(Attribute::number("w:gutter", self.gutter));
        assert(attrs@.map_values(|a: Attribute| a@) =~= margin_attrs(*self));
        let mut b = XMLBuilder::new();
        b.open_element("w:pgMar", &attrs);
        b.close();
        b.build()
    }
}

/// The page layout of a section: size, margins, column spacing and the
/// pitch of the line grid.
#[derive(Clone, Copy, Debug, PartialEq, Eq, Structural)]
pub struct SectionProperty {
    pub page_size: PageSize,
    pub page_margin: PageMargin,
    /// Space between columns, in twentieths of a point.
    pub columns: u32,
    /// Line pitch of the document grid, in twentieths of a point.
    pub document_grid: u32,
}

impl SectionProperty {
    /// The default layout: an A4 page with the default margins.
    pub open spec fn spec_new() -> SectionProperty {
        SectionProperty {
            page_size: PageSize { w: 11906, h: 16838 },
            page_margin: PageMargin {
                top: 1985,
                right: 1701,
                bottom: 1701,
                left: 1701,
                header: 851,
                footer: 992,
                gutter: 0,
            },
            columns: 425,
            document_grid: 360,
        }
    }

    /// An A4 page with the default margins, 425 between columns and a line
    /// pitch of 360.
    pub fn new() -> (r: SectionProperty)
        ensures
            r == SectionProperty::spec_new(),
    {
        SectionProperty {
            page_size: PageSize::new(),
            page_margin: PageMargin::new(),
            columns: 425,
            document_grid: 360,
        }
    }
}

/// The columns element: only their spacing.
pub open spec fn cols_xml(space: u32) -> Seq<u8> {
    empty_element(lit("w:cols"), seq![(lit("w:space"), decimal(space as nat))])
}

/// The document grid element: a grid of lines at the given pitch.
pub open spec fn doc_grid_xml(line_pitch: u32) -> Seq<u8> {
    empty_element(
        lit("w:docGrid"),
        seq![(lit("w:type"), lit("lines")), (lit("w:linePitch"), decimal(line_pitch as nat))],
    )
}

impl BuildXML for SectionProperty {
    /// The page size and margins come first; the columns and the grid are
    /// written as elements of their own, so the grid starts on a new line.
    open spec fn xml(&self) -> Seq<u8> {
        start_tag(lit("w:sectPr"), seq![]) + lit(">") + self.page_size.xml()
            + self.page_margin.xml() + cols_xml(self.columns) + lit("\n") + indent(1)
            + doc_grid_xml(self.document_grid) + lit("\n") + end_tag(lit("w:sectPr"))
    }

    fn build(&self) -> (r: Vec<u8>) {
        let none: Vec<Attribute> = Vec::new();
        assert(none@.map_values(|a: Attribute| a@) =~= seq![]);
        let mut b = XMLBuilder::new();
        b.open_element("w:sectPr", &none);
        b.add_child(&self.page_size);
        b.add_child(&self.page_margin);
        let mut cols: Vec<Attribute> = Vec::new();
        cols.push(Attribute::number("w:space", self.columns));
        assert(cols@.map_values(|a: Attribute| a@) =~= seq![
            (lit("w:space"), decimal(self.columns as nat)),
        ]);
        b.open_element("w:cols", &cols);
        b.close();
        let mut grid: Vec<Attribute> = Vec::new();
        grid.push(Attribute::new("w:type", "lines"));
        grid.push(Attribute::number("w:linePitch", self.document_grid));
        assert(grid@.map_values(|a: Attribute| a@) =~= seq![
            (lit("w:type"), lit("lines")),
            (lit("w:linePitch"), decimal(self.document_grid as nat)),
        ]);
        b.open_element("w:docGrid", &grid);
        b.close();
        b.close();
        let r = b.build();
        assert(indent(0) =~= Seq::<u8>::empty());
        assert(r@ =~= self.xml());
        r
    }
}

} // verus!

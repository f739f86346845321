use vstd::prelude::*;
use crate::paragraph::Paragraph;
use crate::xml_builder::{concat_xml, empty_element, lemma_concat_xml_empty, lit, text_element, Attribute, BuildXML, XMLBuilder};

verus! {

/// An element that holds the markup of `items`, in order, and is empty when
/// there are none.
pub open spec fn list_element<T: BuildXML>(name: Seq<u8>, items: Seq<T>) -> Seq<u8> {
    if items.len() == 0 {
        empty_element(name, seq![])
    } else {
        text_element(name, seq![], concat_xml(items))
    }
}

fn build_list<T: BuildXML>(name: &str, items: &Vec<T>) -> (r: Vec<u8>)
    ensures
        r@ == list_element(lit(name), items@),
{
    let none: Vec<Attribute> = Vec::new();
    assert(none@.map_values(|a: Attribute| a@) =~= seq![]);
    let mut b = XMLBuilder::new();
    b.open_element(name, &none);
    b.add_children(items);
    b.close();
    let r = b.build();
    assert(r@ =~= list_element(lit(name), items@));
    r
}

/// A table cell: its paragraphs, in order.
pub struct TableCell {
    pub children: Vec<Paragraph>,
}

impl TableCell {
    pub fn new() -> (r: TableCell)
        ensures
            r.children@.len() == 0,
    {
        TableCell { children: Vec::new() }
    }

    /// The cell with `p` added after its paragraphs.
    pub fn add_paragraph(self, p: Paragraph) -> (r: TableCell)
        ensures
            r.children@ == self.children@.push(p),
    {
        let mut r = self;
        r.children.push(p);
        r
    }
}

impl BuildXML for TableCell {
    open spec fn xml(&self) -> Seq<u8> {
        list_element(lit("w:tc"), self.children@)
    }

    fn build(&self) -> (r: Vec<u8>) {
        build_list("w:tc", &self.children)
    }
}

/// A table row: its cells, in order.
pub struct TableRow {
    pub cells: Vec<TableCell>,
}

impl TableRow {
    pub fn new(cells: Vec<TableCell>) -> (r: TableRow)
        ensures
            r.cells@ == cells@,
    {
        TableRow { cells }
    }
}

impl BuildXML for TableRow {
    open spec fn xml(&self) -> Seq<u8> {
        list_element(lit("w:tr"), self.cells@)
    }

    fn build(&self) -> (r: Vec<u8>) {
        build_list("w:tr", &self.cells)
    }
}

/// A table: its rows, in order.
pub struct Table {
    pub rows: Vec<TableRow>,
}

impl Table {
    pub fn new(rows: Vec<TableRow>) -> (r: Table)
        ensures
            r.rows@ == rows@,
    {
        Table { rows }
    }
}

impl BuildXML for Table {
    open spec fn xml(&self) -> Seq<u8> {
        list_element(lit("w:tbl"), self.rows@)
    }

    fn build(&self) -> (r: Vec<u8>) {
        build_list("w:tbl", &self.rows)
    }
}

} // verus!

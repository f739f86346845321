use docx_core::{
    BuildXML, Document, PageMargin, PageSize, Paragraph, Run, SectionProperty, Table, TableCell,
    TableRow,
};
use std::str;

const ROOT_OPEN: &str = r#"<?xml version="1.0" encoding="UTF-8" standalone="yes"?>
<w:document xmlns:o="urn:schemas-microsoft-com:office:office" xmlns:r="http://schemas.openxmlformats.org/officeDocument/2006/relationships" xmlns:v="urn:schemas-microsoft-com:vml" xmlns:w="http://schemas.openxmlformats.org/wordprocessingml/2006/main" xmlns:w10="urn:schemas-microsoft-com:office:word" xmlns:wp="http://schemas.openxmlformats.org/drawingml/2006/wordprocessingDrawing" xmlns:wps="http://schemas.microsoft.com/office/word/2010/wordprocessingShape" xmlns:wpg="http://schemas.microsoft.com/office/word/2010/wordprocessingGroup" xmlns:mc="http://schemas.openxmlformats.org/markup-compatibility/2006" xmlns:wp14="http://schemas.microsoft.com/office/word/2010/wordprocessingDrawing" xmlns:w14="http://schemas.microsoft.com/office/word/2010/wordml" mc:Ignorable="w14 wp14">"#;

const DEFAULT_SECTION: &str = r#"<w:sectPr><w:pgSz w:w="11906" w:h="16838" /><w:pgMar w:top="1985" w:right="1701" w:bottom="1701" w:left="1701" w:header="851" w:footer="992" w:gutter="0" /><w:cols w:space="425" />
  <w:docGrid w:type="lines" w:linePitch="360" />
</w:sectPr>"#;

fn render(d: &Document) -> String {
    String::from_utf8(d.build()).unwrap()
}

#[test]
fn test_document() {
    let b = Document::new()
        .add_paragraph(Paragraph::new().add_run(Run::new().add_text("Hello")))
        .build();
    assert_eq!(
        str::from_utf8(&b).unwrap(),
        r#"<?xml version="1.0" encoding="UTF-8" standalone="yes"?>
<w:document xmlns:o="urn:schemas-microsoft-com:office:office" xmlns:r="http://schemas.openxmlformats.org/officeDocument/2006/relationships" xmlns:v="urn:schemas-microsoft-com:vml" xmlns:w="http://schemas.openxmlformats.org/wordprocessingml/2006/main" xmlns:w10="urn:schemas-microsoft-com:office:word" xmlns:wp="http://schemas.openxmlformats.org/drawingml/2006/wordprocessingDrawing" xmlns:wps="http://schemas.microsoft.com/office/word/2010/wordprocessingShape" xmlns:wpg="http://schemas.microsoft.com/office/word/2010/wordprocessingGroup" xmlns:mc="http://schemas.openxmlformats.org/markup-compatibility/2006" xmlns:wp14="http://schemas.microsoft.com/office/word/2010/wordprocessingDrawing" xmlns:w14="http://schemas.microsoft.com/office/word/2010/wordml" mc:Ignorable="w14 wp14">
  <w:body><w:p><w:pPr><w:pStyle w:val="Normal" /><w:rPr /></w:pPr><w:r><w:rPr /><w:t xml:space="preserve">Hello</w:t></w:r></w:p><w:sectPr><w:pgSz w:w="11906" w:h="16838" /><w:pgMar w:top="1985" w:right="1701" w:bottom="1701" w:left="1701" w:header="851" w:footer="992" w:gutter="0" /><w:cols w:space="425" />
  <w:docGrid w:type="lines" w:linePitch="360" />
</w:sectPr></w:body>
</w:document>"#
    );
}

#[test]
fn empty_document_body_holds_only_section() {
    let s = render(&Document::new());
    let expected = format!(
        "{}\n  <w:body>{}</w:body>\n</w:document>",
        ROOT_OPEN, DEFAULT_SECTION
    );
    assert_eq!(s, expected);
}

#[test]
fn body_keeps_append_order_and_section_last() {
    let d = Document::new()
        .add_paragraph(Paragraph::new().add_run(Run::new().add_text("one")))
        .add_table(Table::new(vec![TableRow::new(vec![
            TableCell::new().add_paragraph(Paragraph::new().add_run(Run::new().add_text("cell"))),
        ])]))
        .add_paragraph(Paragraph::new().add_run(Run::new().add_text("two")));
    let s = render(&d);
    let p1 = r#"<w:p><w:pPr><w:pStyle w:val="Normal" /><w:rPr /></w:pPr><w:r><w:rPr /><w:t xml:space="preserve">one</w:t></w:r></w:p>"#;
    let tbl = r#"<w:tbl><w:tr><w:tc><w:p><w:pPr><w:pStyle w:val="Normal" /><w:rPr /></w:pPr><w:r><w:rPr /><w:t xml:space="preserve">cell</w:t></w:r></w:p></w:tc></w:tr></w:tbl>"#;
    let p2 = r#"<w:p><w:pPr><w:pStyle w:val="Normal" /><w:rPr /></w:pPr><w:r><w:rPr /><w:t xml:space="preserve">two</w:t></w:r></w:p>"#;
    let expected = format!(
        "{}\n  <w:body>{}{}{}{}</w:body>\n</w:document>",
        ROOT_OPEN, p1, tbl, p2, DEFAULT_SECTION
    );
    assert_eq!(s, expected);
}

#[test]
fn duplicate_content_is_kept() {
    let p = || Paragraph::new().add_run(Run::new().add_text("x"));
    let once = render(&Document::new().add_paragraph(p()));
    let twice = render(&Document::new().add_paragraph(p()).add_paragraph(p()));
    let para = r#"<w:p><w:pPr><w:pStyle w:val="Normal" /><w:rPr /></w:pPr><w:r><w:rPr /><w:t xml:space="preserve">x</w:t></w:r></w:p>"#;
    assert_eq!(once.matches(para).count(), 1);
    assert_eq!(twice.matches(para).count(), 2);
    assert!(twice.contains(&format!("{}{}", para, para)));
}

#[test]
fn rendering_is_deterministic() {
    let make = || {
        Document::new()
            .add_paragraph(Paragraph::new().add_run(Run::new().add_text("a").add_text("b")))
            .add_table(Table::new(vec![]))
    };
    let d = make();
    assert_eq!(d.build(), d.build());
    assert_eq!(make().build(), make().build());
}

#[test]
fn root_is_fixed_whatever_the_content() {
    let empty = render(&Document::new());
    let full = render(
        &Document::new()
            .add_table(Table::new(vec![TableRow::new(vec![TableCell::new()])]))
            .add_paragraph(Paragraph::new()),
    );
    assert!(empty.starts_with(ROOT_OPEN));
    assert!(full.starts_with(ROOT_OPEN));
    assert!(full.ends_with("</w:body>\n</w:document>"));
}

#[test]
fn empty_table_row_and_cell() {
    let d = Document::new()
        .add_table(Table::new(vec![]))
        .add_table(Table::new(vec![TableRow::new(vec![]), TableRow::new(vec![TableCell::new()])]));
    let s = render(&d);
    assert!(s.contains("<w:body><w:tbl /><w:tbl><w:tr /><w:tr><w:tc /></w:tr></w:tbl><w:sectPr>"));
}

#[test]
fn empty_paragraph_and_styled_paragraph() {
    let d = Document::new()
        .add_paragraph(Paragraph::new())
        .add_paragraph(Paragraph::new().style("Heading1").add_run(Run::new()));
    let s = render(&d);
    let expected = format!(
        "{}{}",
        r#"<w:body><w:p><w:pPr><w:pStyle w:val="Normal" /><w:rPr /></w:pPr></w:p>"#,
        r#"<w:p><w:pPr><w:pStyle w:val="Heading1" /><w:rPr /></w:pPr><w:r><w:rPr /></w:r></w:p><w:sectPr>"#
    );
    assert!(s.contains(&expected));
}

#[test]
fn text_is_escaped() {
    let d = Document::new().add_paragraph(
        Paragraph::new().add_run(Run::new().add_text("a < b & c > \"d\" é")),
    );
    let s = render(&d);
    assert!(s.contains(
        r#"<w:t xml:space="preserve">a &lt; b &amp; c &gt; &quot;d&quot; é</w:t>"#
    ));
}

#[test]
fn empty_text_keeps_its_element_open_and_closed() {
    let d = Document::new().add_paragraph(Paragraph::new().add_run(Run::new().add_text("")));
    let s = render(&d);
    assert!(s.contains(r#"<w:r><w:rPr /><w:t xml:space="preserve"></w:t></w:r>"#));
}

#[test]
fn custom_section_layout() {
    let mut d = Document::new();
    d.section_property = SectionProperty {
        page_size: PageSize { w: 0, h: 4294967295 },
        page_margin: PageMargin {
            top: 1,
            right: 22,
            bottom: 333,
            left: 4444,
            header: 10,
            footer: 100,
            gutter: 7,
        },
        columns: 0,
        document_grid: 1000,
    };
    let s = render(&d);
    let expected = format!(
        "{}{}{}",
        r#"<w:body><w:sectPr><w:pgSz w:w="0" w:h="4294967295" />"#,
        r#"<w:pgMar w:top="1" w:right="22" w:bottom="333" w:left="4444" w:header="10" w:footer="100" w:gutter="7" />"#,
        "<w:cols w:space=\"0\" />\n  <w:docGrid w:type=\"lines\" w:linePitch=\"1000\" />\n</w:sectPr></w:body>"
    );
    assert!(s.contains(&expected));
}

#[test]
fn default_layout_values() {
    let s = SectionProperty::new();
    assert_eq!(s.page_size.w, 11906);
    assert_eq!(s.page_size.h, 16838);
    assert_eq!(s.page_margin.top, 1985);
    assert_eq!(s.page_margin.gutter, 0);
    assert_eq!(s.columns, 425);
    assert_eq!(s.document_grid, 360);
    assert_eq!(String::from_utf8(s.build()).unwrap(), DEFAULT_SECTION);
}

use docx_core::{Attribute, BuildXML, MarkupError, Paragraph, Run, XMLBuilder};

fn text(b: XMLBuilder) -> String {
    String::from_utf8(b.build()).unwrap()
}

#[test]
fn attributes_render_in_supplied_order() {
    let mut b = XMLBuilder::new();
    b.open_element(
        "e",
        &vec![
            Attribute::new("z", "1"),
            Attribute::new("a", "2"),
            Attribute::number("m", 30),
        ],
    );
    b.close();
    assert_eq!(text(b), r#"<e z="1" a="2" m="30" />"#);

    let mut b = XMLBuilder::new();
    b.open_element(
        "e",
        &vec![
            Attribute::number("m", 30),
            Attribute::new("a", "2"),
            Attribute::new("z", "1"),
        ],
    );
    b.close();
    assert_eq!(text(b), r#"<e m="30" a="2" z="1" />"#);
}

#[test]
fn attribute_values_are_escaped() {
    let mut b = XMLBuilder::new();
    b.open_element("e", &vec![Attribute::new("v", "<\"&'>")]);
    b.close();
    assert_eq!(text(b), r#"<e v="&lt;&quot;&amp;'&gt;" />"#);
}

#[test]
fn close_with_nothing_open_is_reported() {
    let mut b = XMLBuilder::new();
    assert_eq!(b.try_close(), Err(MarkupError::NothingOpen));
    b.open_element("a", &vec![]);
    assert_eq!(b.try_close(), Ok(()));
    assert_eq!(b.try_close(), Err(MarkupError::NothingOpen));
    assert_eq!(b.try_build().unwrap(), b"<a />".to_vec());
}

#[test]
fn build_with_open_elements_is_reported() {
    let mut b = XMLBuilder::new();
    b.open_element("a", &vec![]);
    b.open_element("b", &vec![]);
    assert_eq!(b.depth(), 2);
    b.close();
    assert_eq!(b.try_build(), Err(MarkupError::Unclosed));
}

#[test]
fn nested_elements_are_indented() {
    let mut b = XMLBuilder::with_declaration(false);
    b.open_element("a", &vec![]);
    b.open_element("b", &vec![]);
    b.open_element("c", &vec![]);
    b.close();
    b.close();
    b.open_element("d", &vec![]);
    b.add_text("t");
    b.close();
    b.close();
    assert_eq!(
        text(b),
        "<?xml version=\"1.0\" encoding=\"UTF-8\" standalone=\"no\"?>\n<a>\n  <b>\n    <c />\n  </b>\n  <d>t</d>\n</a>"
    );
}

#[test]
fn element_after_text_is_not_indented() {
    let mut b = XMLBuilder::new();
    b.open_element("a", &vec![]);
    b.add_text("x");
    b.open_element("b", &vec![]);
    b.close();
    b.add_child(&Run::new());
    b.close();
    assert_eq!(text(b), "<a>x<b /><w:r><w:rPr /></w:r></a>");
}

#[test]
fn child_markup_is_inserted_as_is() {
    let mut b = XMLBuilder::new();
    b.open_element("w:body", &vec![]);
    b.add_children(&vec![Paragraph::new(), Paragraph::new()]);
    b.close();
    let p = String::from_utf8(Paragraph::new().build()).unwrap();
    assert_eq!(text(b), format!("<w:body>{}{}</w:body>", p, p));
}

#[test]
fn no_children_leaves_element_empty() {
    let mut b = XMLBuilder::new();
    b.open_element("x", &vec![]);
    b.add_children::<Paragraph>(&vec![]);
    b.close();
    assert_eq!(text(b), "<x />");
}

#[test]
fn number_attribute_limits() {
    let mut b = XMLBuilder::new();
    b.open_element(
        "n",
        &vec![Attribute::number("lo", 0), Attribute::number("hi", u32::MAX)],
    );
    b.close();
    assert_eq!(text(b), r#"<n lo="0" hi="4294967295" />"#);
}

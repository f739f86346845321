use vstd::prelude::*;
use vstd::string::StringSliceAdditionalSpecFns;

verus! {

/// The bytes of a string: its UTF-8 encoding.
#[verifier::opaque]
pub open spec fn lit(s: &str) -> Seq<u8> {
    s.spec_bytes()
}

/// Two spaces for each level of nesting.
pub open spec fn indent(depth: nat) -> Seq<u8>
    decreases depth,
{
    if depth == 0 {
        Seq::empty()
    } else {
        indent((depth - 1) as nat) + seq![32u8, 32u8]
    }
}

/// The escaped form of one byte of character data or of an attribute value.
pub open spec fn escape_byte(b: u8) -> Seq<u8> {
    if b == 38u8 {
        lit("&amp;")
    } else if b == 60u8 {
        lit("&lt;")
    } else if b == 62u8 {
        lit("&gt;")
    } else if b == 34u8 {
        lit("&quot;")
    } else {
        seq![b]
    }
}

/// Character data or an attribute value with `&`, `<`, `>` and `"` escaped.
pub open spec fn escape(s: Seq<u8>) -> Seq<u8>
    decreases s.len(),
{
    if s.len() == 0 {
        Seq::empty()
    } else {
        escape(s.drop_last()) + escape_byte(s.last())
    }
}

fn push_all(out: &mut Vec<u8>, s: &[u8])
    ensures
        final(out)@ == old(out)@ + s@,
{
    let mut i: usize = 0;
    while i < s.len()
        invariant
            0 <= i <= s@.len(),
            out@ == old(out)@ + s@.subrange(0, i as int),
        decreases s@.len() - i,
    {
        out.push(s[i]);
        i = i + 1;
        assert(out@ =~= old(out)@ + s@.subrange(0, i as int));
    }
    assert(s@.subrange(0, s@.len() as int) =~= s@);
}

fn push_str(out: &mut Vec<u8>, s: &str)
    ensures
        final(out)@ == old(out)@ + lit(s),
{
    reveal(lit);
    push_all(out, s.as_bytes());
}

fn push_escaped(out: &mut Vec<u8>, s: &[u8])
    ensures
        final(out)@ == old(out)@ + escape(s@),
{
    let mut i: usize = 0;
    while i < s.len()
        invariant
            0 <= i <= s@.len(),
            out@ == old(out)@ + escape(s@.subrange(0, i as int)),
        decreases s@.len() - i,
    {
        let b = s[i];
        assert(s@.subrange(0, i + 1).drop_last() =~= s@.subrange(0, i as int));
        if b == 38u8 {
            push_str(out, "&amp;");
        } else if b == 60u8 {
            push_str(out, "&lt;");
        } else if b == 62u8 {
            push_str(out, "&gt;");
        } else if b == 34u8 {
            push_str(out, "&quot;");
        } else {
            out.push(b);
            assert(out@ =~= old(out)@ + escape(s@.subrange(0, i as int)) + seq![b]);
        }
        i = i + 1;
        assert(out@ =~= old(out)@ + escape(s@.subrange(0, i as int)));
    }
    assert(s@.subrange(0, s@.len() as int) =~= s@);
}

fn push_indent(out: &mut Vec<u8>, depth: usize)
    ensures
        final(out)@ == old(out)@ + indent(depth as nat),
{
    let mut i: usize = 0;
    while i < depth
        invariant
            0 <= i <= depth,
            out@ == old(out)@ + indent(i as nat),
        decreases depth - i,
    {
        out.push(32u8);
        out.push(32u8);
        i = i + 1;
        assert(out@ =~= old(out)@ + indent(i as nat));
    }
}


/// What the most recent piece of an open element's content (or of the
/// top level) was.
#[derive(Clone, Copy, Debug, PartialEq, Eq, Structural)]
pub enum Last {
    /// No content yet.
    Nothing,
    /// Character data or the markup of a child rendered on its own.
    Text,
    /// An element opened and closed through the builder.
    Element,
}

/// A misuse of the builder's open/close discipline.
#[derive(Clone, Copy, Debug, PartialEq, Eq, Structural)]
pub enum MarkupError {
    /// `close` with no element open.
    NothingOpen,
    /// `build` with elements still open.
    Unclosed,
}

/// One attribute: a name and its value, not yet escaped.
pub struct Attribute {
    pub name: Vec<u8>,
    pub value: Vec<u8>,
}

impl View for Attribute {
    type V = (Seq<u8>, Seq<u8>);

    open spec fn view(&self) -> (Seq<u8>, Seq<u8>) {
        (self.name@, self.value@)
    }
}

fn str_to_vec(s: &str) -> (r: Vec<u8>)
    ensures
        r@ == lit(s),
{
    let mut r: Vec<u8> = Vec::new();
    push_str(&mut r, s);
    assert(r@ =~= lit(s));
    r
}

/// Decimal digits of `n`, most significant first.
#[verifier::opaque]
pub open spec fn decimal(n: nat) -> Seq<u8>
    decreases n,
{
    if n < 10 {
        seq![(48 + n) as u8]
    } else {
        decimal(n / 10).push((48 + n % 10) as u8)
    }
}

fn push_decimal(out: &mut Vec<u8>, n: u32)
    ensures
        final(out)@ == old(out)@ + decimal(n as nat),
    decreases n,
{
    if n >= 10 {
        push_decimal(out, n / 10);
    }
    out.push(48u8 + (n % 10) as u8);
    reveal(decimal);
    assert(final(out)@ =~= old(out)@ + decimal(n as nat));
}

impl Attribute {
    /// An attribute with a textual value.
    pub fn new(name: &str, value: &str) -> (r: Attribute)
        ensures
            r@ == (lit(name), lit(value)),
    {
        Attribute { name: str_to_vec(name), value: str_to_vec(value) }
    }

    /// An attribute whose value is `value` in decimal.
    pub fn number(name: &str, value: u32) -> (r: Attribute)
        ensures
            r@ == (lit(name), decimal(value as nat)),
    {
        let mut v: Vec<u8> = Vec::new();
        push_decimal(&mut v, value);
        assert(v@ =~= decimal(value as nat));
        Attribute { name: str_to_vec(name), value: v }
    }
}

/// The markup of one attribute, with its leading space.
pub open spec fn attr_xml(a: (Seq<u8>, Seq<u8>)) -> Seq<u8> {
    lit(" ") + a.0 + lit("=\"") + escape(a.1) + lit("\"")
}

/// The markup of a list of attributes, in the order given.
pub open spec fn attrs_xml(attrs: Seq<(Seq<u8>, Seq<u8>)>) -> Seq<u8>
    decreases attrs.len(),
{
    if attrs.len() == 0 {
        Seq::empty()
    } else {
        attrs_xml(attrs.drop_last()) + attr_xml(attrs.last())
    }
}

/// A start tag up to, not including, its closing `>` or ` />`.
pub open spec fn start_tag(name: Seq<u8>, attrs: Seq<(Seq<u8>, Seq<u8>)>) -> Seq<u8> {
    lit("<") + name + attrs_xml(attrs)
}

pub open spec fn end_tag(name: Seq<u8>) -> Seq<u8> {
    lit("</") + name + lit(">")
}

/// An element with nothing in it.
pub open spec fn empty_element(name: Seq<u8>, attrs: Seq<(Seq<u8>, Seq<u8>)>) -> Seq<u8> {
    start_tag(name, attrs) + lit(" />")
}

/// An element whose content ends with character data or with the markup of a
/// child rendered on its own.
pub open spec fn text_element(
    name: Seq<u8>,
    attrs: Seq<(Seq<u8>, Seq<u8>)>,
    content: Seq<u8>,
) -> Seq<u8> {
    start_tag(name, attrs) + lit(">") + content + end_tag(name)
}

/// The prolog line.
pub open spec fn declaration_xml(standalone: bool) -> Seq<u8> {
    lit("<?xml version=\"1.0\" encoding=\"UTF-8\" standalone=\"") + (if standalone {
        lit("yes")
    } else {
        lit("no")
    }) + lit("\"?>")
}

/// The line break and indentation written before an element that starts at
/// `depth` inside a container whose last piece was `last`. None follows
/// character data, and none starts the output.
pub open spec fn break_before(last: Last, depth: nat) -> Seq<u8> {
    if last == Last::Text || (depth == 0 && last == Last::Nothing) {
        Seq::empty()
    } else {
        lit("\n") + indent(depth)
    }
}

/// An element that is still open.
pub ghost struct FrameView {
    pub name: Seq<u8>,
    /// Its start tag, without the closing `>`.
    pub start: Seq<u8>,
    pub content: Seq<u8>,
    pub last: Last,
}

/// The markup of an element when it is closed at `depth`.
pub open spec fn element_xml(f: FrameView, depth: nat) -> Seq<u8> {
    match f.last {
        Last::Nothing => f.start + lit(" />"),
        Last::Text => f.start + lit(">") + f.content + end_tag(f.name),
        Last::Element => f.start + lit(">") + f.content + lit("\n") + indent(depth) + end_tag(
            f.name,
        ),
    }
}

/// The state of a builder: what is written at the top level, and the stack
/// of open elements, outermost first.
pub ghost struct XMLBuilderView {
    pub out: Seq<u8>,
    pub out_last: Last,
    pub stack: Seq<FrameView>,
}

impl XMLBuilderView {
    pub open spec fn depth(self) -> nat {
        self.stack.len()
    }

    /// The last piece of the innermost container.
    pub open spec fn last(self) -> Last {
        if self.stack.len() == 0 {
            self.out_last
        } else {
            self.stack.last().last
        }
    }

    /// `bytes` appended to the innermost container, as a piece of kind `kind`.
    pub open spec fn with_piece(self, bytes: Seq<u8>, kind: Last) -> XMLBuilderView {
        if self.stack.len() == 0 {
            XMLBuilderView { out: self.out + bytes, out_last: kind, stack: self.stack }
        } else {
            let f = self.stack.last();
            XMLBuilderView {
                out: self.out,
                out_last: self.out_last,
                stack: self.stack.update(
                    self.stack.len() - 1,
                    FrameView { name: f.name, start: f.start, content: f.content + bytes, last: kind },
                ),
            }
        }
    }

    /// The innermost open element closed and written into its container.
    pub open spec fn closed(self) -> XMLBuilderView
        recommends
            self.stack.len() > 0,
    {
        let depth = (self.stack.len() - 1) as nat;
        let rest = XMLBuilderView { out: self.out, out_last: self.out_last, stack: self.stack.drop_last() };
        rest.with_piece(break_before(rest.last(), depth) + element_xml(self.stack.last(), depth), Last::Element)
    }
}

/// A value that renders itself as markup.
pub trait BuildXML {
    spec fn xml(&self) -> Seq<u8>;

    fn build(&self) -> (r: Vec<u8>)
        ensures
            r@ == self.xml(),
    ;
}

/// The markup of each item, in order.
#[verifier::opaque]
pub open spec fn concat_xml<T: BuildXML>(items: Seq<T>) -> Seq<u8>
    decreases items.len(),
{
    if items.len() == 0 {
        Seq::empty()
    } else {
        concat_xml(items.drop_last()) + items.last().xml()
    }
}

fn push_break(out: &mut Vec<u8>, last: Last, depth: usize)
    ensures
        final(out)@ == old(out)@ + break_before(last, depth as nat),
{
    if !(last == Last::Text || (depth == 0 && last == Last::Nothing)) {
        push_str(out, "\n");
        push_indent(out, depth);
    }
    assert(final(out)@ =~= old(out)@ + break_before(last, depth as nat));
}

fn push_element(out: &mut Vec<u8>, f: &Frame, depth: usize)
    ensures
        final(out)@ == old(out)@ + element_xml(f@, depth as nat),
{
    push_all(out, f.start.as_slice());
    match f.last {
        Last::Nothing => {
            push_str(out, " />");
        },
        Last::Text => {
            push_str(out, ">");
            push_all(out, f.content.as_slice());
            push_str(out, "</");
            push_all(out, f.name.as_slice());
            push_str(out, ">");
        },
        Last::Element => {
            push_str(out, ">");
            push_all(out, f.content.as_slice());
            push_str(out, "\n");
            push_indent(out, depth);
            push_str(out, "</");
            push_all(out, f.name.as_slice());
            push_str(out, ">");
        },
    }
    assert(final(out)@ =~= old(out)@ + element_xml(f@, depth as nat));
}

/// No items, no markup.
pub proof fn lemma_concat_xml_empty<T: BuildXML>(items: Seq<T>)
    requires
        items.len() == 0,
    ensures
        concat_xml(items) == Seq::<u8>::empty(),
{
    reveal(concat_xml);
}

/// One more item adds its markup at the end.
pub proof fn lemma_concat_xml_push<T: BuildXML>(items: Seq<T>, item: T)
    ensures
        concat_xml(items.push(item)) == concat_xml(items) + item.xml(),
{
    reveal(concat_xml);
    assert(items.push(item).drop_last() =~= items);
}

/// The markup of two lists of items, one after the other, is the markup of
/// the first list followed by that of the second.
pub proof fn lemma_concat_xml_append<T: BuildXML>(a: Seq<T>, b: Seq<T>)
    ensures
        concat_xml(a + b) == concat_xml(a) + concat_xml(b),
    decreases b.len(),
{
    if b.len() == 0 {
        lemma_concat_xml_empty(b);
        assert(a + b =~= a);
        assert(concat_xml(a) + concat_xml(b) =~= concat_xml(a));
    } else {
        let b0 = b.drop_last();
        lemma_concat_xml_append(a, b0);
        assert(a + b =~= (a + b0).push(b.last()));
        assert(b =~= b0.push(b.last()));
        lemma_concat_xml_push(a + b0, b.last());
        lemma_concat_xml_push(b0, b.last());
        assert(concat_xml(a + b) =~= concat_xml(a) + concat_xml(b));
    }
}

/// Items that render alike, position by position, render alike as a list.
pub proof fn lemma_concat_xml_alike<T: BuildXML, U: BuildXML>(a: Seq<T>, b: Seq<U>)
    requires
        a.len() == b.len(),
        forall|i: int| 0 <= i < a.len() ==> #[trigger] a[i].xml() == b[i].xml(),
    ensures
        concat_xml(a) == concat_xml(b),
    decreases a.len(),
{
    if a.len() == 0 {
        lemma_concat_xml_empty(a);
        lemma_concat_xml_empty(b);
    } else {
        let a0 = a.drop_last();
        let b0 = b.drop_last();
        assert forall|i: int| 0 <= i < a0.len() implies #[trigger] a0[i].xml() == b0[i].xml() by {
            assert(a[i].xml() == b[i].xml());
        }
        lemma_concat_xml_alike(a0, b0);
        assert(a =~= a0.push(a.last()));
        assert(b =~= b0.push(b.last()));
        lemma_concat_xml_push(a0, a.last());
        lemma_concat_xml_push(b0, b.last());
        assert(a.last().xml() == b.last().xml()) by {
            assert(a[a.len() - 1].xml() == b[b.len() - 1].xml());
        }
    }
}

/// Attributes render in the order supplied: the markup of two lists of
/// attributes, one after the other, is the markup of the first list followed
/// by that of the second.
pub proof fn lemma_attrs_in_order(a: Seq<(Seq<u8>, Seq<u8>)>, b: Seq<(Seq<u8>, Seq<u8>)>)
    ensures
        attrs_xml(a + b) == attrs_xml(a) + attrs_xml(b),
    decreases b.len(),
{
    if b.len() == 0 {
        assert(a + b =~= a);
        assert(attrs_xml(a) + attrs_xml(b) =~= attrs_xml(a));
    } else {
        let b0 = b.drop_last();
        lemma_attrs_in_order(a, b0);
        assert((a + b).drop_last() =~= a + b0);
        assert((a + b).last() == b.last());
        assert(attrs_xml(a + b) =~= attrs_xml(a) + attrs_xml(b));
    }
}

/// A list of one attribute renders as that attribute.
pub proof fn lemma_attrs_single(x: (Seq<u8>, Seq<u8>))
    ensures
        attrs_xml(seq![x]) == attr_xml(x),
{
    let e = Seq::<(Seq<u8>, Seq<u8>)>::empty();
    assert(seq![x].drop_last() =~= e);
    assert(seq![x].last() == x);
    assert(attrs_xml(e) == Seq::<u8>::empty());
    assert(attrs_xml(seq![x]) == attrs_xml(e) + attr_xml(x));
    assert(attrs_xml(seq![x]) =~= attr_xml(x));
}

struct Frame {
    name: Vec<u8>,
    start: Vec<u8>,
    content: Vec<u8>,
    last: Last,
}

impl View for Frame {
    type V = FrameView;

    closed spec fn view(&self) -> FrameView {
        FrameView { name: self.name@, start: self.start@, content: self.content@, last: self.last }
    }
}

/// Accumulates nested markup: elements are opened and closed in stack order,
/// and the result is the bytes written at the top level.
pub struct XMLBuilder {
    out: Vec<u8>,
    out_last: Last,
    stack: Vec<Frame>,
}

impl View for XMLBuilder {
    type V = XMLBuilderView;

    closed spec fn view(&self) -> XMLBuilderView {
        XMLBuilderView {
            out: self.out@,
            out_last: self.out_last,
            stack: self.stack@.map_values(|f: Frame| f@),
        }
    }
}


impl XMLBuilder {
    /// An empty builder that writes no prolog.
    pub fn new() -> (r: XMLBuilder)
        ensures
            r@ == (XMLBuilderView { out: Seq::empty(), out_last: Last::Nothing, stack: Seq::empty() }),
    {
        let r = XMLBuilder { out: Vec::new(), out_last: Last::Nothing, stack: Vec::new() };
        assert(r@.stack =~= Seq::<FrameView>::empty());
        r
    }

    /// A builder whose output starts with the prolog line.
    pub fn with_declaration(standalone: bool) -> (r: XMLBuilder)
        ensures
            r@ == (XMLBuilderView {
                out: declaration_xml(standalone),
                out_last: Last::Element,
                stack: Seq::empty(),
            }),
    {
        let mut out: Vec<u8> = Vec::new();
        push_str(&mut out, "<?xml version=\"1.0\" encoding=\"UTF-8\" standalone=\"");
        if standalone {
            push_str(&mut out, "yes");
        } else {
            push_str(&mut out, "no");
        }
        push_str(&mut out, "\"?>");
        assert(out@ =~= declaration_xml(standalone));
        let r = XMLBuilder { out, out_last: Last::Element, stack: Vec::new() };
        assert(r@.stack =~= Seq::<FrameView>::empty());
        r
    }

    /// How many elements are open.
    pub fn depth(&self) -> (r: usize)
        ensures
            r == self@.depth(),
    {
        self.stack.len()
    }

    fn push_piece(&mut self, bytes: &[u8], kind: Last)
        ensures
            final(self)@ == old(self)@.with_piece(bytes@, kind),
    {
        match self.stack.pop() {
            None => {
                push_all(&mut self.out, bytes);
                self.out_last = kind;
            },
            Some(f) => {
                let mut f = f;
                push_all(&mut f.content, bytes);
                f.last = kind;
                self.stack.push(f);
                assert(self@.stack =~= old(self)@.with_piece(bytes@, kind).stack);
            },
        }
    }

    /// Opens an element with the given attributes, in the order given.
    pub fn open_element(&mut self, name: &str, attrs: &Vec<Attribute>)
        ensures
            final(self)@ == (XMLBuilderView {
                out: old(self)@.out,
                out_last: old(self)@.out_last,
                stack: old(self)@.stack.push(
                    FrameView {
                        name: lit(name),
                        start: start_tag(lit(name), attrs@.map_values(|a: Attribute| a@)),
                        content: Seq::empty(),
                        last: Last::Nothing,
                    },
                ),
            }),
    {
        let ghost view_attrs = attrs@.map_values(|a: Attribute| a@);
        let mut start: Vec<u8> = Vec::new();
        push_str(&mut start, "<");
        push_str(&mut start, name);
        let mut i: usize = 0;
        while i < attrs.len()
            invariant
                0 <= i <= attrs@.len(),
                view_attrs == attrs@.map_values(|a: Attribute| a@),
                start@ == lit("<") + lit(name) + attrs_xml(view_attrs.subrange(0, i as int)),
            decreases attrs@.len() - i,
        {
            let a = &attrs[i];
            push_str(&mut start, " ");
            push_all(&mut start, a.name.as_slice());
            push_str(&mut start, "=\"");
            push_escaped(&mut start, a.value.as_slice());
            push_str(&mut start, "\"");
            assert(view_attrs.subrange(0, i + 1).drop_last() =~= view_attrs.subrange(0, i as int));
            i = i + 1;
            assert(start@ =~= lit("<") + lit(name) + attrs_xml(view_attrs.subrange(0, i as int)));
        }
        assert(view_attrs.subrange(0, attrs@.len() as int) =~= view_attrs);
        let f = Frame { name: str_to_vec(name), start, content: Vec::new(), last: Last::Nothing };
        self.stack.push(f);
        assert(self@.stack =~= old(self)@.stack.push(f@));
    }

    /// Appends character data, escaped, to the innermost open element.
    pub fn add_text(&mut self, text: &str)
        ensures
            final(self)@ == old(self)@.with_piece(escape(lit(text)), Last::Text),
    {
        let mut v: Vec<u8> = Vec::new();
        reveal(lit);
        push_escaped(&mut v, text.as_bytes());
        assert(v@ =~= escape(lit(text)));
        self.push_piece(v.as_slice(), Last::Text);
    }

    /// Appends the markup of a child, rendered on its own, as it is.
    pub fn add_child<T: BuildXML>(&mut self, child: &T)
        ensures
            final(self)@ == old(self)@.with_piece(child.xml(), Last::Text),
    {
        let v = child.build();
        self.push_piece(v.as_slice(), Last::Text);
    }

    /// Appends the markup of each child in order.
    pub fn add_children<T: BuildXML>(&mut self, children: &Vec<T>)
        ensures
            children@.len() == 0 ==> final(self)@ == old(self)@,
            children@.len() > 0 ==> final(self)@ == old(self)@.with_piece(
                concat_xml(children@),
                Last::Text,
            ),
    {
        if children.len() == 0 {
            return;
        }
        let mut v: Vec<u8> = Vec::new();
        let mut i: usize = 0;
        proof {
            lemma_concat_xml_empty(children@.subrange(0, 0));
        }
        while i < children.len()
            invariant
                0 <= i <= children@.len(),
                v@ == concat_xml(children@.subrange(0, i as int)),
            decreases children@.len() - i,
        {
            let c = children[i].build();
            push_all(&mut v, c.as_slice());
            proof {
                if i == 0 {
                    lemma_concat_xml_empty(children@.subrange(0, 0));
                }
                assert(children@.subrange(0, i + 1) =~= children@.subrange(0, i as int).push(
                    children@[i as int],
                ));
                lemma_concat_xml_push(children@.subrange(0, i as int), children@[i as int]);
            }
            i = i + 1;
        }
        assert(children@.subrange(0, children@.len() as int) =~= children@);
        self.push_piece(v.as_slice(), Last::Text);
    }

    /// Closes the innermost open element.
    pub fn close(&mut self)
        requires
            old(self)@.depth() > 0,
        ensures
            final(self)@ == old(self)@.closed(),
    {
        let depth = self.stack.len() - 1;
        let ghost top = old(self)@.stack.last();
        let f = self.stack.pop().unwrap();
        assert(f@ == top);
        assert(self@.stack =~= old(self)@.stack.drop_last());
        let before = if self.stack.len() == 0 {
            self.out_last
        } else {
            self.stack[self.stack.len() - 1].last
        };
        assert(before == self@.last());
        let mut v: Vec<u8> = Vec::new();
        push_break(&mut v, before, depth);
        push_element(&mut v, &f, depth);
        assert(v@ =~= break_before(before, depth as nat) + element_xml(top, depth as nat));
        self.push_piece(v.as_slice(), Last::Element);
    }

    /// Closes the innermost open element, or reports that none is open.
    pub fn try_close(&mut self) -> (r: Result<(), MarkupError>)
        ensures
            old(self)@.depth() == 0 ==> r == Err::<(), MarkupError>(MarkupError::NothingOpen)
                && final(self)@ == old(self)@,
            old(self)@.depth() > 0 ==> r == Ok::<(), MarkupError>(()) && final(self)@ == old(
                self,
            )@.closed(),
    {
        if self.stack.len() == 0 {
            Err(MarkupError::NothingOpen)
        } else {
            self.close();
            Ok(())
        }
    }

    /// The bytes written, once every element is closed.
    pub fn build(self) -> (r: Vec<u8>)
        requires
            self@.depth() == 0,
        ensures
            r@ == self@.out,
    {
        self.out
    }

    /// The bytes written, or a report that elements are still open.
    pub fn try_build(self) -> (r: Result<Vec<u8>, MarkupError>)
        ensures
            self@.depth() == 0 <==> r is Ok,
            r is Ok ==> r->Ok_0@ == self@.out,
            r is Err ==> r->Err_0 == MarkupError::Unclosed,
    {
        if self.stack.len() == 0 {
            Ok(self.build())
        } else {
            Err(MarkupError::Unclosed)
        }
    }
}

} // verus!

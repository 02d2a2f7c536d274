//! XML readers for the two XML-backed native formats.
//!
//! Each reader lowers its document into the same flat `key → value` map the portable readers
//! produce, so the typed models in [`super::eclipse`] / [`super::intellij`] are reused unchanged:
//! - the Eclipse exported profile shares the `org.eclipse.jdt.core.formatter.*` id namespace with
//!   `.prefs`, so it lowers to the identical map;
//! - the IntelliJ scheme uses `UPPER_SNAKE` option names, which is exactly how
//!   [`super::intellij::IntellijConfig`] is keyed, so only its element-valued
//!   `PackageEntryTable` options need reshaping.
//!
//! quick-xml tokenizes the document; everything it hands back is first lowered to plain
//! [`XmlItem`]s — an element's name and its attributes up to the first malformed one, an end
//! tag's name, the end of the document, or the error that stopped the reader — and the readers
//! are functions of that item sequence.

use vstd::prelude::*;

use quick_xml::events::attributes::{AttrError, Attribute, Attributes};
use quick_xml::events::{BytesEnd, BytesStart, Event};
use quick_xml::reader::Reader;

use crate::import::kv::KvMap;
use crate::import::text::ECLIPSE_FORMATTER_PREFIX;
use crate::import::ImportError;
use crate::strs::{char_lower, chars_of, has_prefix, lower_char, push_all, starts_with, string_of};

verus! {

/// quick-xml's pull reader.
#[verifier::external_type_specification]
#[verifier::external_body]
#[verifier::reject_recursive_types(R)]
pub struct ExReader<R>(Reader<R>);

/// A start or empty-element tag.
#[verifier::external_type_specification]
#[verifier::external_body]
pub struct ExBytesStart<'a>(BytesStart<'a>);

/// An end tag.
#[verifier::external_type_specification]
#[verifier::external_body]
pub struct ExBytesEnd<'a>(BytesEnd<'a>);

/// The attribute iterator of a tag.
#[verifier::external_type_specification]
#[verifier::external_body]
pub struct ExAttributes<'a>(Attributes<'a>);

/// One attribute of a tag.
#[verifier::external_type_specification]
#[verifier::external_body]
pub struct ExAttribute<'a>(Attribute<'a>);

/// A malformed attribute.
#[verifier::external_type_specification]
#[verifier::external_body]
pub struct ExAttrError(AttrError);

/// What one read of quick-xml's reader reports, told apart by kind: the error it stopped at is
/// carried as its `Display` text.
pub enum EventView {
    /// `<tag …>`.
    Start,
    /// `<tag …/>`.
    Empty,
    /// `</tag>`.
    End,
    /// The end of the document.
    Eof,
    /// Text, a comment, a declaration, a processing instruction, CDATA or a doctype.
    Other,
    /// The error that stopped the reader, as text.
    Failed(Seq<char>),
}

/// What one step of a tag's attribute iterator reports.
pub enum AttrStep {
    /// No attribute is left.
    End,
    /// A malformed attribute, and its error's `Display` text.
    Malformed(Seq<char>),
    /// A well-formed attribute.
    Present,
}

/// What the `k`-th call of `Reader::read_event`, on a reader `Reader::from_str` made over `src`,
/// reports. It depends on the document and on how many events were read before it alone.
pub uninterp spec fn xml_event(src: Seq<char>, k: int) -> EventView;

/// `BytesStart::name` of the tag the `k`-th read over `src` reported.
pub uninterp spec fn xml_start_name(src: Seq<char>, k: int) -> Seq<u8>;

/// `BytesEnd::name` of the end tag the `k`-th read over `src` reported.
pub uninterp spec fn xml_end_name(src: Seq<char>, k: int) -> Seq<u8>;

/// What the `i`-th call of `Attributes::next` reports for the tag of the `k`-th read over `src`.
pub uninterp spec fn xml_attribute(src: Seq<char>, k: int, i: int) -> AttrStep;

/// The key of the `i`-th attribute of the tag of the `k`-th read over `src`.
pub uninterp spec fn xml_attr_key(src: Seq<char>, k: int, i: int) -> Seq<u8>;

/// `Attribute::unescape_value` of the `i`-th attribute of the tag of the `k`-th read over
/// `src`: the value with its entities replaced, or the `Display` text of its error.
pub uninterp spec fn xml_attr_value(src: Seq<char>, k: int, i: int) -> Result<Seq<char>, Seq<char>>;

/// quick-xml's reader over a document, with the document and the number of events it has
/// reported so far.
pub struct XmlCursor<'a> {
    reader: Reader<&'a [u8]>,
    src: Ghost<Seq<char>>,
    read: Ghost<int>,
}

/// A start or empty-element tag quick-xml reported, with the read that reported it.
pub struct Tag<'a> {
    tag: BytesStart<'a>,
    src: Ghost<Seq<char>>,
    k: Ghost<int>,
}

/// An end tag quick-xml reported, with the read that reported it.
pub struct EndTag<'a> {
    tag: BytesEnd<'a>,
    src: Ghost<Seq<char>>,
    k: Ghost<int>,
}

/// A tag's attribute iterator, with the tag and the number of steps taken.
pub struct AttrCursor<'a> {
    attributes: Attributes<'a>,
    src: Ghost<Seq<char>>,
    k: Ghost<int>,
    i: Ghost<int>,
}

/// An attribute quick-xml reported, with the tag and the step that reported it.
pub struct Attr<'a> {
    attr: Attribute<'a>,
    src: Ghost<Seq<char>>,
    k: Ghost<int>,
    i: Ghost<int>,
}

/// The events the readers tell apart, still holding quick-xml's tags.
pub enum XmlEvent<'a> {
    /// `<tag …>`.
    Start(Tag<'a>),
    /// `<tag …/>`.
    Empty(Tag<'a>),
    /// `</tag>`.
    End(EndTag<'a>),
    /// The end of the document.
    Eof,
    /// Text, a comment, a declaration, a processing instruction, CDATA or a doctype.
    Other,
}

/// A read's result, by kind.
pub open spec fn event_view(r: Result<XmlEvent, String>) -> EventView {
    match r {
        Err(e) => EventView::Failed(e@),
        Ok(XmlEvent::Start(_)) => EventView::Start,
        Ok(XmlEvent::Empty(_)) => EventView::Empty,
        Ok(XmlEvent::End(_)) => EventView::End,
        Ok(XmlEvent::Eof) => EventView::Eof,
        Ok(XmlEvent::Other) => EventView::Other,
    }
}

/// An attribute step's result, by kind.
pub open spec fn attr_step_view(r: Option<Result<Attr, String>>) -> AttrStep {
    match r {
        None => AttrStep::End,
        Some(Err(e)) => AttrStep::Malformed(e@),
        Some(Ok(_)) => AttrStep::Present,
    }
}

/// `Reader::from_str`: a reader over the document that has reported nothing yet.
#[verifier::external_body]
fn reader_of<'a>(src: &'a str) -> (r: XmlCursor<'a>)
    ensures
        r.src@ == src@,
        r.read@ == 0,
{
    XmlCursor { reader: Reader::from_str(src), src: Ghost(src@), read: Ghost(0) }
}

/// `Reader::read_event`: the next event of the document, as [`xml_event`] names it, an error
/// carried as its `Display` text; a tag keeps the read that reported it.
#[verifier::external_body]
fn read_event<'a>(cursor: &mut XmlCursor<'a>) -> (r: Result<XmlEvent<'a>, String>)
    ensures
        final(cursor).src == old(cursor).src,
        final(cursor).read@ == old(cursor).read@ + 1,
        event_view(r) == xml_event(old(cursor).src@, old(cursor).read@),
        r matches Ok(XmlEvent::Start(t)) ==> t.src == old(cursor).src && t.k == old(cursor).read,
        r matches Ok(XmlEvent::Empty(t)) ==> t.src == old(cursor).src && t.k == old(cursor).read,
        r matches Ok(XmlEvent::End(t)) ==> t.src == old(cursor).src && t.k == old(cursor).read,
{
    let (src, k) = (cursor.src, cursor.read);
    cursor.read = Ghost(k@ + 1);
    match cursor.reader.read_event() {
        Err(error) => Err(error.to_string()),
        Ok(Event::Start(tag)) => Ok(XmlEvent::Start(Tag { tag, src, k })),
        Ok(Event::Empty(tag)) => Ok(XmlEvent::Empty(Tag { tag, src, k })),
        Ok(Event::End(tag)) => Ok(XmlEvent::End(EndTag { tag, src, k })),
        Ok(Event::Eof) => Ok(XmlEvent::Eof),
        Ok(_) => Ok(XmlEvent::Other),
    }
}

/// `BytesStart::name`: the tag's name, as bytes.
#[verifier::external_body]
fn start_name(tag: &Tag) -> (r: Vec<u8>)
    ensures
        r@ == xml_start_name(tag.src@, tag.k@),
{
    tag.tag.name().as_ref().to_vec()
}

/// `BytesEnd::name`: the end tag's name, as bytes.
#[verifier::external_body]
fn end_name(tag: &EndTag) -> (r: Vec<u8>)
    ensures
        r@ == xml_end_name(tag.src@, tag.k@),
{
    tag.tag.name().as_ref().to_vec()
}

/// `BytesStart::attributes`: an iterator over the tag's attributes that has taken no step.
#[verifier::external_body]
fn attributes_of<'b>(tag: &'b Tag) -> (r: AttrCursor<'b>)
    ensures
        r.src == tag.src,
        r.k == tag.k,
        r.i@ == 0,
{
    AttrCursor { attributes: tag.tag.attributes(), src: tag.src, k: tag.k, i: Ghost(0) }
}

/// `Attributes::next`: the next attribute, a malformed one as its error's `Display` text, or
/// the end of the list, as [`xml_attribute`] names it.
#[verifier::external_body]
fn next_attribute<'b>(cursor: &mut AttrCursor<'b>) -> (r: Option<Result<Attr<'b>, String>>)
    ensures
        final(cursor).src == old(cursor).src,
        final(cursor).k == old(cursor).k,
        final(cursor).i@ == old(cursor).i@ + 1,
        attr_step_view(r) == xml_attribute(old(cursor).src@, old(cursor).k@, old(cursor).i@),
        r matches Some(Ok(a)) ==> a.src == old(cursor).src && a.k == old(cursor).k && a.i == old(cursor).i,
{
    let (src, k, i) = (cursor.src, cursor.k, cursor.i);
    cursor.i = Ghost(i@ + 1);
    match cursor.attributes.next() {
        None => None,
        Some(Err(error)) => Some(Err(error.to_string())),
        Some(Ok(attr)) => Some(Ok(Attr { attr, src, k, i })),
    }
}

/// `Attribute::key`: the attribute's name, as bytes.
#[verifier::external_body]
fn attribute_key(attribute: &Attr) -> (r: Vec<u8>)
    ensures
        r@ == xml_attr_key(attribute.src@, attribute.k@, attribute.i@),
{
    attribute.attr.key.as_ref().to_vec()
}

/// `Attribute::unescape_value`: the attribute's value with its entities replaced, or the
/// `Display` text of the error an unknown entity raises.
#[verifier::external_body]
fn unescape_value(attribute: &Attr) -> (r: Result<String, String>)
    ensures
        match r {
            Ok(v) => Ok(v@),
            Err(e) => Err(e@),
        } == xml_attr_value(attribute.src@, attribute.k@, attribute.i@),
{
    match attribute.attr.unescape_value() {
        Ok(value) => Ok(value.into_owned()),
        Err(error) => Err(error.to_string()),
    }
}

/// One attribute of a tag: its name, and its unescaped value or why it has none.
pub struct XmlAttr {
    /// The attribute's name.
    pub key: Vec<u8>,
    /// The unescaped value, or the unescaping error's text.
    pub value: Result<String, String>,
}

/// A start or empty-element tag: its name, its attributes up to the first malformed one, and
/// that one's error, if any.
pub struct XmlElement {
    /// The tag's name.
    pub name: Vec<u8>,
    /// The well-formed attributes before the first malformed one.
    pub attrs: Vec<XmlAttr>,
    /// The first malformed attribute's error, if any.
    pub error: Option<String>,
}

/// One event of a document, as plain values.
pub enum XmlItem {
    /// `<tag …>`.
    Start(XmlElement),
    /// `<tag …/>`.
    Empty(XmlElement),
    /// `</tag>`.
    End(Vec<u8>),
    /// The end of the document.
    Eof,
    /// Anything the readers do not look at.
    Other,
    /// The error that stopped the reader.
    Error(String),
}

/// What an [`XmlAttr`] holds.
pub struct AttrView {
    /// The attribute's name.
    pub key: Seq<u8>,
    /// The unescaped value, or the unescaping error's text.
    pub value: Result<Seq<char>, Seq<char>>,
}

/// What an [`XmlElement`] holds.
pub struct ElementView {
    /// The tag's name.
    pub name: Seq<u8>,
    /// The well-formed attributes before the first malformed one.
    pub attrs: Seq<AttrView>,
    /// The first malformed attribute's error, if any.
    pub error: Option<Seq<char>>,
}

/// What an [`XmlItem`] holds.
pub enum ItemView {
    /// `<tag …>`.
    Start(ElementView),
    /// `<tag …/>`.
    Empty(ElementView),
    /// `</tag>`.
    End(Seq<u8>),
    /// The end of the document.
    Eof,
    /// Anything the readers do not look at.
    Other,
    /// The error that stopped the reader.
    Error(Seq<char>),
}

impl View for XmlAttr {
    type V = AttrView;

    open spec fn view(&self) -> AttrView {
        AttrView {
            key: self.key@,
            value: match self.value {
                Ok(v) => Ok(v@),
                Err(e) => Err(e@),
            },
        }
    }
}

impl View for XmlElement {
    type V = ElementView;

    open spec fn view(&self) -> ElementView {
        ElementView {
            name: self.name@,
            attrs: self.attrs@.map_values(|a: XmlAttr| a@),
            error: match self.error {
                Some(e) => Some(e@),
                None => None,
            },
        }
    }
}

impl View for XmlItem {
    type V = ItemView;

    open spec fn view(&self) -> ItemView {
        match self {
            XmlItem::Start(e) => ItemView::Start(e@),
            XmlItem::Empty(e) => ItemView::Empty(e@),
            XmlItem::End(name) => ItemView::End(name@),
            XmlItem::Eof => ItemView::Eof,
            XmlItem::Other => ItemView::Other,
            XmlItem::Error(e) => ItemView::Error(e@),
        }
    }
}

/// The views of a list of items.
pub open spec fn items_view(items: Seq<XmlItem>) -> Seq<ItemView> {
    items.map_values(|i: XmlItem| i@)
}

/// The byte an ASCII character is spelled with.
pub open spec fn byte_of(c: char) -> u8 {
    (c as u32) as u8
}

/// The bytes an ASCII name is spelled with.
pub open spec fn ascii_of(s: Seq<char>) -> Seq<u8> {
    s.map_values(|c: char| byte_of(c))
}

/// Whether `name` spells the ASCII literal `lit`.
pub fn named(name: &[u8], lit: &str) -> (r: bool)
    ensures
        r == (name@ == ascii_of(lit@)),
{
    let l = chars_of(lit);
    if name.len() != l.len() {
        return false;
    }
    let mut i: usize = 0;
    while i < name.len()
        invariant
            i <= name@.len(),
            name@.len() == l@.len(),
            l@ == lit@,
            forall|j: int| 0 <= j < i ==> name@[j] == byte_of(l@[j]),
        decreases name@.len() - i,
    {
        let b = (l[i] as u32) as u8;
        assert(b == byte_of(l@[i as int]));
        if name[i] != b {
            assert(name@[i as int] != ascii_of(lit@)[i as int]);
            return false;
        }
        i += 1;
    }
    assert(name@ =~= ascii_of(lit@));
    true
}

/// Whether `name` ends with the ASCII literal `lit`.
pub fn ends_with_name(name: &[u8], lit: &str) -> (r: bool)
    ensures
        r == (ascii_of(lit@).len() <= name@.len() && name@.subrange(name@.len() - ascii_of(lit@).len(), name@.len() as int) == ascii_of(lit@)),
{
    let l = chars_of(lit);
    if name.len() < l.len() {
        return false;
    }
    let off = name.len() - l.len();
    let mut i: usize = 0;
    while i < l.len()
        invariant
            i <= l@.len(),
            off + l@.len() == name@.len(),
            name@.len() == name.len(),
            l@ == lit@,
            l@.len() == l.len(),
            forall|j: int| 0 <= j < i ==> name@[off + j] == byte_of(l@[j]),
        decreases l@.len() - i,
    {
        let b = (l[i] as u32) as u8;
        assert(b == byte_of(l@[i as int]));
        if name[off + i] != b {
            assert(name@.subrange(off as int, name@.len() as int)[i as int] != ascii_of(lit@)[i as int]);
            return false;
        }
        i += 1;
    }
    assert(name@.subrange(off as int, name@.len() as int) =~= ascii_of(lit@));
    true
}

/// The attributes of the tag of the `k`-th read over `src` from the `i`-th on, at most `left` of
/// them: the well-formed ones up to the first malformed one, and that one's error.
pub open spec fn attrs_from(src: Seq<char>, k: int, i: int, left: nat) -> (Seq<AttrView>, Option<Seq<char>>)
    decreases left,
{
    if left == 0 {
        (Seq::empty(), None)
    } else {
        match xml_attribute(src, k, i) {
            AttrStep::End => (Seq::empty(), None),
            AttrStep::Malformed(e) => (Seq::empty(), Some(e)),
            AttrStep::Present => {
                let rest = attrs_from(src, k, i + 1, (left - 1) as nat);
                (seq![AttrView { key: xml_attr_key(src, k, i), value: xml_attr_value(src, k, i) }] + rest.0, rest.1)
            },
        }
    }
}

/// The tag of the `k`-th read over `src` as plain values, reading at most `budget` attributes.
pub open spec fn element_spec(src: Seq<char>, k: int, budget: nat) -> ElementView {
    let attrs = attrs_from(src, k, 0, budget);
    ElementView { name: xml_start_name(src, k), attrs: attrs.0, error: attrs.1 }
}

/// A tag's name and attributes as plain values: the attributes up to the first malformed one,
/// whose error is kept. `budget` bounds how many attributes are read; a tag has fewer
/// attributes than its document has characters, so a budget of the document's length is never
/// spent.
fn element_of(tag: &Tag, budget: usize) -> (r: XmlElement)
    ensures
        r@ == element_spec(tag.src@, tag.k@, budget as nat),
{
    let name = start_name(tag);
    let mut attributes = attributes_of(tag);
    let mut attrs: Vec<XmlAttr> = Vec::new();
    let mut left = budget;
    let ghost src = tag.src@;
    let ghost k = tag.k@;
    let ghost all = attrs_from(src, k, 0, budget as nat);
    while left > 0
        invariant
            src == tag.src@,
            k == tag.k@,
            name@ == xml_start_name(src, k),
            attributes.src@ == src,
            attributes.k@ == k,
            attributes.i@ + left == budget,
            attributes.i@ >= 0,
            all == attrs_from(src, k, 0, budget as nat),
            all.0 == attrs@.map_values(|a: XmlAttr| a@) + attrs_from(src, k, attributes.i@, left as nat).0,
            all.1 == attrs_from(src, k, attributes.i@, left as nat).1,
        decreases left,
    {
        let ghost i = attributes.i@;
        let ghost before = attrs@.map_values(|a: XmlAttr| a@);
        left -= 1;
        match next_attribute(&mut attributes) {
            None => {
                assert(attrs_from(src, k, i, (left + 1) as nat) == (Seq::<AttrView>::empty(), None::<Seq<char>>));
                assert(all.0 =~= before);
                let r = XmlElement { name, attrs, error: None };
                assert(r@.attrs =~= all.0);
                assert(r@.name == xml_start_name(src, k));
                assert(r@.error == all.1);
                assert(r@ == element_spec(src, k, budget as nat));
                return r;
            },
            Some(Err(error)) => {
                assert(attrs_from(src, k, i, (left + 1) as nat) == (Seq::<AttrView>::empty(), Some(error@)));
                assert(all.0 =~= before);
                let r = XmlElement { name, attrs, error: Some(error) };
                assert(r@.attrs =~= all.0);
                assert(r@.name == xml_start_name(src, k));
                assert(r@.error == all.1);
                assert(r@ == element_spec(src, k, budget as nat));
                return r;
            },
            Some(Ok(attribute)) => {
                let value = unescape_value(&attribute);
                let key = attribute_key(&attribute);
                attrs.push(XmlAttr { key, value });
                let ghost one = attrs@[attrs@.len() - 1]@;
                assert(attrs@.map_values(|a: XmlAttr| a@) =~= before.push(one));
                assert(before.push(one) + attrs_from(src, k, i + 1, left as nat).0 =~= before + (seq![one]
                    + attrs_from(src, k, i + 1, left as nat).0));
            },
        }
    }
    assert(attrs_from(src, k, attributes.i@, 0).0 =~= Seq::<AttrView>::empty());
    assert(all.0 =~= attrs@.map_values(|a: XmlAttr| a@));
    XmlElement { name, attrs, error: None }
}

/// An item as the reader lowers the `k`-th event over `src`.
pub open spec fn item_of(src: Seq<char>, k: int, budget: nat, e: EventView) -> ItemView {
    match e {
        EventView::Start => ItemView::Start(element_spec(src, k, budget)),
        EventView::Empty => ItemView::Empty(element_spec(src, k, budget)),
        EventView::End => ItemView::End(xml_end_name(src, k)),
        EventView::Eof => ItemView::Eof,
        EventView::Failed(e) => ItemView::Error(e),
        EventView::Other => ItemView::Other,
    }
}

/// The items of the events over `src` from the `k`-th on: each event lowered, up to and
/// including the end of the document or the error that stopped the reader; after `left` more
/// events the end of the document is taken as read.
pub open spec fn items_from(src: Seq<char>, budget: nat, k: int, left: nat) -> Seq<ItemView>
    decreases left,
{
    let e = xml_event(src, k);
    if e is Eof || e is Failed {
        seq![item_of(src, k, budget, e)]
    } else if left == 0 {
        seq![item_of(src, k, budget, e), ItemView::Eof]
    } else {
        seq![item_of(src, k, budget, e)] + items_from(src, budget, k + 1, (left - 1) as nat)
    }
}

/// The items of a document as quick-xml reads it: every event lowered to plain values, up to
/// and including the end of the document or the error that stopped the reader.
pub open spec fn document_items(src: Seq<char>) -> Seq<ItemView> {
    items_from(src, src.len(), 0, src.len())
}

/// The events of a document as plain items, up to and including its end or the error that
/// stopped the reader. quick-xml consumes at least one character per event before the end, so a
/// document of `n` characters has at most `n + 1` events; the bound only makes that visible.
pub fn xml_items(src: &str) -> (r: Vec<XmlItem>)
    ensures
        items_view(r@) == document_items(src@),
        r@.len() > 0,
        r@.last() is Eof || r@.last() is Error,
        forall|k: int| 0 <= k < r@.len() - 1 ==> !(#[trigger] r@[k] is Eof) && !(r@[k] is Error),
{
    let budget = src.unicode_len();
    let mut reader = reader_of(src);
    let mut items: Vec<XmlItem> = Vec::new();
    let mut left = budget;
    loop
        invariant
            reader.src@ == src@,
            budget == src@.len(),
            reader.read@ >= 0,
            reader.read@ + left == budget,
            items_view(items@) + items_from(src@, budget as nat, reader.read@, left as nat) == document_items(src@),
            forall|k: int| 0 <= k < items@.len() ==> !(#[trigger] items@[k] is Eof) && !(items@[k] is Error),
        decreases left,
    {
        let ghost k = reader.read@;
        let ghost before = items_view(items@);
        let event = read_event(&mut reader);
        let item = match event {
            Err(error) => XmlItem::Error(error),
            Ok(XmlEvent::Eof) => XmlItem::Eof,
            Ok(XmlEvent::Start(tag)) => XmlItem::Start(element_of(&tag, budget)),
            Ok(XmlEvent::Empty(tag)) => XmlItem::Empty(element_of(&tag, budget)),
            Ok(XmlEvent::End(tag)) => XmlItem::End(end_name(&tag)),
            Ok(XmlEvent::Other) => XmlItem::Other,
        };
        assert(item@ == item_of(src@, k, budget as nat, xml_event(src@, k)));
        let stop = match &item {
            XmlItem::Eof => true,
            XmlItem::Error(_) => true,
            _ => false,
        };
        items.push(item);
        assert(items_view(items@) =~= before.push(item_of(src@, k, budget as nat, xml_event(src@, k))));
        if stop {
            assert(items_view(items@) =~= before + items_from(src@, budget as nat, k, left as nat));
            return items;
        }
        if left == 0 {
            items.push(XmlItem::Eof);
            assert(items_view(items@) =~= before + items_from(src@, budget as nat, k, left as nat));
            return items;
        }
        left -= 1;
        assert(before + items_from(src@, budget as nat, k, (left + 1) as nat) =~= items_view(items@) + items_from(
            src@,
            budget as nat,
            k + 1,
            left as nat,
        ));
    }
}

/// The value of the attribute named `want`, searching from the `i`-th: a malformed attribute
/// met before it, or a value that does not unescape, is an error.
pub open spec fn attr_from(el: ElementView, want: Seq<u8>, i: int) -> Result<Option<Seq<char>>, Seq<char>>
    decreases el.attrs.len() - i,
{
    if i < 0 || i >= el.attrs.len() {
        match el.error {
            Some(e) => Err(e),
            None => Ok(None),
        }
    } else if el.attrs[i].key == want {
        match el.attrs[i].value {
            Ok(v) => Ok(Some(v)),
            Err(e) => Err(e),
        }
    } else {
        attr_from(el, want, i + 1)
    }
}

/// The value of the attribute named `want`.
pub open spec fn attr_spec(el: ElementView, want: Seq<u8>) -> Result<Option<Seq<char>>, Seq<char>> {
    attr_from(el, want, 0)
}

/// What an attribute read gives back, as plain values.
pub open spec fn read_view(r: Result<Option<String>, ImportError>) -> Result<Option<Seq<char>>, Seq<char>> {
    match r {
        Ok(Some(v)) => Ok(Some(v@)),
        Ok(None) => Ok(None),
        Err(ImportError::Xml(e)) => Err(e@),
        Err(ImportError::Deserialize(e)) => Err(seq!['?'] + e@),
    }
}

/// Shared XML helpers.
pub struct Xml;

impl Xml {
    /// Read one string attribute (`want`) off an element.
    pub fn attr(element: &XmlElement, want: &str) -> (r: Result<Option<String>, ImportError>)
        ensures
            r is Err ==> r matches Err(ImportError::Xml(_)),
            read_view(r) == attr_spec(element@, ascii_of(want@)),
    {
        let mut i: usize = 0;
        while i < element.attrs.len()
            invariant
                i <= element.attrs@.len(),
                attr_spec(element@, ascii_of(want@)) == attr_from(element@, ascii_of(want@), i as int),
            decreases element.attrs@.len() - i,
        {
            assert(element@.attrs[i as int] == element.attrs@[i as int]@);
            if named(&element.attrs[i].key, want) {
                return match &element.attrs[i].value {
                    Ok(v) => Ok(Some(v.clone())),
                    Err(e) => Err(ImportError::Xml(e.clone())),
                };
            }
            i += 1;
        }
        match &element.error {
            Some(e) => Err(ImportError::Xml(e.clone())),
            None => Ok(None),
        }
    }
}

/// The formatter-id map an Eclipse profile's items denote, reading from the `i`-th item onto
/// `acc`: every `<setting id=… value=…>` whose id is in the formatter namespace, later ones
/// winning; the reader's error, or a malformed attribute of a setting, is the result instead.
pub open spec fn profile_from(items: Seq<ItemView>, i: int, acc: Map<Seq<char>, Seq<char>>) -> Result<Map<Seq<char>, Seq<char>>, Seq<char>>
    decreases items.len() - i,
{
    if i < 0 || i >= items.len() {
        Ok(acc)
    } else {
        match items[i] {
            ItemView::Eof => Ok(acc),
            ItemView::Error(e) => Err(e),
            ItemView::Start(el) => match setting_of(el) {
                Err(e) => Err(e),
                Ok(write) => profile_from(items, i + 1, apply_setting(acc, write)),
            },
            ItemView::Empty(el) => match setting_of(el) {
                Err(e) => Err(e),
                Ok(write) => profile_from(items, i + 1, apply_setting(acc, write)),
            },
            _ => profile_from(items, i + 1, acc),
        }
    }
}

/// The write one element of a profile makes: a `<setting>` with both attributes and an id in the
/// formatter namespace sets that id; anything else writes nothing.
pub open spec fn setting_of(el: ElementView) -> Result<Option<(Seq<char>, Seq<char>)>, Seq<char>> {
    if el.name != ascii_of("setting"@) {
        Ok(None)
    } else {
        match attr_spec(el, ascii_of("id"@)) {
            Err(e) => Err(e),
            Ok(id) => match attr_spec(el, ascii_of("value"@)) {
                Err(e) => Err(e),
                Ok(value) => match (id, value) {
                    (Some(id), Some(value)) => if starts_with(id, ECLIPSE_FORMATTER_PREFIX@) {
                        Ok(Some((id, value)))
                    } else {
                        Ok(None)
                    },
                    _ => Ok(None),
                },
            },
        }
    }
}

/// A map with an optional write applied.
pub open spec fn apply_setting(acc: Map<Seq<char>, Seq<char>>, write: Option<(Seq<char>, Seq<char>)>) -> Map<Seq<char>, Seq<char>> {
    match write {
        Some((k, v)) => acc.insert(k, v),
        None => acc,
    }
}

/// The formatter-id map an Eclipse profile's items denote.
pub open spec fn profile_spec(items: Seq<ItemView>) -> Result<Map<Seq<char>, Seq<char>>, Seq<char>> {
    profile_from(items, 0, Map::empty())
}

/// What a map-producing reader gives back, as plain values.
pub open spec fn map_result_view(r: Result<KvMap, ImportError>) -> Result<Map<Seq<char>, Seq<char>>, Seq<char>> {
    match r {
        Ok(m) => Ok(m@),
        Err(ImportError::Xml(e)) => Err(e@),
        Err(ImportError::Deserialize(e)) => Err(seq!['?'] + e@),
    }
}

/// Reader for an exported Eclipse XML formatter profile (`<setting id=… value=…/>`).
pub struct EclipseProfileReader;

impl EclipseProfileReader {
    /// The write one element makes.
    fn setting(element: &XmlElement) -> (r: Result<Option<(String, String)>, ImportError>)
        ensures
            r is Err ==> r matches Err(ImportError::Xml(_)),
            match r {
                Ok(Some((k, v))) => setting_of(element@) == Ok::<_, Seq<char>>(Some((k@, v@))),
                Ok(None) => setting_of(element@) == Ok::<Option<(Seq<char>, Seq<char>)>, Seq<char>>(None),
                Err(ImportError::Xml(e)) => setting_of(element@) == Err::<Option<(Seq<char>, Seq<char>)>, Seq<char>>(e@),
                Err(_) => false,
            },
    {
        if !named(&element.name, "setting") {
            return Ok(None);
        }
        let id = match Xml::attr(element, "id") {
            Ok(id) => id,
            Err(e) => return Err(e),
        };
        let value = match Xml::attr(element, "value") {
            Ok(value) => value,
            Err(e) => return Err(e),
        };
        match (id, value) {
            (Some(id), Some(value)) => {
                let prefix = chars_of(ECLIPSE_FORMATTER_PREFIX);
                if has_prefix(&chars_of(id.as_str()), &prefix) {
                    Ok(Some((id, value)))
                } else {
                    Ok(None)
                }
            },
            _ => Ok(None),
        }
    }

    /// Lower a profile's items to the formatter-id map [`super::eclipse::EclipseConfig`] reads.
    pub fn from_items(items: &[XmlItem]) -> (r: Result<KvMap, ImportError>)
        ensures
            r is Err ==> r matches Err(ImportError::Xml(_)),
            map_result_view(r) == profile_spec(items_view(items@)),
    {
        let ghost view = items_view(items@);
        let mut out = KvMap::new();
        let mut i: usize = 0;
        while i < items.len()
            invariant
                i <= items@.len(),
                view == items_view(items@),
                profile_spec(view) == profile_from(view, i as int, out@),
            decreases items@.len() - i,
        {
            assert(view[i as int] == items@[i as int]@);
            let write = match &items[i] {
                XmlItem::Eof => return Ok(out),
                XmlItem::Error(e) => return Err(ImportError::Xml(e.clone())),
                XmlItem::Start(element) => Self::setting(element),
                XmlItem::Empty(element) => Self::setting(element),
                _ => Ok(None),
            };
            match write {
                Err(e) => return Err(e),
                Ok(Some((k, v))) => {
                    out.insert_chars(chars_of(k.as_str()), chars_of(v.as_str()));
                },
                Ok(None) => {},
            }
            i += 1;
        }
        Ok(out)
    }

    /// Lower a profile to the formatter-id map: its items, read by quick-xml, lowered as
    /// [`from_items`](Self::from_items) says.
    pub fn parse(src: &str) -> (r: Result<KvMap, ImportError>)
        ensures
            r is Err ==> r matches Err(ImportError::Xml(_)),
            map_result_view(r) == profile_spec(document_items(src@)),
    {
        let items = xml_items(src);
        Self::from_items(&items)
    }
}

/// One row of an IntelliJ `PackageEntryTable`, in document order.
pub enum ImportEntry {
    /// A `<package name=… withSubpackages=… static=… module=…/>` row.
    Package {
        /// The package name, empty for the catch-all row.
        name: String,
        /// `withSubpackages="true"`.
        with_subpackages: bool,
        /// `static="true"`.
        is_static: bool,
        /// `module="true"`: the "all module imports" row.
        is_module: bool,
    },
    /// An `<emptyLine/>` (blank-line separator).
    Blank,
}

/// What an [`ImportEntry`] holds.
pub enum RowView {
    /// A package row.
    Package { name: Seq<char>, with_subpackages: bool, is_static: bool, is_module: bool },
    /// A blank-line separator.
    Blank,
}

impl View for ImportEntry {
    type V = RowView;

    open spec fn view(&self) -> RowView {
        match self {
            ImportEntry::Package { name, with_subpackages, is_static, is_module } => RowView::Package {
                name: name@,
                with_subpackages: *with_subpackages,
                is_static: *is_static,
                is_module: *is_module,
            },
            ImportEntry::Blank => RowView::Blank,
        }
    }
}

/// The views of a list of rows.
pub open spec fn rows_view(rows: Seq<ImportEntry>) -> Seq<RowView> {
    rows.map_values(|r: ImportEntry| r@)
}

/// One row in the `.editorconfig` mini-list spelling: `|` for a blank line; otherwise a `%`
/// module marker, a `$` static marker, the name and a `.`, and `**` with subpackages or `*`
/// without (the catch-all has no name and no dot).
pub open spec fn row_text(row: RowView) -> Seq<char> {
    match row {
        RowView::Blank => seq!['|'],
        RowView::Package { name, with_subpackages, is_static, is_module } => {
            let module = if is_module { seq!['%'] } else { Seq::<char>::empty() };
            let marker = if is_static { seq!['$'] } else { Seq::<char>::empty() };
            let wildcard = if with_subpackages { seq!['*', '*'] } else { seq!['*'] };
            if name.len() == 0 {
                module + marker + wildcard
            } else {
                module + marker + name + seq!['.'] + wildcard
            }
        },
    }
}

/// The rows joined into the mini-list, `", "` between rows.
pub open spec fn mini_list(rows: Seq<RowView>) -> Seq<char>
    decreases rows.len(),
{
    if rows.len() == 0 {
        Seq::empty()
    } else if rows.len() == 1 {
        row_text(rows[0])
    } else {
        mini_list(rows.drop_last()) + seq![',', ' '] + row_text(rows.last())
    }
}

/// What one scan of a scheme document has accumulated.
pub struct ScanView {
    /// Option name to raw value.
    pub raw: Map<Seq<char>, Seq<char>>,
    /// The rows of the table-valued option currently open.
    pub entries: Seq<RowView>,
    /// The name of that option, when one is open.
    pub open_table: Option<Seq<char>>,
}

/// Whether an option is one of the `PackageEntryTable`-valued ones, which carry element rows
/// rather than a `value=` attribute.
pub open spec fn is_package_table(name: Seq<char>) -> bool {
    name == "IMPORT_LAYOUT_TABLE"@ || name == "PACKAGES_TO_USE_IMPORT_ON_DEMAND"@
}

/// Whether an optional attribute value is exactly `true`.
pub open spec fn is_true(v: Option<Seq<char>>) -> bool {
    v == Some("true"@)
}

/// The scan after one opening or empty element.
pub open spec fn visit_spec(st: ScanView, el: ElementView) -> Result<ScanView, Seq<char>> {
    if el.name == ascii_of("option"@) {
        match attr_spec(el, ascii_of("name"@)) {
            Err(e) => Err(e),
            Ok(name) => match attr_spec(el, ascii_of("value"@)) {
                Err(e) => Err(e),
                Ok(value) => match (name, value) {
                    (Some(n), Some(v)) => Ok(ScanView { raw: st.raw.insert(n, v), ..st }),
                    (Some(n), None) => if is_package_table(n) {
                        Ok(ScanView { open_table: Some(n), entries: Seq::empty(), ..st })
                    } else {
                        Ok(st)
                    },
                    _ => Ok(st),
                },
            },
        }
    } else if el.name == ascii_of("package"@) && st.open_table is Some {
        match attr_spec(el, ascii_of("name"@)) {
            Err(e) => Err(e),
            Ok(name) => match attr_spec(el, ascii_of("withSubpackages"@)) {
                Err(e) => Err(e),
                Ok(sub) => match attr_spec(el, ascii_of("static"@)) {
                    Err(e) => Err(e),
                    Ok(stat) => match attr_spec(el, ascii_of("module"@)) {
                        Err(e) => Err(e),
                        Ok(module) => Ok(ScanView {
                            entries: st.entries.push(RowView::Package {
                                name: match name {
                                    Some(n) => n,
                                    None => Seq::empty(),
                                },
                                with_subpackages: is_true(sub),
                                is_static: is_true(stat),
                                is_module: is_true(module),
                            }),
                            ..st
                        }),
                    },
                },
            },
        }
    } else if el.name == ascii_of("emptyLine"@) && st.open_table is Some {
        Ok(ScanView { entries: st.entries.push(RowView::Blank), ..st })
    } else {
        Ok(st)
    }
}

/// The scan after closing the open table-valued option: a table with rows is recorded in its
/// mini-list spelling.
pub open spec fn close_spec(st: ScanView) -> ScanView {
    ScanView {
        raw: match st.open_table {
            Some(name) => if st.entries.len() > 0 {
                st.raw.insert(name, mini_list(st.entries))
            } else {
                st.raw
            },
            None => st.raw,
        },
        entries: Seq::empty(),
        open_table: None,
    }
}

/// ASCII case-insensitive equality (`str::eq_ignore_ascii_case`).
pub open spec fn eq_ignore_ascii_case(a: Seq<char>, b: Seq<char>) -> bool {
    a.len() == b.len() && forall|i: int| 0 <= i < a.len() ==> lower_char(#[trigger] a[i]) == lower_char(b[i])
}

/// Whether an element opens a settings block scoped to a language other than Java.
///
/// Two element shapes carry a language scope: `<codeStyleSettings language=…>` holds the
/// whitespace, wrap and indent options, and the per-language `<…CodeStyleSettings>` siblings
/// (`<JavaCodeStyleSettings>`, `<KotlinCodeStyleSettings>`, …) hold the import policy. Anything
/// else — notably the `<code_scheme>` top level — is global and read as Java's.
pub open spec fn foreign_spec(el: ElementView) -> Result<bool, Seq<char>> {
    if el.name == ascii_of("codeStyleSettings"@) {
        match attr_spec(el, ascii_of("language"@)) {
            Err(e) => Err(e),
            Ok(None) => Ok(false),
            Ok(Some(language)) => Ok(!eq_ignore_ascii_case(language, "JAVA"@)),
        }
    } else {
        let suffix = ascii_of("CodeStyleSettings"@);
        Ok(suffix.len() <= el.name.len() && el.name.subrange(el.name.len() - suffix.len(), el.name.len() as int) == suffix
            && el.name != ascii_of("JavaCodeStyleSettings"@))
    }
}

/// The option map a scheme's items denote, reading from the `i`-th item with the scan so far and
/// `skip` open elements of a foreign language block still to leave.
///
/// Every language reuses the same `UPPER_SNAKE` option vocabulary, so a foreign block's whole
/// subtree is dropped; Java options are not confined to a Java block, so foreign blocks are
/// skipped by denylist. An unterminated document still yields whatever rows were read.
pub open spec fn scheme_from(items: Seq<ItemView>, i: int, st: ScanView, skip: nat) -> Result<Map<Seq<char>, Seq<char>>, Seq<char>>
    decreases items.len() - i,
{
    if i < 0 || i >= items.len() {
        Ok(close_spec(st).raw)
    } else {
        match items[i] {
            ItemView::Error(e) => Err(e),
            ItemView::Eof => Ok(close_spec(st).raw),
            ItemView::Start(el) => if skip > 0 {
                scheme_from(items, i + 1, st, skip + 1)
            } else {
                match foreign_spec(el) {
                    Err(e) => Err(e),
                    Ok(true) => scheme_from(items, i + 1, st, 1),
                    Ok(false) => match visit_spec(st, el) {
                        Err(e) => Err(e),
                        Ok(next) => scheme_from(items, i + 1, next, 0),
                    },
                }
            },
            ItemView::Empty(el) => if skip > 0 {
                scheme_from(items, i + 1, st, skip)
            } else {
                match foreign_spec(el) {
                    Err(e) => Err(e),
                    Ok(true) => scheme_from(items, i + 1, st, 0),
                    Ok(false) => match visit_spec(st, el) {
                        Err(e) => Err(e),
                        Ok(next) => scheme_from(items, i + 1, next, 0),
                    },
                }
            },
            ItemView::End(name) => if skip > 0 {
                scheme_from(items, i + 1, st, (skip - 1) as nat)
            } else if st.open_table is Some && name == ascii_of("option"@) {
                scheme_from(items, i + 1, close_spec(st), 0)
            } else {
                scheme_from(items, i + 1, st, 0)
            },
            ItemView::Other => scheme_from(items, i + 1, st, skip),
        }
    }
}

/// The option map a scheme's items denote.
pub open spec fn scheme_spec(items: Seq<ItemView>) -> Result<Map<Seq<char>, Seq<char>>, Seq<char>> {
    scheme_from(items, 0, ScanView { raw: Map::empty(), entries: Seq::empty(), open_table: None }, 0)
}

/// What one scan of a scheme document accumulates.
pub struct SchemeScan {
    /// `UPPER_SNAKE` option name → raw value (integer / bool / separator), verbatim.
    pub raw: KvMap,
    /// The rows of the `PackageEntryTable` option currently open, in document order.
    pub entries: Vec<ImportEntry>,
    /// The name of that option, when one is open.
    pub open_table: Option<String>,
}

impl View for SchemeScan {
    type V = ScanView;

    open spec fn view(&self) -> ScanView {
        ScanView {
            raw: self.raw@,
            entries: rows_view(self.entries@),
            open_table: match self.open_table {
                Some(n) => Some(n@),
                None => None,
            },
        }
    }
}

/// Whether a string is exactly `true`.
fn opt_is_true(v: &Option<String>) -> (r: bool)
    ensures
        r == is_true(match v {
            Some(s) => Some(s@),
            None => None,
        }),
{
    match v {
        Some(s) => crate::import::serde_kv::is_token(&chars_of(s.as_str()), "true"),
        None => false,
    }
}

impl SchemeScan {
    /// An empty scan.
    pub fn new() -> (r: Self)
        ensures
            r@ == (ScanView { raw: Map::empty(), entries: Seq::empty(), open_table: None }),
    {
        let s = SchemeScan { raw: KvMap::new(), entries: Vec::new(), open_table: None };
        assert(rows_view(s.entries@) =~= Seq::<RowView>::empty());
        s
    }

    /// Record one opening or empty element.
    pub fn visit(&mut self, element: &XmlElement) -> (r: Result<(), ImportError>)
        ensures
            match r {
                Ok(()) => visit_spec(old(self)@, element@) == Ok::<ScanView, Seq<char>>(final(self)@),
                Err(ImportError::Xml(e)) => visit_spec(old(self)@, element@) == Err::<ScanView, Seq<char>>(e@),
                Err(_) => false,
            },
    {
        if named(&element.name, "option") {
            let name = match Xml::attr(element, "name") {
                Ok(n) => n,
                Err(e) => return Err(e),
            };
            let value = match Xml::attr(element, "value") {
                Ok(v) => v,
                Err(e) => return Err(e),
            };
            match (name, value) {
                (Some(n), Some(v)) => {
                    self.raw.insert_chars(chars_of(n.as_str()), chars_of(v.as_str()));
                },
                (Some(n), None) => {
                    let text = chars_of(n.as_str());
                    if crate::import::serde_kv::is_token(&text, "IMPORT_LAYOUT_TABLE")
                        || crate::import::serde_kv::is_token(&text, "PACKAGES_TO_USE_IMPORT_ON_DEMAND") {
                        self.open_table = Some(n);
                        self.entries = Vec::new();
                        assert(rows_view(self.entries@) =~= Seq::<RowView>::empty());
                    }
                },
                _ => {},
            }
            Ok(())
        } else if named(&element.name, "package") && self.open_table.is_some() {
            let name = match Xml::attr(element, "name") {
                Ok(n) => n,
                Err(e) => return Err(e),
            };
            let sub = match Xml::attr(element, "withSubpackages") {
                Ok(v) => v,
                Err(e) => return Err(e),
            };
            let stat = match Xml::attr(element, "static") {
                Ok(v) => v,
                Err(e) => return Err(e),
            };
            let module = match Xml::attr(element, "module") {
                Ok(v) => v,
                Err(e) => return Err(e),
            };
            let row = ImportEntry::Package {
                name: match name {
                    Some(n) => n,
                    None => String::new(),
                },
                with_subpackages: opt_is_true(&sub),
                is_static: opt_is_true(&stat),
                is_module: opt_is_true(&module),
            };
            let ghost before = rows_view(self.entries@);
            self.entries.push(row);
            assert(rows_view(self.entries@) =~= before.push(row@));
            Ok(())
        } else if named(&element.name, "emptyLine") && self.open_table.is_some() {
            let ghost before = rows_view(self.entries@);
            self.entries.push(ImportEntry::Blank);
            assert(rows_view(self.entries@) =~= before.push(RowView::Blank));
            Ok(())
        } else {
            Ok(())
        }
    }

    /// The mini-list spelling of one row.
    fn row_text(row: &ImportEntry) -> (r: Vec<char>)
        ensures
            r@ == row_text(row@),
    {
        match row {
            ImportEntry::Blank => {
                let mut out: Vec<char> = Vec::new();
                out.push('|');
                assert(out@ =~= seq!['|']);
                out
            },
            ImportEntry::Package { name, with_subpackages, is_static, is_module } => {
                let mut out: Vec<char> = Vec::new();
                if *is_module {
                    out.push('%');
                }
                if *is_static {
                    out.push('$');
                }
                let ghost lead = out@;
                let text = chars_of(name.as_str());
                if text.len() > 0 {
                    push_all(&mut out, &text);
                    out.push('.');
                }
                out.push('*');
                if *with_subpackages {
                    out.push('*');
                }
                let ghost module = if *is_module { seq!['%'] } else { Seq::<char>::empty() };
                let ghost marker = if *is_static { seq!['$'] } else { Seq::<char>::empty() };
                let ghost wildcard = if *with_subpackages { seq!['*', '*'] } else { seq!['*'] };
                assert(lead =~= module + marker);
                if text.len() > 0 {
                    assert(out@ =~= module + marker + name@ + seq!['.'] + wildcard);
                } else {
                    assert(out@ =~= module + marker + wildcard);
                }
                out
            },
        }
    }

    /// Close the open table-valued option, lowering its rows to the mini-list form.
    pub fn close_table(&mut self)
        ensures
            final(self)@ == close_spec(old(self)@),
    {
        let ghost before = self@;
        let open = self.open_table.take();
        if let Some(name) = open {
            if self.entries.len() > 0 {
                let mut list: Vec<char> = Vec::new();
                let mut i: usize = 0;
                while i < self.entries.len()
                    invariant
                        i <= self.entries@.len(),
                        self.entries@.len() > 0,
                        rows_view(self.entries@) == before.entries,
                        i > 0 ==> list@ == mini_list(before.entries.take(i as int)),
                        i == 0 ==> list@.len() == 0,
                    decreases self.entries@.len() - i,
                {
                    let ghost prefix = before.entries.take(i + 1);
                    assert(prefix.drop_last() =~= before.entries.take(i as int));
                    assert(prefix.last() == self.entries@[i as int]@);
                    let text = Self::row_text(&self.entries[i]);
                    if i > 0 {
                        list.push(',');
                        list.push(' ');
                    }
                    let ghost lead = list@;
                    push_all(&mut list, &text);
                    if i == 0 {
                        assert(prefix.len() == 1);
                        assert(list@ =~= row_text(prefix[0]));
                    } else {
                        assert(list@ =~= mini_list(prefix.drop_last()) + seq![',', ' '] + row_text(prefix.last()));
                    }
                    i += 1;
                }
                assert(before.entries.take(self.entries@.len() as int) =~= before.entries);
                self.raw.insert_chars(chars_of(name.as_str()), list);
            }
        }
        self.entries = Vec::new();
        assert(rows_view(self.entries@) =~= Seq::<RowView>::empty());
    }
}

/// Reader for an IntelliJ code-style scheme.
pub struct IntellijSchemeReader;

impl IntellijSchemeReader {
    /// Whether an element opens a settings block scoped to a language other than Java.
    pub fn is_foreign_language_block(element: &XmlElement) -> (r: Result<bool, ImportError>)
        ensures
            match r {
                Ok(b) => foreign_spec(element@) == Ok::<bool, Seq<char>>(b),
                Err(ImportError::Xml(e)) => foreign_spec(element@) == Err::<bool, Seq<char>>(e@),
                Err(_) => false,
            },
    {
        if named(&element.name, "codeStyleSettings") {
            // Without a `language` attribute the block is not language-scoped, so read it.
            match Xml::attr(element, "language") {
                Err(e) => Err(e),
                Ok(None) => Ok(false),
                Ok(Some(language)) => Ok(!Self::is_java(&chars_of(language.as_str()))),
            }
        } else {
            Ok(ends_with_name(&element.name, "CodeStyleSettings") && !named(&element.name, "JavaCodeStyleSettings"))
        }
    }

    /// Whether a language name is `JAVA`, ignoring ASCII case.
    fn is_java(language: &[char]) -> (r: bool)
        ensures
            r == eq_ignore_ascii_case(language@, "JAVA"@),
    {
        let java = chars_of("JAVA");
        if language.len() != java.len() {
            return false;
        }
        let mut i: usize = 0;
        while i < language.len()
            invariant
                i <= language@.len(),
                language@.len() == java@.len(),
                java@ == "JAVA"@,
                forall|j: int| 0 <= j < i ==> lower_char(#[trigger] language@[j]) == lower_char(java@[j]),
            decreases language@.len() - i,
        {
            if char_lower(language[i]) != char_lower(java[i]) {
                return false;
            }
            i += 1;
        }
        true
    }

    /// Lower a scheme's items to the `UPPER_SNAKE` option map [`super::intellij::IntellijConfig`]
    /// reads.
    ///
    /// Values are passed through **verbatim** — the model's value types accept a raw integer just
    /// as they accept an `.editorconfig` token — so no per-property int→token table is applied
    /// here. The one shape that is not a `value=` attribute is a `PackageEntryTable`, whose
    /// `<package>` / `<emptyLine/>` rows are lowered to the same comma-separated mini-list the
    /// `.editorconfig` form uses.
    pub fn from_items(items: &[XmlItem]) -> (r: Result<KvMap, ImportError>)
        ensures
            r is Err ==> r matches Err(ImportError::Xml(_)),
            map_result_view(r) == scheme_spec(items_view(items@)),
    {
        let ghost view = items_view(items@);
        let mut scan = SchemeScan::new();
        let mut skip: usize = 0;
        let mut i: usize = 0;
        while i < items.len()
            invariant
                i <= items@.len(),
                skip <= i,
                view == items_view(items@),
                scheme_spec(view) == scheme_from(view, i as int, scan@, skip as nat),
            decreases items@.len() - i,
        {
            assert(view[i as int] == items@[i as int]@);
            match &items[i] {
                XmlItem::Error(e) => return Err(ImportError::Xml(e.clone())),
                XmlItem::Eof => {
                    scan.close_table();
                    return Ok(scan.raw);
                },
                XmlItem::Start(element) => {
                    if skip > 0 {
                        skip += 1;
                    } else {
                        match Self::is_foreign_language_block(element) {
                            Err(e) => return Err(e),
                            Ok(true) => {
                                skip = 1;
                            },
                            Ok(false) => match scan.visit(element) {
                                Err(e) => return Err(e),
                                Ok(()) => {},
                            },
                        }
                    }
                },
                XmlItem::Empty(element) => {
                    if skip == 0 {
                        match Self::is_foreign_language_block(element) {
                            Err(e) => return Err(e),
                            Ok(true) => {},
                            Ok(false) => match scan.visit(element) {
                                Err(e) => return Err(e),
                                Ok(()) => {},
                            },
                        }
                    }
                },
                XmlItem::End(name) => {
                    if skip > 0 {
                        skip -= 1;
                    } else if scan.open_table.is_some() && named(name, "option") {
                        scan.close_table();
                    }
                },
                XmlItem::Other => {},
            }
            i += 1;
        }
        scan.close_table();
        Ok(scan.raw)
    }

    /// Lower a scheme to its option map: its items, read by quick-xml, lowered as
    /// [`from_items`](Self::from_items) says.
    pub fn parse(src: &str) -> (r: Result<KvMap, ImportError>)
        ensures
            r is Err ==> r matches Err(ImportError::Xml(_)),
            map_result_view(r) == scheme_spec(document_items(src@)),
    {
        let items = xml_items(src);
        Self::from_items(&items)
    }
}

} // verus!

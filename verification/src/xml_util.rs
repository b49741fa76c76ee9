//! A plain-value model of a parsed XML document, together with the tree
//! accessors that the decoders share: finding the unique root element,
//! reading an element's sole text child, and reading a namespaced
//! locator attribute.

use vstd::prelude::*;
use vstd::string::StrSliceExecFns;

verus! {

/// A qualified name: namespace URI, optional prefix, and local name.
#[derive(Clone, Debug)]
pub struct QName {
    pub ns: String,
    pub prefix: Option<String>,
    pub local: String,
}

/// An attribute of an element.
#[derive(Clone, Debug)]
pub struct XmlAttr {
    pub name: QName,
    pub value: String,
}

/// An element: qualified name, attributes, and child nodes in document order.
#[derive(Debug)]
pub struct XmlElement {
    pub name: QName,
    pub attrs: Vec<XmlAttr>,
    pub children: Vec<XmlNode>,
}

/// One node of the tree.  Nodes a decoder cannot interpret (document
/// fragments, doctypes, processing instructions) are collapsed into
/// `Other`; the decoders reject them by child index.
#[derive(Debug)]
pub enum XmlNode {
    Element(XmlElement),
    Text(String),
    Comment(String),
    Other,
}

/// A whole document: the nodes at the top level, in document order.
#[derive(Debug)]
pub struct XmlDocument {
    pub children: Vec<XmlNode>,
}

/// Two characters match if they are equal or differ only in ASCII case.
pub open spec fn chars_ieq(a: char, b: char) -> bool {
    ||| a == b
    ||| ('A' <= a && a <= 'Z' && 'a' <= b && b <= 'z' && a as int + 32 == b as int)
    ||| ('A' <= b && b <= 'Z' && 'a' <= a && a <= 'z' && b as int + 32 == a as int)
}

/// Two strings match if they have the same length and their characters
/// match up to ASCII case.
pub open spec fn str_ieq(a: Seq<char>, b: Seq<char>) -> bool {
    a.len() == b.len() && forall|i: int| 0 <= i < a.len() ==> chars_ieq(a[i], b[i])
}

fn char_ieq(a: char, b: char) -> (r: bool)
    ensures
        r == chars_ieq(a, b),
{
    if a == b {
        true
    } else {
        let au: u32 = a as u32;
        let bu: u32 = b as u32;
        (65 <= au && au <= 90 && 97 <= bu && bu <= 122 && au + 32 == bu)
            || (65 <= bu && bu <= 90 && 97 <= au && au <= 122 && bu + 32 == au)
    }
}

/// ASCII-case-insensitive string comparison.
pub fn eq_ignore_ascii_case(a: &str, b: &str) -> (r: bool)
    ensures
        r == str_ieq(a@, b@),
{
    let alen: usize = a.unicode_len();
    let blen: usize = b.unicode_len();
    if alen != blen {
        return false;
    }
    let mut i: usize = 0;
    while i < alen
        invariant
            alen == a@.len(),
            blen == b@.len(),
            alen == blen,
            i <= alen,
            forall|j: int| 0 <= j < i ==> chars_ieq(a@[j], b@[j]),
        decreases alen - i,
    {
        if !char_ieq(a.get_char(i), b.get_char(i)) {
            return false;
        }
        i = i + 1;
    }
    true
}

/// Exact string comparison.
pub fn str_eq(a: &str, b: &str) -> (r: bool)
    ensures
        r == (a@ == b@),
{
    let alen: usize = a.unicode_len();
    let blen: usize = b.unicode_len();
    if alen != blen {
        return false;
    }
    let mut i: usize = 0;
    while i < alen
        invariant
            alen == a@.len(),
            blen == b@.len(),
            alen == blen,
            i <= alen,
            forall|j: int| 0 <= j < i ==> a@[j] == b@[j],
        decreases alen - i,
    {
        if a.get_char(i) != b.get_char(i) {
            return false;
        }
        i = i + 1;
    }
    proof {
        assert(a@ =~= b@);
    }
    true
}

/// An element answers to a tag when it carries no namespace prefix and its
/// local name matches the tag up to ASCII case.
pub open spec fn elem_named(e: XmlElement, tag: Seq<char>) -> bool {
    e.name.prefix is None && str_ieq(e.name.local@, tag)
}

/// Whether a qualified name answers to `tag` (no prefix, local name matches
/// up to ASCII case).
pub fn is_named(name: &QName, tag: &str) -> (r: bool)
    ensures
        r == (name.prefix is None && str_ieq(name.local@, tag@)),
{
    match &name.prefix {
        Some(_) => false,
        None => eq_ignore_ascii_case(name.local.as_str(), tag),
    }
}

/// Left-to-right scan for the text content of an element's children.
/// `Ok(None)` means no text child seen yet, `Ok(Some(t))` exactly one, and
/// `Err(())` more than one.
pub open spec fn text_scan(children: Seq<XmlNode>) -> Result<Option<Seq<char>>, ()>
    decreases children.len(),
{
    if children.len() == 0 {
        Ok(None)
    } else {
        match text_scan(children.drop_last()) {
            Err(()) => Err(()),
            Ok(acc) => match children.last() {
                XmlNode::Text(t) => if acc is Some {
                    Err(())
                } else {
                    Ok(Some(t@))
                },
                _ => Ok(acc),
            },
        }
    }
}

/// The text of an element: the content of its unique text child, or the
/// empty string when it has none.  `Err(())` when it has more than one
/// text child.
pub open spec fn elem_text(e: XmlElement) -> Result<Seq<char>, ()> {
    match text_scan(e.children@) {
        Err(()) => Err(()),
        Ok(None) => Ok(Seq::empty()),
        Ok(Some(t)) => Ok(t),
    }
}

/// A scan that errs on a prefix errs on the whole sequence, with the same
/// error and value semantics, because later nodes are never reached.
proof fn lemma_text_scan_err_prefix(children: Seq<XmlNode>, k: int)
    requires
        0 <= k <= children.len(),
        text_scan(children.take(k)) is Err,
    ensures
        text_scan(children) == text_scan(children.take(k)),
    decreases children.len() - k,
{
    if k == children.len() {
        assert(children.take(k) =~= children);
    } else {
        assert(children.take(k + 1).drop_last() =~= children.take(k));
        lemma_text_scan_err_prefix(children, k + 1);
    }
}

/// Read the text of an element expected to hold only text.  An element
/// with no text child reads as the empty string; one with more than one
/// text child is rejected.
pub fn get_text(node: &XmlElement) -> (r: Result<String, ()>)
    ensures
        match r {
            Ok(s) => elem_text(*node) == Ok::<Seq<char>, ()>(s@),
            Err(()) => elem_text(*node) is Err,
        },
{
    let mut text: Option<String> = None;
    let n: usize = node.children.len();
    let mut i: usize = 0;
    while i < n
        invariant
            n == node.children@.len(),
            i <= n,
            text_scan(node.children@.take(i as int)) == Ok::<Option<Seq<char>>, ()>(
                text.deep_view(),
            ),
        decreases n - i,
    {
        proof {
            assert(node.children@.take(i + 1).drop_last() =~= node.children@.take(i as int));
            assert(node.children@.take(i + 1).last() == node.children@[i as int]);
        }
        match &node.children[i] {
            XmlNode::Text(t) => {
                if text.is_some() {
                    proof {
                        lemma_text_scan_err_prefix(node.children@, i + 1);
                    }
                    return Err(());
                }
                text = Some(t.clone());
            },
            _ => {},
        }
        i = i + 1;
    }
    proof {
        assert(node.children@.take(n as int) =~= node.children@);
    }
    match text {
        None => Ok(String::new()),
        Some(t) => Ok(t),
    }
}

/// Two qualified names are the same: equal namespace URI, equal prefix
/// (or both absent), and equal local name, all case-sensitively.
pub open spec fn qname_eqv(a: QName, b: QName) -> bool {
    &&& a.ns@ == b.ns@
    &&& match (a.prefix, b.prefix) {
        (None, None) => true,
        (Some(p), Some(q)) => p@ == q@,
        _ => false,
    }
    &&& a.local@ == b.local@
}

/// An attribute appeared more than once on one element.
#[derive(Clone, Copy, Debug, PartialEq, Eq, PartialOrd, Ord, Hash, Structural)]
pub struct DuplicateAttribute;

/// Left-to-right scan of an attribute list for the attribute named `name`:
/// `Ok(None)` none yet, `Ok(Some(v))` exactly one with value `v`, and
/// `Err(..)` more than one.
pub open spec fn attr_scan(attrs: Seq<XmlAttr>, name: QName) -> Result<
    Option<Seq<char>>,
    DuplicateAttribute,
>
    decreases attrs.len(),
{
    if attrs.len() == 0 {
        Ok(None)
    } else {
        match attr_scan(attrs.drop_last(), name) {
            Err(e) => Err(e),
            Ok(acc) => if qname_eqv(attrs.last().name, name) {
                if acc is Some {
                    Err(DuplicateAttribute)
                } else {
                    Ok(Some(attrs.last().value@))
                }
            } else {
                Ok(acc)
            },
        }
    }
}

proof fn lemma_attr_scan_err_prefix(attrs: Seq<XmlAttr>, name: QName, k: int)
    requires
        0 <= k <= attrs.len(),
        attr_scan(attrs.take(k), name) is Err,
    ensures
        attr_scan(attrs, name) == attr_scan(attrs.take(k), name),
    decreases attrs.len() - k,
{
    if k == attrs.len() {
        assert(attrs.take(k) =~= attrs);
    } else {
        assert(attrs.take(k + 1).drop_last() =~= attrs.take(k));
        lemma_attr_scan_err_prefix(attrs, name, k + 1);
    }
}

fn qname_eq(a: &QName, b: &QName) -> (r: bool)
    ensures
        r == qname_eqv(*a, *b),
{
    if !str_eq(a.ns.as_str(), b.ns.as_str()) {
        return false;
    }
    let prefix_eq: bool = match (&a.prefix, &b.prefix) {
        (None, None) => true,
        (Some(p), Some(q)) => str_eq(p.as_str(), q.as_str()),
        _ => false,
    };
    prefix_eq && str_eq(a.local.as_str(), b.local.as_str())
}

/// Look up the single attribute named `name`; absence is `Ok(None)`, a
/// repeated occurrence is an error.  On success the value is returned as
/// an owned copy.
pub fn get_attr(attrs: &Vec<XmlAttr>, name: &QName) -> (r: Result<
    Option<String>,
    DuplicateAttribute,
>)
    ensures
        match r {
            Ok(v) => attr_scan(attrs@, *name) == Ok::<Option<Seq<char>>, DuplicateAttribute>(
                v.deep_view(),
            ),
            Err(e) => attr_scan(attrs@, *name) is Err,
        },
{
    let mut result: Option<String> = None;
    let n: usize = attrs.len();
    let mut i: usize = 0;
    while i < n
        invariant
            n == attrs@.len(),
            i <= n,
            attr_scan(attrs@.take(i as int), *name) == Ok::<
                Option<Seq<char>>,
                DuplicateAttribute,
            >(result.deep_view()),
        decreases n - i,
    {
        proof {
            assert(attrs@.take(i + 1).drop_last() =~= attrs@.take(i as int));
            assert(attrs@.take(i + 1).last() == attrs@[i as int]);
        }
        let attr = &attrs[i];
        if qname_eq(&attr.name, name) {
            if result.is_some() {
                proof {
                    lemma_attr_scan_err_prefix(attrs@, *name, i + 1);
                }
                return Err(DuplicateAttribute);
            }
            result = Some(attr.value.clone());
        }
        i = i + 1;
    }
    proof {
        assert(attrs@.take(n as int) =~= attrs@);
    }
    Ok(result)
}

/// The qualified name of the locator attribute: `xlink:href` in the XLink
/// namespace.
pub fn xlink_href() -> (n: QName)
    ensures
        n.ns@ == "http://www.w3.org/1999/xlink"@,
        n.prefix matches Some(p) && p@ == "xlink"@,
        n.local@ == "href"@,
{
    QName {
        ns: String::from_str("http://www.w3.org/1999/xlink"),
        prefix: Some(String::from_str("xlink")),
        local: String::from_str("href"),
    }
}

/// Whether a qualified name is the locator attribute's name.
pub open spec fn is_link_attr_name(n: QName) -> bool {
    &&& n.ns@ == "http://www.w3.org/1999/xlink"@
    &&& n.prefix matches Some(p) && p@ == "xlink"@
    &&& n.local@ == "href"@
}

/// Scan for the locator attribute of an element: `Ok(None)` absent,
/// `Ok(Some(v))` exactly one occurrence with value `v`, `Err(..)` repeated.
pub open spec fn link_attr_scan(attrs: Seq<XmlAttr>) -> Result<
    Option<Seq<char>>,
    DuplicateAttribute,
>
    decreases attrs.len(),
{
    if attrs.len() == 0 {
        Ok(None)
    } else {
        match link_attr_scan(attrs.drop_last()) {
            Err(e) => Err(e),
            Ok(acc) => if is_link_attr_name(attrs.last().name) {
                if acc is Some {
                    Err(DuplicateAttribute)
                } else {
                    Ok(Some(attrs.last().value@))
                }
            } else {
                Ok(acc)
            },
        }
    }
}

/// Looking up an attribute by the locator name is the locator scan.
proof fn lemma_attr_scan_is_link_scan(attrs: Seq<XmlAttr>, name: QName)
    requires
        is_link_attr_name(name),
    ensures
        attr_scan(attrs, name) == link_attr_scan(attrs),
    decreases attrs.len(),
{
    if attrs.len() != 0 {
        lemma_attr_scan_is_link_scan(attrs.drop_last(), name);
        assert(qname_eqv(attrs.last().name, name) == is_link_attr_name(attrs.last().name));
    }
}

/// Read the locator attribute (`xlink:href`) of an element: absence is
/// `Ok(None)`, a repeated occurrence is an error.
pub fn get_link_attr(attrs: &Vec<XmlAttr>) -> (r: Result<Option<String>, DuplicateAttribute>)
    ensures
        match r {
            Ok(v) => link_attr_scan(attrs@) == Ok::<Option<Seq<char>>, DuplicateAttribute>(
                v.deep_view(),
            ),
            Err(e) => link_attr_scan(attrs@) is Err,
        },
{
    let name = xlink_href();
    proof {
        lemma_attr_scan_is_link_scan(attrs@, name);
    }
    get_attr(attrs, &name)
}

/// The error of the root search: no top-level element of the expected name,
/// or more than one.
#[derive(Clone, Copy, Debug, PartialEq, Eq, Hash, Structural)]
pub enum FindRootError {
    NotFound,
    Duplicate,
}

/// Left-to-right scan of the document's top-level nodes for elements
/// answering to `tag`: `Ok(None)` none yet, `Ok(Some(i))` exactly one at
/// index `i`, `Err(Duplicate)` more than one.
pub open spec fn root_scan(children: Seq<XmlNode>, tag: Seq<char>) -> Result<
    Option<int>,
    FindRootError,
>
    decreases children.len(),
{
    if children.len() == 0 {
        Ok(None)
    } else {
        match root_scan(children.drop_last(), tag) {
            Err(e) => Err(e),
            Ok(acc) => match children.last() {
                XmlNode::Element(e) => if elem_named(e, tag) {
                    if acc is Some {
                        Err(FindRootError::Duplicate)
                    } else {
                        Ok(Some(children.len() - 1))
                    }
                } else {
                    Ok(acc)
                },
                _ => Ok(acc),
            },
        }
    }
}

/// The index of the unique top-level element answering to `tag`.
pub open spec fn find_root_spec(children: Seq<XmlNode>, tag: Seq<char>) -> Result<
    int,
    FindRootError,
> {
    match root_scan(children, tag) {
        Err(e) => Err(e),
        Ok(None) => Err(FindRootError::NotFound),
        Ok(Some(i)) => Ok(i),
    }
}

proof fn lemma_root_scan_err_prefix(children: Seq<XmlNode>, tag: Seq<char>, k: int)
    requires
        0 <= k <= children.len(),
        root_scan(children.take(k), tag) is Err,
    ensures
        root_scan(children, tag) == root_scan(children.take(k), tag),
    decreases children.len() - k,
{
    if k == children.len() {
        assert(children.take(k) =~= children);
    } else {
        assert(children.take(k + 1).drop_last() =~= children.take(k));
        lemma_root_scan_err_prefix(children, tag, k + 1);
    }
}

/// Find the unique top-level element whose unprefixed local name matches
/// `expected_name` up to ASCII case.
pub fn find_root<'a>(doc: &'a XmlDocument, expected_name: &str) -> (r: Result<
    &'a XmlElement,
    FindRootError,
>)
    ensures
        match r {
            Ok(e) => find_root_spec(doc.children@, expected_name@) matches Ok(idx)
                && doc.children@[idx] == XmlNode::Element(*e),
            Err(err) => find_root_spec(doc.children@, expected_name@) == Err::<int, _>(err),
        },
{
    let mut found: Option<usize> = None;
    let n: usize = doc.children.len();
    let mut i: usize = 0;
    while i < n
        invariant
            n == doc.children@.len(),
            i <= n,
            root_scan(doc.children@.take(i as int), expected_name@) == Ok::<
                Option<int>,
                FindRootError,
            >(match found {
                None => None,
                Some(idx) => Some(idx as int),
            }),
            found matches Some(idx) ==> idx < i && doc.children@[idx as int] is Element,
        decreases n - i,
    {
        proof {
            assert(doc.children@.take(i + 1).drop_last() =~= doc.children@.take(i as int));
            assert(doc.children@.take(i + 1).last() == doc.children@[i as int]);
        }
        match &doc.children[i] {
            XmlNode::Element(e) => {
                if is_named(&e.name, expected_name) {
                    if found.is_some() {
                        proof {
                            lemma_root_scan_err_prefix(doc.children@, expected_name@, i + 1);
                        }
                        return Err(FindRootError::Duplicate);
                    }
                    found = Some(i);
                }
            },
            _ => {},
        }
        i = i + 1;
    }
    proof {
        assert(doc.children@.take(n as int) =~= doc.children@);
    }
    match found {
        None => Err(FindRootError::NotFound),
        Some(idx) => match &doc.children[idx] {
            XmlNode::Element(e) => Ok(e),
            _ => {
                proof {
                    assert(false);
                }
                Err(FindRootError::NotFound)
            },
        },
    }
}

} // verus!

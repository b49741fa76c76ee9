//! Package-level records: the package listing of a category and the
//! general information of one package.

use vstd::prelude::*;
use crate::xml_util::{
    XmlDocument, XmlElement, XmlNode, chars_ieq, elem_named, elem_text, find_root, find_root_spec,
    get_text, is_named, str_ieq,
};

verus! {

/// The packages of one category: the category name and the package names
/// in document order.
#[derive(Clone, Debug)]
pub struct PackageListing {
    pub category: String,
    pub items: Vec<String>,
}

/// The mathematical content of a `PackageListing`.
pub ghost struct PackageListingView {
    pub category: Seq<char>,
    pub items: Seq<Seq<char>>,
}

impl View for PackageListing {
    type V = PackageListingView;

    open spec fn view(&self) -> PackageListingView {
        PackageListingView { category: self.category@, items: self.items.deep_view() }
    }
}

/// Decoding a package listing from an element failed.
#[derive(Clone, Copy, Debug, PartialEq, Eq, PartialOrd, Ord, Hash, Structural)]
pub enum PackageListingFromXmlNodeError {
    /// A child node that is neither a known element nor text nor a comment,
    /// at this child index.
    ChildType(usize),
    /// The category element's text could not be read, at this child index.
    ReadCategory(usize),
    /// No category element appeared, or a package preceded it.
    MissingCategory,
    /// A second category element appeared.
    DuplicateCategory,
    /// A package element's text could not be read, at this child index.
    ReadPackage(usize),
}

/// Decoding a package listing from a whole document failed.
#[derive(Clone, Copy, Debug, PartialEq, Eq, PartialOrd, Ord, Hash, Structural)]
pub enum PackageListingFromRcDomError {
    /// The unique root element was not found.
    RootNotFound,
    /// The root was found but its contents did not decode.
    Read(PackageListingFromXmlNodeError),
}

/// The automaton state of the listing decoder: the category slot and the
/// packages collected so far.
pub ghost struct ListingState {
    pub category: Option<Seq<char>>,
    pub items: Seq<Seq<char>>,
}

/// One step of the listing automaton on the child at index `i`.
/// Text and comments are skipped; a category element fills the category
/// slot once; a package element may only follow the category and is
/// appended in order; anything else is rejected by index.
pub open spec fn listing_step(st: ListingState, node: XmlNode, i: usize) -> Result<
    ListingState,
    PackageListingFromXmlNodeError,
> {
    match node {
        XmlNode::Element(e) => {
            if elem_named(e, "c"@) {
                match elem_text(e) {
                    Err(()) => Err(PackageListingFromXmlNodeError::ReadCategory(i)),
                    Ok(t) => if st.category is Some {
                        Err(PackageListingFromXmlNodeError::DuplicateCategory)
                    } else {
                        Ok(ListingState { category: Some(t), ..st })
                    },
                }
            } else if elem_named(e, "p"@) {
                if st.category is None {
                    Err(PackageListingFromXmlNodeError::MissingCategory)
                } else {
                    match elem_text(e) {
                        Err(()) => Err(PackageListingFromXmlNodeError::ReadPackage(i)),
                        Ok(t) => Ok(ListingState { items: st.items.push(t), ..st }),
                    }
                }
            } else {
                Err(PackageListingFromXmlNodeError::ChildType(i))
            }
        },
        XmlNode::Text(_) => Ok(st),
        XmlNode::Comment(_) => Ok(st),
        XmlNode::Other => Err(PackageListingFromXmlNodeError::ChildType(i)),
    }
}

/// The listing automaton run over the children in document order, stopping
/// at the first violation.
pub open spec fn listing_walk(children: Seq<XmlNode>) -> Result<
    ListingState,
    PackageListingFromXmlNodeError,
>
    decreases children.len(),
{
    if children.len() == 0 {
        Ok(ListingState { category: None, items: Seq::empty() })
    } else {
        match listing_walk(children.drop_last()) {
            Err(e) => Err(e),
            Ok(st) => listing_step(st, children.last(), (children.len() - 1) as usize),
        }
    }
}

/// What decoding the children of a listing root element yields: the walk,
/// then the check that the mandatory category slot was filled.
pub open spec fn decode_package_listing(children: Seq<XmlNode>) -> Result<
    PackageListingView,
    PackageListingFromXmlNodeError,
> {
    match listing_walk(children) {
        Err(e) => Err(e),
        Ok(st) => match st.category {
            None => Err(PackageListingFromXmlNodeError::MissingCategory),
            Some(c) => Ok(PackageListingView { category: c, items: st.items }),
        },
    }
}

proof fn lemma_listing_walk_err_prefix(children: Seq<XmlNode>, k: int)
    requires
        0 <= k <= children.len(),
        listing_walk(children.take(k)) is Err,
    ensures
        listing_walk(children) == listing_walk(children.take(k)),
    decreases children.len() - k,
{
    if k == children.len() {
        assert(children.take(k) =~= children);
    } else {
        assert(children.take(k + 1).drop_last() =~= children.take(k));
        lemma_listing_walk_err_prefix(children, k + 1);
    }
}

impl PackageListing {
    /// Decode a package listing from the children of its root element.
    pub fn from_xml_node(node: &XmlElement) -> (r: Result<Self, PackageListingFromXmlNodeError>)
        ensures
            match r {
                Ok(l) => decode_package_listing(node.children@) == Ok::<
                    PackageListingView,
                    PackageListingFromXmlNodeError,
                >(l@),
                Err(e) => decode_package_listing(node.children@) == Err::<
                    PackageListingView,
                    PackageListingFromXmlNodeError,
                >(e),
            },
    {
        let mut category: Option<String> = None;
        let mut items: Vec<String> = Vec::new();
        let n: usize = node.children.len();
        let mut i: usize = 0;
        proof {
            assert(items.deep_view() =~= Seq::<Seq<char>>::empty());
        }
        while i < n
            invariant
                n == node.children@.len(),
                i <= n,
                listing_walk(node.children@.take(i as int)) == Ok::<
                    ListingState,
                    PackageListingFromXmlNodeError,
                >(ListingState { category: category.deep_view(), items: items.deep_view() }),
            decreases n - i,
        {
            proof {
                assert(node.children@.take(i + 1).drop_last() =~= node.children@.take(i as int));
                assert(node.children@.take(i + 1).last() == node.children@[i as int]);
            }
            let ghost pre_items: Seq<Seq<char>> = items.deep_view();
            match &node.children[i] {
                XmlNode::Element(e) => {
                    if is_named(&e.name, "c") {
                        match get_text(e) {
                            Err(()) => {
                                proof {
                                    lemma_listing_walk_err_prefix(node.children@, i + 1);
                                }
                                return Err(PackageListingFromXmlNodeError::ReadCategory(i));
                            },
                            Ok(t) => {
                                if category.is_some() {
                                    proof {
                                        lemma_listing_walk_err_prefix(node.children@, i + 1);
                                    }
                                    return Err(PackageListingFromXmlNodeError::DuplicateCategory);
                                }
                                category = Some(t);
                            },
                        }
                    } else if is_named(&e.name, "p") {
                        if category.is_none() {
                            proof {
                                lemma_listing_walk_err_prefix(node.children@, i + 1);
                            }
                            return Err(PackageListingFromXmlNodeError::MissingCategory);
                        }
                        match get_text(e) {
                            Err(()) => {
                                proof {
                                    lemma_listing_walk_err_prefix(node.children@, i + 1);
                                }
                                return Err(PackageListingFromXmlNodeError::ReadPackage(i));
                            },
                            Ok(t) => {
                                items.push(t);
                                proof {
                                    assert(items.deep_view() =~= pre_items.push(t@));
                                }
                            },
                        }
                    } else {
                        proof {
                            lemma_listing_walk_err_prefix(node.children@, i + 1);
                        }
                        return Err(PackageListingFromXmlNodeError::ChildType(i));
                    }
                },
                XmlNode::Text(_) => {},
                XmlNode::Comment(_) => {},
                XmlNode::Other => {
                    proof {
                        lemma_listing_walk_err_prefix(node.children@, i + 1);
                    }
                    return Err(PackageListingFromXmlNodeError::ChildType(i));
                },
            }
            i = i + 1;
        }
        proof {
            assert(node.children@.take(n as int) =~= node.children@);
        }
        match category {
            None => Err(PackageListingFromXmlNodeError::MissingCategory),
            Some(c) => Ok(PackageListing { category: c, items }),
        }
    }

    /// Decode a package listing from a whole document: find the unique
    /// root element named `a`, then decode its children.
    pub fn from_rc_dom(doc: &XmlDocument) -> (r: Result<Self, PackageListingFromRcDomError>)
        ensures
            match r {
                Ok(l) => find_root_spec(doc.children@, "a"@) matches Ok(idx)
                    && doc.children@[idx] matches XmlNode::Element(root)
                    && decode_package_listing(root.children@) == Ok::<
                    PackageListingView,
                    PackageListingFromXmlNodeError,
                >(l@),
                Err(PackageListingFromRcDomError::RootNotFound) => find_root_spec(
                    doc.children@,
                    "a"@,
                ) is Err,
                Err(PackageListingFromRcDomError::Read(e)) => find_root_spec(doc.children@, "a"@)
                    matches Ok(idx) && doc.children@[idx] matches XmlNode::Element(root)
                    && decode_package_listing(root.children@) == Err::<
                    PackageListingView,
                    PackageListingFromXmlNodeError,
                >(e),
            },
    {
        let root = match find_root(doc, "a") {
            Ok(root) => root,
            Err(_) => {
                return Err(PackageListingFromRcDomError::RootNotFound);
            },
        };
        match Self::from_xml_node(root) {
            Ok(l) => Ok(l),
            Err(e) => Err(PackageListingFromRcDomError::Read(e)),
        }
    }
}

/// A child the listing decoder accepts: text, a comment, or a category or
/// package element whose text reads.
pub open spec fn listing_child_ok(n: XmlNode) -> bool {
    match n {
        XmlNode::Element(e) => (elem_named(e, "c"@) || elem_named(e, "p"@)) && elem_text(e) is Ok,
        XmlNode::Text(_) => true,
        XmlNode::Comment(_) => true,
        XmlNode::Other => false,
    }
}

/// A category element of the listing.
pub open spec fn is_category_elem(n: XmlNode) -> bool {
    n matches XmlNode::Element(e) && elem_named(e, "c"@)
}

/// A package element of the listing.
pub open spec fn is_package_elem(n: XmlNode) -> bool {
    n matches XmlNode::Element(e) && elem_named(e, "p"@)
}

/// The texts of the category elements, in document order.
pub open spec fn category_texts(children: Seq<XmlNode>) -> Seq<Seq<char>>
    decreases children.len(),
{
    if children.len() == 0 {
        Seq::empty()
    } else {
        let rest = category_texts(children.drop_last());
        match children.last() {
            XmlNode::Element(e) => if elem_named(e, "c"@) {
                rest.push(elem_text(e)->Ok_0)
            } else {
                rest
            },
            _ => rest,
        }
    }
}

/// The texts of the package elements, in document order.
pub open spec fn package_texts(children: Seq<XmlNode>) -> Seq<Seq<char>>
    decreases children.len(),
{
    if children.len() == 0 {
        Seq::empty()
    } else {
        let rest = package_texts(children.drop_last());
        match children.last() {
            XmlNode::Element(e) => if elem_named(e, "p"@) {
                rest.push(elem_text(e)->Ok_0)
            } else {
                rest
            },
            _ => rest,
        }
    }
}

/// No local name answers to both the category tag and the package tag.
proof fn lemma_not_both_c_p(s: Seq<char>)
    ensures
        !(str_ieq(s, "c"@) && str_ieq(s, "p"@)),
{
    reveal_strlit("c");
    reveal_strlit("p");
    if str_ieq(s, "c"@) && str_ieq(s, "p"@) {
        assert(chars_ieq(s[0], "c"@[0]));
        assert(chars_ieq(s[0], "p"@[0]));
        assert(false);
    }
}

/// How the listing automaton ends on input whose children are all
/// acceptable and whose package elements all follow some category element:
/// with no category element the category slot stays empty, with exactly one
/// it holds that element's text, with more the walk stops at the second.
/// In the passing cases the collected items are the package texts in
/// document order.
proof fn lemma_listing_walk_cases(children: Seq<XmlNode>)
    requires
        forall|i: int| 0 <= i < children.len() ==> listing_child_ok(#[trigger] children[i]),
        forall|j: int|
            0 <= j < children.len() && is_package_elem(#[trigger] children[j]) ==> category_texts(
                children.take(j),
            ).len() >= 1,
    ensures
        category_texts(children).len() == 0 ==> listing_walk(children) == Ok::<
            ListingState,
            PackageListingFromXmlNodeError,
        >(ListingState { category: None, items: package_texts(children) }),
        category_texts(children).len() == 1 ==> listing_walk(children) == Ok::<
            ListingState,
            PackageListingFromXmlNodeError,
        >(
            ListingState {
                category: Some(category_texts(children)[0]),
                items: package_texts(children),
            },
        ),
        category_texts(children).len() >= 2 ==> listing_walk(children) == Err::<
            ListingState,
            PackageListingFromXmlNodeError,
        >(PackageListingFromXmlNodeError::DuplicateCategory),
    decreases children.len(),
{
    if children.len() == 0 {
    } else {
        let cs = children.drop_last();
        assert forall|i: int| 0 <= i < cs.len() implies listing_child_ok(#[trigger] cs[i]) by {
            assert(cs[i] == children[i]);
        }
        assert forall|j: int| 0 <= j < cs.len() && is_package_elem(#[trigger] cs[j]) implies
            category_texts(cs.take(j)).len() >= 1 by {
            assert(cs[j] == children[j]);
            assert(cs.take(j) =~= children.take(j));
        }
        lemma_listing_walk_cases(cs);
        let last = children.last();
        assert(listing_child_ok(last));
        assert(children.take(children.len() - 1) =~= cs);
        match last {
            XmlNode::Element(e) => {
                lemma_not_both_c_p(e.name.local@);
                if elem_named(e, "c"@) {
                } else {
                    assert(is_package_elem(last));
                    assert(category_texts(cs).len() >= 1);
                }
            },
            _ => {},
        }
    }
}

/// With every child acceptable and no category element at all, the walk
/// either stops at a package element with the missing-category error or
/// ends with the category slot empty.
proof fn lemma_listing_walk_no_category(children: Seq<XmlNode>)
    requires
        forall|i: int| 0 <= i < children.len() ==> listing_child_ok(#[trigger] children[i]),
        category_texts(children).len() == 0,
    ensures
        listing_walk(children) == Err::<ListingState, PackageListingFromXmlNodeError>(
            PackageListingFromXmlNodeError::MissingCategory,
        ) || (listing_walk(children) matches Ok(st) && st.category is None),
    decreases children.len(),
{
    if children.len() == 0 {
    } else {
        let cs = children.drop_last();
        assert forall|i: int| 0 <= i < cs.len() implies listing_child_ok(#[trigger] cs[i]) by {
            assert(cs[i] == children[i]);
        }
        assert(category_texts(cs).len() <= category_texts(children).len());
        lemma_listing_walk_no_category(cs);
        assert(listing_child_ok(children.last()));
    }
}

/// LAW: a well-formed listing decodes.  When every child is acceptable,
/// exactly one category element appears, and every package element follows
/// it, the decoded record holds that category's text and the package texts
/// in document order — however many there are.
pub proof fn lemma_decode_listing_well_formed(children: Seq<XmlNode>)
    requires
        forall|i: int| 0 <= i < children.len() ==> listing_child_ok(#[trigger] children[i]),
        category_texts(children).len() == 1,
        forall|j: int|
            0 <= j < children.len() && is_package_elem(#[trigger] children[j]) ==> category_texts(
                children.take(j),
            ).len() >= 1,
    ensures
        decode_package_listing(children) == Ok::<PackageListingView, PackageListingFromXmlNodeError>(
            PackageListingView {
                category: category_texts(children)[0],
                items: package_texts(children),
            },
        ),
{
    lemma_listing_walk_cases(children);
}

/// LAW: a listing without a category element never decodes, and the error
/// names the missing category — whether or not package elements appear.
pub proof fn lemma_decode_listing_missing_category(children: Seq<XmlNode>)
    requires
        forall|i: int| 0 <= i < children.len() ==> listing_child_ok(#[trigger] children[i]),
        category_texts(children).len() == 0,
    ensures
        decode_package_listing(children) == Err::<PackageListingView, PackageListingFromXmlNodeError>(
            PackageListingFromXmlNodeError::MissingCategory,
        ),
{
    lemma_listing_walk_no_category(children);
}

/// LAW: a listing with a second category element never decodes, and the
/// error names the duplicated category, provided every package element up
/// to there follows a category element.
pub proof fn lemma_decode_listing_duplicate_category(children: Seq<XmlNode>)
    requires
        forall|i: int| 0 <= i < children.len() ==> listing_child_ok(#[trigger] children[i]),
        forall|j: int|
            0 <= j < children.len() && is_package_elem(#[trigger] children[j]) ==> category_texts(
                children.take(j),
            ).len() >= 1,
        category_texts(children).len() >= 2,
    ensures
        decode_package_listing(children) == Err::<PackageListingView, PackageListingFromXmlNodeError>(
            PackageListingFromXmlNodeError::DuplicateCategory,
        ),
{
    lemma_listing_walk_cases(children);
}

/// Advice for a deprecated package: where its replacement lives.
#[derive(Clone, Debug)]
pub struct DeprecationInfo {
    /// Channel of the recommended replacement.
    pub recommended_channel: String,
    /// Name of the recommended replacement.
    pub recommended_package: String,
}

/// The mathematical content of a `DeprecationInfo`.
pub ghost struct DeprecationInfoView {
    pub recommended_channel: Seq<char>,
    pub recommended_package: Seq<char>,
}

impl View for DeprecationInfo {
    type V = DeprecationInfoView;

    open spec fn view(&self) -> DeprecationInfoView {
        DeprecationInfoView {
            recommended_channel: self.recommended_channel@,
            recommended_package: self.recommended_package@,
        }
    }
}

/// General information of one package.
#[derive(Clone, Debug)]
pub struct PackageInfo {
    pub name: String,
    pub channel: String,
    pub category: String,
    pub license: String,
    pub license_uri: Option<String>,
    pub summary: String,
    pub description: String,
    pub release_uri: String,
    pub parent_package: Option<String>,
    /// If this package is deprecated, deprecation info.
    pub deprecation: Option<DeprecationInfo>,
}

/// The mathematical content of a `PackageInfo`.
pub ghost struct PackageInfoView {
    pub name: Seq<char>,
    pub channel: Seq<char>,
    pub category: Seq<char>,
    pub license: Seq<char>,
    pub license_uri: Option<Seq<char>>,
    pub summary: Seq<char>,
    pub description: Seq<char>,
    pub release_uri: Seq<char>,
    pub parent_package: Option<Seq<char>>,
    pub deprecation: Option<DeprecationInfoView>,
}

impl View for PackageInfo {
    type V = PackageInfoView;

    open spec fn view(&self) -> PackageInfoView {
        PackageInfoView {
            name: self.name@,
            channel: self.channel@,
            category: self.category@,
            license: self.license@,
            license_uri: self.license_uri.deep_view(),
            summary: self.summary@,
            description: self.description@,
            release_uri: self.release_uri@,
            parent_package: self.parent_package.deep_view(),
            deprecation: match self.deprecation {
                None => None,
                Some(d) => Some(d@),
            },
        }
    }
}

/// Decoding package information from an element failed.
#[derive(Clone, Copy, Debug, PartialEq, Eq, PartialOrd, Ord, Hash, Structural)]
pub enum PackageInfoFromXmlNodeError {
    /// A child node that is neither a known element nor text nor a comment,
    /// at this child index.
    ChildType(usize),
    /// The name element `<n>` is malformed at this index.
    ReadName(usize),
    /// The name element `<n>` is missing.
    MissingName,
    /// The name element `<n>` is duplicated.
    DuplicateName,
    /// The channel element `<c>` is malformed at this index.
    ReadChannel(usize),
    /// The channel element `<c>` is missing.
    MissingChannel,
    /// The channel element `<c>` is duplicated.
    DuplicateChannel,
    /// The category element `<ca>` is malformed at this index.
    ReadCategory(usize),
    /// The category element `<ca>` is missing.
    MissingCategory,
    /// The category element `<ca>` is duplicated.
    DuplicateCategory,
    /// The license element `<l>` is malformed at this index.
    ReadLicense(usize),
    /// The license element `<l>` is missing.
    MissingLicense,
    /// The license element `<l>` is duplicated.
    DuplicateLicense,
    /// The license uri element `<lu>` is malformed at this index.
    ReadLicenseUri(usize),
    /// The license uri element `<lu>` is duplicated.
    DuplicateLicenseUri,
    /// The summary element `<s>` is malformed at this index.
    ReadSummary(usize),
    /// The summary element `<s>` is missing.
    MissingSummary,
    /// The summary element `<s>` is duplicated.
    DuplicateSummary,
    /// The description element `<d>` is malformed at this index.
    ReadDescription(usize),
    /// The description element `<d>` is missing.
    MissingDescription,
    /// The description element `<d>` is duplicated.
    DuplicateDescription,
    /// The release element `<r>` is malformed at this index.
    ReadRelease(usize),
    /// The release element `<r>` is missing.
    MissingRelease,
    /// The release element `<r>` is duplicated.
    DuplicateRelease,
    /// The parent element `<pa>` is malformed at this index.
    ReadParent(usize),
    /// The parent element `<pa>` is duplicated.
    DuplicateParent,
    /// The deprecation channel element `<dc>` is malformed at this index.
    ReadDeprecationChannel(usize),
    /// The deprecation channel element `<dc>` is missing.
    MissingDeprecationChannel,
    /// The deprecation channel element `<dc>` is duplicated.
    DuplicateDeprecationChannel,
    /// The deprecation package element `<dp>` is malformed at this index.
    ReadDeprecationPackage(usize),
    /// The deprecation package element `<dp>` is missing.
    MissingDeprecationPackage,
    /// The deprecation package element `<dp>` is duplicated.
    DuplicateDeprecationPackage,
}

/// Decoding package information from a whole document failed.
#[derive(Clone, Copy, Debug, PartialEq, Eq, PartialOrd, Ord, Hash, Structural)]
pub enum PackageInfoFromRcDomError {
    /// The unique root element was not found.
    RootNotFound,
    /// The root was found but its contents did not decode.
    Read(PackageInfoFromXmlNodeError),
}

/// The automaton state of the information decoder: one slot per field in
/// schema order.
pub ghost struct InfoState {
    pub name: Option<Seq<char>>,
    pub channel: Option<Seq<char>>,
    pub category: Option<Seq<char>>,
    pub license: Option<Seq<char>>,
    pub license_uri: Option<Seq<char>>,
    pub summary: Option<Seq<char>>,
    pub description: Option<Seq<char>>,
    pub release_uri: Option<Seq<char>>,
    pub parent_package: Option<Seq<char>>,
    pub deprecation_channel: Option<Seq<char>>,
    pub deprecation_package: Option<Seq<char>>,
}

/// The empty state, before any child has been seen.
pub open spec fn info_init() -> InfoState {
    InfoState {
        name: None,
        channel: None,
        category: None,
        license: None,
        license_uri: None,
        summary: None,
        description: None,
        release_uri: None,
        parent_package: None,
        deprecation_channel: None,
        deprecation_package: None,
    }
}

/// One step of the information automaton on the child at index `i`.
/// Each known tag first checks its schema predecessor's slot, then reads
/// its text, then fills its own slot once.  The optional license uri and
/// parent do not gate their successors, whose predecessors are the
/// mandatory license and release elements.
pub open spec fn info_step(st: InfoState, node: XmlNode, i: usize) -> Result<
    InfoState,
    PackageInfoFromXmlNodeError,
> {
    match node {
        XmlNode::Element(e) => {
            if elem_named(e, "n"@) {
                match elem_text(e) {
                    Err(()) => Err(PackageInfoFromXmlNodeError::ReadName(i)),
                    Ok(t) => if st.name is Some {
                        Err(PackageInfoFromXmlNodeError::DuplicateName)
                    } else {
                        Ok(InfoState { name: Some(t), ..st })
                    },
                }
            } else if elem_named(e, "c"@) {
                if st.name is None {
                    Err(PackageInfoFromXmlNodeError::MissingName)
                } else {
                    match elem_text(e) {
                        Err(()) => Err(PackageInfoFromXmlNodeError::ReadChannel(i)),
                        Ok(t) => if st.channel is Some {
                            Err(PackageInfoFromXmlNodeError::DuplicateChannel)
                        } else {
                            Ok(InfoState { channel: Some(t), ..st })
                        },
                    }
                }
            } else if elem_named(e, "ca"@) {
                if st.channel is None {
                    Err(PackageInfoFromXmlNodeError::MissingChannel)
                } else {
                    match elem_text(e) {
                        Err(()) => Err(PackageInfoFromXmlNodeError::ReadCategory(i)),
                        Ok(t) => if st.category is Some {
                            Err(PackageInfoFromXmlNodeError::DuplicateCategory)
                        } else {
                            Ok(InfoState { category: Some(t), ..st })
                        },
                    }
                }
            } else if elem_named(e, "l"@) {
                if st.category is None {
                    Err(PackageInfoFromXmlNodeError::MissingCategory)
                } else {
                    match elem_text(e) {
                        Err(()) => Err(PackageInfoFromXmlNodeError::ReadLicense(i)),
                        Ok(t) => if st.license is Some {
                            Err(PackageInfoFromXmlNodeError::DuplicateLicense)
                        } else {
                            Ok(InfoState { license: Some(t), ..st })
                        },
                    }
                }
            } else if elem_named(e, "lu"@) {
                if st.license is None {
                    Err(PackageInfoFromXmlNodeError::MissingLicense)
                } else {
                    match elem_text(e) {
                        Err(()) => Err(PackageInfoFromXmlNodeError::ReadLicenseUri(i)),
                        Ok(t) => if st.license_uri is Some {
                            Err(PackageInfoFromXmlNodeError::DuplicateLicenseUri)
                        } else {
                            Ok(InfoState { license_uri: Some(t), ..st })
                        },
                    }
                }
            } else if elem_named(e, "s"@) {
                if st.license is None {
                    Err(PackageInfoFromXmlNodeError::MissingLicense)
                } else {
                    match elem_text(e) {
                        Err(()) => Err(PackageInfoFromXmlNodeError::ReadSummary(i)),
                        Ok(t) => if st.summary is Some {
                            Err(PackageInfoFromXmlNodeError::DuplicateSummary)
                        } else {
                            Ok(InfoState { summary: Some(t), ..st })
                        },
                    }
                }
            } else if elem_named(e, "d"@) {
                if st.summary is None {
                    Err(PackageInfoFromXmlNodeError::MissingSummary)
                } else {
                    match elem_text(e) {
                        Err(()) => Err(PackageInfoFromXmlNodeError::ReadDescription(i)),
                        Ok(t) => if st.description is Some {
                            Err(PackageInfoFromXmlNodeError::DuplicateDescription)
                        } else {
                            Ok(InfoState { description: Some(t), ..st })
                        },
                    }
                }
            } else if elem_named(e, "r"@) {
                if st.description is None {
                    Err(PackageInfoFromXmlNodeError::MissingDescription)
                } else {
                    match elem_text(e) {
                        Err(()) => Err(PackageInfoFromXmlNodeError::ReadRelease(i)),
                        Ok(t) => if st.release_uri is Some {
                            Err(PackageInfoFromXmlNodeError::DuplicateRelease)
                        } else {
                            Ok(InfoState { release_uri: Some(t), ..st })
                        },
                    }
                }
            } else if elem_named(e, "pa"@) {
                if st.release_uri is None {
                    Err(PackageInfoFromXmlNodeError::MissingRelease)
                } else {
                    match elem_text(e) {
                        Err(()) => Err(PackageInfoFromXmlNodeError::ReadParent(i)),
                        Ok(t) => if st.parent_package is Some {
                            Err(PackageInfoFromXmlNodeError::DuplicateParent)
                        } else {
                            Ok(InfoState { parent_package: Some(t), ..st })
                        },
                    }
                }
            } else if elem_named(e, "dc"@) {
                if st.release_uri is None {
                    Err(PackageInfoFromXmlNodeError::MissingRelease)
                } else {
                    match elem_text(e) {
                        Err(()) => Err(PackageInfoFromXmlNodeError::ReadDeprecationChannel(i)),
                        Ok(t) => if st.deprecation_channel is Some {
                            Err(PackageInfoFromXmlNodeError::DuplicateDeprecationChannel)
                        } else {
                            Ok(InfoState { deprecation_channel: Some(t), ..st })
                        },
                    }
                }
            } else if elem_named(e, "dp"@) {
                if st.deprecation_channel is None {
                    Err(PackageInfoFromXmlNodeError::MissingDeprecationChannel)
                } else {
                    match elem_text(e) {
                        Err(()) => Err(PackageInfoFromXmlNodeError::ReadDeprecationPackage(i)),
                        Ok(t) => if st.deprecation_package is Some {
                            Err(PackageInfoFromXmlNodeError::DuplicateDeprecationPackage)
                        } else {
                            Ok(InfoState { deprecation_package: Some(t), ..st })
                        },
                    }
                }
            } else {
                Err(PackageInfoFromXmlNodeError::ChildType(i))
            }
        },
        XmlNode::Text(_) => Ok(st),
        XmlNode::Comment(_) => Ok(st),
        XmlNode::Other => Err(PackageInfoFromXmlNodeError::ChildType(i)),
    }
}

/// The information automaton run over the children in document order,
/// stopping at the first violation.
pub open spec fn info_walk(children: Seq<XmlNode>) -> Result<
    InfoState,
    PackageInfoFromXmlNodeError,
>
    decreases children.len(),
{
    if children.len() == 0 {
        Ok(info_init())
    } else {
        match info_walk(children.drop_last()) {
            Err(e) => Err(e),
            Ok(st) => info_step(st, children.last(), (children.len() - 1) as usize),
        }
    }
}

/// Assemble a record from a finished walk: every mandatory slot must be
/// filled, checked in schema order, and the deprecation pair is all or
/// nothing.
pub open spec fn info_finish(st: InfoState) -> Result<
    PackageInfoView,
    PackageInfoFromXmlNodeError,
> {
    if st.name is None {
        Err(PackageInfoFromXmlNodeError::MissingName)
    } else if st.channel is None {
        Err(PackageInfoFromXmlNodeError::MissingChannel)
    } else if st.category is None {
        Err(PackageInfoFromXmlNodeError::MissingCategory)
    } else if st.license is None {
        Err(PackageInfoFromXmlNodeError::MissingLicense)
    } else if st.summary is None {
        Err(PackageInfoFromXmlNodeError::MissingSummary)
    } else if st.description is None {
        Err(PackageInfoFromXmlNodeError::MissingDescription)
    } else if st.release_uri is None {
        Err(PackageInfoFromXmlNodeError::MissingRelease)
    } else if st.deprecation_channel is Some && st.deprecation_package is None {
        Err(PackageInfoFromXmlNodeError::MissingDeprecationPackage)
    } else if st.deprecation_channel is None && st.deprecation_package is Some {
        Err(PackageInfoFromXmlNodeError::MissingDeprecationChannel)
    } else {
        Ok(
            PackageInfoView {
                name: st.name->0,
                channel: st.channel->0,
                category: st.category->0,
                license: st.license->0,
                license_uri: st.license_uri,
                summary: st.summary->0,
                description: st.description->0,
                release_uri: st.release_uri->0,
                parent_package: st.parent_package,
                deprecation: match (st.deprecation_channel, st.deprecation_package) {
                    (Some(dc), Some(dp)) => Some(
                        DeprecationInfoView { recommended_channel: dc, recommended_package: dp },
                    ),
                    _ => None,
                },
            },
        )
    }
}

/// What decoding the children of an information root element yields.
pub open spec fn decode_package_info(children: Seq<XmlNode>) -> Result<
    PackageInfoView,
    PackageInfoFromXmlNodeError,
> {
    match info_walk(children) {
        Err(e) => Err(e),
        Ok(st) => info_finish(st),
    }
}

/// A name element of the information document.
pub open spec fn is_name_elem(n: XmlNode) -> bool {
    n matches XmlNode::Element(e) && elem_named(e, "n"@)
}

/// A channel element of the information document.
pub open spec fn is_channel_elem(n: XmlNode) -> bool {
    n matches XmlNode::Element(e) && elem_named(e, "c"@)
}

/// A deprecation channel element of the information document.
pub open spec fn is_deprecation_channel_elem(n: XmlNode) -> bool {
    n matches XmlNode::Element(e) && elem_named(e, "dc"@)
}

/// No local name answers to both the name tag and the channel tag.
proof fn lemma_not_both_n_c(s: Seq<char>)
    ensures
        !(str_ieq(s, "n"@) && str_ieq(s, "c"@)),
{
    reveal_strlit("n");
    reveal_strlit("c");
    if str_ieq(s, "n"@) && str_ieq(s, "c"@) {
        assert(chars_ieq(s[0], "n"@[0]));
        assert(chars_ieq(s[0], "c"@[0]));
        assert(false);
    }
}

/// A local name that answers to the deprecation channel tag answers to no
/// tag checked before it.
proof fn lemma_dc_tag_unique(s: Seq<char>)
    requires
        str_ieq(s, "dc"@),
    ensures
        !str_ieq(s, "n"@),
        !str_ieq(s, "c"@),
        !str_ieq(s, "ca"@),
        !str_ieq(s, "l"@),
        !str_ieq(s, "lu"@),
        !str_ieq(s, "s"@),
        !str_ieq(s, "d"@),
        !str_ieq(s, "r"@),
        !str_ieq(s, "pa"@),
{
    reveal_strlit("dc");
    reveal_strlit("n");
    reveal_strlit("c");
    reveal_strlit("ca");
    reveal_strlit("l");
    reveal_strlit("lu");
    reveal_strlit("s");
    reveal_strlit("d");
    reveal_strlit("r");
    reveal_strlit("pa");
    assert(s.len() == 2);
    assert(chars_ieq(s[0], "dc"@[0]));
    if str_ieq(s, "ca"@) {
        assert(chars_ieq(s[0], "ca"@[0]));
        assert(false);
    }
    if str_ieq(s, "lu"@) {
        assert(chars_ieq(s[0], "lu"@[0]));
        assert(false);
    }
    if str_ieq(s, "pa"@) {
        assert(chars_ieq(s[0], "pa"@[0]));
        assert(false);
    }
}

/// Where no name element appears, the name slot stays empty however far
/// the walk gets.
proof fn lemma_info_walk_no_name(children: Seq<XmlNode>)
    requires
        forall|i: int| 0 <= i < children.len() ==> !is_name_elem(#[trigger] children[i]),
    ensures
        info_walk(children) matches Ok(st) ==> st.name is None,
    decreases children.len(),
{
    if children.len() != 0 {
        let cs = children.drop_last();
        assert forall|i: int| 0 <= i < cs.len() implies !is_name_elem(#[trigger] cs[i]) by {
            assert(cs[i] == children[i]);
        }
        lemma_info_walk_no_name(cs);
        assert(!is_name_elem(children.last()));
    }
}

/// LAW: the field order is enforced, never silently repaired.  A channel
/// element that no name element precedes makes the whole decode fail; when
/// the walk is clean up to that element, the error names the missing name
/// element, the channel's schema predecessor.
pub proof fn lemma_decode_info_channel_before_name(children: Seq<XmlNode>, j: int)
    requires
        0 <= j < children.len(),
        is_channel_elem(children[j]),
        forall|i: int| 0 <= i < j ==> !is_name_elem(#[trigger] children[i]),
    ensures
        decode_package_info(children) is Err,
        info_walk(children.take(j)) is Ok ==> decode_package_info(children) == Err::<
            PackageInfoView,
            PackageInfoFromXmlNodeError,
        >(PackageInfoFromXmlNodeError::MissingName),
{
    let pre = children.take(j);
    if info_walk(pre) is Err {
        lemma_info_walk_err_prefix(children, j);
    } else {
        assert forall|i: int| 0 <= i < pre.len() implies !is_name_elem(#[trigger] pre[i]) by {
            assert(pre[i] == children[i]);
        }
        lemma_info_walk_no_name(pre);
        assert(children.take(j + 1).drop_last() =~= pre);
        assert(children.take(j + 1).last() == children[j]);
        match children[j] {
            XmlNode::Element(e) => {
                lemma_not_both_n_c(e.name.local@);
                assert(info_walk(children.take(j + 1)) == Err::<
                    InfoState,
                    PackageInfoFromXmlNodeError,
                >(PackageInfoFromXmlNodeError::MissingName));
            },
            _ => {
                assert(false);
            },
        }
        lemma_info_walk_err_prefix(children, j + 1);
    }
}

/// The deprecation channel slot is filled exactly when a deprecation
/// channel element appears among the children the walk got through.
proof fn lemma_info_walk_dc(children: Seq<XmlNode>)
    ensures
        info_walk(children) matches Ok(st) ==> (st.deprecation_channel is Some <==> exists|j: int|
            0 <= j < children.len() && is_deprecation_channel_elem(#[trigger] children[j])),
    decreases children.len(),
{
    if children.len() != 0 {
        let cs = children.drop_last();
        lemma_info_walk_dc(cs);
        if info_walk(children) is Ok {
            assert(children.take(children.len() - 1) =~= cs);
            if info_walk(cs) is Err {
                lemma_info_walk_err_prefix(children, children.len() - 1);
            }
            let st0 = info_walk(cs)->Ok_0;
            let st = info_walk(children)->Ok_0;
            let last = children.last();
            if st0.deprecation_channel is Some {
                let j = choose|j: int|
                    0 <= j < cs.len() && is_deprecation_channel_elem(#[trigger] cs[j]);
                assert(children[j] == cs[j]);
                assert(st.deprecation_channel is Some);
            } else {
                match last {
                    XmlNode::Element(e) => {
                        if elem_named(e, "dc"@) {
                            lemma_dc_tag_unique(e.name.local@);
                            assert(st.deprecation_channel is Some);
                            assert(is_deprecation_channel_elem(children[children.len() - 1]));
                        } else {
                            assert(st.deprecation_channel is None);
                            assert forall|j: int|
                                0 <= j < children.len() implies !is_deprecation_channel_elem(
                                #[trigger] children[j],
                            ) by {
                                if j < children.len() - 1 {
                                    assert(children[j] == cs[j]);
                                }
                            }
                        }
                    },
                    _ => {
                        assert(st == st0);
                        assert forall|j: int|
                            0 <= j < children.len() implies !is_deprecation_channel_elem(
                            #[trigger] children[j],
                        ) by {
                            if j < children.len() - 1 {
                                assert(children[j] == cs[j]);
                            }
                        }
                    },
                }
            }
        }
    }
}

/// A deprecation package element of the information document.
pub open spec fn is_deprecation_package_elem(n: XmlNode) -> bool {
    n matches XmlNode::Element(e) && elem_named(e, "dp"@)
}

/// A local name that answers to the deprecation package tag answers to no
/// tag checked before it.
proof fn lemma_dp_tag_unique(s: Seq<char>)
    requires
        str_ieq(s, "dp"@),
    ensures
        !str_ieq(s, "n"@),
        !str_ieq(s, "c"@),
        !str_ieq(s, "ca"@),
        !str_ieq(s, "l"@),
        !str_ieq(s, "lu"@),
        !str_ieq(s, "s"@),
        !str_ieq(s, "d"@),
        !str_ieq(s, "r"@),
        !str_ieq(s, "pa"@),
        !str_ieq(s, "dc"@),
{
    reveal_strlit("dp");
    reveal_strlit("n");
    reveal_strlit("c");
    reveal_strlit("ca");
    reveal_strlit("l");
    reveal_strlit("lu");
    reveal_strlit("s");
    reveal_strlit("d");
    reveal_strlit("r");
    reveal_strlit("pa");
    reveal_strlit("dc");
    assert(s.len() == 2);
    assert(chars_ieq(s[0], "dp"@[0]));
    assert(chars_ieq(s[1], "dp"@[1]));
    if str_ieq(s, "ca"@) {
        assert(chars_ieq(s[0], "ca"@[0]));
        assert(false);
    }
    if str_ieq(s, "lu"@) {
        assert(chars_ieq(s[0], "lu"@[0]));
        assert(false);
    }
    if str_ieq(s, "pa"@) {
        assert(chars_ieq(s[0], "pa"@[0]));
        assert(false);
    }
    if str_ieq(s, "dc"@) {
        assert(chars_ieq(s[1], "dc"@[1]));
        assert(false);
    }
}

/// The deprecation package slot is filled exactly when a deprecation
/// package element appears among the children the walk got through.
proof fn lemma_info_walk_dp(children: Seq<XmlNode>)
    ensures
        info_walk(children) matches Ok(st) ==> (st.deprecation_package is Some <==> exists|j: int|
            0 <= j < children.len() && is_deprecation_package_elem(#[trigger] children[j])),
    decreases children.len(),
{
    if children.len() != 0 {
        let cs = children.drop_last();
        lemma_info_walk_dp(cs);
        if info_walk(children) is Ok {
            assert(children.take(children.len() - 1) =~= cs);
            if info_walk(cs) is Err {
                lemma_info_walk_err_prefix(children, children.len() - 1);
            }
            let st0 = info_walk(cs)->Ok_0;
            let st = info_walk(children)->Ok_0;
            let last = children.last();
            if st0.deprecation_package is Some {
                let j = choose|j: int|
                    0 <= j < cs.len() && is_deprecation_package_elem(#[trigger] cs[j]);
                assert(children[j] == cs[j]);
                assert(st.deprecation_package is Some);
            } else {
                match last {
                    XmlNode::Element(e) => {
                        if elem_named(e, "dp"@) {
                            lemma_dp_tag_unique(e.name.local@);
                            assert(st.deprecation_package is Some);
                            assert(is_deprecation_package_elem(children[children.len() - 1]));
                        } else {
                            assert(st.deprecation_package is None);
                            assert forall|j: int|
                                0 <= j < children.len() implies !is_deprecation_package_elem(
                                #[trigger] children[j],
                            ) by {
                                if j < children.len() - 1 {
                                    assert(children[j] == cs[j]);
                                }
                            }
                        }
                    },
                    _ => {
                        assert(st == st0);
                        assert forall|j: int|
                            0 <= j < children.len() implies !is_deprecation_package_elem(
                            #[trigger] children[j],
                        ) by {
                            if j < children.len() - 1 {
                                assert(children[j] == cs[j]);
                            }
                        }
                    },
                }
            }
        }
    }
}

/// LAW: deprecation is all or nothing.  A record that decodes carries
/// deprecation advice exactly when a deprecation channel element appears,
/// and exactly when a deprecation package element appears: a lone half of
/// the pair never decodes into a record.
pub proof fn lemma_decode_info_deprecation(children: Seq<XmlNode>)
    ensures
        decode_package_info(children) matches Ok(m) ==> (m.deprecation is Some <==> exists|j: int|
            0 <= j < children.len() && is_deprecation_channel_elem(#[trigger] children[j])),
        decode_package_info(children) matches Ok(m) ==> (m.deprecation is Some <==> exists|j: int|
            0 <= j < children.len() && is_deprecation_package_elem(#[trigger] children[j])),
{
    lemma_info_walk_dc(children);
    lemma_info_walk_dp(children);
}

impl PackageInfo {
    /// Decode package information from the children of its root element.
    pub fn from_xml_node(node: &XmlElement) -> (r: Result<Self, PackageInfoFromXmlNodeError>)
        ensures
            match r {
                Ok(p) => decode_package_info(node.children@) == Ok::<
                    PackageInfoView,
                    PackageInfoFromXmlNodeError,
                >(p@),
                Err(e) => decode_package_info(node.children@) == Err::<
                    PackageInfoView,
                    PackageInfoFromXmlNodeError,
                >(e),
            },
    {
        let mut package_name: Option<String> = None;
        let mut channel: Option<String> = None;
        let mut category: Option<String> = None;
        let mut license: Option<String> = None;
        let mut license_uri: Option<String> = None;
        let mut summary: Option<String> = None;
        let mut description: Option<String> = None;
        let mut release: Option<String> = None;
        let mut parent: Option<String> = None;
        let mut deprecation_channel: Option<String> = None;
        let mut deprecation_package: Option<String> = None;
        let n: usize = node.children.len();
        let mut i: usize = 0;
        while i < n
            invariant
                n == node.children@.len(),
                i <= n,
                info_walk(node.children@.take(i as int)) == Ok::<
                    InfoState,
                    PackageInfoFromXmlNodeError,
                >(
                    InfoState {
                        name: package_name.deep_view(),
                        channel: channel.deep_view(),
                        category: category.deep_view(),
                        license: license.deep_view(),
                        license_uri: license_uri.deep_view(),
                        summary: summary.deep_view(),
                        description: description.deep_view(),
                        release_uri: release.deep_view(),
                        parent_package: parent.deep_view(),
                        deprecation_channel: deprecation_channel.deep_view(),
                        deprecation_package: deprecation_package.deep_view(),
                    },
                ),
            decreases n - i,
        {
            proof {
                assert(node.children@.take(i + 1).drop_last() =~= node.children@.take(i as int));
                assert(node.children@.take(i + 1).last() == node.children@[i as int]);
            }
            let step_err: PackageInfoFromXmlNodeError;
            match &node.children[i] {
                XmlNode::Element(e) => {
                    if is_named(&e.name, "n") {
                        match get_text(e) {
                            Err(()) => {
                                step_err = PackageInfoFromXmlNodeError::ReadName(i);
                            },
                            Ok(t) => {
                                if package_name.is_some() {
                                    step_err = PackageInfoFromXmlNodeError::DuplicateName;
                                } else {
                                    package_name = Some(t);
                                    i = i + 1;
                                    continue ;
                                }
                            },
                        }
                    } else if is_named(&e.name, "c") {
                        if channel.is_some() || package_name.is_none() {
                            if package_name.is_none() {
                                step_err = PackageInfoFromXmlNodeError::MissingName;
                            } else {
                                match get_text(e) {
                                    Err(()) => {
                                        step_err = PackageInfoFromXmlNodeError::ReadChannel(i);
                                    },
                                    Ok(_) => {
                                        step_err = PackageInfoFromXmlNodeError::DuplicateChannel;
                                    },
                                }
                            }
                        } else {
                            match get_text(e) {
                                Err(()) => {
                                    step_err = PackageInfoFromXmlNodeError::ReadChannel(i);
                                },
                                Ok(t) => {
                                    channel = Some(t);
                                    i = i + 1;
                                    continue ;
                                },
                            }
                        }
                    } else if is_named(&e.name, "ca") {
                        if category.is_some() || channel.is_none() {
                            if channel.is_none() {
                                step_err = PackageInfoFromXmlNodeError::MissingChannel;
                            } else {
                                match get_text(e) {
                                    Err(()) => {
                                        step_err = PackageInfoFromXmlNodeError::ReadCategory(i);
                                    },
                                    Ok(_) => {
                                        step_err = PackageInfoFromXmlNodeError::DuplicateCategory;
                                    },
                                }
                            }
                        } else {
                            match get_text(e) {
                                Err(()) => {
                                    step_err = PackageInfoFromXmlNodeError::ReadCategory(i);
                                },
                                Ok(t) => {
                                    category = Some(t);
                                    i = i + 1;
                                    continue ;
                                },
                            }
                        }
                    } else if is_named(&e.name, "l") {
                        if license.is_some() || category.is_none() {
                            if category.is_none() {
                                step_err = PackageInfoFromXmlNodeError::MissingCategory;
                            } else {
                                match get_text(e) {
                                    Err(()) => {
                                        step_err = PackageInfoFromXmlNodeError::ReadLicense(i);
                                    },
                                    Ok(_) => {
                                        step_err = PackageInfoFromXmlNodeError::DuplicateLicense;
                                    },
                                }
                            }
                        } else {
                            match get_text(e) {
                                Err(()) => {
                                    step_err = PackageInfoFromXmlNodeError::ReadLicense(i);
                                },
                                Ok(t) => {
                                    license = Some(t);
                                    i = i + 1;
                                    continue ;
                                },
                            }
                        }
                    } else if is_named(&e.name, "lu") {
                        if license_uri.is_some() || license.is_none() {
                            if license.is_none() {
                                step_err = PackageInfoFromXmlNodeError::MissingLicense;
                            } else {
                                match get_text(e) {
                                    Err(()) => {
                                        step_err = PackageInfoFromXmlNodeError::ReadLicenseUri(i);
                                    },
                                    Ok(_) => {
                                        step_err =
                                        PackageInfoFromXmlNodeError::DuplicateLicenseUri;
                                    },
                                }
                            }
                        } else {
                            match get_text(e) {
                                Err(()) => {
                                    step_err = PackageInfoFromXmlNodeError::ReadLicenseUri(i);
                                },
                                Ok(t) => {
                                    license_uri = Some(t);
                                    i = i + 1;
                                    continue ;
                                },
                            }
                        }
                    } else if is_named(&e.name, "s") {
                        if summary.is_some() || license.is_none() {
                            if license.is_none() {
                                step_err = PackageInfoFromXmlNodeError::MissingLicense;
                            } else {
                                match get_text(e) {
                                    Err(()) => {
                                        step_err = PackageInfoFromXmlNodeError::ReadSummary(i);
                                    },
                                    Ok(_) => {
                                        step_err = PackageInfoFromXmlNodeError::DuplicateSummary;
                                    },
                                }
                            }
                        } else {
                            match get_text(e) {
                                Err(()) => {
                                    step_err = PackageInfoFromXmlNodeError::ReadSummary(i);
                                },
                                Ok(t) => {
                                    summary = Some(t);
                                    i = i + 1;
                                    continue ;
                                },
                            }
                        }
                    } else if is_named(&e.name, "d") {
                        if description.is_some() || summary.is_none() {
                            if summary.is_none() {
                                step_err = PackageInfoFromXmlNodeError::MissingSummary;
                            } else {
                                match get_text(e) {
                                    Err(()) => {
                                        step_err = PackageInfoFromXmlNodeError::ReadDescription(i);
                                    },
                                    Ok(_) => {
                                        step_err =
                                        PackageInfoFromXmlNodeError::DuplicateDescription;
                                    },
                                }
                            }
                        } else {
                            match get_text(e) {
                                Err(()) => {
                                    step_err = PackageInfoFromXmlNodeError::ReadDescription(i);
                                },
                                Ok(t) => {
                                    description = Some(t);
                                    i = i + 1;
                                    continue ;
                                },
                            }
                        }
                    } else if is_named(&e.name, "r") {
                        if release.is_some() || description.is_none() {
                            if description.is_none() {
                                step_err = PackageInfoFromXmlNodeError::MissingDescription;
                            } else {
                                match get_text(e) {
                                    Err(()) => {
                                        step_err = PackageInfoFromXmlNodeError::ReadRelease(i);
                                    },
                                    Ok(_) => {
                                        step_err = PackageInfoFromXmlNodeError::DuplicateRelease;
                                    },
                                }
                            }
                        } else {
                            match get_text(e) {
                                Err(()) => {
                                    step_err = PackageInfoFromXmlNodeError::ReadRelease(i);
                                },
                                Ok(t) => {
                                    release = Some(t);
                                    i = i + 1;
                                    continue ;
                                },
                            }
                        }
                    } else if is_named(&e.name, "pa") {
                        if parent.is_some() || release.is_none() {
                            if release.is_none() {
                                step_err = PackageInfoFromXmlNodeError::MissingRelease;
                            } else {
                                match get_text(e) {
                                    Err(()) => {
                                        step_err = PackageInfoFromXmlNodeError::ReadParent(i);
                                    },
                                    Ok(_) => {
                                        step_err = PackageInfoFromXmlNodeError::DuplicateParent;
                                    },
                                }
                            }
                        } else {
                            match get_text(e) {
                                Err(()) => {
                                    step_err = PackageInfoFromXmlNodeError::ReadParent(i);
                                },
                                Ok(t) => {
                                    parent = Some(t);
                                    i = i + 1;
                                    continue ;
                                },
                            }
                        }
                    } else if is_named(&e.name, "dc") {
                        if deprecation_channel.is_some() || release.is_none() {
                            if release.is_none() {
                                step_err = PackageInfoFromXmlNodeError::MissingRelease;
                            } else {
                                match get_text(e) {
                                    Err(()) => {
                                        step_err =
                                        PackageInfoFromXmlNodeError::ReadDeprecationChannel(i);
                                    },
                                    Ok(_) => {
                                        step_err =
                                        PackageInfoFromXmlNodeError::DuplicateDeprecationChannel;
                                    },
                                }
                            }
                        } else {
                            match get_text(e) {
                                Err(()) => {
                                    step_err = PackageInfoFromXmlNodeError::ReadDeprecationChannel(
                                        i,
                                    );
                                },
                                Ok(t) => {
                                    deprecation_channel = Some(t);
                                    i = i + 1;
                                    continue ;
                                },
                            }
                        }
                    } else if is_named(&e.name, "dp") {
                        if deprecation_package.is_some() || deprecation_channel.is_none() {
                            if deprecation_channel.is_none() {
                                step_err = PackageInfoFromXmlNodeError::MissingDeprecationChannel;
                            } else {
                                match get_text(e) {
                                    Err(()) => {
                                        step_err =
                                        PackageInfoFromXmlNodeError::ReadDeprecationPackage(i);
                                    },
                                    Ok(_) => {
                                        step_err =
                                        PackageInfoFromXmlNodeError::DuplicateDeprecationPackage;
                                    },
                                }
                            }
                        } else {
                            match get_text(e) {
                                Err(()) => {
                                    step_err = PackageInfoFromXmlNodeError::ReadDeprecationPackage(
                                        i,
                                    );
                                },
                                Ok(t) => {
                                    deprecation_package = Some(t);
                                    i = i + 1;
                                    continue ;
                                },
                            }
                        }
                    } else {
                        step_err = PackageInfoFromXmlNodeError::ChildType(i);
                    }
                },
                XmlNode::Text(_) => {
                    i = i + 1;
                    continue ;
                },
                XmlNode::Comment(_) => {
                    i = i + 1;
                    continue ;
                },
                XmlNode::Other => {
                    step_err = PackageInfoFromXmlNodeError::ChildType(i);
                },
            }
            proof {
                lemma_info_walk_err_prefix(node.children@, i + 1);
            }
            return Err(step_err);
        }
        proof {
            assert(node.children@.take(n as int) =~= node.children@);
        }
        if package_name.is_none() {
            return Err(PackageInfoFromXmlNodeError::MissingName);
        }
        if channel.is_none() {
            return Err(PackageInfoFromXmlNodeError::MissingChannel);
        }
        if category.is_none() {
            return Err(PackageInfoFromXmlNodeError::MissingCategory);
        }
        if license.is_none() {
            return Err(PackageInfoFromXmlNodeError::MissingLicense);
        }
        if summary.is_none() {
            return Err(PackageInfoFromXmlNodeError::MissingSummary);
        }
        if description.is_none() {
            return Err(PackageInfoFromXmlNodeError::MissingDescription);
        }
        if release.is_none() {
            return Err(PackageInfoFromXmlNodeError::MissingRelease);
        }
        let deprecation: Option<DeprecationInfo> = match (deprecation_channel, deprecation_package) {
            (Some(dc), Some(dp)) => Some(
                DeprecationInfo { recommended_channel: dc, recommended_package: dp },
            ),
            (Some(_), None) => {
                return Err(PackageInfoFromXmlNodeError::MissingDeprecationPackage);
            },
            (None, Some(_)) => {
                return Err(PackageInfoFromXmlNodeError::MissingDeprecationChannel);
            },
            (None, None) => None,
        };
        match (package_name, channel, category, license, summary, description, release) {
            (Some(name), Some(channel), Some(category), Some(license), Some(summary), Some(
                description,
            ), Some(release_uri)) => Ok(
                PackageInfo {
                    name,
                    channel,
                    category,
                    license,
                    license_uri,
                    summary,
                    description,
                    release_uri,
                    parent_package: parent,
                    deprecation,
                },
            ),
            _ => {
                proof {
                    assert(false);
                }
                Err(PackageInfoFromXmlNodeError::MissingName)
            },
        }
    }

    /// Decode package information from a whole document: find the unique
    /// root element named `p`, then decode its children.
    pub fn from_rc_dom(doc: &XmlDocument) -> (r: Result<Self, PackageInfoFromRcDomError>)
        ensures
            match r {
                Ok(p) => find_root_spec(doc.children@, "p"@) matches Ok(idx)
                    && doc.children@[idx] matches XmlNode::Element(root)
                    && decode_package_info(root.children@) == Ok::<
                    PackageInfoView,
                    PackageInfoFromXmlNodeError,
                >(p@),
                Err(PackageInfoFromRcDomError::RootNotFound) => find_root_spec(
                    doc.children@,
                    "p"@,
                ) is Err,
                Err(PackageInfoFromRcDomError::Read(e)) => find_root_spec(doc.children@, "p"@)
                    matches Ok(idx) && doc.children@[idx] matches XmlNode::Element(root)
                    && decode_package_info(root.children@) == Err::<
                    PackageInfoView,
                    PackageInfoFromXmlNodeError,
                >(e),
            },
    {
        let root = match find_root(doc, "p") {
            Ok(root) => root,
            Err(_) => {
                return Err(PackageInfoFromRcDomError::RootNotFound);
            },
        };
        match Self::from_xml_node(root) {
            Ok(p) => Ok(p),
            Err(e) => Err(PackageInfoFromRcDomError::Read(e)),
        }
    }
}

proof fn lemma_info_walk_err_prefix(children: Seq<XmlNode>, k: int)
    requires
        0 <= k <= children.len(),
        info_walk(children.take(k)) is Err,
    ensures
        info_walk(children) == info_walk(children.take(k)),
    decreases children.len() - k,
{
    if k == children.len() {
        assert(children.take(k) =~= children);
    } else {
        assert(children.take(k + 1).drop_last() =~= children.take(k));
        lemma_info_walk_err_prefix(children, k + 1);
    }
}

} // verus!

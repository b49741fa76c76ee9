//! Release-level records: the release listing of one package and the full
//! information of a single release.

use vstd::prelude::*;
use crate::xml_util::{
    XmlDocument, XmlElement, XmlNode, elem_named, elem_text, find_root, find_root_spec, get_text,
    is_named, link_attr_scan, get_link_attr, DuplicateAttribute,
};

verus! {

/// A minimal release record nested inside a release listing.
#[derive(Clone, Debug)]
pub struct ShortRelease {
    pub version: String,
    pub stability: String,
}

/// The mathematical content of a `ShortRelease`.
pub ghost struct ShortReleaseView {
    pub version: Seq<char>,
    pub stability: Seq<char>,
}

impl View for ShortRelease {
    type V = ShortReleaseView;

    open spec fn view(&self) -> ShortReleaseView {
        ShortReleaseView { version: self.version@, stability: self.stability@ }
    }
}

impl DeepView for ShortRelease {
    type V = ShortReleaseView;

    open spec fn deep_view(&self) -> ShortReleaseView {
        self.view()
    }
}

/// Decoding a short release from a release block failed.
#[derive(Clone, Copy, Debug, PartialEq, Eq, PartialOrd, Ord, Hash, Structural)]
pub enum ShortReleaseFromXmlNodeError {
    /// A child node that is neither a known element nor text nor a comment,
    /// at this child index.
    ChildType(usize),
    /// The version element's text could not be read, at this child index.
    ReadVersion(usize),
    /// No version element appeared, or the stability preceded it.
    MissingVersion,
    /// A second version element appeared.
    DuplicateVersion,
    /// The stability element's text could not be read, at this child index.
    ReadStability(usize),
    /// No stability element appeared.
    MissingStability,
    /// A second stability element appeared.
    DuplicateStability,
}

/// The automaton state of the short-release decoder.
pub ghost struct ShortReleaseState {
    pub version: Option<Seq<char>>,
    pub stability: Option<Seq<char>>,
}

/// One step of the short-release automaton on the child at index `i`:
/// the version must precede the stability; each fills its slot once.
pub open spec fn short_release_step(st: ShortReleaseState, node: XmlNode, i: usize) -> Result<
    ShortReleaseState,
    ShortReleaseFromXmlNodeError,
> {
    match node {
        XmlNode::Element(e) => {
            if elem_named(e, "v"@) {
                match elem_text(e) {
                    Err(()) => Err(ShortReleaseFromXmlNodeError::ReadVersion(i)),
                    Ok(t) => if st.version is Some {
                        Err(ShortReleaseFromXmlNodeError::DuplicateVersion)
                    } else {
                        Ok(ShortReleaseState { version: Some(t), ..st })
                    },
                }
            } else if elem_named(e, "s"@) {
                if st.version is None {
                    Err(ShortReleaseFromXmlNodeError::MissingVersion)
                } else {
                    match elem_text(e) {
                        Err(()) => Err(ShortReleaseFromXmlNodeError::ReadStability(i)),
                        Ok(t) => if st.stability is Some {
                            Err(ShortReleaseFromXmlNodeError::DuplicateStability)
                        } else {
                            Ok(ShortReleaseState { stability: Some(t), ..st })
                        },
                    }
                }
            } else {
                Err(ShortReleaseFromXmlNodeError::ChildType(i))
            }
        },
        XmlNode::Text(_) => Ok(st),
        XmlNode::Comment(_) => Ok(st),
        XmlNode::Other => Err(ShortReleaseFromXmlNodeError::ChildType(i)),
    }
}

/// The short-release automaton run over a block's children.
pub open spec fn short_release_walk(children: Seq<XmlNode>) -> Result<
    ShortReleaseState,
    ShortReleaseFromXmlNodeError,
>
    decreases children.len(),
{
    if children.len() == 0 {
        Ok(ShortReleaseState { version: None, stability: None })
    } else {
        match short_release_walk(children.drop_last()) {
            Err(e) => Err(e),
            Ok(st) => short_release_step(st, children.last(), (children.len() - 1) as usize),
        }
    }
}

/// What decoding a release block yields.
pub open spec fn decode_short_release(children: Seq<XmlNode>) -> Result<
    ShortReleaseView,
    ShortReleaseFromXmlNodeError,
> {
    match short_release_walk(children) {
        Err(e) => Err(e),
        Ok(st) => match (st.version, st.stability) {
            (Some(v), Some(s)) => Ok(ShortReleaseView { version: v, stability: s }),
            (None, _) => Err(ShortReleaseFromXmlNodeError::MissingVersion),
            (Some(_), None) => Err(ShortReleaseFromXmlNodeError::MissingStability),
        },
    }
}

proof fn lemma_short_release_walk_err_prefix(children: Seq<XmlNode>, k: int)
    requires
        0 <= k <= children.len(),
        short_release_walk(children.take(k)) is Err,
    ensures
        short_release_walk(children) == short_release_walk(children.take(k)),
    decreases children.len() - k,
{
    if k == children.len() {
        assert(children.take(k) =~= children);
    } else {
        assert(children.take(k + 1).drop_last() =~= children.take(k));
        lemma_short_release_walk_err_prefix(children, k + 1);
    }
}

impl ShortRelease {
    /// Decode a short release from the children of its block element.
    pub fn from_xml_node(node: &XmlElement) -> (r: Result<Self, ShortReleaseFromXmlNodeError>)
        ensures
            match r {
                Ok(s) => decode_short_release(node.children@) == Ok::<
                    ShortReleaseView,
                    ShortReleaseFromXmlNodeError,
                >(s@),
                Err(e) => decode_short_release(node.children@) == Err::<
                    ShortReleaseView,
                    ShortReleaseFromXmlNodeError,
                >(e),
            },
    {
        let mut version: Option<String> = None;
        let mut stability: Option<String> = None;
        let n: usize = node.children.len();
        let mut i: usize = 0;
        while i < n
            invariant
                n == node.children@.len(),
                i <= n,
                short_release_walk(node.children@.take(i as int)) == Ok::<
                    ShortReleaseState,
                    ShortReleaseFromXmlNodeError,
                >(
                    ShortReleaseState {
                        version: version.deep_view(),
                        stability: stability.deep_view(),
                    },
                ),
            decreases n - i,
        {
            proof {
                assert(node.children@.take(i + 1).drop_last() =~= node.children@.take(i as int));
                assert(node.children@.take(i + 1).last() == node.children@[i as int]);
            }
            let step_err: ShortReleaseFromXmlNodeError;
            match &node.children[i] {
                XmlNode::Element(e) => {
                    if is_named(&e.name, "v") {
                        match get_text(e) {
                            Err(()) => {
                                step_err = ShortReleaseFromXmlNodeError::ReadVersion(i);
                            },
                            Ok(t) => {
                                if version.is_some() {
                                    step_err = ShortReleaseFromXmlNodeError::DuplicateVersion;
                                } else {
                                    version = Some(t);
                                    i = i + 1;
                                    continue ;
                                }
                            },
                        }
                    } else if is_named(&e.name, "s") {
                        if stability.is_some() || version.is_none() {
                            if version.is_none() {
                                step_err = ShortReleaseFromXmlNodeError::MissingVersion;
                            } else {
                                match get_text(e) {
                                    Err(()) => {
                                        step_err = ShortReleaseFromXmlNodeError::ReadStability(i);
                                    },
                                    Ok(_) => {
                                        step_err = ShortReleaseFromXmlNodeError::DuplicateStability;
                                    },
                                }
                            }
                        } else {
                            match get_text(e) {
                                Err(()) => {
                                    step_err = ShortReleaseFromXmlNodeError::ReadStability(i);
                                },
                                Ok(t) => {
                                    stability = Some(t);
                                    i = i + 1;
                                    continue ;
                                },
                            }
                        }
                    } else {
                        step_err = ShortReleaseFromXmlNodeError::ChildType(i);
                    }
                },
                XmlNode::Text(_) => {
                    i = i + 1;
                    continue ;
                },
                XmlNode::Comment(_) => {
                    i = i + 1;
                    continue ;
                },
                XmlNode::Other => {
                    step_err = ShortReleaseFromXmlNodeError::ChildType(i);
                },
            }
            proof {
                lemma_short_release_walk_err_prefix(node.children@, i + 1);
            }
            return Err(step_err);
        }
        proof {
            assert(node.children@.take(n as int) =~= node.children@);
        }
        match (version, stability) {
            (Some(version), Some(stability)) => Ok(ShortRelease { version, stability }),
            (None, _) => Err(ShortReleaseFromXmlNodeError::MissingVersion),
            (Some(_), None) => Err(ShortReleaseFromXmlNodeError::MissingStability),
        }
    }
}

/// The releases of one package: package name, channel, and the release
/// blocks in document order.
#[derive(Clone, Debug)]
pub struct ReleaseListing {
    pub package: String,
    pub channel: String,
    pub items: Vec<ShortRelease>,
}

/// The mathematical content of a `ReleaseListing`.
pub ghost struct ReleaseListingView {
    pub package: Seq<char>,
    pub channel: Seq<char>,
    pub items: Seq<ShortReleaseView>,
}

impl View for ReleaseListing {
    type V = ReleaseListingView;

    open spec fn view(&self) -> ReleaseListingView {
        ReleaseListingView {
            package: self.package@,
            channel: self.channel@,
            items: self.items.deep_view(),
        }
    }
}

/// Decoding a release listing from an element failed.
#[derive(Clone, Copy, Debug, PartialEq, Eq, PartialOrd, Ord, Hash, Structural)]
pub enum ReleaseListingFromXmlNodeError {
    /// A child node that is neither a known element nor text nor a comment,
    /// at this child index.
    ChildType(usize),
    /// The package element's text could not be read, at this child index.
    ReadPackage(usize),
    /// No package element appeared, or the channel preceded it.
    MissingPackage,
    /// A second package element appeared.
    DuplicatePackage,
    /// The channel element's text could not be read, at this child index.
    ReadChannel(usize),
    /// No channel element appeared, or a release block preceded it.
    MissingChannel,
    /// A second channel element appeared.
    DuplicateChannel,
    /// A release block failed to decode, at this child index.
    ReadRelease(ShortReleaseFromXmlNodeError, usize),
}

/// Decoding a release listing from a whole document failed.
#[derive(Clone, Copy, Debug, PartialEq, Eq, PartialOrd, Ord, Hash, Structural)]
pub enum ReleaseListingFromRcDomError {
    /// The unique root element was not found.
    RootNotFound,
    /// The root was found but its contents did not decode.
    Read(ReleaseListingFromXmlNodeError),
}

/// The automaton state of the release-listing decoder.
pub ghost struct ReleaseListingState {
    pub package: Option<Seq<char>>,
    pub channel: Option<Seq<char>>,
    pub items: Seq<ShortReleaseView>,
}

/// One step of the release-listing automaton on the child at index `i`:
/// the package precedes the channel, which precedes every release block;
/// blocks decode through the short-release automaton and a block's failure
/// is wrapped with the block's child index.
pub open spec fn release_listing_step(
    st: ReleaseListingState,
    node: XmlNode,
    i: usize,
) -> Result<ReleaseListingState, ReleaseListingFromXmlNodeError> {
    match node {
        XmlNode::Element(e) => {
            if elem_named(e, "p"@) {
                match elem_text(e) {
                    Err(()) => Err(ReleaseListingFromXmlNodeError::ReadPackage(i)),
                    Ok(t) => if st.package is Some {
                        Err(ReleaseListingFromXmlNodeError::DuplicatePackage)
                    } else {
                        Ok(ReleaseListingState { package: Some(t), ..st })
                    },
                }
            } else if elem_named(e, "c"@) {
                if st.package is None {
                    Err(ReleaseListingFromXmlNodeError::MissingPackage)
                } else {
                    match elem_text(e) {
                        Err(()) => Err(ReleaseListingFromXmlNodeError::ReadChannel(i)),
                        Ok(t) => if st.channel is Some {
                            Err(ReleaseListingFromXmlNodeError::DuplicateChannel)
                        } else {
                            Ok(ReleaseListingState { channel: Some(t), ..st })
                        },
                    }
                }
            } else if elem_named(e, "r"@) {
                if st.channel is None {
                    Err(ReleaseListingFromXmlNodeError::MissingChannel)
                } else {
                    match decode_short_release(e.children@) {
                        Err(se) => Err(ReleaseListingFromXmlNodeError::ReadRelease(se, i)),
                        Ok(sr) => Ok(ReleaseListingState { items: st.items.push(sr), ..st }),
                    }
                }
            } else {
                Err(ReleaseListingFromXmlNodeError::ChildType(i))
            }
        },
        XmlNode::Text(_) => Ok(st),
        XmlNode::Comment(_) => Ok(st),
        XmlNode::Other => Err(ReleaseListingFromXmlNodeError::ChildType(i)),
    }
}

/// The release-listing automaton run over the children in document order.
pub open spec fn release_listing_walk(children: Seq<XmlNode>) -> Result<
    ReleaseListingState,
    ReleaseListingFromXmlNodeError,
>
    decreases children.len(),
{
    if children.len() == 0 {
        Ok(ReleaseListingState { package: None, channel: None, items: Seq::empty() })
    } else {
        match release_listing_walk(children.drop_last()) {
            Err(e) => Err(e),
            Ok(st) => release_listing_step(st, children.last(), (children.len() - 1) as usize),
        }
    }
}

/// What decoding the children of a release-listing root element yields.
pub open spec fn decode_release_listing(children: Seq<XmlNode>) -> Result<
    ReleaseListingView,
    ReleaseListingFromXmlNodeError,
> {
    match release_listing_walk(children) {
        Err(e) => Err(e),
        Ok(st) => match (st.package, st.channel) {
            (Some(p), Some(c)) => Ok(
                ReleaseListingView { package: p, channel: c, items: st.items },
            ),
            (None, _) => Err(ReleaseListingFromXmlNodeError::MissingPackage),
            (Some(_), None) => Err(ReleaseListingFromXmlNodeError::MissingChannel),
        },
    }
}

proof fn lemma_release_listing_walk_err_prefix(children: Seq<XmlNode>, k: int)
    requires
        0 <= k <= children.len(),
        release_listing_walk(children.take(k)) is Err,
    ensures
        release_listing_walk(children) == release_listing_walk(children.take(k)),
    decreases children.len() - k,
{
    if k == children.len() {
        assert(children.take(k) =~= children);
    } else {
        assert(children.take(k + 1).drop_last() =~= children.take(k));
        lemma_release_listing_walk_err_prefix(children, k + 1);
    }
}

impl ReleaseListing {
    /// Decode a release listing from the children of its root element.
    pub fn from_xml_node(node: &XmlElement) -> (r: Result<Self, ReleaseListingFromXmlNodeError>)
        ensures
            match r {
                Ok(l) => decode_release_listing(node.children@) == Ok::<
                    ReleaseListingView,
                    ReleaseListingFromXmlNodeError,
                >(l@),
                Err(e) => decode_release_listing(node.children@) == Err::<
                    ReleaseListingView,
                    ReleaseListingFromXmlNodeError,
                >(e),
            },
    {
        let mut package: Option<String> = None;
        let mut channel: Option<String> = None;
        let mut items: Vec<ShortRelease> = Vec::new();
        let n: usize = node.children.len();
        let mut i: usize = 0;
        proof {
            assert(items.deep_view() =~= Seq::<ShortReleaseView>::empty());
        }
        while i < n
            invariant
                n == node.children@.len(),
                i <= n,
                release_listing_walk(node.children@.take(i as int)) == Ok::<
                    ReleaseListingState,
                    ReleaseListingFromXmlNodeError,
                >(
                    ReleaseListingState {
                        package: package.deep_view(),
                        channel: channel.deep_view(),
                        items: items.deep_view(),
                    },
                ),
            decreases n - i,
        {
            proof {
                assert(node.children@.take(i + 1).drop_last() =~= node.children@.take(i as int));
                assert(node.children@.take(i + 1).last() == node.children@[i as int]);
            }
            let ghost pre_items: Seq<ShortReleaseView> = items.deep_view();
            let step_err: ReleaseListingFromXmlNodeError;
            match &node.children[i] {
                XmlNode::Element(e) => {
                    if is_named(&e.name, "p") {
                        match get_text(e) {
                            Err(()) => {
                                step_err = ReleaseListingFromXmlNodeError::ReadPackage(i);
                            },
                            Ok(t) => {
                                if package.is_some() {
                                    step_err = ReleaseListingFromXmlNodeError::DuplicatePackage;
                                } else {
                                    package = Some(t);
                                    i = i + 1;
                                    continue ;
                                }
                            },
                        }
                    } else if is_named(&e.name, "c") {
                        if channel.is_some() || package.is_none() {
                            if package.is_none() {
                                step_err = ReleaseListingFromXmlNodeError::MissingPackage;
                            } else {
                                match get_text(e) {
                                    Err(()) => {
                                        step_err = ReleaseListingFromXmlNodeError::ReadChannel(i);
                                    },
                                    Ok(_) => {
                                        step_err = ReleaseListingFromXmlNodeError::DuplicateChannel;
                                    },
                                }
                            }
                        } else {
                            match get_text(e) {
                                Err(()) => {
                                    step_err = ReleaseListingFromXmlNodeError::ReadChannel(i);
                                },
                                Ok(t) => {
                                    channel = Some(t);
                                    i = i + 1;
                                    continue ;
                                },
                            }
                        }
                    } else if is_named(&e.name, "r") {
                        if channel.is_none() {
                            step_err = ReleaseListingFromXmlNodeError::MissingChannel;
                        } else {
                            match ShortRelease::from_xml_node(e) {
                                Err(se) => {
                                    step_err = ReleaseListingFromXmlNodeError::ReadRelease(se, i);
                                },
                                Ok(sr) => {
                                    let ghost srv: ShortReleaseView = sr@;
                                    items.push(sr);
                                    proof {
                                        assert(items.deep_view() =~= pre_items.push(srv));
                                    }
                                    i = i + 1;
                                    continue ;
                                },
                            }
                        }
                    } else {
                        step_err = ReleaseListingFromXmlNodeError::ChildType(i);
                    }
                },
                XmlNode::Text(_) => {
                    i = i + 1;
                    continue ;
                },
                XmlNode::Comment(_) => {
                    i = i + 1;
                    continue ;
                },
                XmlNode::Other => {
                    step_err = ReleaseListingFromXmlNodeError::ChildType(i);
                },
            }
            proof {
                lemma_release_listing_walk_err_prefix(node.children@, i + 1);
            }
            return Err(step_err);
        }
        proof {
            assert(node.children@.take(n as int) =~= node.children@);
        }
        match (package, channel) {
            (Some(package), Some(channel)) => Ok(ReleaseListing { package, channel, items }),
            (None, _) => Err(ReleaseListingFromXmlNodeError::MissingPackage),
            (Some(_), None) => Err(ReleaseListingFromXmlNodeError::MissingChannel),
        }
    }

    /// Decode a release listing from a whole document: find the unique
    /// root element named `a`, then decode its children.
    pub fn from_rc_dom(doc: &XmlDocument) -> (r: Result<Self, ReleaseListingFromRcDomError>)
        ensures
            match r {
                Ok(l) => find_root_spec(doc.children@, "a"@) matches Ok(idx)
                    && doc.children@[idx] matches XmlNode::Element(root)
                    && decode_release_listing(root.children@) == Ok::<
                    ReleaseListingView,
                    ReleaseListingFromXmlNodeError,
                >(l@),
                Err(ReleaseListingFromRcDomError::RootNotFound) => find_root_spec(
                    doc.children@,
                    "a"@,
                ) is Err,
                Err(ReleaseListingFromRcDomError::Read(e)) => find_root_spec(doc.children@, "a"@)
                    matches Ok(idx) && doc.children@[idx] matches XmlNode::Element(root)
                    && decode_release_listing(root.children@) == Err::<
                    ReleaseListingView,
                    ReleaseListingFromXmlNodeError,
                >(e),
            },
    {
        let root = match find_root(doc, "a") {
            Ok(root) => root,
            Err(_) => {
                return Err(ReleaseListingFromRcDomError::RootNotFound);
            },
        };
        match Self::from_xml_node(root) {
            Ok(l) => Ok(l),
            Err(e) => Err(ReleaseListingFromRcDomError::Read(e)),
        }
    }
}

/// The package a release belongs to: its name and a locator link.
#[derive(Clone, Debug)]
pub struct ReleasePackage {
    pub name: String,
    pub link: String,
}

/// The mathematical content of a `ReleasePackage`.
pub ghost struct ReleasePackageView {
    pub name: Seq<char>,
    pub link: Seq<char>,
}

impl View for ReleasePackage {
    type V = ReleasePackageView;

    open spec fn view(&self) -> ReleasePackageView {
        ReleasePackageView { name: self.name@, link: self.link@ }
    }
}

/// The archive of a release: its size in bytes and a locator link.
#[derive(Clone, Debug)]
pub struct ReleaseArchive {
    pub size: u64,
    pub link: String,
}

/// The mathematical content of a `ReleaseArchive`.
pub ghost struct ReleaseArchiveView {
    pub size: u64,
    pub link: Seq<char>,
}

impl View for ReleaseArchive {
    type V = ReleaseArchiveView;

    open spec fn view(&self) -> ReleaseArchiveView {
        ReleaseArchiveView { size: self.size, link: self.link@ }
    }
}

/// The full information of one release.
#[derive(Clone, Debug)]
pub struct Release {
    pub package: ReleasePackage,
    pub channel: String,
    pub version: String,
    pub status: String,
    pub license: String,
    pub maintainer: String,
    pub summary: String,
    pub description: String,
    pub time: String,
    pub release_notes: String,
    pub archive: ReleaseArchive,
    /// Link to extracted release info.
    pub extracted_link: String,
}

/// The mathematical content of a `Release`.
pub ghost struct ReleaseView {
    pub package: ReleasePackageView,
    pub channel: Seq<char>,
    pub version: Seq<char>,
    pub status: Seq<char>,
    pub license: Seq<char>,
    pub maintainer: Seq<char>,
    pub summary: Seq<char>,
    pub description: Seq<char>,
    pub time: Seq<char>,
    pub release_notes: Seq<char>,
    pub archive: ReleaseArchiveView,
    pub extracted_link: Seq<char>,
}

impl View for Release {
    type V = ReleaseView;

    open spec fn view(&self) -> ReleaseView {
        ReleaseView {
            package: self.package@,
            channel: self.channel@,
            version: self.version@,
            status: self.status@,
            license: self.license@,
            maintainer: self.maintainer@,
            summary: self.summary@,
            description: self.description@,
            time: self.time@,
            release_notes: self.release_notes@,
            archive: self.archive@,
            extracted_link: self.extracted_link@,
        }
    }
}

/// Decoding a release from an element failed.
#[derive(Clone, Copy, Debug, PartialEq, Eq, PartialOrd, Ord, Hash, Structural)]
pub enum ReleaseFromXmlNodeError {
    /// A child node that is neither a known element nor text nor a comment,
    /// at this child index.
    ChildType(usize),
    /// The package element `<p>` is malformed at this index.
    ReadPackage(usize),
    /// The package element `<p>` is missing its locator attribute at this index.
    MissingPackageLink(usize),
    /// The package element `<p>` repeats its locator attribute at this index.
    DuplicatePackageLink(usize),
    /// The package element `<p>` is missing.
    MissingPackage,
    /// The package element `<p>` is duplicated.
    DuplicatePackage,
    /// The channel element `<c>` is malformed at this index.
    ReadChannel(usize),
    /// The channel element `<c>` is missing.
    MissingChannel,
    /// The channel element `<c>` is duplicated.
    DuplicateChannel,
    /// The version element `<v>` is malformed at this index.
    ReadVersion(usize),
    /// The version element `<v>` is missing.
    MissingVersion,
    /// The version element `<v>` is duplicated.
    DuplicateVersion,
    /// The status element `<st>` is malformed at this index.
    ReadStatus(usize),
    /// The status element `<st>` is missing.
    MissingStatus,
    /// The status element `<st>` is duplicated.
    DuplicateStatus,
    /// The license element `<l>` is malformed at this index.
    ReadLicense(usize),
    /// The license element `<l>` is missing.
    MissingLicense,
    /// The license element `<l>` is duplicated.
    DuplicateLicense,
    /// The maintainer element `<m>` is malformed at this index.
    ReadMaintainer(usize),
    /// The maintainer element `<m>` is missing.
    MissingMaintainer,
    /// The maintainer element `<m>` is duplicated.
    DuplicateMaintainer,
    /// The summary element `<s>` is malformed at this index.
    ReadSummary(usize),
    /// The summary element `<s>` is missing.
    MissingSummary,
    /// The summary element `<s>` is duplicated.
    DuplicateSummary,
    /// The description element `<d>` is malformed at this index.
    ReadDescription(usize),
    /// The description element `<d>` is missing.
    MissingDescription,
    /// The description element `<d>` is duplicated.
    DuplicateDescription,
    /// The date element `<da>` is malformed at this index.
    ReadDate(usize),
    /// The date element `<da>` is missing.
    MissingDate,
    /// The date element `<da>` is duplicated.
    DuplicateDate,
    /// The release notes element `<n>` is malformed at this index.
    ReadReleaseNotes(usize),
    /// The release notes element `<n>` is missing.
    MissingReleaseNotes,
    /// The release notes element `<n>` is duplicated.
    DuplicateReleaseNotes,
    /// The archive size element `<f>` is malformed at this index.
    ReadArchiveSize(usize),
    /// The archive size element `<f>` is missing.
    MissingArchiveSize,
    /// The archive size element `<f>` is duplicated.
    DuplicateArchiveSize,
    /// The archive size element `<f>` does not hold an unsigned 64-bit number.
    InvalidArchiveSize,
    /// The archive link element `<g>` is malformed at this index.
    ReadArchiveLink(usize),
    /// The archive link element `<g>` is missing.
    MissingArchiveLink,
    /// The archive link element `<g>` is duplicated.
    DuplicateArchiveLink,
    /// The extracted link element `<x>` repeats its locator attribute at this index.
    ReadExtracted(usize),
    /// The extracted link element `<x>` is missing.
    MissingExtracted,
    /// The extracted link element `<x>` is duplicated.
    DuplicateExtracted,
    /// The extracted link element `<x>` is missing its locator attribute.
    InvalidExtracted,
}

/// Decoding a release from a whole document failed.
#[derive(Clone, Copy, Debug, PartialEq, Eq, PartialOrd, Ord, Hash, Structural)]
pub enum ReleaseFromRcDomError {
    /// The unique root element was not found.
    RootNotFound,
    /// The root was found but its contents did not decode.
    Read(ReleaseFromXmlNodeError),
}

/// The automaton state of the release decoder: one slot per field in
/// schema order.  The archive size is kept as text until the walk is done.
pub ghost struct ReleaseState {
    pub package: Option<ReleasePackageView>,
    pub channel: Option<Seq<char>>,
    pub version: Option<Seq<char>>,
    pub status: Option<Seq<char>>,
    pub license: Option<Seq<char>>,
    pub maintainer: Option<Seq<char>>,
    pub summary: Option<Seq<char>>,
    pub description: Option<Seq<char>>,
    pub date: Option<Seq<char>>,
    pub release_notes: Option<Seq<char>>,
    pub archive_size: Option<Seq<char>>,
    pub archive_link: Option<Seq<char>>,
    pub extracted: Option<Seq<char>>,
}

/// The empty state, before any child has been seen.
pub open spec fn release_init() -> ReleaseState {
    ReleaseState {
        package: None,
        channel: None,
        version: None,
        status: None,
        license: None,
        maintainer: None,
        summary: None,
        description: None,
        date: None,
        release_notes: None,
        archive_size: None,
        archive_link: None,
        extracted: None,
    }
}

/// One step of the release automaton on the child at index `i`.  The
/// thirteen fields form a strict chain; the package element additionally
/// needs exactly one locator attribute, and the terminal extracted-link
/// element carries its payload in that attribute alone.
pub open spec fn release_step(st: ReleaseState, node: XmlNode, i: usize) -> Result<
    ReleaseState,
    ReleaseFromXmlNodeError,
> {
    match node {
        XmlNode::Element(e) => {
            if elem_named(e, "p"@) {
                match elem_text(e) {
                    Err(()) => Err(ReleaseFromXmlNodeError::ReadPackage(i)),
                    Ok(t) => match link_attr_scan(e.attrs@) {
                        Err(_) => Err(ReleaseFromXmlNodeError::DuplicatePackageLink(i)),
                        Ok(None) => Err(ReleaseFromXmlNodeError::MissingPackageLink(i)),
                        Ok(Some(l)) => if st.package is Some {
                            Err(ReleaseFromXmlNodeError::DuplicatePackage)
                        } else {
                            Ok(
                                ReleaseState {
                                    package: Some(ReleasePackageView { name: t, link: l }),
                                    ..st
                                },
                            )
                        },
                    },
                }
            } else if elem_named(e, "c"@) {
                if st.package is None {
                    Err(ReleaseFromXmlNodeError::MissingPackage)
                } else {
                    match elem_text(e) {
                        Err(()) => Err(ReleaseFromXmlNodeError::ReadChannel(i)),
                        Ok(t) => if st.channel is Some {
                            Err(ReleaseFromXmlNodeError::DuplicateChannel)
                        } else {
                            Ok(ReleaseState { channel: Some(t), ..st })
                        },
                    }
                }
            } else if elem_named(e, "v"@) {
                if st.channel is None {
                    Err(ReleaseFromXmlNodeError::MissingChannel)
                } else {
                    match elem_text(e) {
                        Err(()) => Err(ReleaseFromXmlNodeError::ReadVersion(i)),
                        Ok(t) => if st.version is Some {
                            Err(ReleaseFromXmlNodeError::DuplicateVersion)
                        } else {
                            Ok(ReleaseState { version: Some(t), ..st })
                        },
                    }
                }
            } else if elem_named(e, "st"@) {
                if st.version is None {
                    Err(ReleaseFromXmlNodeError::MissingVersion)
                } else {
                    match elem_text(e) {
                        Err(()) => Err(ReleaseFromXmlNodeError::ReadStatus(i)),
                        Ok(t) => if st.status is Some {
                            Err(ReleaseFromXmlNodeError::DuplicateStatus)
                        } else {
                            Ok(ReleaseState { status: Some(t), ..st })
                        },
                    }
                }
            } else if elem_named(e, "l"@) {
                if st.status is None {
                    Err(ReleaseFromXmlNodeError::MissingStatus)
                } else {
                    match elem_text(e) {
                        Err(()) => Err(ReleaseFromXmlNodeError::ReadLicense(i)),
                        Ok(t) => if st.license is Some {
                            Err(ReleaseFromXmlNodeError::DuplicateLicense)
                        } else {
                            Ok(ReleaseState { license: Some(t), ..st })
                        },
                    }
                }
            } else if elem_named(e, "m"@) {
                if st.license is None {
                    Err(ReleaseFromXmlNodeError::MissingLicense)
                } else {
                    match elem_text(e) {
                        Err(()) => Err(ReleaseFromXmlNodeError::ReadMaintainer(i)),
                        Ok(t) => if st.maintainer is Some {
                            Err(ReleaseFromXmlNodeError::DuplicateMaintainer)
                        } else {
                            Ok(ReleaseState { maintainer: Some(t), ..st })
                        },
                    }
                }
            } else if elem_named(e, "s"@) {
                if st.maintainer is None {
                    Err(ReleaseFromXmlNodeError::MissingMaintainer)
                } else {
                    match elem_text(e) {
                        Err(()) => Err(ReleaseFromXmlNodeError::ReadSummary(i)),
                        Ok(t) => if st.summary is Some {
                            Err(ReleaseFromXmlNodeError::DuplicateSummary)
                        } else {
                            Ok(ReleaseState { summary: Some(t), ..st })
                        },
                    }
                }
            } else if elem_named(e, "d"@) {
                if st.summary is None {
                    Err(ReleaseFromXmlNodeError::MissingSummary)
                } else {
                    match elem_text(e) {
                        Err(()) => Err(ReleaseFromXmlNodeError::ReadDescription(i)),
                        Ok(t) => if st.description is Some {
                            Err(ReleaseFromXmlNodeError::DuplicateDescription)
                        } else {
                            Ok(ReleaseState { description: Some(t), ..st })
                        },
                    }
                }
            } else if elem_named(e, "da"@) {
                if st.description is None {
                    Err(ReleaseFromXmlNodeError::MissingDescription)
                } else {
                    match elem_text(e) {
                        Err(()) => Err(ReleaseFromXmlNodeError::ReadDate(i)),
                        Ok(t) => if st.date is Some {
                            Err(ReleaseFromXmlNodeError::DuplicateDate)
                        } else {
                            Ok(ReleaseState { date: Some(t), ..st })
                        },
                    }
                }
            } else if elem_named(e, "n"@) {
                if st.date is None {
                    Err(ReleaseFromXmlNodeError::MissingDate)
                } else {
                    match elem_text(e) {
                        Err(()) => Err(ReleaseFromXmlNodeError::ReadReleaseNotes(i)),
                        Ok(t) => if st.release_notes is Some {
                            Err(ReleaseFromXmlNodeError::DuplicateReleaseNotes)
                        } else {
                            Ok(ReleaseState { release_notes: Some(t), ..st })
                        },
                    }
                }
            } else if elem_named(e, "f"@) {
                if st.release_notes is None {
                    Err(ReleaseFromXmlNodeError::MissingReleaseNotes)
                } else {
                    match elem_text(e) {
                        Err(()) => Err(ReleaseFromXmlNodeError::ReadArchiveSize(i)),
                        Ok(t) => if st.archive_size is Some {
                            Err(ReleaseFromXmlNodeError::DuplicateArchiveSize)
                        } else {
                            Ok(ReleaseState { archive_size: Some(t), ..st })
                        },
                    }
                }
            } else if elem_named(e, "g"@) {
                if st.archive_size is None {
                    Err(ReleaseFromXmlNodeError::MissingArchiveSize)
                } else {
                    match elem_text(e) {
                        Err(()) => Err(ReleaseFromXmlNodeError::ReadArchiveLink(i)),
                        Ok(t) => if st.archive_link is Some {
                            Err(ReleaseFromXmlNodeError::DuplicateArchiveLink)
                        } else {
                            Ok(ReleaseState { archive_link: Some(t), ..st })
                        },
                    }
                }
            } else if elem_named(e, "x"@) {
                if st.archive_link is None {
                    Err(ReleaseFromXmlNodeError::MissingArchiveLink)
                } else {
                    match link_attr_scan(e.attrs@) {
                        Err(_) => Err(ReleaseFromXmlNodeError::ReadExtracted(i)),
                        Ok(None) => Err(ReleaseFromXmlNodeError::InvalidExtracted),
                        Ok(Some(l)) => if st.extracted is Some {
                            Err(ReleaseFromXmlNodeError::DuplicateExtracted)
                        } else {
                            Ok(ReleaseState { extracted: Some(l), ..st })
                        },
                    }
                }
            } else {
                Err(ReleaseFromXmlNodeError::ChildType(i))
            }
        },
        XmlNode::Text(_) => Ok(st),
        XmlNode::Comment(_) => Ok(st),
        XmlNode::Other => Err(ReleaseFromXmlNodeError::ChildType(i)),
    }
}

/// The release automaton run over the children in document order.
pub open spec fn release_walk(children: Seq<XmlNode>) -> Result<
    ReleaseState,
    ReleaseFromXmlNodeError,
>
    decreases children.len(),
{
    if children.len() == 0 {
        Ok(release_init())
    } else {
        match release_walk(children.drop_last()) {
            Err(e) => Err(e),
            Ok(st) => release_step(st, children.last(), (children.len() - 1) as usize),
        }
    }
}

/// Assemble a record from a finished walk: every field is mandatory,
/// checked in schema order, and the archive size text must parse as an
/// unsigned 64-bit number.
pub open spec fn release_finish(st: ReleaseState) -> Result<ReleaseView, ReleaseFromXmlNodeError> {
    if st.package is None {
        Err(ReleaseFromXmlNodeError::MissingPackage)
    } else if st.channel is None {
        Err(ReleaseFromXmlNodeError::MissingChannel)
    } else if st.version is None {
        Err(ReleaseFromXmlNodeError::MissingVersion)
    } else if st.status is None {
        Err(ReleaseFromXmlNodeError::MissingStatus)
    } else if st.license is None {
        Err(ReleaseFromXmlNodeError::MissingLicense)
    } else if st.maintainer is None {
        Err(ReleaseFromXmlNodeError::MissingMaintainer)
    } else if st.summary is None {
        Err(ReleaseFromXmlNodeError::MissingSummary)
    } else if st.description is None {
        Err(ReleaseFromXmlNodeError::MissingDescription)
    } else if st.date is None {
        Err(ReleaseFromXmlNodeError::MissingDate)
    } else if st.release_notes is None {
        Err(ReleaseFromXmlNodeError::MissingReleaseNotes)
    } else if st.archive_size is None {
        Err(ReleaseFromXmlNodeError::MissingArchiveSize)
    } else if parse_u64_spec(st.archive_size->0) is None {
        Err(ReleaseFromXmlNodeError::InvalidArchiveSize)
    } else if st.archive_link is None {
        Err(ReleaseFromXmlNodeError::MissingArchiveLink)
    } else if st.extracted is None {
        Err(ReleaseFromXmlNodeError::MissingExtracted)
    } else {
        Ok(
            ReleaseView {
                package: st.package->0,
                channel: st.channel->0,
                version: st.version->0,
                status: st.status->0,
                license: st.license->0,
                maintainer: st.maintainer->0,
                summary: st.summary->0,
                description: st.description->0,
                time: st.date->0,
                release_notes: st.release_notes->0,
                archive: ReleaseArchiveView {
                    size: parse_u64_spec(st.archive_size->0)->0,
                    link: st.archive_link->0,
                },
                extracted_link: st.extracted->0,
            },
        )
    }
}

/// What decoding the children of a release root element yields.
pub open spec fn decode_release(children: Seq<XmlNode>) -> Result<
    ReleaseView,
    ReleaseFromXmlNodeError,
> {
    match release_walk(children) {
        Err(e) => Err(e),
        Ok(st) => release_finish(st),
    }
}

proof fn lemma_release_walk_err_prefix(children: Seq<XmlNode>, k: int)
    requires
        0 <= k <= children.len(),
        release_walk(children.take(k)) is Err,
    ensures
        release_walk(children) == release_walk(children.take(k)),
    decreases children.len() - k,
{
    if k == children.len() {
        assert(children.take(k) =~= children);
    } else {
        assert(children.take(k + 1).drop_last() =~= children.take(k));
        lemma_release_walk_err_prefix(children, k + 1);
    }
}

/// LAW: the package element of a release carries exactly one locator
/// attribute.  With a clean walk up to a package element whose text reads,
/// an absent locator fails the decode naming the missing link, and a
/// repeated locator fails it naming the duplicated link, each with the
/// element's child index.
pub proof fn lemma_decode_release_package_link(children: Seq<XmlNode>, j: int, e: XmlElement)
    requires
        0 <= j < children.len(),
        children[j] == XmlNode::Element(e),
        elem_named(e, "p"@),
        elem_text(e) is Ok,
        release_walk(children.take(j)) is Ok,
    ensures
        link_attr_scan(e.attrs@) == Ok::<Option<Seq<char>>, DuplicateAttribute>(None)
            ==> decode_release(children) == Err::<ReleaseView, ReleaseFromXmlNodeError>(
            ReleaseFromXmlNodeError::MissingPackageLink(j as usize),
        ),
        link_attr_scan(e.attrs@) is Err ==> decode_release(children) == Err::<
            ReleaseView,
            ReleaseFromXmlNodeError,
        >(ReleaseFromXmlNodeError::DuplicatePackageLink(j as usize)),
{
    if link_attr_scan(e.attrs@) == Ok::<Option<Seq<char>>, DuplicateAttribute>(None)
        || link_attr_scan(e.attrs@) is Err {
        assert(children.take(j + 1).drop_last() =~= children.take(j));
        assert(children.take(j + 1).last() == children[j]);
        lemma_release_walk_err_prefix(children, j + 1);
    }
}

impl Release {
    /// Decode a release from the children of its root element.
    pub fn from_xml_node(node: &XmlElement) -> (r: Result<Self, ReleaseFromXmlNodeError>)
        ensures
            match r {
                Ok(rel) => decode_release(node.children@) == Ok::<
                    ReleaseView,
                    ReleaseFromXmlNodeError,
                >(rel@),
                Err(e) => decode_release(node.children@) == Err::<
                    ReleaseView,
                    ReleaseFromXmlNodeError,
                >(e),
            },
    {
        let mut package: Option<ReleasePackage> = None;
        let mut channel: Option<String> = None;
        let mut version: Option<String> = None;
        let mut status: Option<String> = None;
        let mut license: Option<String> = None;
        let mut maintainer: Option<String> = None;
        let mut summary: Option<String> = None;
        let mut description: Option<String> = None;
        let mut date: Option<String> = None;
        let mut release_notes: Option<String> = None;
        let mut archive_size: Option<String> = None;
        let mut archive_link: Option<String> = None;
        let mut extracted: Option<String> = None;
        let n: usize = node.children.len();
        let mut i: usize = 0;
        while i < n
            invariant
                n == node.children@.len(),
                i <= n,
                release_walk(node.children@.take(i as int)) == Ok::<
                    ReleaseState,
                    ReleaseFromXmlNodeError,
                >(
                    ReleaseState {
                        package: match package {
                            None => None,
                            Some(p) => Some(p@),
                        },
                        channel: channel.deep_view(),
                        version: version.deep_view(),
                        status: status.deep_view(),
                        license: license.deep_view(),
                        maintainer: maintainer.deep_view(),
                        summary: summary.deep_view(),
                        description: description.deep_view(),
                        date: date.deep_view(),
                        release_notes: release_notes.deep_view(),
                        archive_size: archive_size.deep_view(),
                        archive_link: archive_link.deep_view(),
                        extracted: extracted.deep_view(),
                    },
                ),
            decreases n - i,
        {
            proof {
                assert(node.children@.take(i + 1).drop_last() =~= node.children@.take(i as int));
                assert(node.children@.take(i + 1).last() == node.children@[i as int]);
            }
            let step_err: ReleaseFromXmlNodeError;
            match &node.children[i] {
                XmlNode::Element(e) => {
                    if is_named(&e.name, "p") {
                        match get_text(e) {
                            Err(()) => {
                                step_err = ReleaseFromXmlNodeError::ReadPackage(i);
                            },
                            Ok(t) => match get_link_attr(&e.attrs) {
                                Err(_) => {
                                    step_err = ReleaseFromXmlNodeError::DuplicatePackageLink(i);
                                },
                                Ok(None) => {
                                    step_err = ReleaseFromXmlNodeError::MissingPackageLink(i);
                                },
                                Ok(Some(l)) => {
                                    if package.is_some() {
                                        step_err = ReleaseFromXmlNodeError::DuplicatePackage;
                                    } else {
                                        package = Some(ReleasePackage { name: t, link: l });
                                        i = i + 1;
                                        continue ;
                                    }
                                },
                            },
                        }
                    } else if is_named(&e.name, "c") {
                        if channel.is_some() || package.is_none() {
                            if package.is_none() {
                                step_err = ReleaseFromXmlNodeError::MissingPackage;
                            } else {
                                match get_text(e) {
                                    Err(()) => {
                                        step_err = ReleaseFromXmlNodeError::ReadChannel(i);
                                    },
                                    Ok(_) => {
                                        step_err = ReleaseFromXmlNodeError::DuplicateChannel;
                                    },
                                }
                            }
                        } else {
                            match get_text(e) {
                                Err(()) => {
                                    step_err = ReleaseFromXmlNodeError::ReadChannel(i);
                                },
                                Ok(t) => {
                                    channel = Some(t);
                                    i = i + 1;
                                    continue ;
                                },
                            }
                        }
                    } else if is_named(&e.name, "v") {
                        if version.is_some() || channel.is_none() {
                            if channel.is_none() {
                                step_err = ReleaseFromXmlNodeError::MissingChannel;
                            } else {
                                match get_text(e) {
                                    Err(()) => {
                                        step_err = ReleaseFromXmlNodeError::ReadVersion(i);
                                    },
                                    Ok(_) => {
                                        step_err = ReleaseFromXmlNodeError::DuplicateVersion;
                                    },
                                }
                            }
                        } else {
                            match get_text(e) {
                                Err(()) => {
                                    step_err = ReleaseFromXmlNodeError::ReadVersion(i);
                                },
                                Ok(t) => {
                                    version = Some(t);
                                    i = i + 1;
                                    continue ;
                                },
                            }
                        }
                    } else if is_named(&e.name, "st") {
                        if status.is_some() || version.is_none() {
                            if version.is_none() {
                                step_err = ReleaseFromXmlNodeError::MissingVersion;
                            } else {
                                match get_text(e) {
                                    Err(()) => {
                                        step_err = ReleaseFromXmlNodeError::ReadStatus(i);
                                    },
                                    Ok(_) => {
                                        step_err = ReleaseFromXmlNodeError::DuplicateStatus;
                                    },
                                }
                            }
                        } else {
                            match get_text(e) {
                                Err(()) => {
                                    step_err = ReleaseFromXmlNodeError::ReadStatus(i);
                                },
                                Ok(t) => {
                                    status = Some(t);
                                    i = i + 1;
                                    continue ;
                                },
                            }
                        }
                    } else if is_named(&e.name, "l") {
                        if license.is_some() || status.is_none() {
                            if status.is_none() {
                                step_err = ReleaseFromXmlNodeError::MissingStatus;
                            } else {
                                match get_text(e) {
                                    Err(()) => {
                                        step_err = ReleaseFromXmlNodeError::ReadLicense(i);
                                    },
                                    Ok(_) => {
                                        step_err = ReleaseFromXmlNodeError::DuplicateLicense;
                                    },
                                }
                            }
                        } else {
                            match get_text(e) {
                                Err(()) => {
                                    step_err = ReleaseFromXmlNodeError::ReadLicense(i);
                                },
                                Ok(t) => {
                                    license = Some(t);
                                    i = i + 1;
                                    continue ;
                                },
                            }
                        }
                    } else if is_named(&e.name, "m") {
                        if maintainer.is_some() || license.is_none() {
                            if license.is_none() {
                                step_err = ReleaseFromXmlNodeError::MissingLicense;
                            } else {
                                match get_text(e) {
                                    Err(()) => {
                                        step_err = ReleaseFromXmlNodeError::ReadMaintainer(i);
                                    },
                                    Ok(_) => {
                                        step_err = ReleaseFromXmlNodeError::DuplicateMaintainer;
                                    },
                                }
                            }
                        } else {
                            match get_text(e) {
                                Err(()) => {
                                    step_err = ReleaseFromXmlNodeError::ReadMaintainer(i);
                                },
                                Ok(t) => {
                                    maintainer = Some(t);
                                    i = i + 1;
                                    continue ;
                                },
                            }
                        }
                    } else if is_named(&e.name, "s") {
                        if summary.is_some() || maintainer.is_none() {
                            if maintainer.is_none() {
                                step_err = ReleaseFromXmlNodeError::MissingMaintainer;
                            } else {
                                match get_text(e) {
                                    Err(()) => {
                                        step_err = ReleaseFromXmlNodeError::ReadSummary(i);
                                    },
                                    Ok(_) => {
                                        step_err = ReleaseFromXmlNodeError::DuplicateSummary;
                                    },
                                }
                            }
                        } else {
                            match get_text(e) {
                                Err(()) => {
                                    step_err = ReleaseFromXmlNodeError::ReadSummary(i);
                                },
                                Ok(t) => {
                                    summary = Some(t);
                                    i = i + 1;
                                    continue ;
                                },
                            }
                        }
                    } else if is_named(&e.name, "d") {
                        if description.is_some() || summary.is_none() {
                            if summary.is_none() {
                                step_err = ReleaseFromXmlNodeError::MissingSummary;
                            } else {
                                match get_text(e) {
                                    Err(()) => {
                                        step_err = ReleaseFromXmlNodeError::ReadDescription(i);
                                    },
                                    Ok(_) => {
                                        step_err = ReleaseFromXmlNodeError::DuplicateDescription;
                                    },
                                }
                            }
                        } else {
                            match get_text(e) {
                                Err(()) => {
                                    step_err = ReleaseFromXmlNodeError::ReadDescription(i);
                                },
                                Ok(t) => {
                                    description = Some(t);
                                    i = i + 1;
                                    continue ;
                                },
                            }
                        }
                    } else if is_named(&e.name, "da") {
                        if date.is_some() || description.is_none() {
                            if description.is_none() {
                                step_err = ReleaseFromXmlNodeError::MissingDescription;
                            } else {
                                match get_text(e) {
                                    Err(()) => {
                                        step_err = ReleaseFromXmlNodeError::ReadDate(i);
                                    },
                                    Ok(_) => {
                                        step_err = ReleaseFromXmlNodeError::DuplicateDate;
                                    },
                                }
                            }
                        } else {
                            match get_text(e) {
                                Err(()) => {
                                    step_err = ReleaseFromXmlNodeError::ReadDate(i);
                                },
                                Ok(t) => {
                                    date = Some(t);
                                    i = i + 1;
                                    continue ;
                                },
                            }
                        }
                    } else if is_named(&e.name, "n") {
                        if release_notes.is_some() || date.is_none() {
                            if date.is_none() {
                                step_err = ReleaseFromXmlNodeError::MissingDate;
                            } else {
                                match get_text(e) {
                                    Err(()) => {
                                        step_err = ReleaseFromXmlNodeError::ReadReleaseNotes(i);
                                    },
                                    Ok(_) => {
                                        step_err = ReleaseFromXmlNodeError::DuplicateReleaseNotes;
                                    },
                                }
                            }
                        } else {
                            match get_text(e) {
                                Err(()) => {
                                    step_err = ReleaseFromXmlNodeError::ReadReleaseNotes(i);
                                },
                                Ok(t) => {
                                    release_notes = Some(t);
                                    i = i + 1;
                                    continue ;
                                },
                            }
                        }
                    } else if is_named(&e.name, "f") {
                        if archive_size.is_some() || release_notes.is_none() {
                            if release_notes.is_none() {
                                step_err = ReleaseFromXmlNodeError::MissingReleaseNotes;
                            } else {
                                match get_text(e) {
                                    Err(()) => {
                                        step_err = ReleaseFromXmlNodeError::ReadArchiveSize(i);
                                    },
                                    Ok(_) => {
                                        step_err = ReleaseFromXmlNodeError::DuplicateArchiveSize;
                                    },
                                }
                            }
                        } else {
                            match get_text(e) {
                                Err(()) => {
                                    step_err = ReleaseFromXmlNodeError::ReadArchiveSize(i);
                                },
                                Ok(t) => {
                                    archive_size = Some(t);
                                    i = i + 1;
                                    continue ;
                                },
                            }
                        }
                    } else if is_named(&e.name, "g") {
                        if archive_link.is_some() || archive_size.is_none() {
                            if archive_size.is_none() {
                                step_err = ReleaseFromXmlNodeError::MissingArchiveSize;
                            } else {
                                match get_text(e) {
                                    Err(()) => {
                                        step_err = ReleaseFromXmlNodeError::ReadArchiveLink(i);
                                    },
                                    Ok(_) => {
                                        step_err = ReleaseFromXmlNodeError::DuplicateArchiveLink;
                                    },
                                }
                            }
                        } else {
                            match get_text(e) {
                                Err(()) => {
                                    step_err = ReleaseFromXmlNodeError::ReadArchiveLink(i);
                                },
                                Ok(t) => {
                                    archive_link = Some(t);
                                    i = i + 1;
                                    continue ;
                                },
                            }
                        }
                    } else if is_named(&e.name, "x") {
                        if archive_link.is_none() {
                            step_err = ReleaseFromXmlNodeError::MissingArchiveLink;
                        } else {
                            match get_link_attr(&e.attrs) {
                                Err(_) => {
                                    step_err = ReleaseFromXmlNodeError::ReadExtracted(i);
                                },
                                Ok(None) => {
                                    step_err = ReleaseFromXmlNodeError::InvalidExtracted;
                                },
                                Ok(Some(l)) => {
                                    if extracted.is_some() {
                                        step_err = ReleaseFromXmlNodeError::DuplicateExtracted;
                                    } else {
                                        extracted = Some(l);
                                        i = i + 1;
                                        continue ;
                                    }
                                },
                            }
                        }
                    } else {
                        step_err = ReleaseFromXmlNodeError::ChildType(i);
                    }
                },
                XmlNode::Text(_) => {
                    i = i + 1;
                    continue ;
                },
                XmlNode::Comment(_) => {
                    i = i + 1;
                    continue ;
                },
                XmlNode::Other => {
                    step_err = ReleaseFromXmlNodeError::ChildType(i);
                },
            }
            proof {
                lemma_release_walk_err_prefix(node.children@, i + 1);
            }
            return Err(step_err);
        }
        proof {
            assert(node.children@.take(n as int) =~= node.children@);
        }
        if package.is_none() {
            return Err(ReleaseFromXmlNodeError::MissingPackage);
        }
        if channel.is_none() {
            return Err(ReleaseFromXmlNodeError::MissingChannel);
        }
        if version.is_none() {
            return Err(ReleaseFromXmlNodeError::MissingVersion);
        }
        if status.is_none() {
            return Err(ReleaseFromXmlNodeError::MissingStatus);
        }
        if license.is_none() {
            return Err(ReleaseFromXmlNodeError::MissingLicense);
        }
        if maintainer.is_none() {
            return Err(ReleaseFromXmlNodeError::MissingMaintainer);
        }
        if summary.is_none() {
            return Err(ReleaseFromXmlNodeError::MissingSummary);
        }
        if description.is_none() {
            return Err(ReleaseFromXmlNodeError::MissingDescription);
        }
        if date.is_none() {
            return Err(ReleaseFromXmlNodeError::MissingDate);
        }
        if release_notes.is_none() {
            return Err(ReleaseFromXmlNodeError::MissingReleaseNotes);
        }
        let size: u64 = match &archive_size {
            None => {
                return Err(ReleaseFromXmlNodeError::MissingArchiveSize);
            },
            Some(t) => match parse_u64(t.as_str()) {
                None => {
                    return Err(ReleaseFromXmlNodeError::InvalidArchiveSize);
                },
                Some(size) => size,
            },
        };
        if archive_link.is_none() {
            return Err(ReleaseFromXmlNodeError::MissingArchiveLink);
        }
        if extracted.is_none() {
            return Err(ReleaseFromXmlNodeError::MissingExtracted);
        }
        match (package, channel, version, status, license, maintainer, summary, description, date,
            release_notes, archive_link, extracted) {
            (Some(package), Some(channel), Some(version), Some(status), Some(license), Some(
                maintainer,
            ), Some(summary), Some(description), Some(time), Some(release_notes), Some(
                archive_link,
            ), Some(extracted_link)) => Ok(
                Release {
                    package,
                    channel,
                    version,
                    status,
                    license,
                    maintainer,
                    summary,
                    description,
                    time,
                    release_notes,
                    archive: ReleaseArchive { size, link: archive_link },
                    extracted_link,
                },
            ),
            _ => {
                proof {
                    assert(false);
                }
                Err(ReleaseFromXmlNodeError::MissingPackage)
            },
        }
    }

    /// Decode a release from a whole document: find the unique root
    /// element named `r`, then decode its children.
    pub fn from_rc_dom(doc: &XmlDocument) -> (r: Result<Self, ReleaseFromRcDomError>)
        ensures
            match r {
                Ok(rel) => find_root_spec(doc.children@, "r"@) matches Ok(idx)
                    && doc.children@[idx] matches XmlNode::Element(root) && decode_release(
                    root.children@,
                ) == Ok::<ReleaseView, ReleaseFromXmlNodeError>(rel@),
                Err(ReleaseFromRcDomError::RootNotFound) => find_root_spec(
                    doc.children@,
                    "r"@,
                ) is Err,
                Err(ReleaseFromRcDomError::Read(e)) => find_root_spec(doc.children@, "r"@)
                    matches Ok(idx) && doc.children@[idx] matches XmlNode::Element(root)
                    && decode_release(root.children@) == Err::<ReleaseView, ReleaseFromXmlNodeError>(
                    e,
                ),
            },
    {
        let root = match find_root(doc, "r") {
            Ok(root) => root,
            Err(_) => {
                return Err(ReleaseFromRcDomError::RootNotFound);
            },
        };
        match Self::from_xml_node(root) {
            Ok(rel) => Ok(rel),
            Err(e) => Err(ReleaseFromRcDomError::Read(e)),
        }
    }
}

/// An ASCII decimal digit.
pub open spec fn is_ascii_digit(c: char) -> bool {
    '0' <= c && c <= '9'
}

/// The numeric value of one digit character.
pub open spec fn digit_value(c: char) -> int {
    c as int - 48
}

/// Every character of the string is an ASCII decimal digit.
pub open spec fn all_ascii_digits(s: Seq<char>) -> bool {
    forall|i: int| 0 <= i < s.len() ==> is_ascii_digit(s[i])
}

/// The number denoted by a digit string, most significant digit first.
pub open spec fn digits_value(s: Seq<char>) -> int
    decreases s.len(),
{
    if s.len() == 0 {
        0
    } else {
        digits_value(s.drop_last()) * 10 + digit_value(s.last())
    }
}

/// What an unsigned 64-bit decimal parse accepts: an optional leading
/// plus sign, then one or more digits whose value fits in 64 bits.
pub open spec fn parse_u64_spec(s: Seq<char>) -> Option<u64> {
    let digits = if s.len() > 0 && s[0] == '+' {
        s.subrange(1, s.len() as int)
    } else {
        s
    };
    if digits.len() > 0 && all_ascii_digits(digits) && digits_value(digits) <= u64::MAX {
        Some(digits_value(digits) as u64)
    } else {
        None
    }
}

proof fn lemma_digits_value_nonneg(s: Seq<char>)
    requires
        all_ascii_digits(s),
    ensures
        digits_value(s) >= 0,
    decreases s.len(),
{
    if s.len() > 0 {
        assert(all_ascii_digits(s.drop_last()));
        lemma_digits_value_nonneg(s.drop_last());
    }
}

/// A digit string is worth at least any of its prefixes.
proof fn lemma_digits_value_mono(s: Seq<char>, k: int)
    requires
        all_ascii_digits(s),
        0 <= k <= s.len(),
    ensures
        digits_value(s.take(k)) <= digits_value(s),
    decreases s.len() - k,
{
    if k == s.len() {
        assert(s.take(k) =~= s);
    } else {
        assert(s.take(k + 1).drop_last() =~= s.take(k));
        assert(all_ascii_digits(s.take(k)));
        lemma_digits_value_nonneg(s.take(k));
        lemma_digits_value_mono(s, k + 1);
    }
}

/// Parse an unsigned 64-bit decimal number: an optional leading plus sign,
/// then one or more digits; anything else, or a value over the 64-bit
/// range, is rejected.
pub fn parse_u64(s: &str) -> (r: Option<u64>)
    ensures
        r == parse_u64_spec(s@),
{
    let len: usize = s.unicode_len();
    let mut start: usize = 0;
    if len > 0 && s.get_char(0) == '+' {
        start = 1;
    }
    let ghost digits: Seq<char> = if s@.len() > 0 && s@[0] == '+' {
        s@.subrange(1, s@.len() as int)
    } else {
        s@
    };
    if start == len {
        return None;
    }
    let mut acc: u64 = 0;
    let mut i: usize = start;
    proof {
        assert(s@.subrange(start as int, start as int) =~= digits.take(0));
    }
    while i < len
        invariant
            start <= i <= len,
            len == s@.len(),
            start == 1 <==> (s@.len() > 0 && s@[0] == '+'),
            start <= 1,
            digits == s@.subrange(start as int, len as int),
            all_ascii_digits(digits.take(i - start)),
            acc == digits_value(digits.take(i - start)),
        decreases len - i,
    {
        proof {
            assert(s@.subrange(0, s@.len() as int) =~= s@);
            assert(digits.take(i - start + 1).drop_last() =~= digits.take(i - start));
            assert(digits[i - start] == s@[i as int]);
        }
        let c: char = s.get_char(i);
        let cu: u32 = c as u32;
        if !(48 <= cu && cu <= 57) {
            return None;
        }
        let d: u64 = (cu - 48) as u64;
        proof {
            assert(digits.take(i - start + 1).last() == digits[i - start]);
            assert(digit_value(digits[i - start]) == d as int);
            assert(digits_value(digits.take(i - start + 1)) == acc * 10 + d);
        }
        let shifted: u64 = match acc.checked_mul(10) {
            Some(x) => match x.checked_add(d) {
                Some(y) => y,
                None => {
                    proof {
                        if all_ascii_digits(digits) {
                            lemma_digits_value_mono(digits, i - start + 1);
                            assert(digits_value(digits) > u64::MAX);
                        }
                    }
                    return None;
                },
            },
            None => {
                proof {
                    if all_ascii_digits(digits) {
                        lemma_digits_value_mono(digits, i - start + 1);
                        assert(digits_value(digits) > u64::MAX);
                    }
                }
                return None;
            },
        };
        acc = shifted;
        i = i + 1;
    }
    proof {
        assert(digits.take(len - start) =~= digits);
    }
    Some(acc)
}

} // verus!

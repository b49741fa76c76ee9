use pear_client::common::package::{PackageListing, PackageListingFromRcDomError, PackageListingFromXmlNodeError};
use pear_client::xml_util::{QName, XmlDocument, XmlElement, XmlNode};

fn qname(local: &str) -> QName {
    QName { ns: String::new(), prefix: None, local: local.to_string() }
}

fn elem(local: &str, children: Vec<XmlNode>) -> XmlElement {
    XmlElement { name: qname(local), attrs: vec![], children }
}

fn text_elem(local: &str, text: &str) -> XmlNode {
    XmlNode::Element(elem(local, vec![XmlNode::Text(text.to_string())]))
}

#[test]
fn listing_well_formed_preserves_order() {
    let root = elem(
        "a",
        vec![
            text_elem("c", "pecl.php.net"),
            text_elem("p", "alpha"),
            XmlNode::Comment("ignored".to_string()),
            text_elem("p", "beta"),
            XmlNode::Text("\n  ".to_string()),
            text_elem("p", "gamma"),
        ],
    );
    let listing = PackageListing::from_xml_node(&root).unwrap();
    assert_eq!(listing.category.as_str(), "pecl.php.net");
    assert_eq!(listing.items.len(), 3);
    assert_eq!(listing.items[0].as_str(), "alpha");
    assert_eq!(listing.items[1].as_str(), "beta");
    assert_eq!(listing.items[2].as_str(), "gamma");
}

#[test]
fn listing_with_no_packages_is_empty() {
    let root = elem("a", vec![text_elem("c", "pecl.php.net")]);
    let listing = PackageListing::from_xml_node(&root).unwrap();
    assert_eq!(listing.category.as_str(), "pecl.php.net");
    assert_eq!(listing.items.len(), 0);
}

#[test]
fn listing_missing_category_fails() {
    let root = elem("a", vec![]);
    let err = PackageListing::from_xml_node(&root).unwrap_err();
    assert_eq!(err, PackageListingFromXmlNodeError::MissingCategory);
}

#[test]
fn listing_package_before_category_fails() {
    let root = elem("a", vec![text_elem("p", "alpha"), text_elem("c", "pecl.php.net")]);
    let err = PackageListing::from_xml_node(&root).unwrap_err();
    assert_eq!(err, PackageListingFromXmlNodeError::MissingCategory);
}

#[test]
fn listing_duplicate_category_fails() {
    let root = elem(
        "a",
        vec![text_elem("c", "pecl.php.net"), text_elem("p", "alpha"), text_elem("c", "pear.php.net")],
    );
    let err = PackageListing::from_xml_node(&root).unwrap_err();
    assert_eq!(err, PackageListingFromXmlNodeError::DuplicateCategory);
}

#[test]
fn listing_unknown_element_fails_with_index() {
    let root = elem("a", vec![text_elem("c", "pecl.php.net"), text_elem("zz", "odd")]);
    let err = PackageListing::from_xml_node(&root).unwrap_err();
    assert_eq!(err, PackageListingFromXmlNodeError::ChildType(1));
}

#[test]
fn listing_category_with_two_text_children_fails_with_index() {
    let bad = XmlNode::Element(elem(
        "c",
        vec![
            XmlNode::Text("one".to_string()),
            XmlNode::Comment("x".to_string()),
            XmlNode::Text("two".to_string()),
        ],
    ));
    let root = elem("a", vec![bad]);
    let err = PackageListing::from_xml_node(&root).unwrap_err();
    assert_eq!(err, PackageListingFromXmlNodeError::ReadCategory(0));
}

#[test]
fn listing_tags_match_case_insensitively() {
    let root = elem("a", vec![text_elem("C", "pecl.php.net"), text_elem("P", "alpha")]);
    let listing = PackageListing::from_xml_node(&root).unwrap();
    assert_eq!(listing.category.as_str(), "pecl.php.net");
    assert_eq!(listing.items.len(), 1);
    assert_eq!(listing.items[0].as_str(), "alpha");
}

#[test]
fn listing_empty_category_element_reads_empty_string() {
    let root = elem("a", vec![XmlNode::Element(elem("c", vec![]))]);
    let listing = PackageListing::from_xml_node(&root).unwrap();
    assert_eq!(listing.category.as_str(), "");
}

#[test]
fn listing_from_document_finds_root() {
    let doc = XmlDocument {
        children: vec![
            XmlNode::Comment("preamble".to_string()),
            XmlNode::Element(elem("a", vec![text_elem("c", "pecl.php.net")])),
        ],
    };
    let listing = PackageListing::from_rc_dom(&doc).unwrap();
    assert_eq!(listing.category.as_str(), "pecl.php.net");
}

#[test]
fn listing_from_document_without_root_fails() {
    let doc = XmlDocument { children: vec![XmlNode::Comment("nothing here".to_string())] };
    let err = PackageListing::from_rc_dom(&doc).unwrap_err();
    assert_eq!(err, PackageListingFromRcDomError::RootNotFound);
}

#[test]
fn listing_from_document_with_two_roots_fails() {
    let doc = XmlDocument {
        children: vec![
            XmlNode::Element(elem("a", vec![text_elem("c", "one")])),
            XmlNode::Element(elem("a", vec![text_elem("c", "two")])),
        ],
    };
    let err = PackageListing::from_rc_dom(&doc).unwrap_err();
    assert_eq!(err, PackageListingFromRcDomError::RootNotFound);
}

#[test]
fn listing_prefixed_root_is_not_a_root() {
    let mut root = elem("a", vec![text_elem("c", "pecl.php.net")]);
    root.name.prefix = Some("ns".to_string());
    let doc = XmlDocument { children: vec![XmlNode::Element(root)] };
    let err = PackageListing::from_rc_dom(&doc).unwrap_err();
    assert_eq!(err, PackageListingFromRcDomError::RootNotFound);
}

#[test]
fn listing_canonical_channel_shape() {
    let mut children: Vec<XmlNode> = vec![text_elem("c", "pecl.php.net")];
    for i in 0..434 {
        children.push(text_elem("p", &format!("package{i}")));
    }
    let root = elem("a", children);
    let listing = PackageListing::from_xml_node(&root).unwrap();
    assert_eq!(listing.category.as_str(), "pecl.php.net");
    assert_eq!(listing.items.len(), 434);
    assert_eq!(listing.items[0].as_str(), "package0");
    assert_eq!(listing.items[433].as_str(), "package433");
}

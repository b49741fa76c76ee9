use pear_client::common::release::{
    parse_u64, Release, ReleaseFromXmlNodeError, ReleaseListing, ReleaseListingFromXmlNodeError,
    ShortRelease, ShortReleaseFromXmlNodeError,
};
use pear_client::xml_util::{QName, XmlAttr, XmlDocument, XmlElement, XmlNode};

fn qname(local: &str) -> QName {
    QName { ns: String::new(), prefix: None, local: local.to_string() }
}

fn elem(local: &str, children: Vec<XmlNode>) -> XmlElement {
    XmlElement { name: qname(local), attrs: vec![], children }
}

fn text_elem(local: &str, text: &str) -> XmlNode {
    XmlNode::Element(elem(local, vec![XmlNode::Text(text.to_string())]))
}

fn href_attr(value: &str) -> XmlAttr {
    XmlAttr {
        name: QName {
            ns: "http://www.w3.org/1999/xlink".to_string(),
            prefix: Some("xlink".to_string()),
            local: "href".to_string(),
        },
        value: value.to_string(),
    }
}

fn linked_text_elem(local: &str, text: &str, links: &[&str]) -> XmlNode {
    let mut e = elem(local, vec![XmlNode::Text(text.to_string())]);
    for link in links {
        e.attrs.push(href_attr(link));
    }
    XmlNode::Element(e)
}

fn linked_elem(local: &str, links: &[&str]) -> XmlNode {
    let mut e = elem(local, vec![]);
    for link in links {
        e.attrs.push(href_attr(link));
    }
    XmlNode::Element(e)
}

fn short_release_block(version: &str, stability: &str) -> XmlNode {
    XmlNode::Element(elem("r", vec![text_elem("v", version), text_elem("s", stability)]))
}

fn release_fields(size_text: &str) -> Vec<XmlNode> {
    vec![
        linked_text_elem("p", "protobuf", &["/rest/p/protobuf"]),
        text_elem("c", "pecl.php.net"),
        text_elem("v", "4.27.0"),
        text_elem("st", "stable"),
        text_elem("l", "BSD-3-Clause"),
        text_elem("m", "someone"),
        text_elem("s", "Protocol buffers"),
        text_elem("d", "Serialization."),
        text_elem("da", "2024-05-23 10:52:09"),
        text_elem("n", "release notes here"),
        text_elem("f", size_text),
        text_elem("g", "https://pecl.php.net/get/protobuf-4.27.0"),
        linked_elem("x", &["/rest/r/protobuf/v2.4.27.0"]),
    ]
}

#[test]
fn short_release_decodes() {
    let root = elem("r", vec![text_elem("v", "4.27.0"), text_elem("s", "stable")]);
    let short = ShortRelease::from_xml_node(&root).unwrap();
    assert_eq!(short.version.as_str(), "4.27.0");
    assert_eq!(short.stability.as_str(), "stable");
}

#[test]
fn short_release_stability_before_version_fails() {
    let root = elem("r", vec![text_elem("s", "stable"), text_elem("v", "4.27.0")]);
    let err = ShortRelease::from_xml_node(&root).unwrap_err();
    assert_eq!(err, ShortReleaseFromXmlNodeError::MissingVersion);
}

#[test]
fn release_listing_decodes_in_order() {
    let root = elem(
        "a",
        vec![
            text_elem("p", "protobuf"),
            text_elem("c", "pecl.php.net"),
            short_release_block("4.27.0", "stable"),
            short_release_block("4.26.1", "stable"),
            short_release_block("4.28.0RC1", "beta"),
        ],
    );
    let listing = ReleaseListing::from_xml_node(&root).unwrap();
    assert_eq!(listing.package.as_str(), "protobuf");
    assert_eq!(listing.channel.as_str(), "pecl.php.net");
    assert_eq!(listing.items.len(), 3);
    assert_eq!(listing.items[0].version.as_str(), "4.27.0");
    assert_eq!(listing.items[1].version.as_str(), "4.26.1");
    assert_eq!(listing.items[2].stability.as_str(), "beta");
}

#[test]
fn release_listing_wraps_nested_failure_with_block_index() {
    let bad_block = XmlNode::Element(elem("r", vec![text_elem("s", "stable")]));
    let root = elem(
        "a",
        vec![text_elem("p", "protobuf"), text_elem("c", "pecl.php.net"), bad_block],
    );
    let err = ReleaseListing::from_xml_node(&root).unwrap_err();
    assert_eq!(
        err,
        ReleaseListingFromXmlNodeError::ReadRelease(ShortReleaseFromXmlNodeError::MissingVersion, 2),
    );
}

#[test]
fn short_release_unknown_element_fails_with_index() {
    let root = elem(
        "r",
        vec![text_elem("v", "4.27.0"), text_elem("zz", "odd"), text_elem("s", "stable")],
    );
    let err = ShortRelease::from_xml_node(&root).unwrap_err();
    assert_eq!(err, ShortReleaseFromXmlNodeError::ChildType(1));
}

#[test]
fn release_listing_channel_before_package_fails() {
    let root = elem("a", vec![text_elem("c", "pecl.php.net"), text_elem("p", "protobuf")]);
    let err = ReleaseListing::from_xml_node(&root).unwrap_err();
    assert_eq!(err, ReleaseListingFromXmlNodeError::MissingPackage);
}

#[test]
fn release_listing_block_before_channel_fails() {
    let root = elem("a", vec![text_elem("p", "protobuf"), short_release_block("1.0.0", "stable")]);
    let err = ReleaseListing::from_xml_node(&root).unwrap_err();
    assert_eq!(err, ReleaseListingFromXmlNodeError::MissingChannel);
}

#[test]
fn release_listing_canonical_shape() {
    let mut children: Vec<XmlNode> = vec![text_elem("p", "protobuf"), text_elem("c", "pecl.php.net")];
    for i in 0..141 {
        children.push(short_release_block(&format!("4.{i}.0"), "stable"));
    }
    let root = elem("a", children);
    let listing = ReleaseListing::from_xml_node(&root).unwrap();
    assert_eq!(listing.channel.as_str(), "pecl.php.net");
    assert_eq!(listing.items.len(), 141);
    assert_eq!(listing.items[140].version.as_str(), "4.140.0");
}

#[test]
fn release_decodes_fully() {
    let root = elem("r", release_fields("12345"));
    let release = Release::from_xml_node(&root).unwrap();
    assert_eq!(release.package.name.as_str(), "protobuf");
    assert_eq!(release.package.link.as_str(), "/rest/p/protobuf");
    assert_eq!(release.channel.as_str(), "pecl.php.net");
    assert_eq!(release.version.as_str(), "4.27.0");
    assert_eq!(release.status.as_str(), "stable");
    assert_eq!(release.license.as_str(), "BSD-3-Clause");
    assert_eq!(release.maintainer.as_str(), "someone");
    assert_eq!(release.summary.as_str(), "Protocol buffers");
    assert_eq!(release.description.as_str(), "Serialization.");
    assert_eq!(release.time.as_str(), "2024-05-23 10:52:09");
    assert_eq!(release.release_notes.as_str(), "release notes here");
    assert_eq!(release.archive.size, 12345);
    assert_eq!(release.archive.link.as_str(), "https://pecl.php.net/get/protobuf-4.27.0");
    assert_eq!(release.extracted_link.as_str(), "/rest/r/protobuf/v2.4.27.0");
}

#[test]
fn release_from_document_finds_root() {
    let doc = XmlDocument {
        children: vec![XmlNode::Element(elem("r", release_fields("12345")))],
    };
    let release = Release::from_rc_dom(&doc).unwrap();
    assert_eq!(release.channel.as_str(), "pecl.php.net");
}

#[test]
fn release_archive_size_with_letters_fails() {
    let root = elem("r", release_fields("12xyz"));
    let err = Release::from_xml_node(&root).unwrap_err();
    assert_eq!(err, ReleaseFromXmlNodeError::InvalidArchiveSize);
}

#[test]
fn release_archive_size_negative_fails() {
    let root = elem("r", release_fields("-1"));
    let err = Release::from_xml_node(&root).unwrap_err();
    assert_eq!(err, ReleaseFromXmlNodeError::InvalidArchiveSize);
}

#[test]
fn release_package_without_link_fails() {
    let mut fields = release_fields("12345");
    fields[0] = text_elem("p", "protobuf");
    let root = elem("r", fields);
    let err = Release::from_xml_node(&root).unwrap_err();
    assert_eq!(err, ReleaseFromXmlNodeError::MissingPackageLink(0));
}

#[test]
fn release_package_with_two_links_fails() {
    let mut fields = release_fields("12345");
    fields[0] = linked_text_elem("p", "protobuf", &["/rest/p/protobuf", "/rest/p/protobuf2"]);
    let root = elem("r", fields);
    let err = Release::from_xml_node(&root).unwrap_err();
    assert_eq!(err, ReleaseFromXmlNodeError::DuplicatePackageLink(0));
}

#[test]
fn release_extracted_without_link_fails() {
    let mut fields = release_fields("12345");
    fields[12] = XmlNode::Element(elem("x", vec![]));
    let root = elem("r", fields);
    let err = Release::from_xml_node(&root).unwrap_err();
    assert_eq!(err, ReleaseFromXmlNodeError::InvalidExtracted);
}

#[test]
fn release_version_before_channel_fails() {
    let mut fields = release_fields("12345");
    fields.swap(1, 2);
    let root = elem("r", fields);
    let err = Release::from_xml_node(&root).unwrap_err();
    assert_eq!(err, ReleaseFromXmlNodeError::MissingChannel);
}

#[test]
fn release_missing_status_reported_in_schema_order() {
    let mut fields = release_fields("12345");
    fields.remove(3);
    let root = elem("r", fields);
    let err = Release::from_xml_node(&root).unwrap_err();
    assert_eq!(err, ReleaseFromXmlNodeError::MissingStatus);
}

#[test]
fn parse_u64_accepts_plain_digits() {
    assert_eq!(parse_u64("12345"), Some(12345));
    assert_eq!(parse_u64("0"), Some(0));
    assert_eq!(parse_u64("+7"), Some(7));
    assert_eq!(parse_u64("18446744073709551615"), Some(u64::MAX));
}

#[test]
fn parse_u64_rejects_bad_input() {
    assert_eq!(parse_u64(""), None);
    assert_eq!(parse_u64("+"), None);
    assert_eq!(parse_u64("12xyz"), None);
    assert_eq!(parse_u64("-1"), None);
    assert_eq!(parse_u64(" 12"), None);
    assert_eq!(parse_u64("18446744073709551616"), None);
}

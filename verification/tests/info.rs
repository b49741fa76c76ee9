use pear_client::common::package::{PackageInfo, PackageInfoFromXmlNodeError};
use pear_client::xml_util::{QName, XmlElement, XmlNode};

fn qname(local: &str) -> QName {
    QName { ns: String::new(), prefix: None, local: local.to_string() }
}

fn elem(local: &str, children: Vec<XmlNode>) -> XmlElement {
    XmlElement { name: qname(local), attrs: vec![], children }
}

fn text_elem(local: &str, text: &str) -> XmlNode {
    XmlNode::Element(elem(local, vec![XmlNode::Text(text.to_string())]))
}

fn mandatory_fields() -> Vec<XmlNode> {
    vec![
        text_elem("n", "protobuf"),
        text_elem("c", "pecl.php.net"),
        text_elem("ca", "Tools and Utilities"),
        text_elem("l", "BSD-3-Clause"),
        text_elem("s", "Protocol buffers"),
        text_elem("d", "Mechanism for serializing structured data."),
        text_elem("r", "https://pecl.php.net/rest/r/protobuf"),
    ]
}

#[test]
fn info_mandatory_fields_only() {
    let root = elem("p", mandatory_fields());
    let info = PackageInfo::from_xml_node(&root).unwrap();
    assert_eq!(info.name.as_str(), "protobuf");
    assert_eq!(info.channel.as_str(), "pecl.php.net");
    assert_eq!(info.category.as_str(), "Tools and Utilities");
    assert_eq!(info.license.as_str(), "BSD-3-Clause");
    assert_eq!(info.license_uri, None);
    assert_eq!(info.summary.as_str(), "Protocol buffers");
    assert_eq!(info.description.as_str(), "Mechanism for serializing structured data.");
    assert_eq!(info.release_uri.as_str(), "https://pecl.php.net/rest/r/protobuf");
    assert_eq!(info.parent_package, None);
    assert!(info.deprecation.is_none());
}

#[test]
fn info_with_all_optional_fields() {
    let root = elem(
        "p",
        vec![
            text_elem("n", "protobuf"),
            text_elem("c", "pecl.php.net"),
            text_elem("ca", "Tools and Utilities"),
            text_elem("l", "BSD-3-Clause"),
            text_elem("lu", "https://example.invalid/license"),
            text_elem("s", "Protocol buffers"),
            text_elem("d", "Serialization."),
            text_elem("r", "https://pecl.php.net/rest/r/protobuf"),
            text_elem("pa", "oldproto"),
            text_elem("dc", "pecl.php.net"),
            text_elem("dp", "newproto"),
        ],
    );
    let info = PackageInfo::from_xml_node(&root).unwrap();
    assert_eq!(info.license_uri.as_deref(), Some("https://example.invalid/license"));
    assert_eq!(info.parent_package.as_deref(), Some("oldproto"));
    assert!(info.deprecation.is_some());
}

#[test]
fn info_channel_before_name_fails_with_missing_name() {
    let root = elem(
        "p",
        vec![
            text_elem("c", "pecl.php.net"),
            text_elem("n", "protobuf"),
            text_elem("ca", "Tools and Utilities"),
            text_elem("l", "BSD-3-Clause"),
            text_elem("s", "Protocol buffers"),
            text_elem("d", "Serialization."),
            text_elem("r", "https://pecl.php.net/rest/r/protobuf"),
        ],
    );
    let err = PackageInfo::from_xml_node(&root).unwrap_err();
    assert_eq!(err, PackageInfoFromXmlNodeError::MissingName);
}

#[test]
fn info_category_before_channel_fails_with_missing_channel() {
    let root = elem(
        "p",
        vec![text_elem("n", "protobuf"), text_elem("ca", "Tools and Utilities")],
    );
    let err = PackageInfo::from_xml_node(&root).unwrap_err();
    assert_eq!(err, PackageInfoFromXmlNodeError::MissingChannel);
}

#[test]
fn info_deprecation_channel_alone_fails() {
    let mut children = mandatory_fields();
    children.push(text_elem("dc", "pecl.php.net"));
    let root = elem("p", children);
    let err = PackageInfo::from_xml_node(&root).unwrap_err();
    assert_eq!(err, PackageInfoFromXmlNodeError::MissingDeprecationPackage);
}

#[test]
fn info_deprecation_package_without_channel_fails() {
    let mut children = mandatory_fields();
    children.push(text_elem("dp", "newproto"));
    let root = elem("p", children);
    let err = PackageInfo::from_xml_node(&root).unwrap_err();
    assert_eq!(err, PackageInfoFromXmlNodeError::MissingDeprecationChannel);
}

#[test]
fn info_duplicate_name_fails() {
    let mut children = mandatory_fields();
    children.push(text_elem("n", "protobuf2"));
    let root = elem("p", children);
    let err = PackageInfo::from_xml_node(&root).unwrap_err();
    assert_eq!(err, PackageInfoFromXmlNodeError::DuplicateName);
}

#[test]
fn info_summary_without_license_fails() {
    let root = elem(
        "p",
        vec![
            text_elem("n", "protobuf"),
            text_elem("c", "pecl.php.net"),
            text_elem("ca", "Tools and Utilities"),
            text_elem("s", "Protocol buffers"),
        ],
    );
    let err = PackageInfo::from_xml_node(&root).unwrap_err();
    assert_eq!(err, PackageInfoFromXmlNodeError::MissingLicense);
}

#[test]
fn info_license_uri_does_not_gate_summary() {
    let root = elem("p", mandatory_fields());
    let info = PackageInfo::from_xml_node(&root).unwrap();
    assert_eq!(info.summary.as_str(), "Protocol buffers");
    assert_eq!(info.license_uri, None);
}

#[test]
fn info_unknown_element_fails_with_index() {
    let mut children = mandatory_fields();
    children.push(text_elem("zz", "odd"));
    let root = elem("p", children);
    let err = PackageInfo::from_xml_node(&root).unwrap_err();
    assert_eq!(err, PackageInfoFromXmlNodeError::ChildType(7));
}

#[test]
fn info_parent_before_release_fails() {
    let root = elem(
        "p",
        vec![
            text_elem("n", "protobuf"),
            text_elem("c", "pecl.php.net"),
            text_elem("ca", "Tools and Utilities"),
            text_elem("l", "BSD-3-Clause"),
            text_elem("s", "Protocol buffers"),
            text_elem("d", "Serialization."),
            text_elem("pa", "oldproto"),
            text_elem("r", "https://pecl.php.net/rest/r/protobuf"),
        ],
    );
    let err = PackageInfo::from_xml_node(&root).unwrap_err();
    assert_eq!(err, PackageInfoFromXmlNodeError::MissingRelease);
}

#[test]
fn info_missing_description_reported_in_schema_order() {
    let root = elem(
        "p",
        vec![
            text_elem("n", "protobuf"),
            text_elem("c", "pecl.php.net"),
            text_elem("ca", "Tools and Utilities"),
            text_elem("l", "BSD-3-Clause"),
            text_elem("s", "Protocol buffers"),
        ],
    );
    let err = PackageInfo::from_xml_node(&root).unwrap_err();
    assert_eq!(err, PackageInfoFromXmlNodeError::MissingDescription);
}

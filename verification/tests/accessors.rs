use pear_client::xml_util::{
    eq_ignore_ascii_case, find_root, get_attr, get_link_attr, get_text, str_eq, xlink_href,
    DuplicateAttribute, FindRootError, QName, XmlAttr, XmlDocument, XmlElement, XmlNode,
};

fn qname(local: &str) -> QName {
    QName { ns: String::new(), prefix: None, local: local.to_string() }
}

fn elem(local: &str, children: Vec<XmlNode>) -> XmlElement {
    XmlElement { name: qname(local), attrs: vec![], children }
}

fn href_attr(value: &str) -> XmlAttr {
    XmlAttr {
        name: QName {
            ns: "http://www.w3.org/1999/xlink".to_string(),
            prefix: Some("xlink".to_string()),
            local: "href".to_string(),
        },
        value: value.to_string(),
    }
}

#[test]
fn get_text_reads_single_text_child() {
    let e = elem("c", vec![XmlNode::Text("hello".to_string())]);
    assert_eq!(get_text(&e).unwrap().as_str(), "hello");
}

#[test]
fn get_text_of_empty_element_is_empty_string() {
    let e = elem("c", vec![XmlNode::Comment("only a comment".to_string())]);
    assert_eq!(get_text(&e).unwrap().as_str(), "");
}

#[test]
fn get_text_rejects_two_text_children() {
    let e = elem(
        "c",
        vec![XmlNode::Text("one".to_string()), XmlNode::Text("two".to_string())],
    );
    assert!(get_text(&e).is_err());
}

#[test]
fn find_root_skips_non_matching_nodes() {
    let doc = XmlDocument {
        children: vec![
            XmlNode::Comment("prolog".to_string()),
            XmlNode::Element(elem("other", vec![])),
            XmlNode::Element(elem("A", vec![])),
        ],
    };
    let root = find_root(&doc, "a").unwrap();
    assert_eq!(root.name.local.as_str(), "A");
}

#[test]
fn find_root_reports_not_found_and_duplicate() {
    let empty = XmlDocument { children: vec![] };
    assert_eq!(find_root(&empty, "a").unwrap_err(), FindRootError::NotFound);
    let twice = XmlDocument {
        children: vec![XmlNode::Element(elem("a", vec![])), XmlNode::Element(elem("a", vec![]))],
    };
    assert_eq!(find_root(&twice, "a").unwrap_err(), FindRootError::Duplicate);
}

#[test]
fn get_attr_finds_one_and_rejects_two() {
    let name = xlink_href();
    let attrs = vec![href_attr("/link")];
    assert_eq!(get_attr(&attrs, &name).unwrap().as_deref(), Some("/link"));
    let none: Vec<XmlAttr> = vec![];
    assert_eq!(get_attr(&none, &name).unwrap(), None);
    let twice = vec![href_attr("/a"), href_attr("/b")];
    assert_eq!(get_attr(&twice, &name).unwrap_err(), DuplicateAttribute);
}

#[test]
fn get_link_attr_wants_the_namespaced_name() {
    let bare = XmlAttr { name: qname("href"), value: "/plain".to_string() };
    let attrs = vec![bare, href_attr("/namespaced")];
    assert_eq!(get_link_attr(&attrs).unwrap().as_deref(), Some("/namespaced"));
}

#[test]
fn string_comparisons() {
    assert!(eq_ignore_ascii_case("Ca", "cA"));
    assert!(!eq_ignore_ascii_case("ca", "c"));
    assert!(!eq_ignore_ascii_case("ca", "cb"));
    assert!(str_eq("href", "href"));
    assert!(!str_eq("href", "Href"));
}

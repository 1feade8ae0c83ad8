//! The XML of packages.xml: the element tree of a show, with and without
//! its closed elements, written out by simple_xml_serialize.
use packybara::io::packages_xml::{Package, Role, Show, ToXml, With};
use packybara::io::xml_node::{prune_closed_contents, IsClosed, XmlNode};
use simple_xml_serialize::XMLElement;

fn element(node: &XmlNode) -> XMLElement {
    let mut elem = XMLElement::new(&node.name);
    for (name, value) in &node.attrs {
        elem.add_attr(name, value);
    }
    if let Some(ref contents) = node.contents {
        for child in contents {
            elem.add_element(element(child));
        }
    }
    if let Some(ref text) = node.text {
        elem.set_text(text);
    }
    elem
}

fn node(name: &str, contents: Option<Vec<XmlNode>>, text: Option<&str>) -> XmlNode {
    XmlNode { name: name.to_string(), attrs: vec![], contents, text: text.map(|t| t.to_string()) }
}

#[test]
fn can_serialize_show_no_role() {
    let mut show = Show::new("FACILITY");
    show.add_package(
        Package::new("maya", "2018.5.1", None, None)
            .set_os_owned(Some("cent7_64"))
            .add_with_owned(With::new("xerces"))
            .add_with_owned(With::new("mayapipeline")),
    );
    show.add_package(
        Package::new("houdini", "17.5.432", None, None)
            .add_with_owned(With::new("houd_pipeline"))
            .add_with_owned(With::new("houd_camera")),
    );
    let converter = ToXml::new();
    let xml = element(&converter.to_xml(&show));
    assert_eq!(xml.to_string_pretty("\n", "  ").as_str(),
    "<show name=\"FACILITY\">\n  <packages>\n    <package name=\"maya\" version=\"2018.5.1\" os=\"cent7_64\">\n      <withs package=\"xerces\"/>\n      <withs package=\"mayapipeline\"/>\n    </package>\n    <package name=\"houdini\" version=\"17.5.432\">\n      <withs package=\"houd_pipeline\"/>\n      <withs package=\"houd_camera\"/>\n    </package>\n  </packages>\n</show>"
    );
}

#[test]
fn can_serialize_show_with_roles() {
    let mut show = Show::new("FACILITY");
    show.add_package(
        Package::new("maya", "2018.5.1", None, None)
            .add_with_owned(With::new("xerces"))
            .add_with_owned(With::new("mayapipeline")),
    );
    show.add_package(
        Package::new("houdini", "17.5.432", None, None)
            .add_with_owned(With::new("houd_pipeline"))
            .add_with_owned(With::new("houd_camera")),
    );

    show.add_role(
        Role::new("model")
            .add_package_owned(
                Package::new("maya", "2020.1.0", None, None)
                    .add_with_owned(With::new("xerces"))
                    .add_with_owned(With::new("mayapipeline"))
                    .add_with_owned(With::new("modelpipeline")),
            )
            .add_package_owned(Package::new("zbrush", "14", None, None))
            .add_package_owned(
                Package::new("atomic", "1.2.3", None, None)
                    .add_with_owned(With::new("vray"))
                    .add_with_owned(With::new("vray_for_maya")),
            ),
    );

    let xml = element(&ToXml { prune_closed: false }.to_xml(&show));
    assert_eq!(
        xml.to_string_pretty("\n", "  ").as_str(),
        "<show name=\"FACILITY\">\n  <packages>\n    <package name=\"maya\" version=\"2018.5.1\">\n      <withs package=\"xerces\"/>\n      <withs package=\"mayapipeline\"/>\n    </package>\n    <package name=\"houdini\" version=\"17.5.432\">\n      <withs package=\"houd_pipeline\"/>\n      <withs package=\"houd_camera\"/>\n    </package>\n  </packages>\n  <roles>\n    <role name=\"model\">\n      <packages>\n        <package name=\"maya\" version=\"2020.1.0\">\n          <withs package=\"xerces\"/>\n          <withs package=\"mayapipeline\"/>\n          <withs package=\"modelpipeline\"/>\n        </package>\n        <package name=\"zbrush\" version=\"14\"/>\n        <package name=\"atomic\" version=\"1.2.3\">\n          <withs package=\"vray\"/>\n          <withs package=\"vray_for_maya\"/>\n        </package>\n      </packages>\n    </role>\n  </roles>\n</show>"
    );
}

#[test]
fn empty_show_keeps_its_sections_unless_pruned() {
    let show = Show::new("dev01").add_role_owned(Role::new("fx"));
    let full = element(&ToXml { prune_closed: false }.to_xml(&show));
    assert_eq!(
        full.to_string_pretty("\n", "  "),
        "<show name=\"dev01\">\n  <packages/>\n  <roles>\n    <role name=\"fx\">\n      <packages/>\n    </role>\n  </roles>\n</show>"
    );
    let pruned = element(&ToXml::new().to_xml(&show));
    assert_eq!(
        pruned.to_string_pretty("\n", "  "),
        "<show name=\"dev01\">\n  <roles>\n    <role name=\"fx\">\n      <packages/>\n    </role>\n  </roles>\n</show>"
    );
    let bare = ToXml::new().to_xml(&Show::new("dev02"));
    assert!(bare.contents.is_none());
    assert!(bare.is_closed());
}

#[test]
fn closed_elements_are_dropped() {
    let mut root = node(
        "root",
        Some(vec![
            node("a", None, None),
            node("b", None, Some("text")),
            node("c", Some(vec![node("d", None, None)]), None),
            node("e", None, None),
        ]),
        None,
    );
    prune_closed_contents(&mut root);
    let names: Vec<&str> = root.contents.as_ref().unwrap().iter().map(|n| n.name.as_str()).collect();
    assert_eq!(names, vec!["b", "c"]);
    assert_eq!(root.contents.as_ref().unwrap()[1].contents.as_ref().unwrap().len(), 1);
    let mut all_closed = node("root", Some(vec![node("a", None, None)]), None);
    prune_closed_contents(&mut all_closed);
    assert!(all_closed.contents.is_none());
    let mut leaf = node("leaf", None, Some("x"));
    prune_closed_contents(&mut leaf);
    assert!(leaf.contents.is_none());
    assert_eq!(leaf.text.as_deref(), Some("x"));
}

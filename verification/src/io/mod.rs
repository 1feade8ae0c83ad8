pub mod packages_xml;
pub mod xml_node;

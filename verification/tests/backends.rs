use serde_xml_rs::adapter::quickxml::QuickXmlReader;
use serde_xml_rs::adapter::xmlrs::XmlReader;
use serde_xml_rs::adapter::GenericEventReader;
use serde_xml_rs::de::map::MapAccess;
use serde_xml_rs::de::seq::SeqAccess;
use serde_xml_rs::de::var::{EnumAccess, VariantAccess};
use serde_xml_rs::{Deserializer, Error, GenericXmlEvent};

fn xmlrs_reader(doc: &str) -> Deserializer<XmlReader> {
    Deserializer::new(XmlReader::new(doc.as_bytes().to_vec()))
}

fn quick_reader(doc: &str) -> Deserializer<QuickXmlReader> {
    Deserializer::new(QuickXmlReader::new(doc.as_bytes().to_vec()))
}

#[test]
fn xmlrs_decodes_an_attribute_record() {
    let mut de = xmlrs_reader(r#"<item name="hello" source="world.rs" />"#);
    let (root, attrs) = de.begin_record().unwrap();
    assert_eq!(root.local_name, "item");
    let mut map = MapAccess::new(attrs, false);
    assert_eq!(map.next_key(&mut de).unwrap().as_deref(), Some("name"));
    assert_eq!(map.next_value(&mut de).unwrap().as_deref(), Some("hello"));
    assert_eq!(map.next_key(&mut de).unwrap().as_deref(), Some("source"));
    assert_eq!(map.next_value(&mut de).unwrap().as_deref(), Some("world.rs"));
    assert_eq!(map.next_key(&mut de).unwrap(), None);
    de.expect_end_element(root).unwrap();
    assert_eq!(de.current_depth(), 0);
}

#[test]
fn xmlrs_decodes_an_integer_sequence() {
    let mut de = xmlrs_reader("<a><b>1</b><b>2</b></a>");
    let (root, attrs) = de.begin_record().unwrap();
    let mut map = MapAccess::new(attrs, false);
    assert_eq!(map.next_key(&mut de).unwrap().as_deref(), Some("b"));
    assert_eq!(map.next_value(&mut de).unwrap(), None);
    let mut seq = SeqAccess::new(&mut de, None).unwrap();
    let mut values: Vec<i64> = Vec::new();
    while seq.next_element(&mut de).unwrap() {
        values.push(de.decode_i64().unwrap());
    }
    assert_eq!(values, vec![1, 2]);
    assert_eq!(map.next_key(&mut de).unwrap(), None);
    de.expect_end_element(root).unwrap();
    assert_eq!(de.current_depth(), 0);
}

#[test]
fn xmlrs_reports_malformed_documents_as_parse_errors() {
    // the backend itself rejects the mismatched closing tag
    let mut de = xmlrs_reader("<a></c>");
    let (_root, _attrs) = de.begin_record().unwrap();
    assert!(matches!(de.next(), Err(Error::Parse { .. })));
}

#[test]
fn xmlrs_trims_and_ignores_whitespace_and_comments() {
    let mut de = xmlrs_reader("<a>\n  <!-- noise -->\n  <b>  7  </b>\n</a>");
    let (root, attrs) = de.begin_record().unwrap();
    let mut map = MapAccess::new(attrs, false);
    assert_eq!(map.next_key(&mut de).unwrap().as_deref(), Some("b"));
    assert_eq!(map.next_value(&mut de).unwrap(), None);
    assert_eq!(de.decode_i64().unwrap(), 7);
    assert_eq!(map.next_key(&mut de).unwrap(), None);
    de.expect_end_element(root).unwrap();
}

#[test]
fn xmlrs_treats_cdata_as_text() {
    let mut de = xmlrs_reader("<s><![CDATA[x < y]]></s>");
    assert_eq!(de.read_string_value().unwrap(), "x < y");
}

#[test]
fn xmlrs_selects_a_unit_variant_from_bare_text() {
    let mut de = xmlrs_reader("<Color>Red</Color>");
    let frame = de.begin_variant().unwrap();
    let variant = EnumAccess::new().variant_name(&mut de).unwrap();
    assert_eq!(variant, "Red");
    VariantAccess::new().unit_variant(&mut de).unwrap();
    de.end_inner_value(frame).unwrap();
    assert_eq!(de.current_depth(), 0);
}

#[test]
fn xmlrs_empty_integer_element_fails_conversion() {
    let mut de = xmlrs_reader("<n></n>");
    assert!(matches!(de.decode_i64(), Err(Error::TypeConversion { .. })));
}

#[test]
fn xmlrs_reads_the_reserved_inline_value() {
    let mut de = xmlrs_reader("<outer><inner>x</inner></outer>");
    let (root, attrs) = de.begin_record().unwrap();
    let mut map = MapAccess::new(attrs, true);
    assert_eq!(map.next_key(&mut de).unwrap().as_deref(), Some("$value"));
    assert_eq!(map.next_value(&mut de).unwrap(), None);
    assert_eq!(de.read_string_value().unwrap(), "x");
    assert_eq!(map.next_key(&mut de).unwrap(), None);
    de.expect_end_element(root).unwrap();
    assert_eq!(de.current_depth(), 0);
}

#[test]
fn xmlrs_unescapes_entities_in_text() {
    let mut de = xmlrs_reader("<s>a &amp; b</s>");
    assert_eq!(de.read_string_value().unwrap(), "a & b");
}

#[test]
fn quickxml_decodes_an_attribute_record() {
    let mut de = quick_reader(r#"<item name="hello" source="world.rs" />"#);
    let (root, attrs) = de.begin_record().unwrap();
    assert_eq!(root.local_name, "item");
    let mut map = MapAccess::new(attrs, false);
    assert_eq!(map.next_key(&mut de).unwrap().as_deref(), Some("name"));
    assert_eq!(map.next_value(&mut de).unwrap().as_deref(), Some("hello"));
    assert_eq!(map.next_key(&mut de).unwrap().as_deref(), Some("source"));
    assert_eq!(map.next_value(&mut de).unwrap().as_deref(), Some("world.rs"));
    assert_eq!(map.next_key(&mut de).unwrap(), None);
    de.expect_end_element(root).unwrap();
    assert_eq!(de.current_depth(), 0);
}

#[test]
fn quickxml_decodes_an_integer_sequence() {
    let mut de = quick_reader("<a><b>1</b><b>2</b></a>");
    let (root, attrs) = de.begin_record().unwrap();
    let mut map = MapAccess::new(attrs, false);
    assert_eq!(map.next_key(&mut de).unwrap().as_deref(), Some("b"));
    assert_eq!(map.next_value(&mut de).unwrap(), None);
    let mut seq = SeqAccess::new(&mut de, None).unwrap();
    let mut values: Vec<i64> = Vec::new();
    while seq.next_element(&mut de).unwrap() {
        values.push(de.decode_i64().unwrap());
    }
    assert_eq!(values, vec![1, 2]);
    assert_eq!(map.next_key(&mut de).unwrap(), None);
    de.expect_end_element(root).unwrap();
    assert_eq!(de.current_depth(), 0);
}

#[test]
fn quickxml_delivers_canonical_events() {
    let mut reader = QuickXmlReader::new(b"<a>hi</a>".to_vec());
    assert!(matches!(reader.next().unwrap(), GenericXmlEvent::StartElement { .. }));
    match reader.next().unwrap() {
        GenericXmlEvent::Characters(text) => assert_eq!(text, "hi"),
        other => panic!("expected text, found {:?}", other),
    }
    assert!(matches!(reader.next().unwrap(), GenericXmlEvent::EndElement { .. }));
    assert!(matches!(reader.next().unwrap(), GenericXmlEvent::EndDocument));
}

#[test]
fn xmlrs_delivers_canonical_events() {
    let mut reader = XmlReader::new(b"<a>hi</a>".to_vec());
    assert!(matches!(reader.next().unwrap(), GenericXmlEvent::StartElement { .. }));
    match reader.next().unwrap() {
        GenericXmlEvent::Characters(text) => assert_eq!(text, "hi"),
        other => panic!("expected text, found {:?}", other),
    }
    assert!(matches!(reader.next().unwrap(), GenericXmlEvent::EndElement { .. }));
    assert!(matches!(reader.next().unwrap(), GenericXmlEvent::EndDocument));
}

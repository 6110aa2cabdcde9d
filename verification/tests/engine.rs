use serde_xml_rs::adapter::VecEventReader;
use serde_xml_rs::de::map::MapAccess;
use serde_xml_rs::de::AnyShape;
use serde_xml_rs::de::seq::SeqAccess;
use serde_xml_rs::de::var::{EnumAccess, VariantAccess};
use serde_xml_rs::{Deserializer, Error, EventKind, GenericXmlAttribute, GenericXmlEvent, GenericXmlName};

fn name(s: &str) -> GenericXmlName {
    GenericXmlName { local_name: s.to_string() }
}

fn start(tag: &str, attrs: &[(&str, &str)]) -> GenericXmlEvent {
    GenericXmlEvent::StartElement {
        name: name(tag),
        attributes: attrs
            .iter()
            .map(|(k, v)| GenericXmlAttribute { name: name(k), value: v.to_string() })
            .collect(),
    }
}

fn end(tag: &str) -> GenericXmlEvent {
    GenericXmlEvent::EndElement { name: name(tag) }
}

fn chars(text: &str) -> GenericXmlEvent {
    GenericXmlEvent::Characters(text.to_string())
}

fn reader(events: Vec<GenericXmlEvent>) -> Deserializer<VecEventReader> {
    Deserializer::new(VecEventReader::new(events))
}

#[test]
fn attribute_record_decodes_in_document_order() {
    // <item name="hello" source="world.rs" />
    let mut de = reader(vec![
        start("item", &[("name", "hello"), ("source", "world.rs")]),
        end("item"),
        GenericXmlEvent::EndDocument,
    ]);
    let (root, attrs) = de.begin_record().unwrap();
    assert_eq!(root.local_name, "item");
    let mut map = MapAccess::new(attrs, false);
    assert_eq!(map.size_hint(), Some(2));

    let k1 = de_key(&mut map, &mut de);
    assert_eq!(k1.as_deref(), Some("name"));
    let v1 = map.next_value(&mut de).unwrap();
    assert_eq!(v1.as_deref(), Some("hello"));

    let k2 = de_key(&mut map, &mut de);
    assert_eq!(k2.as_deref(), Some("source"));
    let v2 = map.next_value(&mut de).unwrap();
    assert_eq!(v2.as_deref(), Some("world.rs"));

    assert_eq!(de_key(&mut map, &mut de), None);
    de.expect_end_element(root).unwrap();
    assert_eq!(de.current_depth(), 0);
}

fn de_key(map: &mut MapAccess, de: &mut Deserializer<VecEventReader>) -> Option<String> {
    map.next_key(de).unwrap()
}

#[test]
fn attributes_come_before_element_keys() {
    // <r b="1" a="2"><c>3</c></r>
    let mut de = reader(vec![
        start("r", &[("b", "1"), ("a", "2")]),
        start("c", &[]),
        chars("3"),
        end("c"),
        end("r"),
        GenericXmlEvent::EndDocument,
    ]);
    let (root, attrs) = de.begin_record().unwrap();
    let mut map = MapAccess::new(attrs, false);
    let mut keys: Vec<String> = Vec::new();
    loop {
        match map.next_key(&mut de).unwrap() {
            Some(k) => {
                keys.push(k);
                match map.next_value(&mut de).unwrap() {
                    Some(_attr_text) => {},
                    None => {
                        let text = de.read_string_value().unwrap();
                        assert_eq!(text, "3");
                    },
                }
            },
            None => break,
        }
    }
    assert_eq!(keys, vec!["b".to_string(), "a".to_string(), "c".to_string()]);
    de.expect_end_element(root).unwrap();
    assert_eq!(de.current_depth(), 0);
}

#[test]
fn integer_sequence_decodes_all_siblings() {
    // <a><b>1</b><b>2</b></a> as { b: [1, 2] }
    let mut de = reader(vec![
        start("a", &[]),
        start("b", &[]),
        chars("1"),
        end("b"),
        start("b", &[]),
        chars("2"),
        end("b"),
        end("a"),
        GenericXmlEvent::EndDocument,
    ]);
    let (root, attrs) = de.begin_record().unwrap();
    let mut map = MapAccess::new(attrs, false);
    assert_eq!(map.next_key(&mut de).unwrap().as_deref(), Some("b"));
    assert_eq!(map.next_value(&mut de).unwrap(), None);

    let mut seq = SeqAccess::new(&mut de, None).unwrap();
    let mut values: Vec<i64> = Vec::new();
    while seq.next_element(&mut de).unwrap() {
        values.push(de.decode_i64().unwrap());
    }
    assert_eq!(values, vec![1, 2]);

    assert_eq!(map.next_key(&mut de).unwrap(), None);
    de.expect_end_element(root).unwrap();
    assert_eq!(de.current_depth(), 0);
}

#[test]
fn bounded_sequence_stops_early_and_leaves_the_rest() {
    // three <b> siblings, bounded to two
    let mut de = reader(vec![
        start("a", &[]),
        start("b", &[]),
        chars("1"),
        end("b"),
        start("b", &[]),
        chars("2"),
        end("b"),
        start("b", &[]),
        chars("3"),
        end("b"),
        end("a"),
        GenericXmlEvent::EndDocument,
    ]);
    let (_root, attrs) = de.begin_record().unwrap();
    let mut map = MapAccess::new(attrs, false);
    assert_eq!(map.next_key(&mut de).unwrap().as_deref(), Some("b"));
    assert_eq!(map.next_value(&mut de).unwrap(), None);

    let mut seq = SeqAccess::new(&mut de, Some(2)).unwrap();
    assert_eq!(seq.size_hint(), Some(2));
    let mut values: Vec<i64> = Vec::new();
    while seq.next_element(&mut de).unwrap() {
        values.push(de.decode_i64().unwrap());
    }
    assert_eq!(values, vec![1, 2]);

    // the third sibling is left unconsumed for further decode
    match de.peek().unwrap() {
        GenericXmlEvent::StartElement { name, .. } => assert_eq!(name.local_name, "b"),
        other => panic!("expected the third <b> to remain, found {:?}", other),
    }
    assert!(!de.unset_map_value());
    assert_eq!(de.decode_i64().unwrap(), 3);
}

#[test]
fn mismatched_end_tag_is_a_tag_mismatch_error() {
    // <a></c>
    let mut de = reader(vec![start("a", &[]), end("c"), GenericXmlEvent::EndDocument]);
    let (root, attrs) = de.begin_record().unwrap();
    let mut map = MapAccess::new(attrs, false);
    assert_eq!(map.next_key(&mut de).unwrap(), None);
    match de.expect_end_element(root) {
        Err(Error::TagMismatch { expected, found }) => {
            assert_eq!(expected, "a");
            assert_eq!(found, "c");
        },
        other => panic!("expected a tag mismatch, got {:?}", other),
    }
}

#[test]
fn unit_variant_selected_by_bare_text() {
    // <Color>Red</Color> decoded as a variant type: the element frames the
    // choice, its bare text selects the variant Red
    let mut de = reader(vec![
        start("Color", &[]),
        chars("Red"),
        end("Color"),
        GenericXmlEvent::EndDocument,
    ]);
    let frame = de.begin_variant().unwrap();
    assert_eq!(frame.as_ref().map(|n| n.local_name.as_str()), Some("Color"));
    let variant = EnumAccess::new().variant_name(&mut de).unwrap();
    assert_eq!(variant, "Red");
    VariantAccess::new().unit_variant(&mut de).unwrap();
    de.end_inner_value(frame).unwrap();
    assert_eq!(de.current_depth(), 0);
}

#[test]
fn unit_variant_rejects_attributes() {
    let mut de = reader(vec![
        start("choice", &[]),
        start("Red", &[("tone", "dark")]),
        end("Red"),
        end("choice"),
        GenericXmlEvent::EndDocument,
    ]);
    let _frame = de.begin_variant().unwrap();
    let variant = EnumAccess::new().variant_name(&mut de).unwrap();
    assert_eq!(variant, "Red");
    match VariantAccess::new().unit_variant(&mut de) {
        Err(Error::InvalidPayload { expected_attributes, found_attributes }) => {
            assert_eq!(expected_attributes, 0);
            assert_eq!(found_attributes, 1);
        },
        other => panic!("expected an invalid payload error, got {:?}", other),
    }
}

#[test]
fn element_variant_with_empty_payload() {
    // <choice><Red/></choice>: inside the frame, an element tag names the
    // variant and its empty payload closes at once
    let mut de = reader(vec![
        start("choice", &[]),
        start("Red", &[]),
        end("Red"),
        end("choice"),
        GenericXmlEvent::EndDocument,
    ]);
    let frame = de.begin_variant().unwrap();
    let variant = EnumAccess::new().variant_name(&mut de).unwrap();
    assert_eq!(variant, "Red");
    VariantAccess::new().unit_variant(&mut de).unwrap();
    de.end_inner_value(frame).unwrap();
    assert_eq!(de.current_depth(), 0);
}

#[test]
fn empty_element_is_not_a_number() {
    // <n></n> as an integer
    let mut de = reader(vec![start("n", &[]), end("n"), GenericXmlEvent::EndDocument]);
    match de.decode_i64() {
        Err(Error::TypeConversion { value }) => assert_eq!(value, ""),
        other => panic!("expected a type conversion error, got {:?}", other),
    }
}

#[test]
fn empty_element_is_the_empty_string() {
    let mut de = reader(vec![start("s", &[]), end("s"), GenericXmlEvent::EndDocument]);
    assert_eq!(de.read_string_value().unwrap(), "");
    assert_eq!(de.current_depth(), 0);
}

#[test]
fn reserved_inline_value_field_reads_nested_text() {
    // <outer><inner>x</inner></outer> where the record declares the reserved
    // inline-value field: its single entry is the nested element's own text.
    let mut de = reader(vec![
        start("outer", &[]),
        start("inner", &[]),
        chars("x"),
        end("inner"),
        end("outer"),
        GenericXmlEvent::EndDocument,
    ]);
    let (root, attrs) = de.begin_record().unwrap();
    let mut map = MapAccess::new(attrs, true);
    assert_eq!(map.next_key(&mut de).unwrap().as_deref(), Some("$value"));
    assert_eq!(map.next_value(&mut de).unwrap(), None);
    assert_eq!(de.read_string_value().unwrap(), "x");
    assert_eq!(map.next_key(&mut de).unwrap(), None);
    de.expect_end_element(root).unwrap();
    assert_eq!(de.current_depth(), 0);
}

#[test]
fn bare_text_key_is_the_reserved_name() {
    let mut de = reader(vec![
        start("outer", &[]),
        chars("hello"),
        end("outer"),
        GenericXmlEvent::EndDocument,
    ]);
    let (root, attrs) = de.begin_record().unwrap();
    let mut map = MapAccess::new(attrs, false);
    assert_eq!(map.next_key(&mut de).unwrap().as_deref(), Some("$value"));
    assert_eq!(map.next_value(&mut de).unwrap(), None);
    assert_eq!(de.read_string_value().unwrap(), "hello");
    assert_eq!(map.next_key(&mut de).unwrap(), None);
    de.expect_end_element(root).unwrap();
}

#[test]
fn skip_value_discards_a_whole_subtree() {
    // <r><x><y>deep</y></x><z>7</z></r>, skipping the unknown field x
    let mut de = reader(vec![
        start("r", &[]),
        start("x", &[]),
        start("y", &[]),
        chars("deep"),
        end("y"),
        end("x"),
        start("z", &[]),
        chars("7"),
        end("z"),
        end("r"),
        GenericXmlEvent::EndDocument,
    ]);
    let (root, attrs) = de.begin_record().unwrap();
    let mut map = MapAccess::new(attrs, false);
    assert_eq!(map.next_key(&mut de).unwrap().as_deref(), Some("x"));
    assert_eq!(map.next_value(&mut de).unwrap(), None);
    de.skip_value().unwrap();
    assert_eq!(map.next_key(&mut de).unwrap().as_deref(), Some("z"));
    assert_eq!(map.next_value(&mut de).unwrap(), None);
    assert_eq!(de.decode_u64().unwrap(), 7);
    assert_eq!(map.next_key(&mut de).unwrap(), None);
    de.expect_end_element(root).unwrap();
    assert_eq!(de.current_depth(), 0);
}

#[test]
fn booleans_parse_exactly_true_and_false() {
    let mut de = reader(vec![
        start("flag", &[]),
        chars("true"),
        end("flag"),
        GenericXmlEvent::EndDocument,
    ]);
    assert!(de.decode_bool().unwrap());

    let mut de = reader(vec![
        start("flag", &[]),
        chars("False"),
        end("flag"),
        GenericXmlEvent::EndDocument,
    ]);
    match de.decode_bool() {
        Err(Error::TypeConversion { value }) => assert_eq!(value, "False"),
        other => panic!("expected a type conversion error, got {:?}", other),
    }
}

#[test]
fn signed_numbers_accept_signs_and_reject_overflow() {
    let mut de = reader(vec![
        start("n", &[]),
        chars("-42"),
        end("n"),
        GenericXmlEvent::EndDocument,
    ]);
    assert_eq!(de.decode_i64().unwrap(), -42);

    let mut de = reader(vec![
        start("n", &[]),
        chars("99999999999999999999"),
        end("n"),
        GenericXmlEvent::EndDocument,
    ]);
    assert!(matches!(de.decode_i64(), Err(Error::TypeConversion { .. })));

    let mut de = reader(vec![
        start("n", &[]),
        chars("-1"),
        end("n"),
        GenericXmlEvent::EndDocument,
    ]);
    assert!(matches!(de.decode_u64(), Err(Error::TypeConversion { .. })));
}

#[test]
fn unexpected_token_names_both_categories() {
    let mut de = reader(vec![GenericXmlEvent::EndDocument]);
    match de.read_string_value() {
        Err(Error::UnexpectedToken { required, observed }) => {
            assert_eq!(required, EventKind::Characters);
            assert_eq!(observed, EventKind::EndDocument);
        },
        other => panic!("expected an unexpected token error, got {:?}", other),
    }
}

#[test]
fn unit_value_requires_an_empty_element() {
    let mut de = reader(vec![start("u", &[]), end("u"), GenericXmlEvent::EndDocument]);
    de.read_unit_value().unwrap();
    assert_eq!(de.current_depth(), 0);

    let mut de = reader(vec![
        start("u", &[]),
        chars("stray"),
        end("u"),
        GenericXmlEvent::EndDocument,
    ]);
    assert!(matches!(
        de.read_unit_value(),
        Err(Error::UnexpectedToken { required: EventKind::EndElement, .. })
    ));
}

#[test]
fn any_shape_classifies_the_upcoming_event() {
    let mut de = reader(vec![
        start("a", &[]),
        chars("x"),
        end("a"),
        GenericXmlEvent::EndDocument,
    ]);
    assert_eq!(de.any_shape().unwrap(), AnyShape::Record);
    de.next().unwrap();
    assert_eq!(de.any_shape().unwrap(), AnyShape::Text);
    de.next().unwrap();
    assert_eq!(de.any_shape().unwrap(), AnyShape::Unit);
}

#[test]
fn optional_value_is_absent_at_a_closing_tag() {
    let mut de = reader(vec![
        start("o", &[]),
        end("o"),
        GenericXmlEvent::EndDocument,
    ]);
    de.next().unwrap();
    assert!(de.option_is_absent().unwrap());

    let mut de = reader(vec![
        start("o", &[]),
        chars("7"),
        end("o"),
        GenericXmlEvent::EndDocument,
    ]);
    de.next().unwrap();
    assert!(!de.option_is_absent().unwrap());
    assert_eq!(de.decode_u64().unwrap(), 7);
}

#[test]
fn peek_does_not_consume() {
    let mut de = reader(vec![start("a", &[]), end("a"), GenericXmlEvent::EndDocument]);
    assert_eq!(de.peek_kind().unwrap(), EventKind::StartElement);
    assert_eq!(de.peek_kind().unwrap(), EventKind::StartElement);
    let consumed = de.next().unwrap();
    assert!(matches!(consumed, GenericXmlEvent::StartElement { .. }));
    assert_eq!(de.current_depth(), 1);
    assert_eq!(de.peek_kind().unwrap(), EventKind::EndElement);
}

use yaml_rust::yaml;
use yaml_rust::Yaml;
use yaml_ser::ser::Serializer;

fn text(s: &str) -> Yaml {
    Yaml::String(s.to_string())
}

fn mapping(entries: Vec<(Yaml, Yaml)>) -> Yaml {
    let mut h = yaml::Hash::new();
    for (k, v) in entries {
        h.insert(k, v);
    }
    Yaml::Hash(h)
}

fn pairs_of(y: &Yaml) -> Vec<(Yaml, Yaml)> {
    match y {
        Yaml::Hash(h) => h.iter().map(|(k, v)| (k.clone(), v.clone())).collect(),
        _ => panic!("not a mapping"),
    }
}

#[test]
fn empty_sequence() {
    let b = Serializer.serialize_seq(None).unwrap();
    assert_eq!(b.end().unwrap(), Yaml::Array(vec![]));
    let b = Serializer.serialize_seq(Some(0)).unwrap();
    assert_eq!(b.end().unwrap(), Yaml::Array(vec![]));
}

#[test]
fn sequence_of_one() {
    let mut b = Serializer.serialize_seq(Some(1)).unwrap();
    b.serialize_element(Yaml::Integer(4)).unwrap();
    assert_eq!(b.end().unwrap(), Yaml::Array(vec![Yaml::Integer(4)]));
}

#[test]
fn sequence_keeps_call_order() {
    let mut b = Serializer.serialize_seq(None).unwrap();
    b.serialize_element(Yaml::Integer(3)).unwrap();
    b.serialize_element(text("b")).unwrap();
    b.serialize_element(Yaml::Integer(1)).unwrap();
    b.serialize_element(Yaml::Integer(3)).unwrap();
    assert_eq!(
        b.end().unwrap(),
        Yaml::Array(vec![Yaml::Integer(3), text("b"), Yaml::Integer(1), Yaml::Integer(3)])
    );
}

#[test]
fn length_hint_decides_nothing() {
    let mut b = Serializer.serialize_seq(Some(5)).unwrap();
    b.serialize_element(Yaml::Null).unwrap();
    assert_eq!(b.end().unwrap(), Yaml::Array(vec![Yaml::Null]));
    let mut b = Serializer.serialize_seq(Some(0)).unwrap();
    b.serialize_element(Yaml::Null).unwrap();
    b.serialize_element(Yaml::Null).unwrap();
    assert_eq!(b.end().unwrap(), Yaml::Array(vec![Yaml::Null, Yaml::Null]));
}

#[test]
fn huge_length_hint_is_harmless() {
    let mut b = Serializer.serialize_seq(Some(usize::MAX)).unwrap();
    b.serialize_element(Yaml::Integer(1)).unwrap();
    assert_eq!(b.end().unwrap(), Yaml::Array(vec![Yaml::Integer(1)]));
    let b = Serializer.serialize_tuple_variant("E", 0, "V", usize::MAX).unwrap();
    assert_eq!(b.end().unwrap(), mapping(vec![(text("V"), Yaml::Array(vec![]))]));
}

#[test]
fn fixed_size_sequence_tuple_and_tuple_struct() {
    let mut b = Serializer.serialize_seq_fixed_size(2).unwrap();
    b.serialize_element(Yaml::Integer(1)).unwrap();
    b.serialize_element(Yaml::Integer(2)).unwrap();
    assert_eq!(b.end().unwrap(), Yaml::Array(vec![Yaml::Integer(1), Yaml::Integer(2)]));

    let mut b = Serializer.serialize_tuple(2).unwrap();
    b.serialize_element(Yaml::Boolean(true)).unwrap();
    b.serialize_element(text("t")).unwrap();
    assert_eq!(b.end().unwrap(), Yaml::Array(vec![Yaml::Boolean(true), text("t")]));

    let mut b = Serializer.serialize_tuple_struct("Point", 2).unwrap();
    b.serialize_field(Yaml::Integer(-1)).unwrap();
    b.serialize_field(Yaml::Integer(8)).unwrap();
    assert_eq!(b.end().unwrap(), Yaml::Array(vec![Yaml::Integer(-1), Yaml::Integer(8)]));
}

#[test]
fn nested_sequences() {
    let mut inner = Serializer.serialize_seq(None).unwrap();
    inner.serialize_element(Yaml::Integer(1)).unwrap();
    let inner = inner.end().unwrap();
    let mut outer = Serializer.serialize_seq(None).unwrap();
    outer.serialize_element(inner).unwrap();
    outer.serialize_element(Yaml::Array(vec![])).unwrap();
    assert_eq!(
        outer.end().unwrap(),
        Yaml::Array(vec![Yaml::Array(vec![Yaml::Integer(1)]), Yaml::Array(vec![])])
    );
}

#[test]
fn empty_map() {
    let b = Serializer.serialize_map(None).unwrap();
    assert!(!b.has_pending_key());
    assert_eq!(b.end().unwrap(), Yaml::Hash(yaml::Hash::new()));
}

#[test]
fn map_keeps_insertion_order() {
    let mut b = Serializer.serialize_map(Some(3)).unwrap();
    b.serialize_key(text("z")).unwrap();
    b.serialize_value(Yaml::Integer(1)).unwrap();
    b.serialize_key(text("a")).unwrap();
    b.serialize_value(Yaml::Integer(2)).unwrap();
    b.serialize_key(Yaml::Integer(10)).unwrap();
    b.serialize_value(Yaml::Null).unwrap();
    let y = b.end().unwrap();
    assert_eq!(
        pairs_of(&y),
        vec![
            (text("z"), Yaml::Integer(1)),
            (text("a"), Yaml::Integer(2)),
            (Yaml::Integer(10), Yaml::Null),
        ]
    );
}

#[test]
fn map_keys_may_be_any_document() {
    let mut b = Serializer.serialize_map(None).unwrap();
    b.serialize_key(Yaml::Boolean(true)).unwrap();
    b.serialize_value(text("yes")).unwrap();
    b.serialize_key(Yaml::Array(vec![Yaml::Integer(1)])).unwrap();
    b.serialize_value(text("list")).unwrap();
    b.serialize_key(Yaml::Null).unwrap();
    b.serialize_value(text("nothing")).unwrap();
    let y = b.end().unwrap();
    assert_eq!(
        pairs_of(&y),
        vec![
            (Yaml::Boolean(true), text("yes")),
            (Yaml::Array(vec![Yaml::Integer(1)]), text("list")),
            (Yaml::Null, text("nothing")),
        ]
    );
}

#[test]
fn pending_key_is_tracked() {
    let mut b = Serializer.serialize_map(None).unwrap();
    assert!(!b.has_pending_key());
    b.serialize_key(text("k")).unwrap();
    assert!(b.has_pending_key());
    b.serialize_value(Yaml::Integer(1)).unwrap();
    assert!(!b.has_pending_key());
}

#[test]
fn a_second_key_replaces_the_waiting_one() {
    let mut b = Serializer.serialize_map(None).unwrap();
    b.serialize_key(text("dropped")).unwrap();
    b.serialize_key(text("kept")).unwrap();
    b.serialize_value(Yaml::Integer(1)).unwrap();
    let y = b.end().unwrap();
    assert_eq!(pairs_of(&y), vec![(text("kept"), Yaml::Integer(1))]);
}

#[test]
fn a_key_without_value_is_dropped_at_the_end() {
    let mut b = Serializer.serialize_map(None).unwrap();
    b.serialize_key(text("a")).unwrap();
    b.serialize_value(Yaml::Integer(1)).unwrap();
    b.serialize_key(text("b")).unwrap();
    let y = b.end().unwrap();
    assert_eq!(pairs_of(&y), vec![(text("a"), Yaml::Integer(1))]);
}

#[test]
fn a_repeated_key_moves_to_the_end_with_the_new_value() {
    let mut b = Serializer.serialize_map(None).unwrap();
    b.serialize_key(text("a")).unwrap();
    b.serialize_value(Yaml::Integer(1)).unwrap();
    b.serialize_key(text("b")).unwrap();
    b.serialize_value(Yaml::Integer(2)).unwrap();
    b.serialize_key(text("a")).unwrap();
    b.serialize_value(Yaml::Integer(3)).unwrap();
    let y = b.end().unwrap();
    assert_eq!(
        pairs_of(&y),
        vec![(text("b"), Yaml::Integer(2)), (text("a"), Yaml::Integer(3))]
    );
}

#[test]
fn struct_fields_in_declaration_order() {
    let mut b = Serializer.serialize_struct("S", 2).unwrap();
    b.serialize_field("name", text("a")).unwrap();
    b.serialize_field("count", Yaml::Integer(3)).unwrap();
    let y = b.end().unwrap();
    assert_eq!(
        pairs_of(&y),
        vec![(text("name"), text("a")), (text("count"), Yaml::Integer(3))]
    );
    assert_eq!(
        y,
        mapping(vec![(text("name"), text("a")), (text("count"), Yaml::Integer(3))])
    );
}

#[test]
fn struct_without_fields() {
    let b = Serializer.serialize_struct("Empty", 0).unwrap();
    assert_eq!(b.end().unwrap(), Yaml::Hash(yaml::Hash::new()));
}

#[test]
fn struct_field_written_twice() {
    let mut b = Serializer.serialize_struct("S", 2).unwrap();
    b.serialize_field("x", Yaml::Integer(1)).unwrap();
    b.serialize_field("y", Yaml::Integer(2)).unwrap();
    b.serialize_field("x", Yaml::Integer(3)).unwrap();
    let y = b.end().unwrap();
    assert_eq!(
        pairs_of(&y),
        vec![(text("y"), Yaml::Integer(2)), (text("x"), Yaml::Integer(3))]
    );
}

#[test]
fn newtype_variant_is_a_singleton_mapping() {
    let y = Serializer.serialize_newtype_variant("E", 1, "Bar", Yaml::Integer(7)).unwrap();
    assert_eq!(pairs_of(&y), vec![(text("Bar"), Yaml::Integer(7))]);
}

#[test]
fn tuple_variant_is_a_singleton_mapping_of_a_sequence() {
    let mut b = Serializer.serialize_tuple_variant("E", 2, "Baz", 2).unwrap();
    b.serialize_field(Yaml::Integer(1)).unwrap();
    b.serialize_field(Yaml::Integer(2)).unwrap();
    let y = b.end().unwrap();
    assert_eq!(
        pairs_of(&y),
        vec![(text("Baz"), Yaml::Array(vec![Yaml::Integer(1), Yaml::Integer(2)]))]
    );
}

#[test]
fn struct_variant_is_a_singleton_mapping_of_a_mapping() {
    let mut b = Serializer.serialize_struct_variant("E", 3, "Qux", 1).unwrap();
    b.serialize_field("a", Yaml::Integer(1)).unwrap();
    let y = b.end().unwrap();
    assert_eq!(
        pairs_of(&y),
        vec![(text("Qux"), mapping(vec![(text("a"), Yaml::Integer(1))]))]
    );
}

#[test]
fn struct_variant_keeps_field_order() {
    let mut b = Serializer.serialize_struct_variant("E", 0, "V", 3).unwrap();
    b.serialize_field("c", Yaml::Integer(1)).unwrap();
    b.serialize_field("a", Yaml::Integer(2)).unwrap();
    b.serialize_field("b", Yaml::Integer(3)).unwrap();
    let y = b.end().unwrap();
    let outer = pairs_of(&y);
    assert_eq!(outer.len(), 1);
    assert_eq!(outer[0].0, text("V"));
    assert_eq!(
        pairs_of(&outer[0].1),
        vec![
            (text("c"), Yaml::Integer(1)),
            (text("a"), Yaml::Integer(2)),
            (text("b"), Yaml::Integer(3)),
        ]
    );
}

#[test]
fn variants_without_fields() {
    let b = Serializer.serialize_tuple_variant("E", 0, "T", 0).unwrap();
    assert_eq!(b.end().unwrap(), mapping(vec![(text("T"), Yaml::Array(vec![]))]));
    let b = Serializer.serialize_struct_variant("E", 0, "S", 0).unwrap();
    assert_eq!(
        b.end().unwrap(),
        mapping(vec![(text("S"), Yaml::Hash(yaml::Hash::new()))])
    );
}

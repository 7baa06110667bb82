use http_dispatch::error::ConnectorError;
use http_dispatch::ser::{key_must_be_a_string, MapKeySerializer, Serializer};
use http_dispatch::value::Value;

#[test]
fn scalars_serialize() {
    assert_eq!(Serializer::default().serialize_bool(true), Ok(Value::Bool(true)));
    assert_eq!(Serializer::default().serialize_i8(-3), Ok(Value::I64(-3)));
    assert_eq!(Serializer::default().serialize_u16(7), Ok(Value::I64(7)));
    assert_eq!(Serializer::default().serialize_unit(), Ok(Value::Null));
    assert_eq!(Serializer::default().serialize_none(), Ok(Value::Null));
    assert_eq!(
        Serializer::default().serialize_char('x'),
        Ok(Value::String("x".to_string()))
    );
}

#[test]
fn large_unsigned_wraps_to_signed() {
    assert_eq!(
        Serializer::default().serialize_u64(u64::MAX),
        Ok(Value::I64(-1))
    );
}

#[test]
fn bytes_become_an_array_of_integers() {
    assert_eq!(
        Serializer::default().serialize_bytes(&[1, 255]),
        Ok(Value::Array(vec![Value::U64(1), Value::U64(255)]))
    );
}

#[test]
fn sequence_collects_in_order() {
    let mut seq = Serializer::default().serialize_seq(Some(2)).unwrap();
    seq.serialize_element(Value::I64(1)).unwrap();
    seq.serialize_element(Value::Bool(false)).unwrap();
    assert_eq!(
        seq.end(),
        Ok(Value::Array(vec![Value::I64(1), Value::Bool(false)]))
    );
}

#[test]
fn tuple_variant_is_named_array() {
    let mut tv = Serializer::default()
        .serialize_tuple_variant("E", 0, "Pair", 2)
        .unwrap();
    tv.serialize_field(Value::I64(1)).unwrap();
    tv.serialize_field(Value::I64(2)).unwrap();
    match tv.end().unwrap() {
        Value::Object(o) => {
            assert_eq!(o.len(), 1);
            assert_eq!(
                o.get("Pair"),
                Some(&Value::Array(vec![Value::I64(1), Value::I64(2)]))
            );
        }
        other => panic!("unexpected {:?}", other),
    }
}

#[test]
fn map_keys_must_be_strings() {
    let mut map = Serializer::default().serialize_map(None).unwrap();
    assert_eq!(
        map.serialize_key(MapKeySerializer {}.serialize_u64(3)),
        Err(ConnectorError::KeyMustBeAString)
    );
    map.serialize_key(MapKeySerializer {}.serialize_str("a")).unwrap();
    map.serialize_value(Value::I64(1)).unwrap();
    map.serialize_field("a", Value::I64(2)).unwrap();
    map.serialize_field("b", Value::Null).unwrap();
    match map.end().unwrap() {
        Value::Object(o) => {
            assert_eq!(o.len(), 2);
            assert_eq!(o.get("a"), Some(&Value::I64(2)));
            assert_eq!(o.get("b"), Some(&Value::Null));
        }
        other => panic!("unexpected {:?}", other),
    }
    assert_eq!(key_must_be_a_string(), ConnectorError::KeyMustBeAString);
}

#[test]
fn struct_variant_is_named_object() {
    let mut sv = Serializer::default()
        .serialize_struct_variant("E", 1, "Point", 2)
        .unwrap();
    sv.serialize_field("x", Value::I64(3)).unwrap();
    match sv.end().unwrap() {
        Value::Object(o) => match o.get("Point") {
            Some(Value::Object(inner)) => assert_eq!(inner.get("x"), Some(&Value::I64(3))),
            other => panic!("unexpected {:?}", other),
        },
        other => panic!("unexpected {:?}", other),
    }
}

#[test]
fn newtype_variant_wraps_value() {
    match Serializer::default()
        .serialize_newtype_variant("E", 2, "Wrapped", Value::Bool(true))
        .unwrap()
    {
        Value::Object(o) => assert_eq!(o.get("Wrapped"), Some(&Value::Bool(true))),
        other => panic!("unexpected {:?}", other),
    }
}

#[test]
fn map_tracks_pending_key_and_entry_order() {
    let mut map = Serializer::default().serialize_struct("S", 2).unwrap();
    assert!(!map.has_key());
    map.serialize_key(MapKeySerializer {}.serialize_unit_variant("E", 0, "k"))
        .unwrap();
    assert!(map.has_key());
    map.serialize_value(Value::I64(1)).unwrap();
    assert!(!map.has_key());
    map.serialize_field("z", Value::Null).unwrap();
    match map.end().unwrap() {
        Value::Object(o) => {
            assert_eq!(o.entry_at(0), ("k", &Value::I64(1)));
            assert_eq!(o.entry_at(1), ("z", &Value::Null));
        }
        other => panic!("unexpected {:?}", other),
    }
}

//! Error reporting and decoding properties, driven on concrete trees.

use collectd_plugin::{ConfigItem, ConfigValue, DeError, Deserializer, Error};

fn item(key: &str, values: Vec<ConfigValue>, children: Vec<ConfigItem>) -> ConfigItem {
    ConfigItem {
        key: key.to_string(),
        values,
        children,
    }
}

#[test]
fn empty_stack_reports_no_more_values() {
    let items: Vec<ConfigItem> = vec![];
    let de = Deserializer::from_collectd(&items);
    assert_eq!(Err(Error(DeError::NoMoreValuesLeft)), de.grab_bool());
}

#[test]
fn two_scalars_fail_a_single_value_request() {
    let items = vec![item(
        "pair",
        vec![ConfigValue::Boolean(true), ConfigValue::Boolean(false)],
        vec![],
    )];
    let mut de = Deserializer::from_collectd(&items);
    let mut fields = de.deserialize_struct().unwrap();
    let key = fields.next_key(&mut de).unwrap();
    assert_eq!(Some("pair"), key);
    assert_eq!(Err(Error(DeError::ExpectSingleValue)), de.grab_bool());
}

#[test]
fn two_scalars_decode_as_a_sequence_in_order() {
    let items = vec![item(
        "pair",
        vec![ConfigValue::Boolean(true), ConfigValue::Boolean(false)],
        vec![],
    )];
    let mut de = Deserializer::from_collectd(&items);
    let mut fields = de.deserialize_struct().unwrap();
    fields.next_key(&mut de).unwrap();
    let mut elements = de.deserialize_seq().unwrap();
    let mut collected = Vec::new();
    while elements.next_element(&mut de) {
        collected.push(de.grab_bool().unwrap());
    }
    assert_eq!(vec![true, false], collected);
}

#[test]
fn zero_scalars_fail_a_single_value_request() {
    let items = vec![item("bare", vec![], vec![])];
    let mut de = Deserializer::from_collectd(&items);
    let mut fields = de.deserialize_struct().unwrap();
    fields.next_key(&mut de).unwrap();
    assert!(matches!(
        de.grab_string(),
        Err(Error(DeError::ExpectSingleValue))
    ));
}

#[test]
fn wrong_scalar_tags_are_reported() {
    let items = vec![
        item("b", vec![ConfigValue::Boolean(true)], vec![]),
        item("n", vec![ConfigValue::Number(f64::to_bits(3.0))], vec![]),
    ];
    let mut de = Deserializer::from_collectd(&items);
    let mut fields = de.deserialize_struct().unwrap();

    assert_eq!(Some("b"), fields.next_key(&mut de).unwrap());
    assert_eq!(Err(Error(DeError::ExpectNumber)), de.grab_number());
    assert!(matches!(de.grab_string(), Err(Error(DeError::ExpectString))));

    assert_eq!(Some("n"), fields.next_key(&mut de).unwrap());
    assert_eq!(Err(Error(DeError::ExpectBoolean)), de.grab_bool());
}

#[test]
fn char_of_one_character_string() {
    let items = vec![item("c", vec![ConfigValue::String("x".to_string())], vec![])];
    let mut de = Deserializer::from_collectd(&items);
    let mut fields = de.deserialize_struct().unwrap();
    fields.next_key(&mut de).unwrap();
    assert_eq!(Ok('x'), de.grab_char());
}

#[test]
fn expect_char_carries_the_string_it_saw() {
    let items = vec![item(
        "c",
        vec![ConfigValue::String("boat".to_string())],
        vec![],
    )];
    let mut de = Deserializer::from_collectd(&items);
    let mut fields = de.deserialize_struct().unwrap();
    fields.next_key(&mut de).unwrap();
    match de.grab_char() {
        Err(Error(DeError::ExpectChar(seen))) => assert_eq!("boat", seen),
        other => panic!("expected ExpectChar, got {:?}", other),
    }
}

#[test]
fn sequence_frames_refuse_struct_shaped_requests() {
    let items = vec![item(
        "list",
        vec![ConfigValue::Boolean(true)],
        vec![],
    )];
    let mut de = Deserializer::from_collectd(&items);
    let mut fields = de.deserialize_struct().unwrap();
    fields.next_key(&mut de).unwrap();
    let mut elements = de.deserialize_seq().unwrap();
    assert!(elements.next_element(&mut de));
    assert!(matches!(
        de.deserialize_identifier(),
        Err(Error(DeError::ExpectStruct))
    ));
    assert!(matches!(de.deserialize_seq(), Err(Error(DeError::ExpectStruct))));
    assert!(matches!(de.deserialize_struct(), Err(Error(DeError::ExpectStruct))));
}

#[test]
fn open_ended_decoding_is_not_supported() {
    let items = vec![item("any", vec![ConfigValue::Boolean(true)], vec![])];
    let de = Deserializer::from_collectd(&items);
    assert_eq!(Err(Error(DeError::DataTypeNotSupported)), de.deserialize_any());
}

#[test]
fn unknown_field_before_recognized_sibling_is_harmless() {
    let items = vec![
        item("my_boat", vec![ConfigValue::String("/".to_string())], vec![]),
        item("my_char", vec![ConfigValue::String("/".to_string())], vec![]),
    ];
    let mut de = Deserializer::from_collectd(&items);
    let mut fields = de.deserialize_struct().unwrap();
    let mut my_char: Option<char> = None;
    while let Some(key) = fields.next_key(&mut de).unwrap() {
        match key {
            "my_char" => my_char = Some(de.grab_char().unwrap()),
            _ => {}
        }
    }
    assert_eq!(Some('/'), my_char);
}

#[test]
fn named_block_uses_its_first_value_never_its_key() {
    let items = vec![item(
        "node",
        vec![ConfigValue::String("example".to_string())],
        vec![item(
            "port",
            vec![ConfigValue::Number(f64::to_bits(2003.0))],
            vec![],
        )],
    )];
    let mut de = Deserializer::from_collectd(&items);
    let mut fields = de.deserialize_struct().unwrap();
    let key = fields.next_key(&mut de).unwrap();
    assert_eq!(Some("example"), key);
    assert_ne!(Some("node"), key);
}

#[test]
fn plain_block_with_children_uses_its_key() {
    let items = vec![item(
        "block",
        vec![],
        vec![item("port", vec![ConfigValue::Number(f64::to_bits(1.0))], vec![])],
    )];
    let mut de = Deserializer::from_collectd(&items);
    let mut fields = de.deserialize_struct().unwrap();
    assert_eq!(Some("block"), fields.next_key(&mut de).unwrap());
}

#[test]
fn empty_value_list_decodes_as_an_empty_sequence() {
    let items = vec![item("list", vec![], vec![])];
    let mut de = Deserializer::from_collectd(&items);
    let mut fields = de.deserialize_struct().unwrap();
    fields.next_key(&mut de).unwrap();
    let mut elements = de.deserialize_seq().unwrap();
    let mut collected: Vec<bool> = Vec::new();
    while elements.next_element(&mut de) {
        collected.push(de.grab_bool().unwrap());
    }
    assert_eq!(Vec::<bool>::new(), collected);
}

#[test]
fn decoding_twice_gives_equal_results() {
    let items = vec![
        item("greeting", vec![ConfigValue::String("HEY".to_string())], vec![]),
        item("count", vec![ConfigValue::Number(f64::to_bits(7.0))], vec![]),
    ];

    let mut results = Vec::new();
    for _ in 0..2 {
        let mut de = Deserializer::from_collectd(&items);
        let mut fields = de.deserialize_struct().unwrap();
        let mut greeting: Option<String> = None;
        let mut count: Option<u64> = None;
        while let Some(key) = fields.next_key(&mut de).unwrap() {
            match key {
                "greeting" => greeting = Some(de.grab_string().unwrap().to_string()),
                "count" => count = Some(de.grab_number().unwrap()),
                other => panic!("unexpected field {}", other),
            }
        }
        results.push((greeting, count));
    }
    assert_eq!(results[0], results[1]);
    assert_eq!(Some(7.0), results[0].1.map(f64::from_bits));
}

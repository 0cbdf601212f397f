use serde_json::Value;
use uuid::Uuid;
use vtftk_plugin::action::Action;
use vtftk_plugin::error::DecodeError;
use vtftk_plugin::ident::{decode_id, encode_id, id_of_parsed};
use vtftk_plugin::json::Json;
use vtftk_plugin::models::ThrowItemProperties;

fn json_of(value: &Value) -> Json {
    match value {
        Value::Null => Json::Null,
        Value::Bool(b) => Json::Bool(*b),
        Value::Number(n) => match (n.as_u64(), n.as_i64(), n.as_f64()) {
            (Some(u), _, _) => Json::Integer(u as i128),
            (_, Some(i), _) => Json::Integer(i as i128),
            (_, _, Some(f)) => Json::Float(f.to_bits()),
            _ => Json::Null,
        },
        Value::String(s) => Json::Text(s.clone()),
        Value::Array(items) => Json::Array(items.iter().map(json_of).collect()),
        Value::Object(members) => {
            Json::Object(members.iter().map(|(k, v)| (k.clone(), json_of(v))).collect())
        }
    }
}

fn doc(text: &str) -> Json {
    json_of(&serde_json::from_str::<Value>(text).expect("the test wrote JSON"))
}

#[test]
fn unregistered_identifiers_are_unknown() {
    for action_id in ["", "throw", "throw_item ", " throw_item", "THROW_ITEM", "throw-item", "get_items"] {
        assert_eq!(Action::from_action(action_id, doc("{}")), None, "{action_id:?}");
        assert_eq!(
            Action::from_action(action_id, doc(r#"{"item": "not-a-uuid"}"#)),
            None,
            "{action_id:?}"
        );
        assert_eq!(Action::from_action(action_id, Json::Null), None, "{action_id:?}");
    }
}

#[test]
fn throw_item_without_an_item_is_recognized() {
    let expected = Some(Ok(Action::ThrowItem(ThrowItemProperties { item: None })));
    assert_eq!(Action::from_action("throw_item", doc("{}")), expected);
    assert_eq!(Action::from_action("throw_item", doc(r#"{"item": null}"#)), expected);
    assert_eq!(Action::from_action("throw_item", doc(r#"{"other": 1}"#)), expected);
}

#[test]
fn throw_item_with_a_text_that_is_no_uuid_is_malformed() {
    assert_eq!(
        Action::from_action("throw_item", doc(r#"{"item": "not-a-uuid"}"#)),
        Some(Err(DecodeError::InvalidUuid))
    );
    assert_eq!(
        Action::from_action("throw_item", doc(r#"{"item": ""}"#)),
        Some(Err(DecodeError::InvalidUuid))
    );
}

#[test]
fn throw_item_with_an_item_of_another_type_is_malformed() {
    assert_eq!(
        Action::from_action("throw_item", doc(r#"{"item": 5}"#)),
        Some(Err(DecodeError::WrongType))
    );
    assert_eq!(
        Action::from_action("throw_item", doc(r#"{"item": ["a"]}"#)),
        Some(Err(DecodeError::WrongType))
    );
}

#[test]
fn throw_item_with_properties_that_are_no_object_is_malformed() {
    for text in ["null", "true", "3", "\"x\"", "[]"] {
        assert_eq!(
            Action::from_action("throw_item", doc(text)),
            Some(Err(DecodeError::WrongType)),
            "{text}"
        );
    }
}

#[test]
fn throw_item_with_an_item_names_it() {
    let id = 0x936da01f_9abd_4d9d_80c7_02af85c822a8;
    let expected = Some(Ok(Action::ThrowItem(ThrowItemProperties { item: Some(id) })));
    assert_eq!(
        Action::from_action(
            "throw_item",
            doc(r#"{"item": "936da01f-9abd-4d9d-80c7-02af85c822a8"}"#)
        ),
        expected
    );
    assert_eq!(
        Action::from_action(
            "throw_item",
            doc(r#"{"item": "936DA01F9ABD4D9D80C702AF85C822A8", "label": "x"}"#)
        ),
        expected
    );
}

#[test]
fn the_first_member_of_a_name_is_the_one_read() {
    let id = 7;
    let properties = Json::Object(vec![
        ("item".to_string(), Json::Text(Uuid::from_u128(id).hyphenated().to_string())),
        ("item".to_string(), Json::Text("not-a-uuid".to_string())),
    ]);
    assert_eq!(
        Action::from_action("throw_item", properties),
        Some(Ok(Action::ThrowItem(ThrowItemProperties { item: Some(id) })))
    );
}

#[test]
fn an_identifier_is_written_hyphenated_and_in_lower_case() {
    let id = 0xA1A2A3A4_B1B2_C1C2_D1D2_D3D4D5D6D7D8;
    assert_eq!(
        encode_id(id),
        Json::Text("a1a2a3a4-b1b2-c1c2-d1d2-d3d4d5d6d7d8".to_string())
    );
}

#[test]
fn an_identifier_is_read_back_from_its_text() {
    for id in [0u128, 1, u128::MAX, 0x936da01f_9abd_4d9d_80c7_02af85c822a8] {
        assert_eq!(decode_id(&encode_id(id)), Ok(id));
    }
}

#[test]
fn an_identifier_is_read_from_every_form_that_the_uuid_crate_reads() {
    let id = 0x936da01f_9abd_4d9d_80c7_02af85c822a8;
    for text in [
        "936da01f-9abd-4d9d-80c7-02af85c822a8",
        "936da01f9abd4d9d80c702af85c822a8",
        "{936da01f-9abd-4d9d-80c7-02af85c822a8}",
        "urn:uuid:936da01f-9abd-4d9d-80c7-02af85c822a8",
    ] {
        assert_eq!(decode_id(&Json::Text(text.to_string())), Ok(id), "{text}");
    }
    assert_eq!(
        decode_id(&Json::Text("936da01f-9abd-4d9d-80c7-02af85c822a".to_string())),
        Err(DecodeError::InvalidUuid)
    );
    assert_eq!(decode_id(&Json::Integer(1)), Err(DecodeError::WrongType));
}

#[test]
fn a_reading_that_failed_is_an_invalid_identifier() {
    let id = 9;
    assert_eq!(id_of_parsed(Some(id)), Ok(id));
    assert_eq!(id_of_parsed(Uuid::parse_str("not-a-uuid").ok().map(|id| id.as_u128())), Err(DecodeError::InvalidUuid));
    assert_eq!(id_of_parsed(Uuid::parse_str("").ok().map(|id| id.as_u128())), Err(DecodeError::InvalidUuid));
}

#[test]
fn the_properties_of_a_tile_follow_from_the_reading_of_its_item() {
    let id = 9;
    assert_eq!(ThrowItemProperties::from_parsed(None), Ok(ThrowItemProperties { item: None }));
    assert_eq!(
        ThrowItemProperties::from_parsed(Some(Some(id))),
        Ok(ThrowItemProperties { item: Some(id) })
    );
    assert_eq!(
        ThrowItemProperties::from_parsed(Some(Uuid::parse_str("not-a-uuid").ok().map(|id| id.as_u128()))),
        Err(DecodeError::InvalidUuid)
    );
}

#[test]
fn the_text_of_the_item_is_the_member_named_item() {
    let text = "not-a-uuid".to_string();
    assert_eq!(
        ThrowItemProperties::read_item_text(&doc(r#"{"item": "not-a-uuid"}"#)),
        Ok(Some(&text))
    );
    assert_eq!(ThrowItemProperties::read_item_text(&doc("{}")), Ok(None));
    assert_eq!(ThrowItemProperties::read_item_text(&doc(r#"{"item": null}"#)), Ok(None));
    assert_eq!(
        ThrowItemProperties::read_item_text(&doc(r#"{"item": false}"#)),
        Err(DecodeError::WrongType)
    );
    assert_eq!(ThrowItemProperties::read_item_text(&doc("7")), Err(DecodeError::WrongType));
}

#[test]
fn the_properties_of_a_tile_are_read_from_a_document() {
    let id = 0x936da01f_9abd_4d9d_80c7_02af85c822a8;
    assert_eq!(
        ThrowItemProperties::decode(&doc(r#"{"item": "936da01f-9abd-4d9d-80c7-02af85c822a8"}"#)),
        Ok(ThrowItemProperties { item: Some(id) })
    );
    assert_eq!(ThrowItemProperties::decode(&doc("{}")), Ok(ThrowItemProperties { item: None }));
    assert_eq!(
        ThrowItemProperties::decode(&doc(r#"{"item": "x"}"#)),
        Err(DecodeError::InvalidUuid)
    );
}

#[test]
fn an_identifier_is_the_128_bits_of_its_uuid() {
    for text in [
        "00000000-0000-0000-0000-000000000000",
        "a1a2a3a4-b1b2-c1c2-d1d2-d3d4d5d6d7d8",
        "ffffffff-ffff-ffff-ffff-ffffffffffff",
        "936DA01F9ABD4D9D80C702AF85C822A8",
    ] {
        let uuid = Uuid::parse_str(text).unwrap();
        assert_eq!(decode_id(&Json::Text(text.to_string())), Ok(uuid.as_u128()), "{text}");
        assert_eq!(
            encode_id(uuid.as_u128()),
            Json::Text(uuid.hyphenated().to_string()),
            "{text}"
        );
    }
    assert_eq!(
        decode_id(&Json::Text("a1a2a3a4-b1b2-c1c2-d1d2-d3d4d5d6d7d8".to_string())),
        Ok(0xa1a2a3a4_b1b2_c1c2_d1d2_d3d4d5d6d7d8)
    );
}

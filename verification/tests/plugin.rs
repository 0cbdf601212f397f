use serde_json::{Number, Value};
use vtftk_plugin::error::{DecodeError, FetchError};
use vtftk_plugin::json::Json;
use vtftk_plugin::messages::{InspectorMessageIn, InspectorMessageOut};
use vtftk_plugin::models::{ItemConfig, ItemImageConfig, ItemModel};
use vtftk_plugin::pipeline::ThrowPipeline;
use vtftk_plugin::plugin::{deliver_items, Click, Delivery, PanelStep, Properties, VtftkPlugin};
use vtftk_plugin::request::{Method, Reply, Request};

fn json_of(value: &Value) -> Json {
    match value {
        Value::Null => Json::Null,
        Value::Bool(b) => Json::Bool(*b),
        Value::Number(n) => match (n.as_u64(), n.as_i64(), n.as_f64()) {
            (Some(u), _, _) => Json::Integer(u as i128),
            (_, Some(i), _) => Json::Integer(i as i128),
            (_, _, Some(f)) => Json::Float(f.to_bits()),
            _ => Json::Null,
        },
        Value::String(s) => Json::Text(s.clone()),
        Value::Array(items) => Json::Array(items.iter().map(json_of).collect()),
        Value::Object(members) => {
            Json::Object(members.iter().map(|(k, v)| (k.clone(), json_of(v))).collect())
        }
    }
}

fn value_of(json: &Json) -> Value {
    match json {
        Json::Null => Value::Null,
        Json::Bool(b) => Value::Bool(*b),
        Json::Integer(n) => match (u64::try_from(*n), i64::try_from(*n)) {
            (Ok(u), _) => Value::Number(Number::from(u)),
            (_, Ok(i)) => Value::Number(Number::from(i)),
            _ => Value::Null,
        },
        Json::Float(bits) => Number::from_f64(f64::from_bits(*bits)).map_or(Value::Null, Value::Number),
        Json::Text(s) => Value::String(s.clone()),
        Json::Array(items) => Value::Array(items.iter().map(value_of).collect()),
        Json::Object(members) => {
            let mut map = serde_json::Map::new();
            for (key, value) in members {
                map.insert(key.clone(), value_of(value));
            }
            Value::Object(map)
        }
    }
}

fn parse(text: &str) -> Value {
    serde_json::from_str::<Value>(text).expect("the test wrote JSON")
}

fn doc(text: &str) -> Json {
    json_of(&parse(text))
}

fn tomato() -> ItemModel {
    ItemModel {
        id: 0x936da01f_9abd_4d9d_80c7_02af85c822a8,
        name: "Tomato".to_string(),
        config: ItemConfig { image: ItemImageConfig { src: "tomato.png".to_string(), pixelate: false } },
    }
}

const TOMATO: &str = r#"{"id": "936da01f-9abd-4d9d-80c7-02af85c822a8", "name": "Tomato",
    "config": {"image": {"src": "tomato.png", "pixelate": false}}}"#;

#[test]
fn a_new_plugin_has_the_default_port_and_no_panel() {
    let plugin: VtftkPlugin<u32> = VtftkPlugin::new();
    assert_eq!(plugin.state().port(), 8533);
    assert_eq!(plugin.state().inspector(), &None);
    let plugin: VtftkPlugin<u32> = VtftkPlugin::default();
    assert_eq!(plugin.state().port(), 8533);
    assert_eq!(plugin.state().inspector(), &None);
}

#[test]
fn saved_properties_set_the_port() {
    let mut plugin: VtftkPlugin<u32> = VtftkPlugin::new();
    assert_eq!(plugin.on_properties(doc(r#"{"port": 9000}"#)), Ok(9000));
    assert_eq!(plugin.state().port(), 9000);
    assert_eq!(plugin.on_properties(doc(r#"{"port": 0, "theme": "dark"}"#)), Ok(0));
    assert_eq!(plugin.state().port(), 0);
    assert_eq!(plugin.on_properties(doc(r#"{"port": 65535}"#)), Ok(65535));
    assert_eq!(plugin.state().port(), 65535);
}

#[test]
fn saved_properties_without_a_port_set_the_default_port() {
    for text in ["{}", r#"{"port": null}"#, r#"{"other": 1}"#] {
        let mut plugin: VtftkPlugin<u32> = VtftkPlugin::new();
        plugin.on_properties(doc(r#"{"port": 9000}"#)).unwrap();
        assert_eq!(plugin.on_properties(doc(text)), Ok(8533), "{text}");
        assert_eq!(plugin.state().port(), 8533, "{text}");
    }
}

#[test]
fn saved_properties_that_do_not_decode_leave_the_port_as_it_was() {
    let cases = [
        ("null", DecodeError::WrongType),
        ("[]", DecodeError::WrongType),
        (r#"{"port": "9000"}"#, DecodeError::WrongType),
        (r#"{"port": 9000.5}"#, DecodeError::WrongType),
        (r#"{"port": 9000.0}"#, DecodeError::WrongType),
        (r#"{"port": true}"#, DecodeError::WrongType),
        (r#"{"port": 65536}"#, DecodeError::OutOfRange),
        (r#"{"port": -1}"#, DecodeError::OutOfRange),
        (r#"{"port": 18446744073709551615}"#, DecodeError::OutOfRange),
    ];
    for (text, error) in cases {
        let mut plugin: VtftkPlugin<u32> = VtftkPlugin::new();
        plugin.on_inspector_open(5);
        plugin.on_properties(doc(r#"{"port": 9000}"#)).unwrap();
        assert_eq!(plugin.on_properties(doc(text)), Err(error), "{text}");
        assert_eq!(plugin.state().port(), 9000, "{text}");
        assert_eq!(plugin.state().inspector(), &Some(5), "{text}");
    }
}

#[test]
fn properties_are_read_back_from_their_document() {
    for port in [None, Some(0), Some(1), Some(8533), Some(9000), Some(65535)] {
        let properties = Properties { port };
        assert_eq!(Properties::decode(&properties.encode()), Ok(properties));
    }
    assert_eq!(value_of(&Properties { port: Some(9000) }.encode()), parse(r#"{"port": 9000}"#));
    assert_eq!(value_of(&Properties { port: None }.encode()), parse(r#"{"port": null}"#));
}

#[test]
fn the_last_of_opening_and_closing_decides_the_panel() {
    let mut plugin: VtftkPlugin<&str> = VtftkPlugin::new();
    plugin.on_inspector_open("h1");
    assert_eq!(plugin.state().inspector(), &Some("h1"));
    plugin.on_inspector_open("h2");
    assert_eq!(plugin.state().inspector(), &Some("h2"));
    plugin.on_inspector_close("h1");
    assert_eq!(plugin.state().inspector(), &None);
    plugin.on_inspector_close("h2");
    assert_eq!(plugin.state().inspector(), &None);
    plugin.on_inspector_open("h3");
    assert_eq!(plugin.state().inspector(), &Some("h3"));
    assert_eq!(plugin.state().port(), 8533);
}

#[test]
fn a_message_of_the_panel_is_read_by_its_type() {
    assert_eq!(InspectorMessageIn::decode(&doc(r#"{"type": "GET_ITEMS"}"#)), Ok(InspectorMessageIn::GetItems));
    assert_eq!(
        InspectorMessageIn::decode(&doc(r#"{"type": "GET_ITEMS", "port": "x"}"#)),
        Ok(InspectorMessageIn::GetItems)
    );
    assert_eq!(
        InspectorMessageIn::decode(&doc(r#"{"port": 9000, "type": "PORT_CHANGED"}"#)),
        Ok(InspectorMessageIn::PortChanged { port: 9000 })
    );
    let cases = [
        ("null", DecodeError::WrongType),
        (r#""GET_ITEMS""#, DecodeError::WrongType),
        ("{}", DecodeError::MissingField),
        (r#"{"type": 1}"#, DecodeError::WrongType),
        (r#"{"type": "get_items"}"#, DecodeError::UnknownVariant),
        (r#"{"type": "GetItems"}"#, DecodeError::UnknownVariant),
        (r#"{"type": "ITEMS", "items": []}"#, DecodeError::UnknownVariant),
        (r#"{"type": "PORT_CHANGED"}"#, DecodeError::MissingField),
        (r#"{"type": "PORT_CHANGED", "port": null}"#, DecodeError::WrongType),
        (r#"{"type": "PORT_CHANGED", "port": "9000"}"#, DecodeError::WrongType),
        (r#"{"type": "PORT_CHANGED", "port": 70000}"#, DecodeError::OutOfRange),
        (r#"{"type": "PORT_CHANGED", "port": -9000}"#, DecodeError::OutOfRange),
    ];
    for (text, error) in cases {
        assert_eq!(InspectorMessageIn::decode(&doc(text)), Err(error), "{text}");
    }
}

#[test]
fn a_message_of_the_panel_is_read_back_from_its_document() {
    for message in [
        InspectorMessageIn::GetItems,
        InspectorMessageIn::PortChanged { port: 0 },
        InspectorMessageIn::PortChanged { port: 9000 },
        InspectorMessageIn::PortChanged { port: 65535 },
    ] {
        assert_eq!(InspectorMessageIn::decode(&message.encode()), Ok(message));
    }
    assert_eq!(value_of(&InspectorMessageIn::GetItems.encode()), parse(r#"{"type": "GET_ITEMS"}"#));
    assert_eq!(
        value_of(&InspectorMessageIn::PortChanged { port: 9000 }.encode()),
        parse(r#"{"type": "PORT_CHANGED", "port": 9000}"#)
    );
}

#[test]
fn the_items_go_to_the_panel_under_the_type_items() {
    let message = InspectorMessageOut::Items { items: vec![tomato()] };
    assert_eq!(value_of(&message.encode()), parse(&format!(r#"{{"type": "ITEMS", "items": [{TOMATO}]}}"#)));
    let empty = InspectorMessageOut::Items { items: vec![] };
    assert_eq!(value_of(&empty.encode()), parse(r#"{"type": "ITEMS", "items": []}"#));
}

#[test]
fn a_request_for_the_items_while_no_panel_is_open_sends_nothing() {
    let mut plugin: VtftkPlugin<u32> = VtftkPlugin::new();
    let step = plugin.on_inspector_message(doc(r#"{"type":"GET_ITEMS"}"#));
    let (request, reply_to) = match step {
        PanelStep::FetchItems { request, reply_to } => (request, reply_to),
        other => panic!("{other:?}"),
    };
    assert_eq!(
        request,
        Request { method: Method::Get, url: "http://127.0.0.1:8533/items".to_string(), body: None }
    );
    assert_eq!(reply_to, None);
    let reply = Reply::Document(doc(&format!("[{TOMATO}]")));
    assert_eq!(deliver_items(reply_to, &reply), Delivery::NoPanel);
}

#[test]
fn a_request_for_the_items_is_answered_to_the_panel_that_was_open() {
    let mut plugin: VtftkPlugin<u32> = VtftkPlugin::new();
    plugin.on_properties(doc(r#"{"port": 58371}"#)).unwrap();
    plugin.on_inspector_open(7);
    let step = plugin.on_inspector_message(doc(r#"{"type":"GET_ITEMS"}"#));
    let (request, reply_to) = match step {
        PanelStep::FetchItems { request, reply_to } => (request, reply_to),
        other => panic!("{other:?}"),
    };
    assert_eq!(request.url, "http://127.0.0.1:58371/items");
    assert_eq!(reply_to, Some(7));
    assert_eq!(plugin.state().inspector(), &Some(7));

    plugin.on_inspector_close(7);
    plugin.on_inspector_open(8);
    let reply = Reply::Document(doc(&format!("[{TOMATO}]")));
    assert_eq!(
        deliver_items(reply_to, &reply),
        Delivery::Send { to: 7, message: InspectorMessageOut::Items { items: vec![tomato()] } }
    );
}

#[test]
fn items_that_could_not_be_had_are_not_sent() {
    assert_eq!(deliver_items(Some(7), &Reply::Unreachable), Delivery::Failed(FetchError::Transport));
    assert_eq!(
        deliver_items(Some(7), &Reply::Unreadable),
        Delivery::Failed(FetchError::Decode(DecodeError::Syntax))
    );
    assert_eq!(
        deliver_items(Some(7), &Reply::Document(doc(r#"{"items": []}"#))),
        Delivery::Failed(FetchError::Decode(DecodeError::WrongType))
    );
    assert_eq!(
        deliver_items(Some(7), &Reply::Document(doc(r#"[{"id": "x"}]"#))),
        Delivery::Failed(FetchError::Decode(DecodeError::InvalidUuid))
    );
    assert_eq!(
        deliver_items(None::<u32>, &Reply::Unreachable),
        Delivery::Failed(FetchError::Transport)
    );
}

#[test]
fn a_change_of_the_port_takes_effect_and_is_to_be_saved() {
    let mut plugin: VtftkPlugin<u32> = VtftkPlugin::new();
    plugin.on_inspector_open(3);
    let step = plugin.on_inspector_message(doc(r#"{"type": "PORT_CHANGED", "port": 9000}"#));
    assert_eq!(step, PanelStep::Persist(Properties { port: Some(9000) }));
    assert_eq!(plugin.state().port(), 9000);
    assert_eq!(plugin.state().inspector(), &Some(3));
    assert_eq!(plugin.state().get_items().url, "http://127.0.0.1:9000/items");

    let mut restarted: VtftkPlugin<u32> = VtftkPlugin::new();
    let saved = match step {
        PanelStep::Persist(properties) => properties.encode(),
        other => panic!("{other:?}"),
    };
    assert_eq!(restarted.on_properties(saved), Ok(9000));
    assert_eq!(restarted.state().port(), 9000);
}

#[test]
fn a_message_that_does_not_decode_is_dropped() {
    for text in ["null", "{}", r#"{"type": "NOPE"}"#, r#"{"type": "PORT_CHANGED", "port": 70000}"#, "[1]"] {
        let mut plugin: VtftkPlugin<u32> = VtftkPlugin::new();
        plugin.on_inspector_open(3);
        assert_eq!(plugin.on_inspector_message(doc(text)), PanelStep::Ignored, "{text}");
        assert_eq!(plugin.state().port(), 8533, "{text}");
        assert_eq!(plugin.state().inspector(), &Some(3), "{text}");
    }
}

#[test]
fn a_click_on_an_unknown_action_is_unknown() {
    let plugin: VtftkPlugin<u32> = VtftkPlugin::new();
    assert_eq!(plugin.on_tile_clicked("open_door", doc("{}")), Click::Unknown);
    assert_eq!(
        plugin.on_tile_clicked("", doc(r#"{"item": "936da01f-9abd-4d9d-80c7-02af85c822a8"}"#)),
        Click::Unknown
    );
}

#[test]
fn a_click_with_malformed_properties_is_malformed() {
    let plugin: VtftkPlugin<u32> = VtftkPlugin::new();
    assert_eq!(
        plugin.on_tile_clicked("throw_item", doc(r#"{"item": "not-a-uuid"}"#)),
        Click::Malformed(DecodeError::InvalidUuid)
    );
    assert_eq!(
        plugin.on_tile_clicked("throw_item", doc("[]")),
        Click::Malformed(DecodeError::WrongType)
    );
}

#[test]
fn a_click_on_a_tile_without_an_item_makes_no_call() {
    let plugin: VtftkPlugin<u32> = VtftkPlugin::new();
    assert_eq!(plugin.on_tile_clicked("throw_item", doc("{}")), Click::Nothing);
    assert_eq!(plugin.on_tile_clicked("throw_item", doc(r#"{"item": null}"#)), Click::Nothing);
}

#[test]
fn a_click_on_a_tile_with_an_item_begins_a_throw() {
    let plugin: VtftkPlugin<u32> = VtftkPlugin::new();
    let click = plugin.on_tile_clicked(
        "throw_item",
        doc(r#"{"item": "936da01f-9abd-4d9d-80c7-02af85c822a8"}"#),
    );
    assert_eq!(
        click,
        Click::Throw {
            pipeline: ThrowPipeline::ResolvingItem,
            request: Request {
                method: Method::Post,
                url: "http://127.0.0.1:8533/items/query-by-id".to_string(),
                body: Some(Json::Object(vec![(
                    "ids".to_string(),
                    Json::Array(vec![Json::Text("936da01f-9abd-4d9d-80c7-02af85c822a8".to_string())])
                )])),
            },
        }
    );
}

use aof::console::{MessageType, MsgFrag};
use aof::inspect::{
    arg_to_frag, console_msg, obj_to_frag, JsEntry, JsKey, JsObject, JsProps, JsValue,
    MAX_DEPTH, MAX_ENTRIES,
};

/// The fragments as short texts, so that they can be compared.
fn shown(frags: &[MsgFrag]) -> Vec<String> {
    frags
        .iter()
        .map(|frag| match frag {
            MsgFrag::Log(s) => format!("log:{}", s),
            MsgFrag::ClassName(s) => format!("class:{}", s),
            MsgFrag::ObjectStart => "{".to_string(),
            MsgFrag::ErrorTrace(s) => format!("trace:{}", s),
            MsgFrag::ObjectEnd => "}".to_string(),
            MsgFrag::ArrayStart => "[".to_string(),
            MsgFrag::ArrayEnd => "]".to_string(),
            MsgFrag::ObjectMapsTo => ":".to_string(),
            MsgFrag::ListSep => ",".to_string(),
            MsgFrag::Truncated => "...".to_string(),
            MsgFrag::Undefined => "undefined".to_string(),
            MsgFrag::Null => "null".to_string(),
            MsgFrag::Bool(b) => format!("bool:{}", b),
            MsgFrag::Number(n) => format!("num:{}", f64::from_bits(*n)),
            MsgFrag::String(s) => format!("str:{}", s),
            MsgFrag::Symbol(s) => format!("sym:{}", s),
            MsgFrag::KeyString(s) => format!("key:{}", s),
            MsgFrag::KeySymbol(s) => format!("keysym:{}", s),
            MsgFrag::Circular => "circular".to_string(),
            MsgFrag::Function(s) => format!("fn:{}", s),
            MsgFrag::Unknown => "?".to_string(),
            MsgFrag::ArgSep => " ".to_string(),
        })
        .collect()
}

fn written(depth: usize, value: &JsValue) -> Vec<String> {
    let mut out = Vec::new();
    obj_to_frag(&mut out, depth, value);
    shown(&out)
}

fn number(n: f64) -> JsValue {
    JsValue::Number(n.to_bits())
}

fn text(s: &str) -> JsValue {
    JsValue::String(Some(s.to_string()))
}

fn object(props: Vec<(&str, JsValue)>) -> JsValue {
    let entries: Vec<JsEntry> = props
        .into_iter()
        .map(|(k, value)| JsEntry { key: JsKey::String(Some(k.to_string())), value })
        .collect();
    JsValue::Object(JsObject {
        class_name: Some("Object".to_string()),
        is_error: false,
        stack: None,
        props: Some(JsProps { length: entries.len(), entries }),
    })
}

#[test]
fn writes_simple_values_out() {
    assert_eq!(written(0, &JsValue::Undefined), ["undefined"]);
    assert_eq!(written(0, &JsValue::Null), ["null"]);
    assert_eq!(written(0, &number(1.5)), ["num:1.5"]);
    assert_eq!(written(0, &text("a")), ["str:a"]);
    assert_eq!(written(0, &JsValue::String(None)), ["str:??"]);
    assert_eq!(written(0, &JsValue::Symbol), ["sym:??"]);
    assert_eq!(written(0, &JsValue::Bool(true)), ["bool:true"]);
    assert_eq!(written(0, &JsValue::Function(Some("f".to_string()))), ["fn:f"]);
    assert_eq!(written(0, &JsValue::Function(None)), ["fn:anonymous"]);
    assert_eq!(written(0, &JsValue::Unknown), ["?"]);
    assert_eq!(written(0, &JsValue::OpaqueArray), ["[", "?", "]"]);
    assert_eq!(written(0, &JsValue::OpaqueObject), ["{", "?", "}"]);
    assert_eq!(written(0, &JsValue::Absent), Vec::<String>::new());
    // the fragments are added behind what is there
    let mut out = vec![MsgFrag::ArgSep];
    obj_to_frag(&mut out, 0, &JsValue::Null);
    assert_eq!(shown(&out), [" ", "null"]);
}

#[test]
fn writes_the_entries_of_an_array_with_separators() {
    let array = JsValue::Array { length: 3, items: vec![number(1.0), JsValue::Absent, text("x")] };
    assert_eq!(written(0, &array), ["[", "num:1", ",", ",", "str:x", "]"]);
    assert_eq!(written(0, &JsValue::Array { length: 0, items: Vec::new() }), ["[", "]"]);
    // entries that are not held are written like holes
    let short = JsValue::Array { length: 2, items: vec![JsValue::Null] };
    assert_eq!(written(0, &short), ["[", "null", ",", "]"]);
    // entries beyond the length are not written
    let long = JsValue::Array { length: 1, items: vec![JsValue::Null, JsValue::Null] };
    assert_eq!(written(0, &long), ["[", "null", "]"]);
}

#[test]
fn an_array_of_more_than_a_hundred_entries_is_cut() {
    assert_eq!(MAX_ENTRIES, 100);
    let items: Vec<JsValue> = (0..150).map(|_| JsValue::Null).collect();
    let out = written(0, &JsValue::Array { length: 150, items });
    // brackets, a hundred entries with 99 separators, and the mark of the cut
    assert_eq!(out.len(), 2 + 100 + 99 + 2);
    assert_eq!(out[out.len() - 3..], [",", "...", "]"]);
    assert_eq!(out.iter().filter(|f| *f == "null").count(), 100);

    let items: Vec<JsValue> = (0..100).map(|_| JsValue::Null).collect();
    let out = written(0, &JsValue::Array { length: 100, items });
    assert_eq!(out.len(), 2 + 100 + 99);
    assert_eq!(out[out.len() - 2..], ["null", "]"]);
}

#[test]
fn a_value_is_written_six_levels_deep() {
    assert_eq!(MAX_DEPTH, 5);
    let mut value = JsValue::Null;
    for _ in 0..7 {
        value = JsValue::Array { length: 1, items: vec![value] };
    }
    assert_eq!(
        written(0, &value),
        ["[", "[", "[", "[", "[", "[", "...", "]", "]", "]", "]", "]", "]"]
    );
    assert_eq!(written(5, &JsValue::Null), ["null"]);
    assert_eq!(written(6, &JsValue::Null), ["..."]);
    assert_eq!(written(usize::MAX, &JsValue::Null), ["..."]);
    assert_eq!(written(6, &JsValue::Absent), Vec::<String>::new());
    let nested = object(vec![("a", object(vec![("b", JsValue::Bool(false))]))]);
    assert_eq!(written(4, &nested), ["{", "key:a", ":", "{", "key:b", ":", "...", "}", "}"]);
}

#[test]
fn writes_an_object_with_its_class_and_its_properties() {
    let plain = object(vec![("a", number(1.0)), ("b", text("x"))]);
    assert_eq!(written(0, &plain), ["{", "key:a", ":", "num:1", ",", "key:b", ":", "str:x", "}"]);

    let error = JsValue::Object(JsObject {
        class_name: Some("TypeError".to_string()),
        is_error: true,
        stack: Some("TypeError: no\n    at f".to_string()),
        props: Some(JsProps { length: 0, entries: Vec::new() }),
    });
    assert_eq!(written(0, &error), ["class:TypeError", "{", "trace:TypeError: no\n    at f", "}"]);

    // the stack of an object that is no error is not written
    let no_error = JsValue::Object(JsObject {
        class_name: Some("Thing".to_string()),
        is_error: false,
        stack: Some("stack".to_string()),
        props: Some(JsProps { length: 0, entries: Vec::new() }),
    });
    assert_eq!(written(0, &no_error), ["class:Thing", "{", "}"]);

    let opaque = JsValue::Object(JsObject {
        class_name: None,
        is_error: false,
        stack: None,
        props: None,
    });
    assert_eq!(written(0, &opaque), ["{", "{", "?", "}"]);
}

#[test]
fn writes_the_names_of_properties_by_their_kind() {
    let entries = vec![
        JsEntry { key: JsKey::String(None), value: JsValue::Null },
        JsEntry { key: JsKey::Symbol(Some("tag".to_string())), value: JsValue::Absent },
        JsEntry { key: JsKey::Absent, value: JsValue::Null },
        JsEntry { key: JsKey::Symbol(None), value: JsValue::Undefined },
        JsEntry { key: JsKey::Other(number(4.0)), value: JsValue::Bool(true) },
    ];
    let value = JsValue::Object(JsObject {
        class_name: None,
        is_error: false,
        stack: None,
        props: Some(JsProps { length: 5, entries }),
    });
    assert_eq!(
        written(0, &value),
        [
            "{", "key:??", ":", "null", ",", "keysym:tag", ":", ",", ",", "keysym:", ":",
            "undefined", ",", "num:4", ":", "bool:true", "}"
        ]
    );
}

#[test]
fn an_object_of_more_than_a_hundred_properties_is_cut() {
    let entries: Vec<JsEntry> = (0..101)
        .map(|i| JsEntry { key: JsKey::String(Some(format!("k{}", i))), value: JsValue::Null })
        .collect();
    let value = JsValue::Object(JsObject {
        class_name: None,
        is_error: false,
        stack: None,
        props: Some(JsProps { length: 101, entries }),
    });
    let out = written(0, &value);
    assert_eq!(out.len(), 2 + 3 * 100 + 99 + 2);
    assert_eq!(out[out.len() - 6..], ["key:k99", ":", "null", ",", "...", "}"]);
}

#[test]
fn the_arguments_of_a_console_call_make_one_message() {
    let args = vec![text("found"), number(3.0), text("items"), JsValue::Array {
        length: 1,
        items: vec![text("inner")],
    }];
    let msg = console_msg(MessageType::Warn, &args);
    assert_eq!(msg.msg_type, MessageType::Warn);
    assert_eq!(
        shown(&msg.message),
        ["log:found", " ", "num:3", " ", "log:items", " ", "[", "str:inner", "]"]
    );
    let empty = console_msg(MessageType::Log, &Vec::new());
    assert_eq!(empty.msg_type, MessageType::Log);
    assert!(empty.message.is_empty());

    let mut out = Vec::new();
    arg_to_frag(&mut out, &JsValue::String(None));
    arg_to_frag(&mut out, &JsValue::Null);
    assert_eq!(shown(&out), ["log:??", "null"]);
}

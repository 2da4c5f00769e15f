use canvas_game::{
    as_bool, as_i32, as_string, as_u8, clamp_delta, text_eq, CanvasContext, DynObject, DynValue,
    Field, KeyData, MissingField, MouseData, Number, CREATE_TIME_DELTA, MAX_TIME_DELTA,
};

fn num(v: i64) -> DynValue {
    DynValue::Number(Number::integer(v))
}

fn text(s: &str) -> DynValue {
    DynValue::Str(s.to_string())
}

fn object(entries: Vec<(&str, DynValue)>) -> DynObject {
    DynObject { fields: entries.into_iter().map(|(k, v)| (k.to_string(), v)).collect() }
}

fn mouse_fields() -> Vec<(&'static str, DynValue)> {
    vec![
        ("type", text("pointerdown")),
        ("button", num(1)),
        ("buttons", num(2)),
        ("offsetX", num(30)),
        ("offsetY", num(-40)),
        ("movementX", num(5)),
        ("movementY", num(-6)),
        ("shiftKey", DynValue::Bool(true)),
        ("ctrlKey", num(0)),
        ("metaKey", DynValue::Number(Number { whole: 0, nonzero: true })),
        ("isPrimary", num(1)),
    ]
}

#[test]
fn mouse_record_without_alt_key() {
    let m = MouseData::from_event(&object(mouse_fields()));
    assert_eq!(m.button, 1);
    assert_eq!(m.buttons, 2);
    assert_eq!(m.x, 30);
    assert_eq!(m.y, -40);
    assert_eq!(m.dx, 5);
    assert_eq!(m.dy, -6);
    assert_eq!(m.alt, None);
    assert_eq!(m.shift, None);
    assert_eq!(m.ctrl, Some(false));
    assert_eq!(m.meta, Some(true));
    assert_eq!(m.primary, Some(true));
}

#[test]
fn mouse_record_without_button_fails() {
    let fields: Vec<_> = mouse_fields().into_iter().filter(|(k, _)| *k != "button").collect();
    assert_eq!(MouseData::try_from_event(&object(fields)), Err(MissingField(Field::Button)));
}

#[test]
fn mouse_record_reports_first_missing_field() {
    let fields: Vec<_> = mouse_fields()
        .into_iter()
        .filter(|(k, _)| *k != "offsetY" && *k != "movementY")
        .collect();
    assert_eq!(MouseData::try_from_event(&object(fields)), Err(MissingField(Field::OffsetY)));
}

#[test]
fn mouse_record_with_mistyped_field_fails() {
    let mut fields = mouse_fields();
    fields[5] = ("movementX", text("5"));
    assert_eq!(MouseData::try_from_event(&object(fields)), Err(MissingField(Field::MovementX)));
}

#[test]
fn narrowing_saturates() {
    let mut fields = mouse_fields();
    fields[1] = ("button", num(300));
    fields[2] = ("buttons", num(-3));
    fields[3] = ("offsetX", num(5_000_000_000));
    fields[4] = ("offsetY", num(-5_000_000_000));
    let m = MouseData::from_event(&object(fields));
    assert_eq!(m.button, 255);
    assert_eq!(m.buttons, 0);
    assert_eq!(m.x, i32::MAX);
    assert_eq!(m.y, i32::MIN);
}

#[test]
fn checked_builders_agree() {
    let e = object(mouse_fields());
    assert_eq!(MouseData::try_from_event(&e), Ok(MouseData::from_event(&e)));
    let e = object(vec![("key", text("b")), ("code", text("KeyB")), ("keyCode", num(66))]);
    let k = KeyData::try_from_event(&e).unwrap();
    assert_eq!((k.key.as_str(), k.code.as_str(), k.keycode), ("b", "KeyB", 66));
}

#[test]
fn key_record() {
    let e = object(vec![
        ("type", text("keydown")),
        ("shiftKey", num(1)),
        ("key", text("a")),
        ("code", text("KeyA")),
        ("keyCode", num(65)),
        ("altKey", DynValue::Bool(false)),
    ]);
    let k = KeyData::from_event(&e);
    assert_eq!(k.key, "a");
    assert_eq!(k.code, "KeyA");
    assert_eq!(k.keycode, 65);
    assert_eq!(k.alt, None);
    assert_eq!(k.shift, Some(true));
    assert_eq!(k.ctrl, None);
    assert_eq!(k.meta, None);
}

#[test]
fn key_record_without_code_fails() {
    let e = object(vec![("key", text("a")), ("keyCode", num(65))]);
    assert_eq!(KeyData::try_from_event(&e).unwrap_err(), MissingField(Field::Code));
    let e = object(vec![("key", text("a")), ("code", text("KeyA"))]);
    assert_eq!(KeyData::try_from_event(&e).unwrap_err(), MissingField(Field::KeyCode));
    let e = object(vec![("code", text("KeyA")), ("keyCode", num(65))]);
    assert_eq!(KeyData::try_from_event(&e).unwrap_err(), MissingField(Field::Key));
}

#[test]
fn coercions() {
    assert_eq!(as_string(Some(&text("x"))), Some("x".to_string()));
    assert_eq!(as_string(Some(&num(1))), None);
    assert_eq!(as_string(None), None);
    assert_eq!(as_bool(Some(&num(-2))), Some(true));
    assert_eq!(as_bool(Some(&num(0))), Some(false));
    assert_eq!(as_bool(Some(&DynValue::Bool(true))), None);
    assert_eq!(as_bool(Some(&text("true"))), None);
    assert_eq!(as_u8(Some(&num(7))), Some(7));
    assert_eq!(as_u8(Some(&num(256))), Some(255));
    assert_eq!(as_u8(Some(&DynValue::Bool(true))), None);
    assert_eq!(as_i32(Some(&num(-7))), Some(-7));
    assert_eq!(as_i32(Some(&text("7"))), None);
}

#[test]
fn field_lookup() {
    let e = object(vec![("a", num(1)), ("b", num(2)), ("a", num(3))]);
    assert_eq!(as_i32(e.field("a")), Some(1));
    assert_eq!(as_i32(e.field("b")), Some(2));
    assert!(e.field("c").is_none());
    assert!(e.field("").is_none());
}

#[test]
fn path_lookup() {
    let inner = object(vec![("c", num(9)), ("s", text("deep"))]);
    let middle = object(vec![("b", DynValue::Object(inner))]);
    let e = object(vec![("a", DynValue::Object(middle)), ("n", num(4))]);
    assert_eq!(as_i32(e.get(&["a", "b", "c"])), Some(9));
    assert_eq!(as_string(e.get(&["a", "b", "s"])), Some("deep".to_string()));
    assert!(matches!(e.get(&["a", "b"]), Some(DynValue::Object(_))));
    assert!(e.get(&["a", "x", "c"]).is_none());
    assert!(e.get(&["n", "c"]).is_none());
    assert!(e.get(&[]).is_none());
    assert_eq!(as_i32(e.get(&["n"])), Some(4));
}

#[test]
fn text_equality() {
    assert!(text_eq("wheel", "wheel"));
    assert!(!text_eq("wheel", "wheels"));
    assert!(!text_eq("keyup", "wheel"));
    assert!(text_eq("", ""));
}

#[test]
fn field_names() {
    assert_eq!(Field::OffsetX.name(), "offsetX");
    assert_eq!(Field::KeyCode.name(), "keyCode");
    assert_eq!(Field::Type.name(), "type");
    let all = Field::all();
    assert_eq!(all.len(), 15);
    assert!(all.contains(&Field::IsPrimary));
}

#[test]
fn clamp_time_delta() {
    assert_eq!(clamp_delta(5_000), 5_000);
    assert_eq!(clamp_delta(250_000), 100_000);
    assert_eq!(clamp_delta(-10_000), -10_000);
    assert_eq!(clamp_delta(MAX_TIME_DELTA), MAX_TIME_DELTA);
    assert_eq!(clamp_delta(MAX_TIME_DELTA + 1), MAX_TIME_DELTA);
}

#[test]
fn frame_context_is_clamped() {
    let c = CanvasContext::for_frame(640, 480, 12_345, 250_000);
    assert_eq!(c, CanvasContext { width: 640, height: 480, time: 12_345, time_delta: 100_000 });
    let c = CanvasContext::for_frame(640, 480, 12_345, 16_667);
    assert_eq!(c.time_delta, 16_667);
}

#[test]
fn create_context_has_unit_delta() {
    let c = CanvasContext::at_create(800, 600, 99_000);
    assert_eq!(c.time_delta, CREATE_TIME_DELTA);
    assert_eq!(c.time_delta, 1_000);
    assert_eq!((c.width, c.height, c.time), (800, 600, 99_000));
}

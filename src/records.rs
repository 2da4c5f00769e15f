use vstd::prelude::*;
use crate::value::{
    as_bool, as_i32, as_string, as_u8, bool_of, i32_of, lookup, string_of, u8_of, DynObject,
    DynValue,
};

verus! {

/// A field of a host event that the library reads.
#[derive(Clone, Copy, Debug, PartialEq, Eq, Structural)]
pub enum Field {
    Type,
    Button,
    Buttons,
    OffsetX,
    OffsetY,
    MovementX,
    MovementY,
    AltKey,
    ShiftKey,
    CtrlKey,
    MetaKey,
    IsPrimary,
    Key,
    Code,
    KeyCode,
}

/// The host's name of a field.
pub open spec fn field_name(f: Field) -> Seq<char> {
    match f {
        Field::Type => "type"@,
        Field::Button => "button"@,
        Field::Buttons => "buttons"@,
        Field::OffsetX => "offsetX"@,
        Field::OffsetY => "offsetY"@,
        Field::MovementX => "movementX"@,
        Field::MovementY => "movementY"@,
        Field::AltKey => "altKey"@,
        Field::ShiftKey => "shiftKey"@,
        Field::CtrlKey => "ctrlKey"@,
        Field::MetaKey => "metaKey"@,
        Field::IsPrimary => "isPrimary"@,
        Field::Key => "key"@,
        Field::Code => "code"@,
        Field::KeyCode => "keyCode"@,
    }
}

/// The value of field `f` of `e`, if present.
pub open spec fn at(e: DynObject, f: Field) -> Option<DynValue> {
    lookup(e.fields@, field_name(f))
}

impl Field {
    /// The host's name of this field.
    pub fn name(&self) -> (r: &'static str)
        ensures
            r@ == field_name(*self),
    {
        match self {
            Field::Type => "type",
            Field::Button => "button",
            Field::Buttons => "buttons",
            Field::OffsetX => "offsetX",
            Field::OffsetY => "offsetY",
            Field::MovementX => "movementX",
            Field::MovementY => "movementY",
            Field::AltKey => "altKey",
            Field::ShiftKey => "shiftKey",
            Field::CtrlKey => "ctrlKey",
            Field::MetaKey => "metaKey",
            Field::IsPrimary => "isPrimary",
            Field::Key => "key",
            Field::Code => "code",
            Field::KeyCode => "keyCode",
        }
    }

    /// Every field the library reads, so that a host adapter can copy them.
    pub fn all() -> (r: Vec<Field>)
        ensures
            forall|f: Field| r@.contains(f),
    {
        let r = vec![
            Field::Type,
            Field::Button,
            Field::Buttons,
            Field::OffsetX,
            Field::OffsetY,
            Field::MovementX,
            Field::MovementY,
            Field::AltKey,
            Field::ShiftKey,
            Field::CtrlKey,
            Field::MetaKey,
            Field::IsPrimary,
            Field::Key,
            Field::Code,
            Field::KeyCode,
        ];
        assert forall|f: Field| r@.contains(f) by {
            let i: int = match f {
                Field::Type => 0,
                Field::Button => 1,
                Field::Buttons => 2,
                Field::OffsetX => 3,
                Field::OffsetY => 4,
                Field::MovementX => 5,
                Field::MovementY => 6,
                Field::AltKey => 7,
                Field::ShiftKey => 8,
                Field::CtrlKey => 9,
                Field::MetaKey => 10,
                Field::IsPrimary => 11,
                Field::Key => 12,
                Field::Code => 13,
                Field::KeyCode => 14,
            };
            assert(r@[i] == f);
        }
        r
    }
}

/// A required field was absent or of the wrong type.
#[derive(Clone, Copy, Debug, PartialEq, Eq, Structural)]
pub struct MissingField(pub Field);

/// A pointer or mouse event.
#[derive(Clone, Copy, Debug, PartialEq, Eq, Structural)]
pub struct MouseData {
    pub button: u8,
    pub buttons: u8,
    pub x: i32,
    pub y: i32,
    pub dx: i32,
    pub dy: i32,
    pub alt: Option<bool>,
    pub shift: Option<bool>,
    pub ctrl: Option<bool>,
    pub meta: Option<bool>,
    pub primary: Option<bool>,
}

/// A keyboard event.
#[derive(Clone, Debug)]
pub struct KeyData {
    pub alt: Option<bool>,
    pub shift: Option<bool>,
    pub ctrl: Option<bool>,
    pub meta: Option<bool>,
    pub key: String,
    pub code: String,
    pub keycode: u8,
}

/// The mouse record of `e`: the first required field, in declaration order,
/// that cannot be read is reported; absent modifiers are no value.
pub open spec fn mouse_of(e: DynObject) -> Result<MouseData, MissingField> {
    if u8_of(at(e, Field::Button)) is None {
        Err(MissingField(Field::Button))
    } else if u8_of(at(e, Field::Buttons)) is None {
        Err(MissingField(Field::Buttons))
    } else if i32_of(at(e, Field::OffsetX)) is None {
        Err(MissingField(Field::OffsetX))
    } else if i32_of(at(e, Field::OffsetY)) is None {
        Err(MissingField(Field::OffsetY))
    } else if i32_of(at(e, Field::MovementX)) is None {
        Err(MissingField(Field::MovementX))
    } else if i32_of(at(e, Field::MovementY)) is None {
        Err(MissingField(Field::MovementY))
    } else {
        Ok(
            MouseData {
                button: u8_of(at(e, Field::Button)).unwrap(),
                buttons: u8_of(at(e, Field::Buttons)).unwrap(),
                x: i32_of(at(e, Field::OffsetX)).unwrap(),
                y: i32_of(at(e, Field::OffsetY)).unwrap(),
                dx: i32_of(at(e, Field::MovementX)).unwrap(),
                dy: i32_of(at(e, Field::MovementY)).unwrap(),
                alt: bool_of(at(e, Field::AltKey)),
                shift: bool_of(at(e, Field::ShiftKey)),
                ctrl: bool_of(at(e, Field::CtrlKey)),
                meta: bool_of(at(e, Field::MetaKey)),
                primary: bool_of(at(e, Field::IsPrimary)),
            },
        )
    }
}

/// What a key record holds, with its strings as character sequences.
pub struct KeyRecord {
    pub alt: Option<bool>,
    pub shift: Option<bool>,
    pub ctrl: Option<bool>,
    pub meta: Option<bool>,
    pub key: Seq<char>,
    pub code: Seq<char>,
    pub keycode: u8,
}

impl View for KeyData {
    type V = KeyRecord;

    open spec fn view(&self) -> KeyRecord {
        KeyRecord {
            alt: self.alt,
            shift: self.shift,
            ctrl: self.ctrl,
            meta: self.meta,
            key: self.key@,
            code: self.code@,
            keycode: self.keycode,
        }
    }
}

/// The key record of `e`, where its required fields can be read.
pub open spec fn key_of(e: DynObject) -> KeyRecord {
    KeyRecord {
        alt: bool_of(at(e, Field::AltKey)),
        shift: bool_of(at(e, Field::ShiftKey)),
        ctrl: bool_of(at(e, Field::CtrlKey)),
        meta: bool_of(at(e, Field::MetaKey)),
        key: string_of(at(e, Field::Key)).unwrap(),
        code: string_of(at(e, Field::Code)).unwrap(),
        keycode: u8_of(at(e, Field::KeyCode)).unwrap(),
    }
}

/// The first required field of a key record, in declaration order, that
/// cannot be read from `e`.
pub open spec fn key_missing(e: DynObject) -> Option<MissingField> {
    if string_of(at(e, Field::Key)) is None {
        Some(MissingField(Field::Key))
    } else if string_of(at(e, Field::Code)) is None {
        Some(MissingField(Field::Code))
    } else if u8_of(at(e, Field::KeyCode)) is None {
        Some(MissingField(Field::KeyCode))
    } else {
        None
    }
}

impl MouseData {
    /// The record of a pointer or mouse event, where every required field is
    /// present and well typed.
    pub fn from_event(event: &DynObject) -> (r: MouseData)
        requires
            mouse_of(*event) is Ok,
        ensures
            mouse_of(*event) == Ok::<MouseData, MissingField>(r),
    {
        MouseData {
            button: as_u8(event.field(Field::Button.name())).unwrap(),
            buttons: as_u8(event.field(Field::Buttons.name())).unwrap(),
            x: as_i32(event.field(Field::OffsetX.name())).unwrap(),
            y: as_i32(event.field(Field::OffsetY.name())).unwrap(),
            dx: as_i32(event.field(Field::MovementX.name())).unwrap(),
            dy: as_i32(event.field(Field::MovementY.name())).unwrap(),
            alt: as_bool(event.field(Field::AltKey.name())),
            shift: as_bool(event.field(Field::ShiftKey.name())),
            ctrl: as_bool(event.field(Field::CtrlKey.name())),
            meta: as_bool(event.field(Field::MetaKey.name())),
            primary: as_bool(event.field(Field::IsPrimary.name())),
        }
    }

    /// Builds the record of a pointer or mouse event, or names the first
    /// required field that is absent or mistyped.
    pub fn try_from_event(event: &DynObject) -> (r: Result<MouseData, MissingField>)
        ensures
            r == mouse_of(*event),
    {
        let button = match as_u8(event.field(Field::Button.name())) {
            Some(v) => v,
            None => return Err(MissingField(Field::Button)),
        };
        let buttons = match as_u8(event.field(Field::Buttons.name())) {
            Some(v) => v,
            None => return Err(MissingField(Field::Buttons)),
        };
        let x = match as_i32(event.field(Field::OffsetX.name())) {
            Some(v) => v,
            None => return Err(MissingField(Field::OffsetX)),
        };
        let y = match as_i32(event.field(Field::OffsetY.name())) {
            Some(v) => v,
            None => return Err(MissingField(Field::OffsetY)),
        };
        let dx = match as_i32(event.field(Field::MovementX.name())) {
            Some(v) => v,
            None => return Err(MissingField(Field::MovementX)),
        };
        let dy = match as_i32(event.field(Field::MovementY.name())) {
            Some(v) => v,
            None => return Err(MissingField(Field::MovementY)),
        };
        Ok(
            MouseData {
                button,
                buttons,
                x,
                y,
                dx,
                dy,
                alt: as_bool(event.field(Field::AltKey.name())),
                shift: as_bool(event.field(Field::ShiftKey.name())),
                ctrl: as_bool(event.field(Field::CtrlKey.name())),
                meta: as_bool(event.field(Field::MetaKey.name())),
                primary: as_bool(event.field(Field::IsPrimary.name())),
            },
        )
    }
}

impl KeyData {
    /// The record of a keyboard event, where every required field is present
    /// and well typed.
    pub fn from_event(event: &DynObject) -> (r: KeyData)
        requires
            key_missing(*event) is None,
        ensures
            r@ == key_of(*event),
    {
        KeyData {
            alt: as_bool(event.field(Field::AltKey.name())),
            shift: as_bool(event.field(Field::ShiftKey.name())),
            ctrl: as_bool(event.field(Field::CtrlKey.name())),
            meta: as_bool(event.field(Field::MetaKey.name())),
            key: as_string(event.field(Field::Key.name())).unwrap(),
            code: as_string(event.field(Field::Code.name())).unwrap(),
            keycode: as_u8(event.field(Field::KeyCode.name())).unwrap(),
        }
    }

    /// Builds the record of a keyboard event, or names the first required
    /// field that is absent or mistyped.
    pub fn try_from_event(event: &DynObject) -> (r: Result<KeyData, MissingField>)
        ensures
            match r {
                Ok(k) => key_missing(*event) is None && k@ == key_of(*event),
                Err(m) => key_missing(*event) == Some(m),
            },
    {
        let key = match as_string(event.field(Field::Key.name())) {
            Some(v) => v,
            None => return Err(MissingField(Field::Key)),
        };
        let code = match as_string(event.field(Field::Code.name())) {
            Some(v) => v,
            None => return Err(MissingField(Field::Code)),
        };
        let keycode = match as_u8(event.field(Field::KeyCode.name())) {
            Some(v) => v,
            None => return Err(MissingField(Field::KeyCode)),
        };
        Ok(
            KeyData {
                alt: as_bool(event.field(Field::AltKey.name())),
                shift: as_bool(event.field(Field::ShiftKey.name())),
                ctrl: as_bool(event.field(Field::CtrlKey.name())),
                meta: as_bool(event.field(Field::MetaKey.name())),
                key,
                code,
                keycode,
            },
        )
    }
}

} // verus!

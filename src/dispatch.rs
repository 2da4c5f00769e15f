use vstd::prelude::*;
use crate::records::{at, key_missing, key_of, mouse_of, Field, KeyData, KeyRecord, MissingField, MouseData};
use crate::timing::CanvasContext;
use crate::value::{as_string, string_of, text_eq, DynObject};

verus! {

/// The event kinds that have a handler of their own.
#[derive(Clone, Copy, Debug, PartialEq, Eq, Structural)]
pub enum EventKind {
    PointerDown,
    PointerUp,
    Wheel,
    PointerMove,
    MouseLeave,
    MouseEnter,
    KeyDown,
    KeyPress,
    KeyUp,
}

/// The discriminant string of a kind.
pub open spec fn kind_name(k: EventKind) -> Seq<char> {
    match k {
        EventKind::PointerDown => "pointerdown"@,
        EventKind::PointerUp => "pointerup"@,
        EventKind::Wheel => "wheel"@,
        EventKind::PointerMove => "pointermove"@,
        EventKind::MouseLeave => "mouseleave"@,
        EventKind::MouseEnter => "mouseenter"@,
        EventKind::KeyDown => "keydown"@,
        EventKind::KeyPress => "keypress"@,
        EventKind::KeyUp => "keyup"@,
    }
}

/// The kind table: the kind whose discriminant is `s`, if any.
pub open spec fn kind_of(s: Seq<char>) -> Option<EventKind> {
    if s == "pointerdown"@ {
        Some(EventKind::PointerDown)
    } else if s == "pointerup"@ {
        Some(EventKind::PointerUp)
    } else if s == "wheel"@ {
        Some(EventKind::Wheel)
    } else if s == "pointermove"@ {
        Some(EventKind::PointerMove)
    } else if s == "mouseleave"@ {
        Some(EventKind::MouseLeave)
    } else if s == "mouseenter"@ {
        Some(EventKind::MouseEnter)
    } else if s == "keydown"@ {
        Some(EventKind::KeyDown)
    } else if s == "keypress"@ {
        Some(EventKind::KeyPress)
    } else if s == "keyup"@ {
        Some(EventKind::KeyUp)
    } else {
        None
    }
}

/// Whether a kind carries a mouse record (else it carries a key record).
pub open spec fn is_mouse_kind(k: EventKind) -> bool {
    !(k is KeyDown || k is KeyPress || k is KeyUp)
}

impl EventKind {
    /// Looks a discriminant up in the kind table.
    pub fn from_name(s: &str) -> (r: Option<EventKind>)
        ensures
            r == kind_of(s@),
    {
        if text_eq(s, "pointerdown") {
            Some(EventKind::PointerDown)
        } else if text_eq(s, "pointerup") {
            Some(EventKind::PointerUp)
        } else if text_eq(s, "wheel") {
            Some(EventKind::Wheel)
        } else if text_eq(s, "pointermove") {
            Some(EventKind::PointerMove)
        } else if text_eq(s, "mouseleave") {
            Some(EventKind::MouseLeave)
        } else if text_eq(s, "mouseenter") {
            Some(EventKind::MouseEnter)
        } else if text_eq(s, "keydown") {
            Some(EventKind::KeyDown)
        } else if text_eq(s, "keypress") {
            Some(EventKind::KeyPress)
        } else if text_eq(s, "keyup") {
            Some(EventKind::KeyUp)
        } else {
            None
        }
    }

    /// Whether this kind carries a mouse record.
    pub fn is_mouse(&self) -> (r: bool)
        ensures
            r == is_mouse_kind(*self),
    {
        match self {
            EventKind::KeyDown | EventKind::KeyPress | EventKind::KeyUp => false,
            _ => true,
        }
    }

    /// The discriminant string of this kind.
    pub fn name(&self) -> (r: &'static str)
        ensures
            r@ == kind_name(*self),
    {
        match self {
            EventKind::PointerDown => "pointerdown",
            EventKind::PointerUp => "pointerup",
            EventKind::Wheel => "wheel",
            EventKind::PointerMove => "pointermove",
            EventKind::MouseLeave => "mouseleave",
            EventKind::MouseEnter => "mouseenter",
            EventKind::KeyDown => "keydown",
            EventKind::KeyPress => "keypress",
            EventKind::KeyUp => "keyup",
        }
    }
}

/// The discriminant of `e`: its string field "type".
pub open spec fn discriminant(e: DynObject) -> Option<Seq<char>> {
    string_of(at(e, Field::Type))
}

/// The required field whose absence makes dispatching `e` fail, if any: the
/// discriminant, then the fields of the record its kind carries. An unknown
/// kind needs no record.
pub open spec fn dispatch_error(e: DynObject) -> Option<MissingField> {
    match discriminant(e) {
        None => Some(MissingField(Field::Type)),
        Some(d) => match kind_of(d) {
            None => None,
            Some(k) => if is_mouse_kind(k) {
                match mouse_of(e) {
                    Ok(_) => None,
                    Err(m) => Some(m),
                }
            } else {
                key_missing(e)
            },
        },
    }
}

/// Tells whether `event` can be dispatched: the first required field that is
/// absent or mistyped, exactly as `dispatch_error` says.
pub fn check_event(event: &DynObject) -> (r: Result<(), MissingField>)
    ensures
        match r {
            Ok(()) => dispatch_error(*event) is None,
            Err(m) => dispatch_error(*event) == Some(m),
        },
{
    let event_id = match as_string(event.field(Field::Type.name())) {
        Some(s) => s,
        None => return Err(MissingField(Field::Type)),
    };
    match EventKind::from_name(event_id.as_str()) {
        None => Ok(()),
        Some(k) => if k.is_mouse() {
            match MouseData::try_from_event(event) {
                Ok(_) => Ok(()),
                Err(m) => Err(m),
            }
        } else {
            match KeyData::try_from_event(event) {
                Ok(_) => Ok(()),
                Err(m) => Err(m),
            }
        },
    }
}

/// Whether the default handler is asked, given the specific handler's answer
/// (no answer where the kind has no handler).
pub open spec fn fallback_needed(specific: Option<bool>) -> bool {
    specific != Some(true)
}

/// Whether an event counts as handled: true unless neither the specific
/// handler nor the default handler consumed it.
pub open spec fn handled_by(specific: Option<bool>, fallback: Option<bool>) -> bool {
    specific == Some(true) || fallback == Some(true)
}

/// Whether the default handler is asked after the specific handler answered
/// `specific`.
pub fn needs_fallback(specific: Option<bool>) -> (r: bool)
    ensures
        r == fallback_needed(specific),
{
    match specific {
        Some(true) => false,
        _ => true,
    }
}

/// The outcome of a dispatch from the answers of the handlers asked.
pub fn outcome(specific: Option<bool>, fallback: Option<bool>) -> (r: bool)
    ensures
        r == handled_by(specific, fallback),
{
    match (specific, fallback) {
        (Some(true), _) => true,
        (_, Some(true)) => true,
        _ => false,
    }
}

/// One call of a handler, as the dispatcher makes it: the kind's handler with
/// its record, or the default handler with the discriminant and the raw event.
pub enum HandlerCall {
    Mouse(EventKind, MouseData, CanvasContext),
    Key(EventKind, KeyRecord, CanvasContext),
    Default(Seq<char>, DynObject, CanvasContext),
}

/// The call of the specific handler that dispatching `e` makes, if its kind
/// has one.
pub open spec fn specific_call(e: DynObject, context: CanvasContext) -> Option<HandlerCall> {
    match kind_of(discriminant(e).unwrap()) {
        None => None,
        Some(k) => if is_mouse_kind(k) {
            Some(HandlerCall::Mouse(k, mouse_of(e)->Ok_0, context))
        } else {
            Some(HandlerCall::Key(k, key_of(e), context))
        },
    }
}

/// The call of the default handler that dispatching `e` makes where needed.
pub open spec fn default_call(e: DynObject, context: CanvasContext) -> HandlerCall {
    HandlerCall::Default(discriminant(e).unwrap(), e, context)
}

/// Per-kind input handlers with a fallback. Each handler answers whether it
/// consumed the event. Dispatch asks the kind's handler first; the default
/// handler is asked after it, from the state it left, where the kind has no
/// handler or it declined, and its answer is then the outcome; `answer` and `after` name, for a call, that answer and
/// the handler's state after it. A game that does not care for a kind answers
/// false and leaves its state as it was.
pub trait JsInputHandler: Sized {
    /// The answer of the handler that `call` asks; by default, false.
    open spec fn answer(&self, call: HandlerCall) -> bool {
        false
    }

    /// The handler's state after `call`; by default, as it was.
    open spec fn after(&self, call: HandlerCall) -> Self {
        *self
    }

    fn pointerdown(&mut self, mouse: MouseData, context: CanvasContext) -> (r: bool)
        ensures
            r == old(self).answer(HandlerCall::Mouse(EventKind::PointerDown, mouse, context)),
            *final(self) == old(self).after(HandlerCall::Mouse(EventKind::PointerDown, mouse, context)),
    ;

    fn pointerup(&mut self, mouse: MouseData, context: CanvasContext) -> (r: bool)
        ensures
            r == old(self).answer(HandlerCall::Mouse(EventKind::PointerUp, mouse, context)),
            *final(self) == old(self).after(HandlerCall::Mouse(EventKind::PointerUp, mouse, context)),
    ;

    fn wheel(&mut self, mouse: MouseData, context: CanvasContext) -> (r: bool)
        ensures
            r == old(self).answer(HandlerCall::Mouse(EventKind::Wheel, mouse, context)),
            *final(self) == old(self).after(HandlerCall::Mouse(EventKind::Wheel, mouse, context)),
    ;

    fn pointermove(&mut self, mouse: MouseData, context: CanvasContext) -> (r: bool)
        ensures
            r == old(self).answer(HandlerCall::Mouse(EventKind::PointerMove, mouse, context)),
            *final(self) == old(self).after(HandlerCall::Mouse(EventKind::PointerMove, mouse, context)),
    ;

    fn mouseleave(&mut self, mouse: MouseData, context: CanvasContext) -> (r: bool)
        ensures
            r == old(self).answer(HandlerCall::Mouse(EventKind::MouseLeave, mouse, context)),
            *final(self) == old(self).after(HandlerCall::Mouse(EventKind::MouseLeave, mouse, context)),
    ;

    fn mouseenter(&mut self, mouse: MouseData, context: CanvasContext) -> (r: bool)
        ensures
            r == old(self).answer(HandlerCall::Mouse(EventKind::MouseEnter, mouse, context)),
            *final(self) == old(self).after(HandlerCall::Mouse(EventKind::MouseEnter, mouse, context)),
    ;

    fn keydown(&mut self, key: KeyData, context: CanvasContext) -> (r: bool)
        ensures
            r == old(self).answer(HandlerCall::Key(EventKind::KeyDown, key@, context)),
            *final(self) == old(self).after(HandlerCall::Key(EventKind::KeyDown, key@, context)),
    ;

    fn keypress(&mut self, key: KeyData, context: CanvasContext) -> (r: bool)
        ensures
            r == old(self).answer(HandlerCall::Key(EventKind::KeyPress, key@, context)),
            *final(self) == old(self).after(HandlerCall::Key(EventKind::KeyPress, key@, context)),
    ;

    fn keyup(&mut self, key: KeyData, context: CanvasContext) -> (r: bool)
        ensures
            r == old(self).answer(HandlerCall::Key(EventKind::KeyUp, key@, context)),
            *final(self) == old(self).after(HandlerCall::Key(EventKind::KeyUp, key@, context)),
    ;

    /// Catch-all for unknown kinds and for events the specific handler declined.
    fn default_event(&mut self, event_id: &str, event: &DynObject, context: CanvasContext) -> (r: bool)
        ensures
            r == old(self).answer(HandlerCall::Default(event_id@, *event, context)),
            *final(self) == old(self).after(HandlerCall::Default(event_id@, *event, context)),
    ;

    /// Two-level dispatch: the handler of the event's kind, with its typed
    /// record, then the default handler with the discriminant and the raw
    /// event where the kind is unknown or its handler declined. The event must
    /// carry its discriminant and the required fields of its kind's record
    /// (`check_event` tells); without them dispatch cannot proceed.
    fn handle(&mut self, event: &DynObject, context: CanvasContext) -> (r: bool)
        requires
            dispatch_error(*event) is None,
        ensures
            match specific_call(*event, context) {
                Some(call) => if old(self).answer(call) {
                    &&& r
                    &&& *final(self) == old(self).after(call)
                } else {
                    &&& r == old(self).after(call).answer(default_call(*event, context))
                    &&& *final(self) == old(self).after(call).after(default_call(*event, context))
                },
                None => {
                    &&& r == old(self).answer(default_call(*event, context))
                    &&& *final(self) == old(self).after(default_call(*event, context))
                },
            },
    {
        let event_id = as_string(event.field(Field::Type.name())).unwrap();
        let kind = EventKind::from_name(event_id.as_str());
        let specific = match kind {
            Some(EventKind::PointerDown) => Some(self.pointerdown(MouseData::from_event(event), context)),
            Some(EventKind::PointerUp) => Some(self.pointerup(MouseData::from_event(event), context)),
            Some(EventKind::Wheel) => Some(self.wheel(MouseData::from_event(event), context)),
            Some(EventKind::PointerMove) => Some(self.pointermove(MouseData::from_event(event), context)),
            Some(EventKind::MouseLeave) => Some(self.mouseleave(MouseData::from_event(event), context)),
            Some(EventKind::MouseEnter) => Some(self.mouseenter(MouseData::from_event(event), context)),
            Some(EventKind::KeyDown) => Some(self.keydown(KeyData::from_event(event), context)),
            Some(EventKind::KeyPress) => Some(self.keypress(KeyData::from_event(event), context)),
            Some(EventKind::KeyUp) => Some(self.keyup(KeyData::from_event(event), context)),
            None => None,
        };
        let fallback = if needs_fallback(specific) {
            Some(self.default_event(event_id.as_str(), event, context))
        } else {
            None
        };
        outcome(specific, fallback)
    }
}

} // verus!

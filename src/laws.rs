use vstd::prelude::*;
use crate::dispatch::{
    default_call, discriminant, dispatch_error, is_mouse_kind, kind_name, kind_of, specific_call,
    EventKind, HandlerCall,
};
use crate::records::{key_missing, key_of, mouse_of};
use crate::timing::CanvasContext;
use crate::value::DynObject;

verus! {

/// The kind table is one to one: the discriminant of each kind selects that
/// kind, and a discriminant that selects a kind is that kind's name.
pub proof fn lemma_kind_table(k: EventKind, s: Seq<char>)
    ensures
        kind_of(kind_name(k)) == Some(k),
        kind_of(s) == Some(k) ==> s == kind_name(k),
{
    reveal_strlit("pointerdown");
    reveal_strlit("pointerup");
    reveal_strlit("wheel");
    reveal_strlit("pointermove");
    reveal_strlit("mouseleave");
    reveal_strlit("mouseenter");
    reveal_strlit("keydown");
    reveal_strlit("keypress");
    reveal_strlit("keyup");
    assert("pointerdown"@.len() == 11 && "pointerup"@.len() == 9 && "wheel"@.len() == 5);
    assert("pointermove"@.len() == 11 && "mouseleave"@.len() == 10 && "mouseenter"@.len() == 10);
    assert("keydown"@.len() == 7 && "keypress"@.len() == 8 && "keyup"@.len() == 5);
    assert("pointerdown"@[7] != "pointermove"@[7]);
    assert("mouseleave"@[5] != "mouseenter"@[5]);
    assert("wheel"@[0] != "keyup"@[0]);
}

/// An event of a known kind whose required fields are present can be
/// handled, and the specific handler that `handle` asks is the handler of
/// exactly that kind, given the record built from the event and the context.
pub proof fn lemma_known_kind_reaches_its_handler(e: DynObject, k: EventKind, context: CanvasContext)
    requires
        discriminant(e) == Some(kind_name(k)),
        is_mouse_kind(k) ==> mouse_of(e) is Ok,
        !is_mouse_kind(k) ==> key_missing(e) is None,
    ensures
        dispatch_error(e) is None,
        is_mouse_kind(k) ==> specific_call(e, context) == Some(
            HandlerCall::Mouse(k, mouse_of(e)->Ok_0, context),
        ),
        !is_mouse_kind(k) ==> specific_call(e, context) == Some(
            HandlerCall::Key(k, key_of(e), context),
        ),
{
    lemma_kind_table(k, kind_name(k));
}

/// An event whose discriminant is not in the kind table needs no other field
/// to be handled; `handle` asks no specific handler, and asks the default
/// handler with that discriminant, the event itself and the context.
pub proof fn lemma_unknown_kind_goes_to_default(e: DynObject, s: Seq<char>, context: CanvasContext)
    requires
        discriminant(e) == Some(s),
        kind_of(s) is None,
    ensures
        dispatch_error(e) is None,
        specific_call(e, context) is None,
        default_call(e, context) == HandlerCall::Default(s, e, context),
{
}

} // verus!

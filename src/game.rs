use vstd::prelude::*;
use crate::dispatch::{default_call, dispatch_error, specific_call, JsInputHandler};
use crate::timing::CanvasContext;
use crate::value::DynObject;

verus! {

/// The host's 2D drawing context, handed to `render` untouched.
#[verifier::external_type_specification]
#[verifier::external_body]
pub struct ExCanvasRenderingContext2d(web_sys::CanvasRenderingContext2d);

/// The four-phase lifecycle of a game: `create` once, then `update` and
/// `render` per frame and `event` per input, as the host decides.
pub trait JsGame: JsInputHandler + Sized {
    fn create(context: CanvasContext) -> Self;

    fn update(&mut self, context: CanvasContext);

    fn render(&mut self, canvas: &web_sys::CanvasRenderingContext2d, context: CanvasContext);

    /// Forwards an input event and its context to `JsInputHandler::handle`,
    /// whose demand on the event it shares; the game's state afterwards is the
    /// one the dispatch leaves.
    fn event(&mut self, event: &DynObject, context: CanvasContext)
        requires
            dispatch_error(*event) is None,
        ensures
            match specific_call(*event, context) {
                Some(call) => *final(self) == if old(self).answer(call) {
                    old(self).after(call)
                } else {
                    old(self).after(call).after(default_call(*event, context))
                },
                None => *final(self) == old(self).after(default_call(*event, context)),
            },
    {
        self.handle(event, context);
    }
}

} // verus!

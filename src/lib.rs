//! Scaffolding for browser-hosted, canvas-rendered games: typed extraction of
//! fields from loosely typed host event objects, two-level event dispatch, and
//! the per-frame timing context threaded through the game lifecycle.

pub mod timing;
pub mod value;
pub mod records;
pub mod dispatch;
pub mod laws;
pub mod game;

pub use timing::{clamp_delta, CanvasContext, CREATE_TIME_DELTA, MAX_TIME_DELTA};
pub use value::{as_bool, as_i32, as_string, as_u8, text_eq, DynObject, DynValue, Number};
pub use records::{Field, KeyData, KeyRecord, MissingField, MouseData};
pub use dispatch::{check_event, needs_fallback, outcome, EventKind, HandlerCall, JsInputHandler};
pub use game::JsGame;
pub use laws::{lemma_known_kind_reaches_its_handler, lemma_kind_table, lemma_unknown_kind_goes_to_default};

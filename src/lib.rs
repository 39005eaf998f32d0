//! Safe, ownership-checked model of a garbage-collected scripting engine's
//! handle-based object model.
//!
//! Engine handles are plain addresses here. The crate decides everything
//! that does not need the engine itself: the empty sentinel of non-owning
//! values, the release-exactly-once discipline of owning handles, the
//! conversion of an exception out-slot into a `Result`, and the
//! NUL-terminated text that the engine's string primitive takes.
mod handle;
mod outcome;
mod owner;
mod resources;
mod script;
mod text;

pub use handle::{addr_of, handle_of, lemma_sentinel_distinct, Object, Value};
pub use outcome::{lemma_slot_decides, outcome, settle, JSResult};
pub use owner::{lemma_release_exactly_once, release_step, releases, Owned, Ownership};
pub use text::{c_text, c_text_of, has_nul, holds_nul};
pub use resources::{Context, String, VM};
pub use script::ScriptCall;

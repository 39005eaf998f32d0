use vstd::prelude::*;
use vstd::string::StringSliceAdditionalSpecFns;

use crate::handle::{addr_of, Object};
use crate::resources::Context;
use crate::text::{c_text, c_text_of, has_nul};

verus! {

/// Everything that the engine's evaluate and syntax-check primitives are
/// handed, apart from the exception out-slot: the context, the program text
/// and the source label as NUL-terminated UTF-8, the receiver (zero for
/// none) and the human-facing starting line.
pub struct ScriptCall {
    pub context: usize,
    pub script: Vec<u8>,
    pub receiver: usize,
    pub label: Vec<u8>,
    pub starting_line: i32,
}

impl Context {
    /// Prepares a call to evaluate or check `script` in this live context,
    /// with `receiver` as its `this` binding and `label` as its source label.
    pub fn script_call(&self, script: &str, receiver: &Object, label: &str, starting_line: i32) -> (r:
        ScriptCall)
        requires
            self@.live,
            !has_nul(script.spec_bytes()),
            !has_nul(label.spec_bytes()),
        ensures
            r.context == self@.handle,
            Some(r.script@) == c_text_of(script.spec_bytes()),
            r.receiver == addr_of(receiver@),
            Some(r.label@) == c_text_of(label.spec_bytes()),
            r.starting_line == starting_line,
    {
        let context = self.raw().unwrap();
        ScriptCall {
            context,
            script: c_text(script),
            receiver: receiver.raw(),
            label: c_text(label),
            starting_line,
        }
    }
}

} // verus!

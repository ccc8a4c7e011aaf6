use vstd::prelude::*;

verus! {

use crate::message_output::MessageOutput;
use vstd::string::StringExecFns;

/// A sink that keeps every line it is handed, in order.
pub struct BufferOutput {
    pub buffer: Vec<String>,
}

impl BufferOutput {
    pub fn new() -> (r: BufferOutput)
        ensures
            r.buffer@.len() == 0,
    {
        BufferOutput { buffer: Vec::new() }
    }

    /// Hands the collected lines over.
    pub fn into_messages(self) -> (r: Vec<String>)
        ensures
            r == self.buffer,
    {
        self.buffer
    }
}

impl MessageOutput for BufferOutput {
    fn output(&mut self, message: &str) {
        self.buffer.push(String::from_str(message));
    }
}

} // verus!

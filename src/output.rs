//! What the tool writes: the rendering of a result, in JSON or for humans, and errors.

use vstd::prelude::*;

verus! {

/// How results are written: as JSON or for humans, and with or without a final newline.
#[derive(Clone, Copy, Debug, PartialEq, Eq, Structural)]
pub struct CliOutput {
    /// Write JSON instead of text for humans.
    pub json: bool,
    /// End each output with a newline.
    pub newline: bool,
}

impl CliOutput {
    /// An output controller.
    pub fn new(json: bool, newline: bool) -> (r: Self)
        ensures
            r.json == json,
            r.newline == newline,
    {
        CliOutput { json, newline }
    }

    /// The text to write for a result that renders as `json_text` in JSON and as `hr_text`
    /// for humans.
    pub fn display(&self, json_text: &str, hr_text: &str) -> (r: String)
        ensures
            r@ == (if self.json { json_text@ } else { hr_text@ }) + (if self.newline {
                seq!['\n']
            } else {
                Seq::<char>::empty()
            }),
    {
        let mut out = if self.json {
            String::from_str(json_text)
        } else {
            String::from_str(hr_text)
        };
        if self.newline {
            proof {
                reveal_strlit("\n");
            }
            out.append("\n");
        } else {
            assert(out@ =~= out@ + Seq::<char>::empty());
        }
        out
    }

    /// The line to write to the error stream for an error described by `message`.
    pub fn error(&self, message: &str) -> (r: String)
        ensures
            r@ == message@ + seq!['\n'],
    {
        let mut out = String::from_str(message);
        proof {
            reveal_strlit("\n");
        }
        out.append("\n");
        out
    }
}

} // verus!

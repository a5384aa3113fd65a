//! Incremental line splitting for the tool's output streams: text chunks
//! go in as they arrive, complete lines come out one at a time, and the
//! final unterminated line is handed out at end of stream.
use crate::text;
use vstd::prelude::*;
use vstd::string::StrSliceExecFns;
use vstd::string::StringExecFns;

verus! {

/// A line without the carriage return a CRLF ending leaves at its end.
pub open spec fn spec_strip_cr(line: Seq<char>) -> Seq<char> {
    if line.len() > 0 && line.last() == '\r' {
        line.drop_last()
    } else {
        line
    }
}

/// Buffered text in which lines are found; its view is the text still
/// pending, in arrival order.
pub struct LineBuffer {
    pub pending: String,
}

impl View for LineBuffer {
    type V = Seq<char>;

    open spec fn view(&self) -> Seq<char> {
        self.pending@
    }
}

impl LineBuffer {
    /// An empty buffer.
    pub fn new() -> (r: LineBuffer)
        ensures
            r@.len() == 0,
    {
        LineBuffer { pending: String::new() }
    }

    /// Append one chunk of stream text.
    pub fn feed(&mut self, chunk: &str)
        ensures
            final(self)@ == old(self)@ + chunk@,
    {
        self.pending.append(chunk);
    }

    /// Take the next complete line out of the buffer, if one is there:
    /// everything before the first newline, with a CRLF ending stripped.
    pub fn next_line(&mut self) -> (r: Option<String>)
        ensures
            match r {
                Some(line) => text::spec_find(old(self)@, '\n') matches Some(i) && line@
                    == spec_strip_cr(old(self)@.take(i)) && final(self)@ == old(self)@.skip(i + 1),
                None => text::spec_find(old(self)@, '\n') is None && *final(self) == *old(self),
            },
    {
        let p_len = self.pending.as_str().unicode_len();
        match text::find_char(self.pending.as_str(), '\n') {
            Option::None => None,
            Option::Some(i) => {
                let line: String = if i > 0 && self.pending.as_str().get_char(i - 1) == '\r' {
                    proof {
                        assert(self.pending@.take(i as int).last() == self.pending@[i - 1]);
                        assert(self.pending@.take(i as int).drop_last() =~= self.pending@.take(
                            i - 1,
                        ));
                    }
                    String::from_str(self.pending.as_str().substring_char(0, i - 1))
                } else {
                    proof {
                        if i > 0 {
                            assert(self.pending@.take(i as int).last() == self.pending@[i - 1]);
                        }
                    }
                    String::from_str(self.pending.as_str().substring_char(0, i))
                };
                let rest = String::from_str(self.pending.as_str().substring_char(i + 1, p_len));
                proof {
                    assert(rest@ =~= self.pending@.skip(i + 1));
                }
                self.pending = rest;
                Some(line)
            },
        }
    }

    /// At end of stream, take the final unterminated line, if any text is
    /// left; the buffer is empty afterwards.
    pub fn finish(&mut self) -> (r: Option<String>)
        ensures
            final(self)@.len() == 0,
            match r {
                Some(line) => line@ == old(self)@ && old(self)@.len() > 0,
                None => old(self)@.len() == 0,
            },
    {
        if self.pending.as_str().unicode_len() == 0 {
            return None;
        }
        let out = self.pending.clone();
        self.pending = String::new();
        Some(out)
    }
}

} // verus!

use vstd::prelude::*;

verus! {

/// Ticks for which the last line stays on screen.
pub const MAX_TTL: usize = 4;

/// Keeps the last line logged for a few ticks.
#[derive(Debug)]
pub struct Logger {
    line: Option<String>,
    ticks_lived: usize,
}

impl Logger {
    pub closed spec fn spec_line(&self) -> Option<Seq<char>> {
        match self.line {
            Some(l) => Some(l@),
            None => None,
        }
    }

    pub closed spec fn spec_ticks(&self) -> usize {
        self.ticks_lived
    }

    pub fn new() -> (r: Logger)
        ensures
            r.spec_line() is None,
            r.spec_ticks() == 0,
    {
        Logger { line: None, ticks_lived: 0 }
    }

    /// Shows `line` from now on, for the next ticks.
    pub fn log(&mut self, line: String)
        ensures
            final(self).spec_line() == Some(line@),
            final(self).spec_ticks() == 0,
    {
        self.ticks_lived = 0;
        self.line = Some(line);
    }

    /// Counts one tick and returns the line still shown, if any: a line is
    /// dropped once it has lived more than [`MAX_TTL`] ticks.
    pub fn log_lines(&mut self) -> (r: Option<String>)
        ensures
            final(self).spec_ticks() == (if old(self).spec_ticks() < usize::MAX {
                old(self).spec_ticks() + 1
            } else {
                old(self).spec_ticks() as int
            }),
            final(self).spec_line() == (if final(self).spec_ticks() > MAX_TTL {
                None
            } else {
                old(self).spec_line()
            }),
            match r {
                Some(l) => final(self).spec_line() == Some(l@),
                None => final(self).spec_line() is None,
            },
    {
        if self.ticks_lived < usize::MAX {
            self.ticks_lived += 1;
        }
        if self.ticks_lived > MAX_TTL {
            self.line = None;
        }
        match &self.line {
            Some(l) => Some(l.clone()),
            None => None,
        }
    }
}

} // verus!

//! A logger that records leveled text lines in call order; displaying them is
//! the caller's concern.

use vstd::prelude::*;

verus! {

/// The line recorded for one logging call: `[LEVEL] message`.
pub open spec fn log_line(level: Seq<char>, message: Seq<char>) -> Seq<char> {
    seq!['['] + level + seq![']', ' '] + message
}

/// Records leveled text messages; never reorders them.
pub struct Logger {
    buffer: Vec<String>,
}

impl Logger {
    /// The lines recorded so far, oldest first.
    pub closed spec fn lines(self) -> Seq<Seq<char>> {
        self.buffer.deep_view()
    }

    pub fn new() -> (r: Logger)
        ensures
            r.lines() == Seq::<Seq<char>>::empty(),
    {
        let logger = Logger { buffer: Vec::new() };
        proof {
            assert(logger.lines() =~= Seq::<Seq<char>>::empty());
        }
        logger
    }

    /// Appends `[LEVEL] message` after everything recorded before.
    pub fn log(&mut self, level: &str, message: &str)
        ensures
            final(self).lines() == old(self).lines().push(log_line(level@, message@)),
    {
        proof {
            reveal_strlit("[");
            reveal_strlit("] ");
        }
        let mut line = String::new();
        line.append("[");
        line.append(level);
        line.append("] ");
        line.append(message);
        proof {
            assert(line@ =~= log_line(level@, message@));
        }
        self.buffer.push(line);
        proof {
            assert(self.lines() =~= old(self).lines().push(log_line(level@, message@)));
        }
    }

    pub fn debug(&mut self, message: &str)
        ensures
            final(self).lines() == old(self).lines().push(log_line("DEBUG"@, message@)),
    {
        self.log("DEBUG", message);
    }

    pub fn info(&mut self, message: &str)
        ensures
            final(self).lines() == old(self).lines().push(log_line("INFO"@, message@)),
    {
        self.log("INFO", message);
    }

    pub fn warn(&mut self, message: &str)
        ensures
            final(self).lines() == old(self).lines().push(log_line("WARN"@, message@)),
    {
        self.log("WARN", message);
    }

    /// All recorded lines, oldest first, for a caller to display.
    pub fn messages(&self) -> (r: &Vec<String>)
        ensures
            r.deep_view() == self.lines(),
    {
        &self.buffer
    }
}

} // verus!

//! Diagnostics of the code generator: a level and a message that help and
//! notes extend line by line.
use vstd::prelude::*;
use vstd::string::*;

verus! {

#[derive(PartialEq, Eq, Structural, Clone, Copy, Debug)]
pub enum Level {
    Warning,
    Error,
}

pub struct Diagnostic {
    message: String,
    level: Level,
}

impl Diagnostic {
    pub closed spec fn message_spec(&self) -> Seq<char> {
        self.message@
    }

    pub closed spec fn level_spec(&self) -> Level {
        self.level
    }

    pub fn error(msg: String) -> (r: Self)
        ensures
            r.message_spec() == msg@,
            r.level_spec() == Level::Error,
    {
        Diagnostic { message: msg, level: Level::Error }
    }

    pub fn warning(msg: String) -> (r: Self)
        ensures
            r.message_spec() == msg@,
            r.level_spec() == Level::Warning,
    {
        Diagnostic { message: msg, level: Level::Warning }
    }

    /// Adds `msg` on a line of its own.
    pub fn help(self, msg: &str) -> (r: Self)
        ensures
            r.message_spec() == self.message_spec() + seq!['\n'] + msg@,
            r.level_spec() == self.level_spec(),
    {
        proof {
            reveal_strlit("\n");
        }
        let mut message = self.message;
        message.append("\n");
        message.append(msg);
        assert(message@ =~= self.message_spec() + seq!['\n'] + msg@);
        Diagnostic { message, level: self.level }
    }

    /// Adds `msg` on a line of its own, as [`Diagnostic::help`] does.
    pub fn note(self, msg: &str) -> (r: Self)
        ensures
            r.message_spec() == self.message_spec() + seq!['\n'] + msg@,
            r.level_spec() == self.level_spec(),
    {
        self.help(msg)
    }

    pub fn message(&self) -> (r: &str)
        ensures
            r@ == self.message_spec(),
    {
        self.message.as_str()
    }

    pub fn level(&self) -> (r: Level)
        ensures
            r == self.level_spec(),
    {
        self.level
    }
}

} // verus!

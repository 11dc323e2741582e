//! A typed argument-list builder for the administrative CLI surface.
//!
//! Optional parameters that the caller does not provide are omitted from the
//! argument vector entirely, never passed as empty strings.

use vstd::prelude::*;

verus! {

/// Builds an ordered argument vector, one argument at a time.
pub struct CmdBuilder {
    buf: Vec<String>,
}

impl CmdBuilder {
    /// The arguments collected so far, as sequences of characters.
    pub closed spec fn args(&self) -> Seq<Seq<char>> {
        self.buf.deep_view()
    }

    /// A builder holding the binary name as its first argument.
    pub fn new(bin: &str) -> (r: Self)
        ensures
            r.args() == seq![bin@],
    {
        let mut buf: Vec<String> = Vec::new();
        buf.push(bin.to_owned());
        assert(buf.deep_view() =~= seq![bin@]);
        CmdBuilder { buf }
    }

    /// Appends one positional argument.
    pub fn arg(self, arg: &str) -> (r: Self)
        ensures
            r.args() == self.args().push(arg@),
    {
        let mut buf = self.buf;
        buf.push(arg.to_owned());
        assert(buf.deep_view() =~= self.buf.deep_view().push(arg@));
        CmdBuilder { buf }
    }

    /// Appends a named flag with its value, or nothing when the value is absent.
    pub fn option_arg(self, name: &str, arg: Option<&String>) -> (r: Self)
        ensures
            match arg {
                Some(a) => r.args() == self.args().push(name@).push(a@),
                None => r.args() == self.args(),
            },
    {
        match arg {
            Some(a) => self.arg(name).arg(a.as_str()),
            None => self,
        }
    }

    /// Appends a bare flag when the condition holds, or nothing.
    pub fn bool_arg(self, name: &str, cond: bool) -> (r: Self)
        ensures
            cond ==> r.args() == self.args().push(name@),
            !cond ==> r.args() == self.args(),
    {
        if cond {
            self.arg(name)
        } else {
            self
        }
    }

    /// Hands back the collected argument vector.
    pub fn collect(self) -> (r: Vec<String>)
        ensures
            r.deep_view() == self.args(),
    {
        self.buf
    }
}

impl Default for CmdBuilder {
    /// A builder with no arguments yet.
    fn default() -> (r: Self)
        ensures
            r.args() == Seq::<Seq<char>>::empty(),
    {
        let buf: Vec<String> = Vec::new();
        assert(buf.deep_view() =~= Seq::<Seq<char>>::empty());
        CmdBuilder { buf }
    }
}

} // verus!

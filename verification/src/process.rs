//! Locating the managed process in a process table.
//!
//! The config-sync daemon finds the process it must signal by scanning the
//! process table for the first entry whose command line starts with the
//! managed binary's name followed by its serve subcommand. Reading the table
//! itself is I/O and happens outside the library; the scan over the entries
//! is verified here.

use vstd::prelude::*;

verus! {

use vstd::string::StringSliceAdditionalSpecFns;
use crate::strutil::str_starts_with;

/// A process identifier.
pub type Pid = i32;

/// One process-table entry: a pid and its command line, when that record
/// could be read. Arguments inside the command line are separated by NUL
/// bytes, as the process table records them.
pub struct Process {
    pub pid: Pid,
    pub cmdline: Option<String>,
}

/// Mathematical model of a process-table entry.
pub struct ProcessView {
    pub pid: Pid,
    pub cmdline: Option<Seq<char>>,
}

impl View for Process {
    type V = ProcessView;

    open spec fn view(&self) -> ProcessView {
        ProcessView { pid: self.pid, cmdline: self.cmdline.deep_view() }
    }
}

impl DeepView for Process {
    type V = ProcessView;

    open spec fn deep_view(&self) -> ProcessView {
        self.view()
    }
}

impl Clone for Process {
    /// A copy with the same pid and command line.
    fn clone(&self) -> (r: Self)
        ensures
            r@ == self@,
    {
        let cmdline = match &self.cmdline {
            Some(c) => Some(c.clone()),
            None => None,
        };
        Process { pid: self.pid, cmdline }
    }
}

/// The command-line prefix of the managed process: the binary name and its
/// serve subcommand, NUL-separated as the process table records them.
pub open spec fn managed_prefix() -> Seq<u8> {
    "headscale\u{0}serve\u{0}".spec_bytes()
}

/// Whether an entry's command line could be read and starts with the managed
/// process's prefix, compared byte for byte in UTF-8 form.
pub open spec fn is_managed_proc(p: ProcessView) -> bool {
    match p.cmdline {
        Some(c) => managed_prefix().is_prefix_of(vstd::utf8::encode_utf8(c)),
        None => false,
    }
}

/// Whether one entry matches the managed process's command-line prefix.
/// Entries whose command-line record could not be read never match.
pub fn process_matches(p: &Process) -> (r: bool)
    ensures
        r == is_managed_proc(p@),
{
    match &p.cmdline {
        Some(c) => str_starts_with(c.as_str(), "headscale\u{0}serve\u{0}"),
        None => false,
    }
}

/// Finds the managed process: the first process-table entry whose command
/// line starts with the managed binary's name and serve subcommand. Returns
/// `None` when no entry matches.
pub fn find_headscale_proc(table: &Vec<Process>) -> (r: Option<&Process>)
    ensures
        match r {
            Some(p) => exists|i: int|
                {
                    &&& 0 <= i < table@.len()
                    &&& *p == table@[i]
                    &&& is_managed_proc(table@[i]@)
                    &&& forall|j: int| 0 <= j < i ==> !is_managed_proc(table@[j]@)
                },
            None => forall|j: int| 0 <= j < table@.len() ==> !is_managed_proc(table@[j]@),
        },
{
    let mut i: usize = 0;
    while i < table.len()
        invariant
            i <= table@.len(),
            forall|j: int| 0 <= j < i ==> !is_managed_proc(table@[j]@),
        decreases table@.len() - i,
    {
        if process_matches(&table[i]) {
            return Some(&table[i]);
        }
        i += 1;
    }
    None
}

/// A cursor over a process table, yielding entries in order.
pub struct ProcessIter {
    entries: Vec<Process>,
    pos: usize,
}

impl ProcessIter {
    /// The entries the cursor walks.
    pub closed spec fn entries(&self) -> Seq<ProcessView> {
        self.entries.deep_view()
    }

    /// How many entries have been yielded so far.
    pub closed spec fn pos(&self) -> int {
        self.pos as int
    }

    /// A cursor at the start of the given table.
    pub fn new(entries: Vec<Process>) -> (r: Self)
        ensures
            r.entries() == entries.deep_view(),
            r.pos() == 0,
    {
        ProcessIter { entries, pos: 0 }
    }

    /// The next entry, or `None` once the table is exhausted.
    pub fn next_entry(&mut self) -> (r: Option<Process>)
        ensures
            final(self).entries() == old(self).entries(),
            match r {
                Some(p) => {
                    &&& old(self).pos() < old(self).entries().len()
                    &&& final(self).pos() == old(self).pos() + 1
                    &&& p@ == old(self).entries()[old(self).pos()]
                },
                None => {
                    &&& old(self).pos() >= old(self).entries().len()
                    &&& final(self).pos() == old(self).pos()
                },
            },
    {
        if self.pos < self.entries.len() {
            let p = self.entries[self.pos].clone();
            self.pos += 1;
            Some(p)
        } else {
            None
        }
    }
}

} // verus!

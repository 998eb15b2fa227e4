//! The directories and files of a dataset, held in memory.
//!
//! A [`Snapshot`] lists what was found on a medium, each entry under its path. The readers
//! of this library look their files up in it and never touch the medium themselves.

use vstd::prelude::*;
use vstd::string::*;

verus! {

/// A directory, or a file with its content, under a path.
#[derive(Debug, Clone)]
pub struct Entry {
    /// The path, as the readers spell it: directory names joined by `/`.
    pub path: String,
    /// The content of a file; `None` for a directory.
    pub data: Option<Vec<u8>>,
}

/// The entries of a dataset. Where two entries share a path, the first one counts.
#[derive(Debug, Clone)]
pub struct Snapshot {
    pub entries: Vec<Entry>,
}

/// The first of `entries` that stands under `path`.
pub open spec fn first_at(entries: Seq<Entry>, path: Seq<char>) -> Option<Entry>
    decreases entries.len(),
{
    if entries.len() == 0 {
        None
    } else if entries[0].path@ == path {
        Some(entries[0])
    } else {
        first_at(entries.drop_first(), path)
    }
}

/// `base` and `name` joined into one path.
pub open spec fn joined(base: Seq<char>, name: Seq<char>) -> Seq<char> {
    base + seq!['/'] + name
}

/// The path of `name` inside the directory `base`.
pub fn join(base: &str, name: &str) -> (path: String)
    ensures
        path@ == joined(base@, name@),
{
    proof {
        reveal_strlit("/");
        assert("/"@ =~= seq!['/']);
    }
    base.to_owned().concat("/").concat(name)
}

impl Snapshot {
    /// The entry under `path`.
    pub open spec fn entry(&self, path: Seq<char>) -> Option<Entry> {
        first_at(self.entries@, path)
    }

    /// Whether `path` is a directory.
    pub open spec fn has_dir(&self, path: Seq<char>) -> bool {
        self.entry(path) matches Some(e) && e.data is None
    }

    /// Whether `path` is a file.
    pub open spec fn has_file(&self, path: Seq<char>) -> bool {
        self.entry(path) matches Some(e) && e.data is Some
    }

    /// The content of the file under `path`.
    pub open spec fn content(&self, path: Seq<char>) -> Option<Seq<u8>> {
        match self.entry(path) {
            Some(e) => match e.data {
                Some(data) => Some(data@),
                None => None,
            },
            None => None,
        }
    }

    /// Looks up the entry under `path`.
    pub fn find(&self, path: &str) -> (r: Option<&Entry>)
        ensures
            match r {
                Some(e) => self.entry(path@) == Some(*e),
                None => self.entry(path@) is None,
            },
    {
        let key = path.to_owned();
        let mut i: usize = 0;
        assert(self.entries@.skip(0) =~= self.entries@);
        while i < self.entries.len()
            invariant
                0 <= i <= self.entries@.len(),
                key@ == path@,
                first_at(self.entries@, path@) == first_at(self.entries@.skip(i as int), path@),
            decreases self.entries@.len() - i,
        {
            let ghost rest = self.entries@.skip(i as int);
            assert(rest[0] == self.entries@[i as int]);
            assert(rest.drop_first() =~= self.entries@.skip(i + 1));
            if self.entries[i].path == key {
                return Some(&self.entries[i]);
            }
            i = i + 1;
        }
        None
    }

    /// Whether `path` is a directory.
    pub fn is_dir(&self, path: &str) -> (r: bool)
        ensures
            r == self.has_dir(path@),
    {
        match self.find(path) {
            Some(e) => e.data.is_none(),
            None => false,
        }
    }

    /// Whether `path` is a file.
    pub fn is_file(&self, path: &str) -> (r: bool)
        ensures
            r == self.has_file(path@),
    {
        match self.find(path) {
            Some(e) => e.data.is_some(),
            None => false,
        }
    }

    /// The content of the file under `path`; `None` where there is no such file.
    pub fn read(&self, path: &str) -> (r: Option<&[u8]>)
        ensures
            match r {
                Some(bytes) => self.content(path@) == Some(bytes@),
                None => self.content(path@) is None,
            },
    {
        match self.find(path) {
            Some(e) => match &e.data {
                Some(data) => Some(data.as_slice()),
                None => None,
            },
            None => None,
        }
    }
}

} // verus!

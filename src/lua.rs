//! Looking up a value by a dot-separated path (`"a.b.c"`) through nested
//! scripting tables.
//!
//! A lookup starts from a table and descends through each key of the path but
//! the last; the value under the last key is the result. `PathWalk` says which key
//! comes next and whether it is the last; the table reads themselves are the
//! host's.
use vstd::prelude::*;
use vstd::string::StringSliceAdditionalSpecFns;

use crate::error::Error;
use crate::text::{is_split, split_ranges};

verus! {

/// One step of a path lookup: the key is the byte range `[start, end)` of the path.
#[derive(Clone, Copy, Debug, PartialEq, Eq, Structural)]
pub enum PathStep {
    /// Read the table under this key and go on from it.
    Descend(usize, usize),
    /// Read the value under this key: it is the result.
    Finish(usize, usize),
}

/// The keys of a path, and how many of them were handed out.
pub struct PathWalk {
    keys: Vec<(usize, usize)>,
    next: usize,
}

impl PathWalk {
    /// The byte ranges of the path's keys.
    pub closed spec fn keys(&self) -> Seq<(usize, usize)> {
        self.keys@
    }

    /// How many steps were handed out.
    pub closed spec fn taken(&self) -> nat {
        self.next as nat
    }

    pub closed spec fn wf(&self) -> bool {
        self.next <= self.keys@.len()
    }

    /// The next step, or `None` once the last key was handed out.
    pub fn next_step(&mut self) -> (r: Option<PathStep>)
        requires
            old(self).wf(),
        ensures
            final(self).wf(),
            final(self).keys() == old(self).keys(),
            old(self).taken() + 1 < old(self).keys().len() ==> final(self).taken() == old(
                self,
            ).taken() + 1 && r == Some(
                PathStep::Descend(
                    old(self).keys()[old(self).taken() as int].0,
                    old(self).keys()[old(self).taken() as int].1,
                ),
            ),
            old(self).taken() + 1 == old(self).keys().len() ==> final(self).taken() == old(
                self,
            ).taken() + 1 && r == Some(
                PathStep::Finish(
                    old(self).keys()[old(self).taken() as int].0,
                    old(self).keys()[old(self).taken() as int].1,
                ),
            ),
            old(self).taken() == old(self).keys().len() ==> final(self).taken() == old(
                self,
            ).taken() && r is None,
    {
        if self.next >= self.keys.len() {
            None
        } else {
            let (start, end) = self.keys[self.next];
            let last = self.next + 1 == self.keys.len();
            self.next = self.next + 1;
            if last {
                Some(PathStep::Finish(start, end))
            } else {
                Some(PathStep::Descend(start, end))
            }
        }
    }
}

/// Starts the lookup of `path` inside a value: only a table (`obj_is_table`) can
/// be looked into, anything else fails with `InvalidType`. The keys are the pieces
/// of `path` between dots.
pub fn lua_get_value_path(obj_is_table: bool, path: &str) -> (r: Result<PathWalk, Error>)
    ensures
        !obj_is_table ==> r matches Err(Error::InvalidType),
        obj_is_table ==> (r matches Ok(w) && w.wf() && w.taken() == 0 && is_split(
            path.spec_bytes(),
            46u8,
            w.keys(),
        )),
{
    if !obj_is_table {
        return Err(Error::InvalidType);
    }
    Ok(walk_of(path))
}

fn walk_of(path: &str) -> (w: PathWalk)
    ensures
        w.wf(),
        w.taken() == 0,
        is_split(path.spec_bytes(), 46u8, w.keys()),
{
    let keys = split_ranges(path.as_bytes(), 46u8);
    PathWalk { keys, next: 0 }
}

/// Starts the lookup of `path` among the global variables, which form a table.
pub fn lua_get_global_path(path: &str) -> (w: PathWalk)
    ensures
        w.wf(),
        w.taken() == 0,
        is_split(path.spec_bytes(), 46u8, w.keys()),
{
    walk_of(path)
}

} // verus!

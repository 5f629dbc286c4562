use std::sync::Arc;

use vstd::prelude::*;

use crate::errno::Errno;
use crate::vfs::File;

verus! {

/// Capacity of a task's descriptor table: the number of slots.
pub const FDTABLE_SIZE: usize = 256;

/// A validated descriptor: an index known to lie inside the table.
#[derive(Debug)]
pub struct Fd(usize);

impl Fd {
    /// The raw index this descriptor denotes.
    pub closed spec fn spec_index(self) -> usize {
        self.0
    }

    #[verifier::type_invariant]
    spec fn inv(self) -> bool {
        self.0 < FDTABLE_SIZE
    }

    /// The raw index of this descriptor, always inside the table.
    pub fn index(&self) -> (r: usize)
        ensures
            r == self.spec_index(),
            r < FDTABLE_SIZE,
    {
        proof {
            use_type_invariant(self);
        }
        self.0
    }

    /// Validate a raw value: a descriptor for it, or nothing when it lies
    /// outside the table.
    pub fn from(v: usize) -> (r: Option<Fd>)
        ensures
            match r {
                Some(fd) => v < FDTABLE_SIZE && fd.spec_index() == v,
                None => v >= FDTABLE_SIZE,
            },
    {
        if v < FDTABLE_SIZE {
            Some(Fd(v))
        } else {
            None
        }
    }
}

/// Relies on alloc::sync::Arc::clone: the new handle refers to the same
/// shared file object.
#[verifier::external_body]
fn arc_clone_file(f: &Arc<File>) -> (r: Arc<File>)
    ensures
        r == *f,
{
    Arc::clone(f)
}

/// A task's descriptor table: a fixed number of slots, each empty or
/// holding a shared file object.
pub struct FdTable {
    slots: Vec<Option<Arc<File>>>,
}

impl View for FdTable {
    type V = Seq<Option<Arc<File>>>;

    closed spec fn view(&self) -> Seq<Option<Arc<File>>> {
        self.slots@
    }
}

impl FdTable {
    /// The table always holds exactly its fixed number of slots.
    pub open spec fn wf(&self) -> bool {
        self@.len() == FDTABLE_SIZE
    }

    /// A fresh table: every slot free.
    pub fn new() -> (r: FdTable)
        ensures
            r.wf(),
            forall|i: int| 0 <= i < FDTABLE_SIZE ==> r@[i] is None,
    {
        let mut slots: Vec<Option<Arc<File>>> = Vec::new();
        let mut i: usize = 0;
        while i < FDTABLE_SIZE
            invariant
                i <= FDTABLE_SIZE,
                slots@.len() == i,
                forall|j: int| 0 <= j < i ==> slots@[j] is None,
            decreases FDTABLE_SIZE - i,
        {
            slots.push(None);
            i += 1;
        }
        FdTable { slots }
    }

    /// A table for a forked task: every slot refers to the same shared file
    /// as in this one.
    pub fn clone_for_fork(&self) -> (r: FdTable)
        requires
            self.wf(),
        ensures
            r.wf(),
            r@ =~= self@,
    {
        let mut slots: Vec<Option<Arc<File>>> = Vec::new();
        let mut i: usize = 0;
        while i < self.slots.len()
            invariant
                i <= self@.len(),
                self@.len() == self.slots@.len(),
                slots@.len() == i,
                forall|j: int| 0 <= j < i ==> slots@[j] == self@[j],
            decreases self@.len() - i,
        {
            let copied: Option<Arc<File>> = match &self.slots[i] {
                None => None,
                Some(a) => Some(arc_clone_file(a)),
            };
            slots.push(copied);
            i += 1;
        }
        FdTable { slots }
    }

    /// The shared file at a descriptor, or nothing when the slot is free.
    pub fn get_file(&self, fd: Fd) -> (r: Option<Arc<File>>)
        requires
            self.wf(),
        ensures
            r == self@[fd.spec_index() as int],
    {
        let i = fd.index();
        match &self.slots[i] {
            None => None,
            Some(a) => Some(arc_clone_file(a)),
        }
    }

    /// Store a file in the first free slot and hand its descriptor back, or
    /// nothing when every slot is taken.
    pub fn alloc_fd(&mut self, file: Arc<File>) -> (r: Option<Fd>)
        requires
            old(self).wf(),
        ensures
            final(self).wf(),
            match r {
                Some(fd) => old(self)@[fd.spec_index() as int] is None && (forall|j: int|
                    0 <= j < fd.spec_index() ==> old(self)@[j] is Some) && final(self)@ =~= old(self)@.update(fd.spec_index() as int, Some(file)),
                None => (forall|j: int| 0 <= j < FDTABLE_SIZE ==> old(self)@[j] is Some) && *final(self) == *old(self),
            },
    {
        let mut i: usize = 0;
        while i < self.slots.len()
            invariant
                i <= self@.len(),
                self@.len() == self.slots@.len(),
                self@.len() == FDTABLE_SIZE,
                *self == *old(self),
                forall|j: int| 0 <= j < i ==> self@[j] is Some,
            decreases self@.len() - i,
        {
            if self.slots[i].is_none() {
                let e = &mut self.slots[i];
                *e = Some(file);
                return Some(Fd(i));
            }
            i += 1;
        }
        None
    }
}

/// The syscall adapter: translate a raw descriptor number into the shared
/// file object the table holds. A number outside the table and an empty
/// slot both yield bad-descriptor.
pub fn get_file(table: &FdTable, fd: isize) -> (r: Result<Arc<File>, Errno>)
    requires
        table.wf(),
    ensures
        match r {
            Ok(f) => 0 <= fd && (fd as int) < (FDTABLE_SIZE as int) && table@[fd as int] == Some(f),
            Err(e) => e == Errno::EBADF && (fd < 0 || (fd as int) >= (FDTABLE_SIZE as int) || table@[fd as int]
                is None),
        },
{
    if fd < 0 {
        return Err(Errno::EBADF);
    }
    let v = fd as usize;
    let valid = match Fd::from(v) {
        Some(f) => f,
        None => {
            return Err(Errno::EBADF);
        },
    };
    match table.get_file(valid) {
        Some(a) => Ok(a),
        None => Err(Errno::EBADF),
    }
}

} // verus!

use vstd::prelude::*;

use crate::errno::Errno;
use crate::sysfs::{ModuleDirInode, SysRootDirInode};
use crate::tmpfs::{TmpDir, TmpDirInode, TmpFileInode, TmpSymLinkInode};

verus! {

/// File-type tag of a regular file in a directory listing or a stat record.
pub const FILE_TYPE_REG: u8 = 1;

/// File-type tag of a directory.
pub const FILE_TYPE_DIR: u8 = 2;

/// File-type tag of a symbolic link.
pub const FILE_TYPE_SYMLINK: u8 = 7;

/// One timestamp of an inode: seconds and nanoseconds.
#[derive(Clone, Copy, Debug, PartialEq, Eq, Structural)]
pub struct TimeSpec {
    pub sec: u64,
    pub nsec: u32,
}

impl TimeSpec {
    /// The zero timestamp, used by backends that keep no clock.
    pub fn zero() -> (r: TimeSpec)
        ensures
            r.sec == 0 && r.nsec == 0,
    {
        TimeSpec { sec: 0, nsec: 0 }
    }
}

impl Default for TimeSpec {
    /// The default timestamp is the zero timestamp.
    fn default() -> (r: TimeSpec)
        ensures
            r.sec == 0 && r.nsec == 0,
    {
        TimeSpec { sec: 0, nsec: 0 }
    }
}

/// Permission bits of an inode, at most the low twelve bits.
#[derive(Clone, Copy, Debug, PartialEq, Eq, Structural)]
pub struct Permission {
    pub bits: u32,
}

impl Permission {
    /// Keep only the twelve permission bits of `bits`, dropping the rest.
    pub fn from_bits_truncate(bits: u32) -> (r: Permission)
        ensures
            r.bits == bits & 0o7777,
    {
        Permission { bits: bits & 0o7777 }
    }
}

/// The attribute snapshot returned by the stat family of calls.
#[derive(Clone, Copy, Debug, PartialEq, Eq, Structural)]
pub struct RawStat {
    pub perm: u32,
    pub uid: usize,
    pub gid: usize,
    pub size: usize,
    pub file_type: u8,
    pub access_time: TimeSpec,
    pub modify_time: TimeSpec,
    pub change_time: TimeSpec,
}

/// The name of the synthesized self entry of a directory listing.
pub open spec fn dot() -> Seq<u8> {
    seq![46u8]
}

/// The name of the synthesized parent entry of a directory listing.
pub open spec fn dotdot() -> Seq<u8> {
    seq![46u8, 46u8]
}

/// A name may be stored as a real directory entry: it is nonempty and is
/// neither "." nor "..", which are synthesized at enumeration time only.
pub open spec fn storable_name(name: Seq<u8>) -> bool {
    name.len() > 0 && name != dot() && name != dotdot()
}

/// The self entry as a byte vector.
pub fn dot_name() -> (r: Vec<u8>)
    ensures
        r@ == dot(),
{
    let mut v: Vec<u8> = Vec::new();
    v.push(46);
    assert(v@ =~= dot());
    v
}

/// The parent entry as a byte vector.
pub fn dotdot_name() -> (r: Vec<u8>)
    ensures
        r@ == dotdot(),
{
    let mut v: Vec<u8> = Vec::new();
    v.push(46);
    v.push(46);
    assert(v@ =~= dotdot());
    v
}

/// Copy a byte string into a fresh vector.
pub fn clone_bytes(v: &[u8]) -> (r: Vec<u8>)
    ensures
        r@ == v@,
{
    let mut out: Vec<u8> = Vec::new();
    let mut i: usize = 0;
    while i < v.len()
        invariant
            i <= v@.len(),
            out@ =~= v@.subrange(0, i as int),
        decreases v@.len() - i,
    {
        out.push(v[i]);
        i += 1;
    }
    assert(out@ =~= v@);
    out
}

/// Whether two byte strings hold the same bytes.
pub fn bytes_eq(a: &[u8], b: &[u8]) -> (r: bool)
    ensures
        r == (a@ == b@),
{
    if a.len() != b.len() {
        assert(a@.len() != b@.len());
        return false;
    }
    let mut i: usize = 0;
    while i < a.len()
        invariant
            i <= a@.len(),
            a@.len() == b@.len(),
            forall|j: int| 0 <= j < i ==> a@[j] == b@[j],
        decreases a@.len() - i,
    {
        if a[i] != b[i] {
            return false;
        }
        i += 1;
    }
    assert(a@ =~= b@);
    true
}

/// Whether a byte string may be stored as a real directory entry.
pub fn is_storable_name(name: &[u8]) -> (r: bool)
    ensures
        r == storable_name(name@),
{
    if name.len() == 0 {
        return false;
    }
    if name.len() == 1 && name[0] == 46 {
        assert(name@ =~= dot());
        return false;
    }
    if name.len() == 2 && name[0] == 46 && name[1] == 46 {
        assert(name@ =~= dotdot());
        return false;
    }
    assert(name@ != dot() && name@ != dotdot());
    true
}

/// The name of the module-projection directory under the synthetic root.
pub open spec fn modules_name() -> Seq<u8> {
    seq![109u8, 111u8, 100u8, 117u8, 108u8, 101u8, 115u8]
}

/// The name "modules" as a byte vector.
pub fn modules_name_vec() -> (r: Vec<u8>)
    ensures
        r@ == modules_name(),
{
    let mut v: Vec<u8> = Vec::new();
    v.push(109);
    v.push(111);
    v.push(100);
    v.push(117);
    v.push(108);
    v.push(101);
    v.push(115);
    assert(v@ =~= modules_name());
    v
}

/// The tagged inode handle: a closed union referencing exactly one
/// capability instance — directory, file, or symbolic link. The active
/// variant never changes after construction.
#[derive(Debug, PartialEq)]
pub enum VfsInode {
    Dir(DirNode),
    File(FileNode),
    SymLink(SymLinkNode),
}

/// The closed set of directory-capability backends.
#[derive(Debug, PartialEq)]
pub enum DirNode {
    /// The read-only projection of the loaded-module registry.
    Module(ModuleDirInode),
    /// The synthetic root directory holding the "modules" projection.
    SysRoot(SysRootDirInode),
    /// A directory of the in-memory read-write tree.
    Tmp(TmpDirInode),
}

/// The closed set of file-capability backends.
#[derive(Debug, PartialEq)]
pub enum FileNode {
    /// A regular file of the in-memory read-write tree.
    Tmp(TmpFileInode),
}

/// The closed set of symbolic-link backends.
#[derive(Debug, PartialEq)]
pub enum SymLinkNode {
    /// A symbolic link of the in-memory read-write tree.
    Tmp(TmpSymLinkInode),
}

/// The observable shape of an inode: everything a caller can learn of it
/// through the capability methods. Two inodes of the same shape are
/// semantically equivalent, even when they are distinct instances — a
/// backend may mint a fresh instance on every lookup.
pub enum InodeShape {
    Dir(DirShape),
    File { perm: u32, uid: usize, gid: usize, data: Seq<u8> },
    SymLink { perm: u32, uid: usize, gid: usize, target: Seq<u8> },
}

/// The observable shape of a directory inode.
pub enum DirShape {
    /// The module projection holds no state of its own.
    Module,
    /// The synthetic root holds no observable state of its own.
    SysRoot,
    /// An in-memory directory: metadata and the shapes of its children.
    Tmp { perm: u32, uid: usize, gid: usize, entries: Seq<(Seq<u8>, InodeShape)> },
}

/// The observable shape of an inode.
pub open spec fn inode_shape(i: VfsInode) -> InodeShape
    decreases i,
{
    match i {
        VfsInode::Dir(d) => InodeShape::Dir(dir_shape(d)),
        VfsInode::File(FileNode::Tmp(f)) => InodeShape::File {
            perm: f.perm.bits,
            uid: f.uid,
            gid: f.gid,
            data: f.data@,
        },
        VfsInode::SymLink(SymLinkNode::Tmp(s)) => InodeShape::SymLink {
            perm: s.perm.bits,
            uid: s.uid,
            gid: s.gid,
            target: s.target@,
        },
    }
}

/// The observable shape of a directory inode.
pub open spec fn dir_shape(d: DirNode) -> DirShape
    decreases d,
{
    match d {
        DirNode::Module(_) => DirShape::Module,
        DirNode::SysRoot(_) => DirShape::SysRoot,
        DirNode::Tmp(t) => DirShape::Tmp {
            perm: t.perm.bits,
            uid: t.uid,
            gid: t.gid,
            entries: crate::tmpfs::tmp_entries_shape(t),
        },
    }
}

/// The listing type tag an inode is enumerated under.
pub open spec fn spec_file_type_of(inode: VfsInode) -> u8 {
    match inode {
        VfsInode::Dir(_) => FILE_TYPE_DIR,
        VfsInode::File(_) => FILE_TYPE_REG,
        VfsInode::SymLink(_) => FILE_TYPE_SYMLINK,
    }
}

impl VfsInode {
    /// The listing type tag of this inode.
    pub fn file_type(&self) -> (r: u8)
        ensures
            r == spec_file_type_of(*self),
    {
        match self {
            VfsInode::Dir(_) => FILE_TYPE_DIR,
            VfsInode::File(_) => FILE_TYPE_REG,
            VfsInode::SymLink(_) => FILE_TYPE_SYMLINK,
        }
    }


    /// The attribute snapshot this inode reports, whatever its capability.
    pub open spec fn spec_stat(self) -> RawStat {
        match self {
            VfsInode::Dir(d) => d.spec_stat(),
            VfsInode::File(FileNode::Tmp(f)) => f.spec_stat(),
            VfsInode::SymLink(SymLinkNode::Tmp(l)) => l.spec_stat(),
        }
    }

    /// The shared metadata contract: the attribute snapshot of any inode.
    pub fn stat(&self) -> (r: Result<RawStat, Errno>)
        ensures
            r == Ok::<RawStat, Errno>(self.spec_stat()),
    {
        match self {
            VfsInode::Dir(d) => d.stat(),
            VfsInode::File(FileNode::Tmp(f)) => f.stat(),
            VfsInode::SymLink(SymLinkNode::Tmp(l)) => l.stat(),
        }
    }

    /// The shared metadata contract: change the owner of any inode. An
    /// immutable backend denies it; the writable tree records it.
    pub fn chown(&mut self, owner: usize, group: usize) -> (r: Result<(), Errno>)
        ensures
            match *old(self) {
                VfsInode::Dir(d0) => if d0.is_immutable() {
                    r == Err::<(), Errno>(Errno::EPERM) && *final(self) == *old(self)
                } else {
                    r == Ok::<(), Errno>(()) && (d0 matches DirNode::Tmp(t) && *final(self)
                        == VfsInode::Dir(DirNode::Tmp(
                        TmpDirInode { uid: owner, gid: group, ..t },
                    )))
                },
                VfsInode::File(FileNode::Tmp(f)) => r == Ok::<(), Errno>(()) && *final(self)
                    == VfsInode::File(FileNode::Tmp(TmpFileInode { uid: owner, gid: group, ..f })),
                VfsInode::SymLink(SymLinkNode::Tmp(l)) => r == Ok::<(), Errno>(()) && *final(self)
                    == VfsInode::SymLink(SymLinkNode::Tmp(
                    TmpSymLinkInode { uid: owner, gid: group, ..l },
                )),
            },
    {
        match self {
            VfsInode::Dir(d) => d.chown(owner, group),
            VfsInode::File(FileNode::Tmp(f)) => f.chown(owner, group),
            VfsInode::SymLink(SymLinkNode::Tmp(l)) => l.chown(owner, group),
        }
    }

    /// The shared metadata contract: change the permission bits of any
    /// inode. An immutable backend denies it; the writable tree records it.
    pub fn chmod(&mut self, perm: Permission) -> (r: Result<(), Errno>)
        ensures
            match *old(self) {
                VfsInode::Dir(d0) => if d0.is_immutable() {
                    r == Err::<(), Errno>(Errno::EPERM) && *final(self) == *old(self)
                } else {
                    r == Ok::<(), Errno>(()) && (d0 matches DirNode::Tmp(t) && *final(self)
                        == VfsInode::Dir(DirNode::Tmp(TmpDirInode { perm, ..t })))
                },
                VfsInode::File(FileNode::Tmp(f)) => r == Ok::<(), Errno>(()) && *final(self)
                    == VfsInode::File(FileNode::Tmp(TmpFileInode { perm, ..f })),
                VfsInode::SymLink(SymLinkNode::Tmp(l)) => r == Ok::<(), Errno>(()) && *final(self)
                    == VfsInode::SymLink(SymLinkNode::Tmp(TmpSymLinkInode { perm, ..l })),
            },
    {
        match self {
            VfsInode::Dir(d) => d.chmod(perm),
            VfsInode::File(FileNode::Tmp(f)) => f.chmod(perm),
            VfsInode::SymLink(SymLinkNode::Tmp(l)) => l.chmod(perm),
        }
    }

    /// A directory inode is well formed when its stored children carry
    /// unique storable names.
    pub open spec fn wf(self) -> bool {
        match self {
            VfsInode::Dir(d) => d.wf(),
            _ => true,
        }
    }

    /// An equivalent copy of this inode: a distinct instance of the same
    /// observable shape.
    pub fn duplicate(&self) -> (r: VfsInode)
        ensures
            inode_shape(r) == inode_shape(*self),
            spec_file_type_of(r) == spec_file_type_of(*self),
        decreases *self,
    {
        match self {
            VfsInode::Dir(d) => VfsInode::Dir(d.duplicate()),
            VfsInode::File(f) => VfsInode::File(f.duplicate()),
            VfsInode::SymLink(s) => VfsInode::SymLink(s.duplicate()),
        }
    }
}

impl DirNode {
    /// Well-formedness of a directory backend: the in-memory tree holds
    /// unique storable child names, and the synthetic root binds "modules".
    pub open spec fn wf(self) -> bool {
        match self {
            DirNode::Tmp(d) => d.wf(),
            DirNode::SysRoot(s) => s.wf(),
            DirNode::Module(_) => true,
        }
    }

    /// An immutable backend refuses every mutating call with
    /// permission-denied; only the in-memory tree is writable.
    pub open spec fn is_immutable(self) -> bool {
        !(self is Tmp)
    }

    /// An equivalent copy of this directory inode: a distinct instance of
    /// the same observable shape.
    pub fn duplicate(&self) -> (r: DirNode)
        ensures
            dir_shape(r) == dir_shape(*self),
        decreases *self,
    {
        match self {
            DirNode::Module(_) => DirNode::Module(ModuleDirInode::new()),
            DirNode::SysRoot(_) => DirNode::SysRoot(SysRootDirInode::new()),
            DirNode::Tmp(d) => DirNode::Tmp(d.duplicate()),
        }
    }

    /// The attribute snapshot this directory reports.
    pub open spec fn spec_stat(self) -> RawStat {
        match self {
            DirNode::Module(_) => crate::sysfs::module_dir_stat(),
            DirNode::SysRoot(_) => crate::sysfs::sys_root_stat(),
            DirNode::Tmp(d) => d.spec_stat(),
        }
    }

    /// The attribute snapshot of this directory.
    pub fn stat(&self) -> (r: Result<RawStat, Errno>)
        ensures
            r == Ok::<RawStat, Errno>(self.spec_stat()),
    {
        match self {
            DirNode::Module(m) => m.stat(),
            DirNode::SysRoot(s) => s.stat(),
            DirNode::Tmp(d) => d.stat(),
        }
    }

    /// The listing this directory enumerates under a given registry key
    /// set: its real children, then the synthesized "." and "..".
    pub open spec fn spec_listing(self, reg: Seq<Seq<u8>>) -> Seq<(u8, Seq<u8>)> {
        match self {
            DirNode::Module(_) => crate::sysfs::module_dir_listing(reg),
            DirNode::SysRoot(_) => crate::sysfs::sys_root_listing(),
            DirNode::Tmp(d) => crate::tmpfs::tmp_dir_listing(d),
        }
    }

    /// Enumerate this directory: a fresh, rewound handle over its listing.
    pub fn open(&self, reg: &ModuleRegistry) -> (r: Result<TmpDir, Errno>)
        ensures
            match r {
                Ok(h) => h@ == self.spec_listing(reg@) && h.spec_pos() == 0,
                Err(_) => false,
            },
    {
        match self {
            DirNode::Module(m) => m.open(reg),
            DirNode::SysRoot(s) => s.open(),
            DirNode::Tmp(d) => d.open(),
        }
    }

    /// Whether a lookup of `name` in this directory succeeds, under a given
    /// registry key set.
    pub open spec fn spec_lookup_found(self, reg: Seq<Seq<u8>>, name: Seq<u8>) -> bool {
        match self {
            DirNode::Module(_) => reg.contains(name),
            DirNode::SysRoot(_) => name == modules_name(),
            DirNode::Tmp(d) => d.contains_name(name),
        }
    }

    /// The observable shape of the inode a successful lookup of `name`
    /// yields.
    pub open spec fn spec_lookup_shape(self, reg: Seq<Seq<u8>>, name: Seq<u8>) -> InodeShape {
        match self {
            DirNode::Module(_) => InodeShape::Dir(
                DirShape::Tmp { perm: 0, uid: 0, gid: 0, entries: Seq::empty() },
            ),
            DirNode::SysRoot(_) => InodeShape::Dir(DirShape::Module),
            DirNode::Tmp(d) => crate::tmpfs::tmp_lookup_shape(d, name),
        }
    }

    /// Look `name` up in this directory. An absent name is not-found for
    /// every backend; a present one yields an inode of the backend's
    /// declared shape, possibly freshly minted.
    pub fn lookup(&self, reg: &ModuleRegistry, name: &[u8]) -> (r: Result<VfsInode, Errno>)
        requires
            self.wf(),
        ensures
            match r {
                Ok(inode) => self.spec_lookup_found(reg@, name@) && inode_shape(inode)
                    == self.spec_lookup_shape(reg@, name@),
                Err(e) => e == Errno::ENOENT && !self.spec_lookup_found(reg@, name@),
            },
    {
        match self {
            DirNode::Module(m) => {
                let r = m.lookup(reg, name);
                proof {
                    if let Ok(inode) = &r {
                        if let VfsInode::Dir(DirNode::Tmp(d)) = inode {
                            crate::tmpfs::lemma_empty_dir_shape(*d);
                        }
                    }
                }
                r
            },
            DirNode::SysRoot(s) => s.lookup(name),
            DirNode::Tmp(d) => {
                match d.lookup(name) {
                    Ok(child) => {
                        let dup = child.duplicate();
                        proof {
                            let i = choose|i: int|
                                0 <= i < d@.len() && (#[trigger] d@[i]).0 == name@ && d@[i].1
                                    == *child;
                            let k = crate::tmpfs::tmp_index_of(*d, name@);
                            assert(0 <= k < d@.len() && d@[k].0 == name@);
                            if i < k {
                                assert(d@[i].0 != d@[k].0);
                            } else if k < i {
                                assert(d@[k].0 != d@[i].0);
                            }
                            assert(i == k);
                        }
                        Ok(dup)
                    },
                    Err(e) => Err(e),
                }
            },
        }
    }

    /// Change the owner of this directory; an immutable backend denies it.
    pub fn chown(&mut self, owner: usize, group: usize) -> (r: Result<(), Errno>)
        ensures
            old(self).is_immutable() ==> r == Err::<(), Errno>(Errno::EPERM) && *final(self)
                == *old(self),
            !old(self).is_immutable() ==> r == Ok::<(), Errno>(()) && (*old(self) matches
            DirNode::Tmp(d) && *final(self) == DirNode::Tmp(
                crate::tmpfs::TmpDirInode { uid: owner, gid: group, ..d },
            )),
    {
        match self {
            DirNode::Module(m) => m.chown(owner, group),
            DirNode::SysRoot(s) => s.chown(owner, group),
            DirNode::Tmp(d) => d.chown(owner, group),
        }
    }

    /// Change the permission bits of this directory; an immutable backend
    /// denies it.
    pub fn chmod(&mut self, perm: Permission) -> (r: Result<(), Errno>)
        ensures
            old(self).is_immutable() ==> r == Err::<(), Errno>(Errno::EPERM) && *final(self)
                == *old(self),
            !old(self).is_immutable() ==> r == Ok::<(), Errno>(()) && (*old(self) matches
            DirNode::Tmp(d) && *final(self) == DirNode::Tmp(
                crate::tmpfs::TmpDirInode { perm, ..d },
            )),
    {
        match self {
            DirNode::Module(m) => m.chmod(perm),
            DirNode::SysRoot(s) => s.chmod(perm),
            DirNode::Tmp(d) => d.chmod(perm),
        }
    }

    /// Create a child directory; an immutable backend denies it.
    pub fn mkdir(&mut self, name: &[u8], perm: Permission) -> (r: Result<(), Errno>)
        requires
            old(self).wf(),
        ensures
            final(self).wf(),
            old(self).is_immutable() ==> r == Err::<(), Errno>(Errno::EPERM) && *final(self)
                == *old(self),
            !old(self).is_immutable() ==> (*old(self) matches DirNode::Tmp(d0) && *final(self)
                matches DirNode::Tmp(d1) && crate::tmpfs::mkdir_post(d0, d1, name@, perm, r)),
    {
        match self {
            DirNode::Module(m) => m.mkdir(name, perm),
            DirNode::SysRoot(s) => s.mkdir(name, perm),
            DirNode::Tmp(d) => d.mkdir(name, perm),
        }
    }

    /// Remove an empty child directory; an immutable backend denies it.
    pub fn rmdir(&mut self, name: &[u8]) -> (r: Result<(), Errno>)
        requires
            old(self).wf(),
        ensures
            final(self).wf(),
            old(self).is_immutable() ==> r == Err::<(), Errno>(Errno::EPERM) && *final(self)
                == *old(self),
            !old(self).is_immutable() ==> (*old(self) matches DirNode::Tmp(d0) && *final(self)
                matches DirNode::Tmp(d1) && crate::tmpfs::rmdir_post(d0, d1, name@, r)),
    {
        match self {
            DirNode::Module(m) => m.rmdir(name),
            DirNode::SysRoot(s) => s.rmdir(name),
            DirNode::Tmp(d) => d.rmdir(name),
        }
    }

    /// Create a child file; an immutable backend denies it.
    pub fn create(&mut self, name: &[u8], perm: Permission) -> (r: Result<(), Errno>)
        requires
            old(self).wf(),
        ensures
            final(self).wf(),
            old(self).is_immutable() ==> r == Err::<(), Errno>(Errno::EPERM) && *final(self)
                == *old(self),
            !old(self).is_immutable() ==> (*old(self) matches DirNode::Tmp(d0) && *final(self)
                matches DirNode::Tmp(d1) && crate::tmpfs::create_post(d0, d1, name@, perm, r)),
    {
        match self {
            DirNode::Module(m) => m.create(name, perm),
            DirNode::SysRoot(s) => s.create(name, perm),
            DirNode::Tmp(d) => d.create(name, perm),
        }
    }

    /// Remove a child file or link; an immutable backend denies it.
    pub fn unlink(&mut self, name: &[u8]) -> (r: Result<(), Errno>)
        requires
            old(self).wf(),
        ensures
            final(self).wf(),
            old(self).is_immutable() ==> r == Err::<(), Errno>(Errno::EPERM) && *final(self)
                == *old(self),
            !old(self).is_immutable() ==> (*old(self) matches DirNode::Tmp(d0) && *final(self)
                matches DirNode::Tmp(d1) && crate::tmpfs::unlink_post(d0, d1, name@, r)),
    {
        match self {
            DirNode::Module(m) => m.unlink(name),
            DirNode::SysRoot(s) => s.unlink(name),
            DirNode::Tmp(d) => d.unlink(name),
        }
    }

    /// Create a child symbolic link; an immutable backend denies it.
    pub fn symlink(&mut self, target: &[u8], name: &[u8]) -> (r: Result<(), Errno>)
        requires
            old(self).wf(),
        ensures
            final(self).wf(),
            old(self).is_immutable() ==> r == Err::<(), Errno>(Errno::EPERM) && *final(self)
                == *old(self),
            !old(self).is_immutable() ==> (*old(self) matches DirNode::Tmp(d0) && *final(self)
                matches DirNode::Tmp(d1) && crate::tmpfs::symlink_post(d0, d1, target@, name@, r)),
    {
        match self {
            DirNode::Module(m) => m.symlink(target, name),
            DirNode::SysRoot(s) => s.symlink(target, name),
            DirNode::Tmp(d) => d.symlink(target, name),
        }
    }
}

impl FileNode {
    /// An equivalent copy of this file inode: a distinct instance of the
    /// same observable shape.
    pub fn duplicate(&self) -> (r: FileNode)
        ensures
            inode_shape(VfsInode::File(r)) == inode_shape(VfsInode::File(*self)),
    {
        match self {
            FileNode::Tmp(f) => FileNode::Tmp(
                TmpFileInode {
                    perm: f.perm,
                    uid: f.uid,
                    gid: f.gid,
                    data: clone_bytes(f.data.as_slice()),
                },
            ),
        }
    }

    /// Open this file: a fresh stream handle over an equivalent inode.
    pub fn open(&self) -> (r: Result<File, Errno>)
        ensures
            match r {
                Ok(f) => inode_shape(f.inode) == inode_shape(VfsInode::File(*self)),
                Err(_) => false,
            },
    {
        Ok(File::new(VfsInode::File(self.duplicate())))
    }
}

impl SymLinkNode {
    /// An equivalent copy of this symbolic-link inode: a distinct instance
    /// of the same observable shape.
    pub fn duplicate(&self) -> (r: SymLinkNode)
        ensures
            inode_shape(VfsInode::SymLink(r)) == inode_shape(VfsInode::SymLink(*self)),
    {
        match self {
            SymLinkNode::Tmp(s) => SymLinkNode::Tmp(
                TmpSymLinkInode {
                    perm: s.perm,
                    uid: s.uid,
                    gid: s.gid,
                    target: clone_bytes(s.target.as_slice()),
                },
            ),
        }
    }

    /// The symbolic-link capability: report the link target.
    pub fn target(&self) -> (r: &Vec<u8>)
        ensures
            *self matches SymLinkNode::Tmp(l) && r@ == l.target@,
    {
        match self {
            SymLinkNode::Tmp(l) => l.target(),
        }
    }
}


/// The shared open-file object that `open` produces and the descriptor
/// table stores.
#[derive(Debug, PartialEq)]
pub struct File {
    pub inode: VfsInode,
}

impl File {
    /// A fresh open-file object over the given inode.
    pub fn new(inode: VfsInode) -> (r: File)
        ensures
            r.inode == inode,
    {
        File { inode }
    }
}

/// The live key set of the loaded-module registry, as the filesystem reads
/// it: the names of the currently loaded modules, each loadable name unique.
/// The registry is owned by the module subsystem; the filesystem only reads
/// the key set.
pub struct ModuleRegistry {
    names: Vec<Vec<u8>>,
}

impl View for ModuleRegistry {
    type V = Seq<Seq<u8>>;

    closed spec fn view(&self) -> Seq<Seq<u8>> {
        self.names.deep_view()
    }
}

impl ModuleRegistry {
    /// The registry never holds duplicate names, nor a name that could not
    /// stand as a directory entry.
    pub open spec fn wf(&self) -> bool {
        &&& forall|i: int, j: int|
            0 <= i < j < self@.len() ==> self@[i] != self@[j]
        &&& forall|i: int| 0 <= i < self@.len() ==> storable_name(#[trigger] self@[i])
    }

    /// An empty registry: no module is loaded.
    pub fn new() -> (r: ModuleRegistry)
        ensures
            r@ =~= Seq::<Seq<u8>>::empty(),
            r.wf(),
    {
        ModuleRegistry { names: Vec::new() }
    }

    /// How many modules are loaded.
    pub fn len(&self) -> (r: usize)
        ensures
            r == self@.len(),
    {
        self.names.len()
    }

    /// The name of the module at position `i`.
    pub fn name_at(&self, i: usize) -> (r: &Vec<u8>)
        requires
            i < self@.len(),
        ensures
            r@ == self@[i as int],
    {
        &self.names[i]
    }

    /// Whether a module of this name is currently loaded.
    pub fn contains(&self, name: &[u8]) -> (r: bool)
        ensures
            r == self@.contains(name@),
    {
        let mut i: usize = 0;
        while i < self.names.len()
            invariant
                i <= self@.len(),
                self@.len() == self.names@.len(),
                self@ == self.names.deep_view(),
                forall|j: int| 0 <= j < i ==> self@[j] != name@,
            decreases self@.len() - i,
        {
            assert(self@[i as int] == self.names@[i as int]@);
            if bytes_eq(self.names[i].as_slice(), name) {
                return true;
            }
            i += 1;
        }
        false
    }

    /// Record that a module was loaded. A name that could not stand as a
    /// directory entry, or that is already loaded, is refused and nothing
    /// changes.
    pub fn load(&mut self, name: Vec<u8>) -> (r: bool)
        requires
            old(self).wf(),
        ensures
            final(self).wf(),
            r == (storable_name(name@) && !old(self)@.contains(name@)),
            r ==> final(self)@ =~= old(self)@.push(name@),
            !r ==> final(self)@ == old(self)@,
    {
        if !is_storable_name(name.as_slice()) || self.contains(name.as_slice()) {
            return false;
        }
        let ghost pre = self@;
        let ghost prev = self.names@;
        self.names.push(name);
        assert forall|i: int| 0 <= i < self@.len() implies self@[i] == pre.push(name@)[i] by {
            assert(self@[i] == self.names@[i].deep_view());
            if i < pre.len() {
                assert(self.names@[i] == prev[i]);
            }
        }
        assert(self@ =~= pre.push(name@));
        assert forall|i: int, j: int| 0 <= i < j < self@.len() implies self@[i] != self@[j] by {
            if j < pre.len() {
            } else {
                assert(self@[j] == name@);
                assert(!pre.contains(self@[i]) ==> true);
            }
        }
        true
    }

    /// Record that a module was unloaded: the first entry of this name, if
    /// any, leaves the key set.
    pub fn unload(&mut self, name: &[u8])
        requires
            old(self).wf(),
        ensures
            final(self).wf(),
            old(self)@.contains(name@) ==> final(self)@ =~= old(self)@.remove(
                old(self)@.index_of(name@),
            ),
            !old(self)@.contains(name@) ==> final(self)@ == old(self)@,
            !final(self)@.contains(name@),
    {
        let ghost pre = self@;
        let mut i: usize = 0;
        while i < self.names.len()
            invariant
                i <= self@.len(),
                self@.len() == self.names@.len(),
                self@ == self.names.deep_view(),
                self@ == pre,
                old(self).wf(),
                self == old(self),
                forall|j: int| 0 <= j < i ==> self@[j] != name@,
            decreases self@.len() - i,
        {
            assert(self@[i as int] == self.names@[i as int]@);
            if bytes_eq(self.names[i].as_slice(), name) {
                assert(pre.contains(name@) && pre.index_of(name@) == i) by {
                    assert(pre[i as int] == name@);
                }
                self.names.remove(i);
                assert(self@ =~= pre.remove(i as int));
                assert forall|k: int| 0 <= k < self@.len() implies self@[k] != name@ by {
                    if k < i {
                    } else {
                        assert(self@[k] == pre[k + 1]);
                    }
                }
                return ;
            }
            i += 1;
        }
        assert(!pre.contains(name@));
    }
}


/// A cached path-segment node: one name bound to one inode within a
/// parent, with the lazily populated cache of child bindings. "." and ".."
/// are never cached; they exist only in enumerations, so the cache graph
/// stays acyclic.
pub struct VfsDirEntry {
    name: Vec<u8>,
    inode: VfsInode,
    children: Vec<VfsDirEntry>,
}

impl VfsDirEntry {
    /// The path-segment name this node caches.
    pub closed spec fn spec_name(self) -> Seq<u8> {
        self.name@
    }

    /// The inode this node binds its name to.
    pub closed spec fn spec_inode(self) -> VfsInode {
        self.inode
    }

    /// The cached child bindings, in insertion order.
    pub closed spec fn spec_children(self) -> Seq<VfsDirEntry> {
        self.children@
    }

    /// Whether a child of this name is cached.
    pub open spec fn has_child(self, name: Seq<u8>) -> bool {
        exists|i: int|
            0 <= i < self.spec_children().len() && (#[trigger] self.spec_children()[i]).spec_name()
                == name
    }

    /// Cached names are storable and unique, recursively down the tree.
    pub closed spec fn wf(self) -> bool
        decreases self,
    {
        &&& forall|i: int, j: int|
            0 <= i < j < self.children@.len() ==> self.children@[i].name@
                != self.children@[j].name@
        &&& forall|i: int|
            0 <= i < self.children@.len() ==> storable_name((#[trigger] self.children@[i]).name@)
        &&& forall|i: int| 0 <= i < self.children@.len() ==> (#[trigger] self.children@[i]).wf()
    }

    /// A fresh node binding `name` to `inode`, with an empty cache.
    pub fn new(name: Vec<u8>, inode: VfsInode) -> (r: VfsDirEntry)
        ensures
            r.spec_name() == name@,
            r.spec_inode() == inode,
            r.spec_children() =~= Seq::<VfsDirEntry>::empty(),
            r.wf(),
    {
        VfsDirEntry { name, inode, children: Vec::new() }
    }

    /// The cached name.
    pub fn name(&self) -> (r: &Vec<u8>)
        ensures
            r@ == self.spec_name(),
    {
        &self.name
    }

    /// The bound inode.
    pub fn inode(&self) -> (r: &VfsInode)
        ensures
            *r == self.spec_inode(),
    {
        &self.inode
    }

    /// Whether this node binds a directory inode, as a downcast would ask.
    pub fn is_dir(&self) -> (r: bool)
        ensures
            r == (self.spec_inode() is Dir),
    {
        match &self.inode {
            VfsInode::Dir(_) => true,
            _ => false,
        }
    }

    /// How many children are cached.
    pub fn child_count(&self) -> (r: usize)
        ensures
            r == self.spec_children().len(),
    {
        self.children.len()
    }

    /// The cached child at a position.
    pub fn child_at(&self, i: usize) -> (r: &VfsDirEntry)
        requires
            i < self.spec_children().len(),
        ensures
            *r == self.spec_children()[i as int],
    {
        &self.children[i]
    }

    /// The cached child at a position, borrowed for mutation in place.
    pub fn child_at_mut(&mut self, i: usize) -> (r: &mut VfsDirEntry)
        requires
            i < old(self).spec_children().len(),
        ensures
            *r == old(self).spec_children()[i as int],
            final(self).spec_children() == old(self).spec_children().update(
                i as int,
                *final(r),
            ),
            final(self).spec_name() == old(self).spec_name(),
            final(self).spec_inode() == old(self).spec_inode(),
    {
        &mut self.children[i]
    }

    /// Find the position of the cached child named `name`.
    fn find_child(&self, name: &[u8]) -> (r: Option<usize>)
        ensures
            match r {
                Some(i) => i < self.spec_children().len() && self.spec_children()[
                    i as int
                ].spec_name() == name@,
                None => !self.has_child(name@),
            },
    {
        let mut i: usize = 0;
        while i < self.children.len()
            invariant
                i <= self.children@.len(),
                forall|j: int|
                    0 <= j < i ==> (#[trigger] self.children@[j]).name@ != name@,
            decreases self.children@.len() - i,
        {
            if bytes_eq(self.children[i].name.as_slice(), name) {
                return Some(i);
            }
            i += 1;
        }
        assert forall|j: int|
            0 <= j < self.spec_children().len() implies (#[trigger] self.spec_children()[
            j
        ]).spec_name() != name@ by {
            assert(self.spec_children()[j] == self.children@[j]);
        }
        None
    }

    /// Resolve one name in this node. A cached child is returned as it
    /// stands; otherwise the directory backend is consulted once, a hit is
    /// cached as a fresh child node, and a failure passes through
    /// unchanged — not-found from the backend, not-a-directory when this
    /// node binds no directory.
    pub fn lookup(&mut self, reg: &ModuleRegistry, name: &[u8]) -> (r: Result<usize, Errno>)
        requires
            old(self).wf(),
            old(self).spec_inode().wf(),
            reg.wf(),
        ensures
            final(self).wf(),
            final(self).spec_name() == old(self).spec_name(),
            final(self).spec_inode() == old(self).spec_inode(),
            match r {
                Ok(idx) => {
                    &&& idx < final(self).spec_children().len()
                    &&& final(self).spec_children()[idx as int].spec_name() == name@
                    &&& if old(self).has_child(name@) {
                        *final(self) == *old(self)
                    } else {
                        &&& idx == old(self).spec_children().len()
                        &&& final(self).spec_children().len() == old(self).spec_children().len()
                            + 1
                        &&& forall|j: int|
                            0 <= j < old(self).spec_children().len() ==> final(self).spec_children()[j] == old(self).spec_children()[j]
                        &&& final(self).spec_children()[idx as int].spec_children().len() == 0
                        &&& (old(self).spec_inode() matches VfsInode::Dir(d)
                            && d.spec_lookup_found(reg@, name@) && inode_shape(
                            final(self).spec_children()[idx as int].spec_inode(),
                        ) == d.spec_lookup_shape(reg@, name@))
                    }
                },
                Err(e) => {
                    &&& *final(self) == *old(self)
                    &&& !old(self).has_child(name@)
                    &&& match old(self).spec_inode() {
                        VfsInode::Dir(d) => e == Errno::ENOENT && !d.spec_lookup_found(
                            reg@,
                            name@,
                        ),
                        _ => e == Errno::ENOTDIR,
                    }
                },
            },
    {
        match self.find_child(name) {
            Some(i) => Ok(i),
            None => {
                let found = match &self.inode {
                    VfsInode::Dir(d) => d.lookup(reg, name),
                    _ => {
                        return Err(Errno::ENOTDIR);
                    },
                };
                match found {
                    Ok(child_inode) => {
                        let ghost pre = self.children@;
                        proof {
                            match old(self).spec_inode() {
                                VfsInode::Dir(d) => {
                                    match d {
                                        DirNode::Module(_) => {
                                            let k = choose|k: int|
                                                0 <= k < reg@.len() && reg@[k] == name@;
                                            assert(storable_name(reg@[k]));
                                        },
                                        DirNode::SysRoot(_) => {
                                            assert(storable_name(modules_name()));
                                        },
                                        DirNode::Tmp(t) => {
                                            let k = choose|k: int|
                                                0 <= k < t@.len() && (#[trigger] t@[k]).0
                                                    == name@;
                                            assert(storable_name(t@[k].0));
                                        },
                                    }
                                },
                                _ => {},
                            }
                            assert(storable_name(name@));
                        }
                        let n = clone_bytes(name);
                        let child = VfsDirEntry {
                            name: n,
                            inode: child_inode,
                            children: Vec::new(),
                        };
                        let idx = self.children.len();
                        self.children.push(child);
                        assert forall|i2: int, j2: int|
                            0 <= i2 < j2 < self.children@.len() implies self.children@[i2].name@
                            != self.children@[j2].name@ by {
                            if j2 < pre.len() {
                                assert(self.children@[i2] == pre[i2]
                                    && self.children@[j2] == pre[j2]);
                            } else {
                                assert(self.children@[j2].name@ == name@);
                                assert(self.children@[i2] == pre[i2]);
                            }
                        }
                        assert forall|i2: int|
                            0 <= i2 < self.children@.len() implies storable_name(
                            (#[trigger] self.children@[i2]).name@,
                        ) && self.children@[i2].wf() by {
                            if i2 < pre.len() {
                                assert(self.children@[i2] == pre[i2]);
                            }
                        }
                        Ok(idx)
                    },
                    Err(e) => Err(e),
                }
            },
        }
    }

    /// Force-evict the cached child named `name`: the binding leaves the
    /// cache if present, and an absent name is silently a no-op. The
    /// backend is never consulted; this is the path external events use.
    pub fn remove_child_force(&mut self, name: &[u8])
        requires
            old(self).wf(),
        ensures
            final(self).wf(),
            final(self).spec_name() == old(self).spec_name(),
            final(self).spec_inode() == old(self).spec_inode(),
            !final(self).has_child(name@),
            old(self).has_child(name@) ==> exists|i: int|
                0 <= i < old(self).spec_children().len() && (#[trigger] old(self).spec_children()[i]).spec_name() == name@ && final(self).spec_children() =~= old(self).spec_children().remove(i),
            !old(self).has_child(name@) ==> *final(self) == *old(self),
    {
        match self.find_child(name) {
            None => {},
            Some(i) => {
                let ghost pre = self.children@;
                self.children.remove(i);
                assert(self.children@ =~= pre.remove(i as int));
                assert forall|i2: int, j2: int|
                    0 <= i2 < j2 < self.children@.len() implies self.children@[i2].name@
                    != self.children@[j2].name@ by {
                    let a = if i2 < i { i2 } else { i2 + 1 };
                    let b = if j2 < i { j2 } else { j2 + 1 };
                    assert(self.children@[i2] == pre[a]);
                    assert(self.children@[j2] == pre[b]);
                }
                assert forall|i2: int|
                    0 <= i2 < self.children@.len() implies storable_name(
                    (#[trigger] self.children@[i2]).name@,
                ) && self.children@[i2].wf() && self.children@[i2].name@ != name@ by {
                    let a = if i2 < i { i2 } else { i2 + 1 };
                    assert(self.children@[i2] == pre[a]);
                    if a != i {
                        if a < i {
                            assert(pre[a].name@ != pre[i as int].name@);
                        } else {
                            assert(pre[i as int].name@ != pre[a].name@);
                        }
                    }
                }
            },
        }
    }
}


/// A well-formed node's cached children are themselves well formed, and
/// each carries a storable name.
pub proof fn lemma_wf_children(e: VfsDirEntry, i: int)
    requires
        e.wf(),
        0 <= i < e.spec_children().len(),
    ensures
        e.spec_children()[i].wf(),
        storable_name(e.spec_children()[i].spec_name()),
{
    assert(e.children@[i].wf());
    assert(storable_name(e.children@[i].name@));
}

/// An inode's shape determines its capability variant: only a directory
/// inode has a directory shape.
pub proof fn lemma_dir_shape_variant(i: VfsInode)
    ensures
        (inode_shape(i) is Dir) == (i is Dir),
{
    match i {
        VfsInode::Dir(_) => {},
        VfsInode::File(FileNode::Tmp(_)) => {},
        VfsInode::SymLink(SymLinkNode::Tmp(_)) => {},
    }
}

/// Mutating one cached child in place preserves a node's well-formedness,
/// provided the child keeps its name and stays well formed itself.
pub proof fn lemma_child_update_keeps_wf(pre: VfsDirEntry, post: VfsDirEntry, i: int)
    requires
        pre.wf(),
        0 <= i < pre.spec_children().len(),
        post.spec_name() == pre.spec_name(),
        post.spec_inode() == pre.spec_inode(),
        post.spec_children() == pre.spec_children().update(i, post.spec_children()[i]),
        post.spec_children()[i].wf(),
        post.spec_children()[i].spec_name() == pre.spec_children()[i].spec_name(),
    ensures
        post.wf(),
{
    assert(post.spec_children().len() == pre.spec_children().len());
    assert forall|a: int, b: int|
        0 <= a < b < post.children@.len() implies post.children@[a].name@
        != post.children@[b].name@ by {
        assert(pre.children@[a].name@ != pre.children@[b].name@);
        assert(post.children@[a].name@ == pre.children@[a].name@);
        assert(post.children@[b].name@ == pre.children@[b].name@);
    }
    assert forall|a: int|
        0 <= a < post.children@.len() implies storable_name(
        (#[trigger] post.children@[a]).name@,
    ) && post.children@[a].wf() by {
        if a != i {
            assert(post.children@[a] == pre.children@[a]);
        }
        assert(post.children@[a].name@ == pre.children@[a].name@);
    }
}

} // verus!

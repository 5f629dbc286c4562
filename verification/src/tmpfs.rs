use vstd::prelude::*;

use crate::errno::Errno;
use crate::vfs::{
    storable_name, DirNode, Permission, RawStat, TimeSpec, VfsInode, FILE_TYPE_DIR,
    FILE_TYPE_REG, FILE_TYPE_SYMLINK,
};

verus! {

/// A directory enumeration handle: the finite, restartable sequence of
/// (type tag, name) entries a backend materialized at open time.
#[derive(Debug, PartialEq)]
pub struct TmpDir {
    entries: Vec<(u8, Vec<u8>)>,
    pos: usize,
}

impl View for TmpDir {
    type V = Seq<(u8, Seq<u8>)>;

    closed spec fn view(&self) -> Seq<(u8, Seq<u8>)> {
        Seq::new(self.entries@.len(), |i: int| (self.entries@[i].0, self.entries@[i].1@))
    }
}

impl TmpDir {
    /// How far the enumeration has advanced.
    pub closed spec fn spec_pos(&self) -> int {
        self.pos as int
    }

    /// The cursor never passes the end of the entry sequence.
    pub open spec fn wf(&self) -> bool {
        self.spec_pos() <= self@.len()
    }

    /// A handle over the given materialized entries, rewound to the start.
    pub fn new(v: Vec<(u8, Vec<u8>)>) -> (r: TmpDir)
        ensures
            r@.len() == v@.len(),
            forall|i: int|
                0 <= i < v@.len() ==> (#[trigger] r@[i]).0 == v@[i].0 && r@[i].1 == v@[i].1@,
            r.spec_pos() == 0,
            r.wf(),
    {
        TmpDir { entries: v, pos: 0 }
    }

    /// How many entries the handle holds.
    pub fn len(&self) -> (r: usize)
        ensures
            r == self@.len(),
    {
        self.entries.len()
    }

    /// The entry at position `i`, independent of the cursor.
    pub fn entry_at(&self, i: usize) -> (r: &(u8, Vec<u8>))
        requires
            i < self@.len(),
        ensures
            r.0 == self@[i as int].0 && r.1@ == self@[i as int].1,
    {
        &self.entries[i]
    }

    /// Yield the next entry and advance, or report the end.
    pub fn next(&mut self) -> (r: Option<(u8, Vec<u8>)>)
        requires
            old(self).wf(),
        ensures
            final(self).wf(),
            final(self)@ == old(self)@,
            match r {
                Some(e) => old(self).spec_pos() < old(self)@.len() && e.0 == old(self)@[old(self).spec_pos()].0 && e.1@ == old(self)@[old(self).spec_pos()].1 && final(self).spec_pos() == old(self).spec_pos() + 1,
                None => old(self).spec_pos() == old(self)@.len() && final(self).spec_pos() == old(self).spec_pos(),
            },
    {
        if self.pos < self.entries.len() {
            let tag = self.entries[self.pos].0;
            let name = crate::vfs::clone_bytes(self.entries[self.pos].1.as_slice());
            self.pos = self.pos + 1;
            Some((tag, name))
        } else {
            None
        }
    }

    /// Restart the enumeration from the beginning.
    pub fn rewind(&mut self)
        ensures
            final(self)@ == old(self)@,
            final(self).spec_pos() == 0,
            final(self).wf(),
    {
        self.pos = 0;
    }
}

/// The observable shapes of the children of an in-memory directory, in
/// storage order.
pub closed spec fn tmp_entries_shape(d: TmpDirInode) -> Seq<(Seq<u8>, crate::vfs::InodeShape)>
    decreases d,
{
    Seq::new(
        d.entries@.len(),
        |i: int|
            if 0 <= i < d.entries@.len() {
                (d.entries@[i].0@, crate::vfs::inode_shape(d.entries@[i].1))
            } else {
                (Seq::empty(), crate::vfs::InodeShape::Dir(crate::vfs::DirShape::Module))
            },
    )
}

/// The listing an in-memory directory enumerates: each stored child under
/// its own type tag, then the synthesized "." and "..".
pub open spec fn tmp_dir_listing(d: TmpDirInode) -> Seq<(u8, Seq<u8>)> {
    Seq::new(d@.len(), |i: int| (crate::vfs::spec_file_type_of(d@[i].1), d@[i].0)).push(
        (FILE_TYPE_DIR, crate::vfs::dot()),
    ).push((FILE_TYPE_DIR, crate::vfs::dotdot()))
}

/// The position of the child named `name`, where one exists.
pub open spec fn tmp_index_of(d: TmpDirInode, name: Seq<u8>) -> int {
    choose|i: int| 0 <= i < d@.len() && (#[trigger] d@[i]).0 == name
}

/// The observable shape of the child named `name`, where one exists.
pub open spec fn tmp_lookup_shape(d: TmpDirInode, name: Seq<u8>) -> crate::vfs::InodeShape {
    crate::vfs::inode_shape(d@[tmp_index_of(d, name)].1)
}

/// An in-memory directory with no stored children has no child shapes.
pub proof fn lemma_empty_dir_shape(d: TmpDirInode)
    requires
        d@.len() == 0,
    ensures
        tmp_entries_shape(d) =~= Seq::<(Seq<u8>, crate::vfs::InodeShape)>::empty(),
{
    assert(d.entries@.len() == d@.len());
}

/// What creating a child directory leaves behind: a name that is already
/// present — or that could not be stored, like "." or ".." — is refused
/// with already-exists and nothing changes; otherwise one fresh empty
/// directory with the asked permission is appended under that name.
pub open spec fn mkdir_post(
    pre: TmpDirInode,
    post: TmpDirInode,
    name: Seq<u8>,
    perm: Permission,
    r: Result<(), Errno>,
) -> bool {
    &&& post.wf()
    &&& (!storable_name(name) || pre.contains_name(name) ==> r == Err::<(), Errno>(Errno::EEXIST)
        && post == pre)
    &&& (storable_name(name) && !pre.contains_name(name) ==> r == Ok::<(), Errno>(())
        && post@.len() == pre@.len() + 1 && post@.subrange(0, pre@.len() as int) =~= pre@
        && post@.last().0 == name && (post@.last().1 matches VfsInode::Dir(DirNode::Tmp(d))
        && d.perm == perm && d.uid == pre.uid && d.gid == pre.gid && d@.len() == 0) && post.perm
        == pre.perm && post.uid == pre.uid && post.gid == pre.gid)
}

/// What creating a child file leaves behind, under the same refusal rule
/// as `mkdir_post`: on success one fresh empty file is appended.
pub open spec fn create_post(
    pre: TmpDirInode,
    post: TmpDirInode,
    name: Seq<u8>,
    perm: Permission,
    r: Result<(), Errno>,
) -> bool {
    &&& post.wf()
    &&& (!storable_name(name) || pre.contains_name(name) ==> r == Err::<(), Errno>(Errno::EEXIST)
        && post == pre)
    &&& (storable_name(name) && !pre.contains_name(name) ==> r == Ok::<(), Errno>(())
        && post@.len() == pre@.len() + 1 && post@.subrange(0, pre@.len() as int) =~= pre@
        && post@.last().0 == name && (post@.last().1 matches VfsInode::File(
        crate::vfs::FileNode::Tmp(f),
    ) && f.perm == perm && f.uid == pre.uid && f.gid == pre.gid && f.data@.len() == 0)
        && post.perm == pre.perm && post.uid == pre.uid && post.gid == pre.gid)
}

/// What creating a child symbolic link leaves behind, under the same
/// refusal rule as `mkdir_post`: on success one fresh link to `target` is
/// appended.
pub open spec fn symlink_post(
    pre: TmpDirInode,
    post: TmpDirInode,
    target: Seq<u8>,
    name: Seq<u8>,
    r: Result<(), Errno>,
) -> bool {
    &&& post.wf()
    &&& (!storable_name(name) || pre.contains_name(name) ==> r == Err::<(), Errno>(Errno::EEXIST)
        && post == pre)
    &&& (storable_name(name) && !pre.contains_name(name) ==> r == Ok::<(), Errno>(())
        && post@.len() == pre@.len() + 1 && post@.subrange(0, pre@.len() as int) =~= pre@
        && post@.last().0 == name && (post@.last().1 matches VfsInode::SymLink(
        crate::vfs::SymLinkNode::Tmp(s),
    ) && s.perm == (Permission { bits: 0o777 }) && s.uid == pre.uid && s.gid == pre.gid
        && s.target@ == target) && post.perm == pre.perm && post.uid == pre.uid && post.gid
        == pre.gid)
}

/// What removing a child file or link leaves behind: absent names are
/// not-found, a directory child is refused with permission-denied, and on
/// success exactly the named binding is gone.
pub open spec fn unlink_post(
    pre: TmpDirInode,
    post: TmpDirInode,
    name: Seq<u8>,
    r: Result<(), Errno>,
) -> bool {
    &&& post.wf()
    &&& match r {
        Ok(()) => exists|i: int|
            0 <= i < pre@.len() && (#[trigger] pre@[i]).0 == name && !(pre@[i].1 is Dir)
                && post@ =~= pre@.remove(i) && post.perm == pre.perm && post.uid == pre.uid
                && post.gid == pre.gid,
        Err(e) => post == pre && (if !pre.contains_name(name) {
            e == Errno::ENOENT
        } else {
            e == Errno::EPERM && exists|i: int|
                0 <= i < pre@.len() && (#[trigger] pre@[i]).0 == name && pre@[i].1 is Dir
        }),
    }
}

/// What removing a child directory leaves behind: absent names are
/// not-found, a non-directory child is refused, a non-empty one is refused
/// with not-empty, and on success exactly the named binding is gone.
pub open spec fn rmdir_post(
    pre: TmpDirInode,
    post: TmpDirInode,
    name: Seq<u8>,
    r: Result<(), Errno>,
) -> bool {
    &&& post.wf()
    &&& match r {
        Ok(()) => exists|i: int|
            {
                &&& 0 <= i < pre@.len()
                &&& (#[trigger] pre@[i]).0 == name
                &&& pre@[i].1 matches VfsInode::Dir(DirNode::Tmp(d)) && d@.len() == 0
                &&& post@ =~= pre@.remove(i)
                &&& post.perm == pre.perm
                &&& post.uid == pre.uid
                &&& post.gid == pre.gid
            },
        Err(e) => post == pre && (if !pre.contains_name(name) {
            e == Errno::ENOENT
        } else {
            exists|i: int|
                {
                    &&& 0 <= i < pre@.len()
                    &&& (#[trigger] pre@[i]).0 == name
                    &&& match pre@[i].1 {
                        VfsInode::Dir(DirNode::Tmp(d)) => e == Errno::ENOTEMPTY && d@.len() > 0,
                        VfsInode::Dir(_) => e == Errno::EPERM,
                        _ => e == Errno::ENOTDIR,
                    }
                }
        }),
    }
}

/// Removing one child keeps the remaining names unique and storable.
proof fn lemma_remove_keeps_wf(
    pre: Seq<(Seq<u8>, VfsInode)>,
    k: int,
    post: Seq<(Seq<u8>, VfsInode)>,
)
    requires
        0 <= k < pre.len(),
        post =~= pre.remove(k),
        forall|i: int, j: int| 0 <= i < j < pre.len() ==> pre[i].0 != pre[j].0,
        forall|i: int| 0 <= i < pre.len() ==> storable_name((#[trigger] pre[i]).0),
    ensures
        forall|i: int, j: int| 0 <= i < j < post.len() ==> post[i].0 != post[j].0,
        forall|i: int| 0 <= i < post.len() ==> storable_name((#[trigger] post[i]).0),
{
    assert forall|i: int, j: int| 0 <= i < j < post.len() implies post[i].0 != post[j].0 by {
        let a = if i < k {
            i
        } else {
            i + 1
        };
        let b = if j < k {
            j
        } else {
            j + 1
        };
        assert(post[i] == pre[a]);
        assert(post[j] == pre[b]);
    }
    assert forall|i: int| 0 <= i < post.len() implies storable_name((#[trigger] post[i]).0) by {
        let a = if i < k {
            i
        } else {
            i + 1
        };
        assert(post[i] == pre[a]);
    }
}

/// A regular file of the in-memory read-write tree: metadata and content.
#[derive(Debug, PartialEq)]
pub struct TmpFileInode {
    pub perm: Permission,
    pub uid: usize,
    pub gid: usize,
    pub data: Vec<u8>,
}

impl TmpFileInode {
    /// A fresh empty file with the given permission and ownership.
    pub fn new(perm: Permission, uid: usize, gid: usize) -> (r: TmpFileInode)
        ensures
            r.perm == perm && r.uid == uid && r.gid == gid && r.data@ == Seq::<u8>::empty(),
    {
        TmpFileInode { perm, uid, gid, data: Vec::new() }
    }

    /// The attribute snapshot this file reports.
    pub open spec fn spec_stat(&self) -> RawStat {
        RawStat {
            perm: self.perm.bits,
            uid: self.uid,
            gid: self.gid,
            size: self.data@.len() as usize,
            file_type: FILE_TYPE_REG,
            access_time: TimeSpec { sec: 0, nsec: 0 },
            modify_time: TimeSpec { sec: 0, nsec: 0 },
            change_time: TimeSpec { sec: 0, nsec: 0 },
        }
    }

    /// The attribute snapshot of this file.
    pub fn stat(&self) -> (r: Result<RawStat, Errno>)
        ensures
            r == Ok::<RawStat, Errno>(self.spec_stat()),
    {
        Ok(RawStat {
            perm: self.perm.bits,
            uid: self.uid,
            gid: self.gid,
            size: self.data.len(),
            file_type: FILE_TYPE_REG,
            access_time: TimeSpec::zero(),
            modify_time: TimeSpec::zero(),
            change_time: TimeSpec::zero(),
        })
    }

    /// Change the owner of this file.
    pub fn chown(&mut self, owner: usize, group: usize) -> (r: Result<(), Errno>)
        ensures
            r == Ok::<(), Errno>(()),
            *final(self) == (TmpFileInode { uid: owner, gid: group, ..*old(self) }),
    {
        self.uid = owner;
        self.gid = group;
        Ok(())
    }

    /// Change the permission bits of this file.
    pub fn chmod(&mut self, perm: Permission) -> (r: Result<(), Errno>)
        ensures
            r == Ok::<(), Errno>(()),
            *final(self) == (TmpFileInode { perm, ..*old(self) }),
    {
        self.perm = perm;
        Ok(())
    }
}


/// A symbolic link of the in-memory tree: metadata and the link target.
#[derive(Debug, PartialEq)]
pub struct TmpSymLinkInode {
    pub perm: Permission,
    pub uid: usize,
    pub gid: usize,
    pub target: Vec<u8>,
}

impl TmpSymLinkInode {
    /// A fresh link pointing at `target`.
    pub fn new(perm: Permission, uid: usize, gid: usize, target: Vec<u8>) -> (r: TmpSymLinkInode)
        ensures
            r.perm == perm && r.uid == uid && r.gid == gid && r.target@ == target@,
    {
        TmpSymLinkInode { perm, uid, gid, target }
    }

    /// Report the link target.
    pub fn target(&self) -> (r: &Vec<u8>)
        ensures
            r@ == self.target@,
    {
        &self.target
    }

    /// The attribute snapshot this link reports.
    pub open spec fn spec_stat(&self) -> RawStat {
        RawStat {
            perm: self.perm.bits,
            uid: self.uid,
            gid: self.gid,
            size: self.target@.len() as usize,
            file_type: FILE_TYPE_SYMLINK,
            access_time: TimeSpec { sec: 0, nsec: 0 },
            modify_time: TimeSpec { sec: 0, nsec: 0 },
            change_time: TimeSpec { sec: 0, nsec: 0 },
        }
    }

    /// The attribute snapshot of this link.
    pub fn stat(&self) -> (r: Result<RawStat, Errno>)
        ensures
            r == Ok::<RawStat, Errno>(self.spec_stat()),
    {
        Ok(RawStat {
            perm: self.perm.bits,
            uid: self.uid,
            gid: self.gid,
            size: self.target.len(),
            file_type: FILE_TYPE_SYMLINK,
            access_time: TimeSpec::zero(),
            modify_time: TimeSpec::zero(),
            change_time: TimeSpec::zero(),
        })
    }

    /// Change the owner of this link.
    pub fn chown(&mut self, owner: usize, group: usize) -> (r: Result<(), Errno>)
        ensures
            r == Ok::<(), Errno>(()),
            *final(self) == (TmpSymLinkInode { uid: owner, gid: group, ..*old(self) }),
    {
        self.uid = owner;
        self.gid = group;
        Ok(())
    }

    /// Change the permission bits of this link.
    pub fn chmod(&mut self, perm: Permission) -> (r: Result<(), Errno>)
        ensures
            r == Ok::<(), Errno>(()),
            *final(self) == (TmpSymLinkInode { perm, ..*old(self) }),
    {
        self.perm = perm;
        Ok(())
    }
}


/// A directory of the in-memory read-write tree: metadata and the direct
/// children, each a name bound to an inode. "." and ".." are never stored;
/// they are synthesized only when the directory is enumerated.
#[derive(Debug, PartialEq)]
pub struct TmpDirInode {
    pub perm: Permission,
    pub uid: usize,
    pub gid: usize,
    pub entries: Vec<(Vec<u8>, VfsInode)>,
}

impl View for TmpDirInode {
    type V = Seq<(Seq<u8>, VfsInode)>;

    closed spec fn view(&self) -> Seq<(Seq<u8>, VfsInode)> {
        Seq::new(self.entries@.len(), |i: int| (self.entries@[i].0@, self.entries@[i].1))
    }
}

impl TmpDirInode {
    /// The direct children hold storable names only, each name at most once.
    pub open spec fn wf(&self) -> bool {
        &&& forall|i: int, j: int| 0 <= i < j < self@.len() ==> self@[i].0 != self@[j].0
        &&& forall|i: int| 0 <= i < self@.len() ==> storable_name((#[trigger] self@[i]).0)
    }

    /// Whether a direct child of this name exists.
    pub open spec fn contains_name(&self, name: Seq<u8>) -> bool {
        exists|i: int| 0 <= i < self@.len() && (#[trigger] self@[i]).0 == name
    }

    /// A fresh empty directory with the given permission and ownership.
    pub fn new(perm: Permission, uid: usize, gid: usize) -> (r: TmpDirInode)
        ensures
            r.perm == perm && r.uid == uid && r.gid == gid,
            r@ =~= Seq::<(Seq<u8>, VfsInode)>::empty(),
            r.wf(),
    {
        TmpDirInode { perm, uid, gid, entries: Vec::new() }
    }

    /// An equivalent copy of this directory: a distinct instance whose
    /// observable shape — metadata, child names in order, child shapes —
    /// is the same.
    pub fn duplicate(&self) -> (r: TmpDirInode)
        ensures
            r.perm == self.perm && r.uid == self.uid && r.gid == self.gid,
            r@.len() == self@.len(),
            forall|i: int| 0 <= i < self@.len() ==> (#[trigger] r@[i]).0 == self@[i].0,
            tmp_entries_shape(r) == tmp_entries_shape(*self),
        decreases *self,
    {
        let mut entries: Vec<(Vec<u8>, VfsInode)> = Vec::new();
        let mut i: usize = 0;
        while i < self.entries.len()
            invariant
                i <= self.entries@.len(),
                entries@.len() == i,
                forall|j: int|
                    0 <= j < i ==> (#[trigger] entries@[j]).0@ == self.entries@[j].0@
                        && crate::vfs::inode_shape(entries@[j].1) == crate::vfs::inode_shape(
                        self.entries@[j].1,
                    ),
            decreases self.entries@.len() - i,
    {
            let name = crate::vfs::clone_bytes(self.entries[i].0.as_slice());
            proof {
                assert(decreases_to!(*self => self.entries@[i as int].1));
            }
            let child = self.entries[i].1.duplicate();
            entries.push((name, child));
            i += 1;
        }
        let r = TmpDirInode { perm: self.perm, uid: self.uid, gid: self.gid, entries };
        assert(tmp_entries_shape(r) =~= tmp_entries_shape(*self));
        assert forall|i2: int| 0 <= i2 < self@.len() implies (#[trigger] r@[i2]).0 == self@[
            i2
        ].0 by {
            assert(r@[i2].0 == r.entries@[i2].0@);
        }
        r
    }

    /// Enumerate this directory: a snapshot of the stored children, each
    /// under its type tag, plus the synthesized "." and "..".
    pub fn open(&self) -> (r: Result<TmpDir, Errno>)
        ensures
            match r {
                Ok(h) => h@ =~= tmp_dir_listing(*self) && h.spec_pos() == 0,
                Err(_) => false,
            },
    {
        let mut v: Vec<(u8, Vec<u8>)> = Vec::new();
        let mut i: usize = 0;
        while i < self.entries.len()
            invariant
                i <= self.entries@.len(),
                v@.len() == i,
                forall|j: int|
                    0 <= j < i ==> (#[trigger] v@[j]).0 == crate::vfs::spec_file_type_of(
                        self.entries@[j].1,
                    ) && v@[j].1@ == self.entries@[j].0@,
            decreases self.entries@.len() - i,
        {
            let tag = self.entries[i].1.file_type();
            let name = crate::vfs::clone_bytes(self.entries[i].0.as_slice());
            v.push((tag, name));
            i += 1;
        }
        v.push((FILE_TYPE_DIR, crate::vfs::dot_name()));
        v.push((FILE_TYPE_DIR, crate::vfs::dotdot_name()));
        let h = TmpDir::new(v);
        assert(h@ =~= tmp_dir_listing(*self)) by {
            assert forall|j: int| 0 <= j < h@.len() implies h@[j] == tmp_dir_listing(*self)[j] by {
                if j < self@.len() {
                    assert(self@[j] == (self.entries@[j].0@, self.entries@[j].1));
                }
            }
        }
        Ok(h)
    }

    /// Find the position of the direct child named `name`.
    fn find_entry(&self, name: &[u8]) -> (r: Option<usize>)
        ensures
            match r {
                Some(i) => i < self@.len() && self@[i as int].0 == name@,
                None => !self.contains_name(name@),
            },
    {
        let mut i: usize = 0;
        while i < self.entries.len()
            invariant
                i <= self@.len(),
                self@.len() == self.entries@.len(),
                forall|j: int| 0 <= j < i ==> (#[trigger] self@[j]).0 != name@,
            decreases self@.len() - i,
        {
            assert(self@[i as int].0 == self.entries@[i as int].0@);
            if crate::vfs::bytes_eq(self.entries[i].0.as_slice(), name) {
                return Some(i);
            }
            i += 1;
        }
        None
    }

    /// The attribute snapshot of this directory.
    pub fn stat(&self) -> (r: Result<RawStat, Errno>)
        ensures
            r == Ok::<RawStat, Errno>(self.spec_stat()),
    {
        Ok(RawStat {
            perm: self.perm.bits,
            uid: self.uid,
            gid: self.gid,
            size: 0,
            file_type: FILE_TYPE_DIR,
            access_time: TimeSpec::zero(),
            modify_time: TimeSpec::zero(),
            change_time: TimeSpec::zero(),
        })
    }

    /// The attribute snapshot this directory reports.
    pub open spec fn spec_stat(&self) -> RawStat {
        RawStat {
            perm: self.perm.bits,
            uid: self.uid,
            gid: self.gid,
            size: 0,
            file_type: FILE_TYPE_DIR,
            access_time: TimeSpec { sec: 0, nsec: 0 },
            modify_time: TimeSpec { sec: 0, nsec: 0 },
            change_time: TimeSpec { sec: 0, nsec: 0 },
        }
    }

    /// Change the owner of this directory.
    pub fn chown(&mut self, owner: usize, group: usize) -> (r: Result<(), Errno>)
        ensures
            r == Ok::<(), Errno>(()),
            *final(self) == (TmpDirInode { uid: owner, gid: group, ..*old(self) }),
    {
        self.uid = owner;
        self.gid = group;
        Ok(())
    }

    /// Change the permission bits of this directory.
    pub fn chmod(&mut self, perm: Permission) -> (r: Result<(), Errno>)
        ensures
            r == Ok::<(), Errno>(()),
            *final(self) == (TmpDirInode { perm, ..*old(self) }),
    {
        self.perm = perm;
        Ok(())
    }

    /// Look a direct child up by name: the stored inode, or not-found.
    pub fn lookup(&self, name: &[u8]) -> (r: Result<&VfsInode, Errno>)
        ensures
            match r {
                Ok(inode) => exists|i: int|
                    0 <= i < self@.len() && (#[trigger] self@[i]).0 == name@ && self@[i].1
                        == *inode,
                Err(e) => e == Errno::ENOENT && !self.contains_name(name@),
            },
    {
        match self.find_entry(name) {
            Some(i) => Ok(&self.entries[i].1),
            None => Err(Errno::ENOENT),
        }
    }

    /// Create an empty child directory. A name that already exists — or that
    /// could not be stored, like "." or ".." — is refused with already-exists
    /// and nothing changes.
    pub fn mkdir(&mut self, name: &[u8], perm: Permission) -> (r: Result<(), Errno>)
        requires
            old(self).wf(),
        ensures
            mkdir_post(*old(self), *final(self), name@, perm, r),
    {
        let child = TmpDirInode { perm, uid: self.uid, gid: self.gid, entries: Vec::new() };
        assert(child@.len() == 0);
        self.insert_child(name, VfsInode::Dir(DirNode::Tmp(child)))
    }

    /// Create an empty child file, under the same refusal rule as `mkdir`.
    pub fn create(&mut self, name: &[u8], perm: Permission) -> (r: Result<(), Errno>)
        requires
            old(self).wf(),
        ensures
            create_post(*old(self), *final(self), name@, perm, r),
    {
        let child = TmpFileInode { perm, uid: self.uid, gid: self.gid, data: Vec::new() };
        self.insert_child(name, VfsInode::File(crate::vfs::FileNode::Tmp(child)))
    }

    /// Create a child symbolic link pointing at `target`, under the same
    /// refusal rule as `mkdir`.
    pub fn symlink(&mut self, target: &[u8], name: &[u8]) -> (r: Result<(), Errno>)
        requires
            old(self).wf(),
        ensures
            symlink_post(*old(self), *final(self), target@, name@, r),
    {
        let t = crate::vfs::clone_bytes(target);
        let child = TmpSymLinkInode {
            perm: Permission { bits: 0o777 },
            uid: self.uid,
            gid: self.gid,
            target: t,
        };
        self.insert_child(name, VfsInode::SymLink(crate::vfs::SymLinkNode::Tmp(child)))
    }

    /// Insert one child binding, refusing an unstorable or duplicate name.
    fn insert_child(&mut self, name: &[u8], inode: VfsInode) -> (r: Result<(), Errno>)
        requires
            old(self).wf(),
        ensures
            final(self).wf(),
            !storable_name(name@) || old(self).contains_name(name@) ==> r == Err::<(), Errno>(
                Errno::EEXIST,
            ) && *final(self) == *old(self),
            storable_name(name@) && !old(self).contains_name(name@) ==> r == Ok::<(), Errno>(())
                && final(self)@ =~= old(self)@.push((name@, inode)) && final(self).perm == old(self).perm && final(self).uid == old(self).uid && final(self).gid == old(self).gid,
    {
        if !crate::vfs::is_storable_name(name) {
            return Err(Errno::EEXIST);
        }
        match self.find_entry(name) {
            Some(_) => Err(Errno::EEXIST),
            None => {
                let ghost pre = self@;
                let n = crate::vfs::clone_bytes(name);
                self.entries.push((n, inode));
                assert(self@ =~= pre.push((name@, inode)));
                assert forall|i: int, j: int|
                    0 <= i < j < self@.len() implies self@[i].0 != self@[j].0 by {
                    if j < pre.len() {
                        assert(self@[i] == pre[i] && self@[j] == pre[j]);
                    } else {
                        assert(self@[j].0 == name@);
                        assert(self@[i] == pre[i]);
                    }
                }
                assert forall|i: int| 0 <= i < self@.len() implies storable_name(
                    (#[trigger] self@[i]).0,
                ) by {
                    if i < pre.len() {
                        assert(self@[i] == pre[i]);
                    }
                }
                Ok(())
            },
        }
    }

    /// Remove the child file or link named `name`: not-found if absent,
    /// permission-denied if the child is a directory.
    pub fn unlink(&mut self, name: &[u8]) -> (r: Result<(), Errno>)
        requires
            old(self).wf(),
        ensures
            unlink_post(*old(self), *final(self), name@, r),
    {
        match self.find_entry(name) {
            None => Err(Errno::ENOENT),
            Some(i) => {
                match &self.entries[i].1 {
                    VfsInode::Dir(_) => Err(Errno::EPERM),
                    _ => {
                        let ghost pre = self@;
                        self.entries.remove(i);
                        assert(self@ =~= pre.remove(i as int));
                        proof {
                            lemma_remove_keeps_wf(pre, i as int, self@);
                        }
                        Ok(())
                    },
                }
            },
        }
    }

    /// Remove the empty child directory named `name`: not-found if absent,
    /// not-a-directory if the child is no directory, not-empty if it still
    /// has children, permission-denied if the child directory is not part of
    /// this writable tree.
    pub fn rmdir(&mut self, name: &[u8]) -> (r: Result<(), Errno>)
        requires
            old(self).wf(),
        ensures
            rmdir_post(*old(self), *final(self), name@, r),
    {
        match self.find_entry(name) {
            None => Err(Errno::ENOENT),
            Some(i) => {
                match &self.entries[i].1 {
                    VfsInode::Dir(DirNode::Tmp(d)) => {
                        if d.entries.len() == 0 {
                            let ghost pre = self@;
                            assert(self@[i as int].1 matches VfsInode::Dir(DirNode::Tmp(c))
                                && c@.len() == 0);
                            self.entries.remove(i);
                            assert(self@ =~= pre.remove(i as int));
                            proof {
                                lemma_remove_keeps_wf(pre, i as int, self@);
                            }
                            Ok(())
                        } else {
                            Err(Errno::ENOTEMPTY)
                        }
                    },
                    VfsInode::Dir(_) => Err(Errno::EPERM),
                    _ => Err(Errno::ENOTDIR),
                }
            },
        }
    }
}

} // verus!

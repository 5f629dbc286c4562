use vstd::prelude::*;

use crate::errno::Errno;
use crate::tmpfs::{TmpDir, TmpDirInode};
use crate::vfs::{
    dot, dotdot, modules_name, modules_name_vec, DirNode, ModuleRegistry, Permission, RawStat,
    TimeSpec, VfsInode, FILE_TYPE_DIR,
};

verus! {

/// The attribute snapshot the module-projection directory reports: an
/// owner-searchable read-only directory owned by root, with no clock.
pub open spec fn module_dir_stat() -> RawStat {
    RawStat {
        perm: 0o500,
        uid: 0,
        gid: 0,
        size: 0,
        file_type: FILE_TYPE_DIR,
        access_time: TimeSpec { sec: 0, nsec: 0 },
        modify_time: TimeSpec { sec: 0, nsec: 0 },
        change_time: TimeSpec { sec: 0, nsec: 0 },
    }
}

/// The attribute snapshot the synthetic root directory reports.
pub open spec fn sys_root_stat() -> RawStat {
    RawStat {
        perm: 0o555,
        uid: 0,
        gid: 0,
        size: 0,
        file_type: FILE_TYPE_DIR,
        access_time: TimeSpec { sec: 0, nsec: 0 },
        modify_time: TimeSpec { sec: 0, nsec: 0 },
        change_time: TimeSpec { sec: 0, nsec: 0 },
    }
}

/// The listing the module-projection directory enumerates under a given
/// registry key set: one directory entry per loaded module, then the
/// synthesized "." and "..".
pub open spec fn module_dir_listing(reg: Seq<Seq<u8>>) -> Seq<(u8, Seq<u8>)> {
    Seq::new(reg.len(), |i: int| (FILE_TYPE_DIR, reg[i])).push((FILE_TYPE_DIR, dot())).push(
        (FILE_TYPE_DIR, dotdot()),
    )
}

/// The listing of the synthetic root: the "modules" projection, then the
/// synthesized "." and "..".
pub open spec fn sys_root_listing() -> Seq<(u8, Seq<u8>)> {
    seq![
        (FILE_TYPE_DIR, modules_name()),
        (FILE_TYPE_DIR, dot()),
        (FILE_TYPE_DIR, dotdot()),
    ]
}

/// The read-only projection of the loaded-module registry as a directory.
/// It owns no state: every read consults the live registry.
#[derive(Debug, PartialEq)]
pub struct ModuleDirInode;

impl ModuleDirInode {
    /// A fresh handle on the projection.
    pub fn new() -> (r: ModuleDirInode)
        ensures
            r == ModuleDirInode,
    {
        ModuleDirInode
    }

    /// The attribute snapshot of the projection directory.
    pub fn stat(&self) -> (r: Result<RawStat, Errno>)
        ensures
            r == Ok::<RawStat, Errno>(module_dir_stat()),
    {
        Ok(RawStat {
            perm: 0o500,
            uid: 0,
            gid: 0,
            size: 0,
            file_type: FILE_TYPE_DIR,
            access_time: TimeSpec::zero(),
            modify_time: TimeSpec::zero(),
            change_time: TimeSpec::zero(),
        })
    }

    /// The projection is immutable: changing its owner is denied.
    pub fn chown(&self, owner: usize, group: usize) -> (r: Result<(), Errno>)
        ensures
            r == Err::<(), Errno>(Errno::EPERM),
    {
        Err(Errno::EPERM)
    }

    /// The projection is immutable: changing its permission bits is denied.
    pub fn chmod(&self, perm: Permission) -> (r: Result<(), Errno>)
        ensures
            r == Err::<(), Errno>(Errno::EPERM),
    {
        Err(Errno::EPERM)
    }

    /// Enumerate the projection: a snapshot of the registry key set taken at
    /// call time, each module a directory entry, plus "." and "..".
    pub fn open(&self, reg: &ModuleRegistry) -> (r: Result<TmpDir, Errno>)
        ensures
            match r {
                Ok(h) => h@ =~= module_dir_listing(reg@) && h.spec_pos() == 0,
                Err(_) => false,
            },
    {
        let mut v: Vec<(u8, Vec<u8>)> = Vec::new();
        let mut i: usize = 0;
        while i < reg.len()
            invariant
                i <= reg@.len(),
                v@.len() == i,
                forall|j: int|
                    0 <= j < i ==> (#[trigger] v@[j]).0 == FILE_TYPE_DIR && v@[j].1@ == reg@[j],
            decreases reg@.len() - i,
        {
            let name = crate::vfs::clone_bytes(reg.name_at(i).as_slice());
            v.push((FILE_TYPE_DIR, name));
            i += 1;
        }
        v.push((FILE_TYPE_DIR, crate::vfs::dot_name()));
        v.push((FILE_TYPE_DIR, crate::vfs::dotdot_name()));
        let h = TmpDir::new(v);
        assert(h@ =~= module_dir_listing(reg@));
        Ok(h)
    }

    /// Look a name up in the live registry: a loaded module resolves to a
    /// freshly minted placeholder directory, an absent one to not-found.
    pub fn lookup(&self, reg: &ModuleRegistry, name: &[u8]) -> (r: Result<VfsInode, Errno>)
        ensures
            match r {
                Ok(inode) => reg@.contains(name@) && (inode matches VfsInode::Dir(DirNode::Tmp(d))
                    && d.perm.bits == 0 && d.uid == 0 && d.gid == 0 && d@.len() == 0),
                Err(e) => e == Errno::ENOENT && !reg@.contains(name@),
            },
    {
        if !reg.contains(name) {
            return Err(Errno::ENOENT);
        }
        let d = TmpDirInode::new(Permission { bits: 0 }, 0, 0);
        Ok(VfsInode::Dir(DirNode::Tmp(d)))
    }

    /// The projection is immutable: creating a directory is denied.
    pub fn mkdir(&self, name: &[u8], perm: Permission) -> (r: Result<(), Errno>)
        ensures
            r == Err::<(), Errno>(Errno::EPERM),
    {
        Err(Errno::EPERM)
    }

    /// The projection is immutable: removing a directory is denied.
    pub fn rmdir(&self, name: &[u8]) -> (r: Result<(), Errno>)
        ensures
            r == Err::<(), Errno>(Errno::EPERM),
    {
        Err(Errno::EPERM)
    }

    /// The projection is immutable: creating a file is denied.
    pub fn create(&self, name: &[u8], perm: Permission) -> (r: Result<(), Errno>)
        ensures
            r == Err::<(), Errno>(Errno::EPERM),
    {
        Err(Errno::EPERM)
    }

    /// The projection is immutable: removing a file is denied.
    pub fn unlink(&self, name: &[u8]) -> (r: Result<(), Errno>)
        ensures
            r == Err::<(), Errno>(Errno::EPERM),
    {
        Err(Errno::EPERM)
    }

    /// The projection is immutable: creating a symbolic link is denied.
    pub fn symlink(&self, target: &[u8], name: &[u8]) -> (r: Result<(), Errno>)
        ensures
            r == Err::<(), Errno>(Errno::EPERM),
    {
        Err(Errno::EPERM)
    }
}

/// The synthetic root directory: it exposes exactly one child, the
/// "modules" projection.
#[derive(Debug, PartialEq)]
pub struct SysRootDirInode {
    modules: Box<VfsInode>,
}

impl SysRootDirInode {
    /// The root always binds "modules" to the module-projection directory.
    pub closed spec fn wf(&self) -> bool {
        *self.modules == VfsInode::Dir(DirNode::Module(ModuleDirInode))
    }

    /// A fresh synthetic root.
    pub fn new() -> (r: SysRootDirInode)
        ensures
            r.wf(),
    {
        SysRootDirInode { modules: Box::new(VfsInode::Dir(DirNode::Module(ModuleDirInode))) }
    }

    /// The attribute snapshot of the synthetic root.
    pub fn stat(&self) -> (r: Result<RawStat, Errno>)
        ensures
            r == Ok::<RawStat, Errno>(sys_root_stat()),
    {
        Ok(RawStat {
            perm: 0o555,
            uid: 0,
            gid: 0,
            size: 0,
            file_type: FILE_TYPE_DIR,
            access_time: TimeSpec::zero(),
            modify_time: TimeSpec::zero(),
            change_time: TimeSpec::zero(),
        })
    }

    /// The root is immutable: changing its owner is denied.
    pub fn chown(&self, owner: usize, group: usize) -> (r: Result<(), Errno>)
        ensures
            r == Err::<(), Errno>(Errno::EPERM),
    {
        Err(Errno::EPERM)
    }

    /// The root is immutable: changing its permission bits is denied.
    pub fn chmod(&self, perm: Permission) -> (r: Result<(), Errno>)
        ensures
            r == Err::<(), Errno>(Errno::EPERM),
    {
        Err(Errno::EPERM)
    }

    /// Enumerate the root: "modules", then the synthesized "." and "..".
    pub fn open(&self) -> (r: Result<TmpDir, Errno>)
        ensures
            match r {
                Ok(h) => h@ =~= sys_root_listing() && h.spec_pos() == 0,
                Err(_) => false,
            },
    {
        let mut v: Vec<(u8, Vec<u8>)> = Vec::new();
        v.push((FILE_TYPE_DIR, modules_name_vec()));
        v.push((FILE_TYPE_DIR, crate::vfs::dot_name()));
        v.push((FILE_TYPE_DIR, crate::vfs::dotdot_name()));
        let h = TmpDir::new(v);
        assert(h@ =~= sys_root_listing());
        Ok(h)
    }

    /// Look a name up under the root: only "modules" exists.
    pub fn lookup(&self, name: &[u8]) -> (r: Result<VfsInode, Errno>)
        requires
            self.wf(),
        ensures
            match r {
                Ok(inode) => name@ == modules_name() && inode == VfsInode::Dir(
                    DirNode::Module(ModuleDirInode),
                ),
                Err(e) => e == Errno::ENOENT && name@ != modules_name(),
            },
    {
        let modules = modules_name_vec();
        if crate::vfs::bytes_eq(name, modules.as_slice()) {
            Ok(VfsInode::Dir(DirNode::Module(ModuleDirInode)))
        } else {
            Err(Errno::ENOENT)
        }
    }

    /// The root is immutable: creating a directory is denied.
    pub fn mkdir(&self, name: &[u8], perm: Permission) -> (r: Result<(), Errno>)
        ensures
            r == Err::<(), Errno>(Errno::EPERM),
    {
        Err(Errno::EPERM)
    }

    /// The root is immutable: removing a directory is denied.
    pub fn rmdir(&self, name: &[u8]) -> (r: Result<(), Errno>)
        ensures
            r == Err::<(), Errno>(Errno::EPERM),
    {
        Err(Errno::EPERM)
    }

    /// The root is immutable: creating a file is denied.
    pub fn create(&self, name: &[u8], perm: Permission) -> (r: Result<(), Errno>)
        ensures
            r == Err::<(), Errno>(Errno::EPERM),
    {
        Err(Errno::EPERM)
    }

    /// The root is immutable: removing a file is denied.
    pub fn unlink(&self, name: &[u8]) -> (r: Result<(), Errno>)
        ensures
            r == Err::<(), Errno>(Errno::EPERM),
    {
        Err(Errno::EPERM)
    }

    /// The root is immutable: creating a symbolic link is denied.
    pub fn symlink(&self, target: &[u8], name: &[u8]) -> (r: Result<(), Errno>)
        ensures
            r == Err::<(), Errno>(Errno::EPERM),
    {
        Err(Errno::EPERM)
    }
}



/// Any cached "modules" binding under a mount root is a directory: the
/// root backend only ever yields the projection directory for that name,
/// so nothing else can enter the cache under it.
pub open spec fn modules_child_is_dir(e: crate::vfs::VfsDirEntry) -> bool {
    forall|k: int|
        0 <= k < e.spec_children().len() && (#[trigger] e.spec_children()[k]).spec_name()
            == modules_name() ==> e.spec_children()[k].spec_inode() is Dir
}

/// The mountable module-projection filesystem: the entry a backend
/// registry would hold for it. It declares mount exclusivity: at most one
/// live mount at a time.
#[derive(Debug, PartialEq)]
pub struct SysFs;

/// The superblock of one live mount of the projection filesystem.
#[derive(Debug, PartialEq)]
pub struct SysSb;

/// The singleton mount slot of the projection filesystem: empty while
/// unmounted, and holding the externally visible root node while mounted.
/// In the kernel a single lock guards this slot, so concurrent mount
/// attempts race safely to one winner; here the slot is an explicit value
/// its owner threads through the calls.
pub struct SysFsState {
    root_entry: Option<crate::vfs::VfsDirEntry>,
}

impl SysFsState {
    /// The recorded root node of the live mount, if one exists.
    pub closed spec fn spec_root(self) -> Option<crate::vfs::VfsDirEntry> {
        self.root_entry
    }

    /// Whether a mount is live.
    pub open spec fn is_mounted(self) -> bool {
        self.spec_root() is Some
    }

    /// A recorded root node is well formed, binds the well-formed synthetic
    /// root inode, and caches "modules" only as a directory.
    pub open spec fn wf(self) -> bool {
        self.spec_root() matches Some(e) ==> e.wf() && e.spec_inode().wf() && (e.spec_inode()
            matches VfsInode::Dir(DirNode::SysRoot(_))) && modules_child_is_dir(e)
    }

    /// The initial state: nothing mounted.
    pub fn new() -> (r: SysFsState)
        ensures
            !r.is_mounted(),
            r.wf(),
    {
        SysFsState { root_entry: None }
    }

    /// The root node of the live mount, borrowed for mutation.
    pub fn root_entry_mut(&mut self) -> (r: Option<&mut crate::vfs::VfsDirEntry>)
        ensures
            match r {
                Some(e) => old(self).spec_root() matches Some(e0) && *e == e0 && final(self).spec_root() == Some(*final(e)) && old(self).is_mounted(),
                None => !old(self).is_mounted() && *final(self) == *old(self),
            },
    {
        match &mut self.root_entry {
            Some(e) => Some(e),
            None => None,
        }
    }
}

impl SysFs {
    /// Mount the projection filesystem: while a mount is live this is
    /// refused with busy; otherwise a superblock and the root directory
    /// inode are produced. The slot itself is only taken once
    /// `finish_mount` records the root node built from that inode.
    pub fn mount(st: &SysFsState) -> (r: Result<(SysSb, SysRootDirInode), Errno>)
        ensures
            st.is_mounted() ==> r == Err::<(SysSb, SysRootDirInode), Errno>(Errno::EBUSY),
            !st.is_mounted() ==> (r matches Ok((sb, root)) && sb == SysSb && root.wf()),
    {
        if st.root_entry.is_some() {
            return Err(Errno::EBUSY);
        }
        Ok((SysSb, SysRootDirInode::new()))
    }

    /// Record the externally visible root node of the new mount, so later
    /// external events can reach the cached tree for targeted eviction.
    pub fn finish_mount(st: &mut SysFsState, entry: crate::vfs::VfsDirEntry)
        requires
            entry.wf(),
            entry.spec_inode().wf(),
            entry.spec_inode() matches VfsInode::Dir(DirNode::SysRoot(_)),
            modules_child_is_dir(entry),
        ensures
            final(st).is_mounted(),
            final(st).wf(),
            final(st).spec_root() == Some(entry),
    {
        st.root_entry = Some(entry);
    }
}

impl SysSb {
    /// The backend this superblock came from.
    pub fn filesystem(&self) -> (r: SysFs)
        ensures
            r == SysFs,
    {
        SysFs
    }

    /// Unmount: the slot is cleared and the caller always sees success,
    /// whatever internal cleanup may have failed.
    pub fn unmount(&self, st: &mut SysFsState) -> (r: Result<(), Errno>)
        ensures
            r == Ok::<(), Errno>(()),
            !final(st).is_mounted(),
            final(st).wf(),
    {
        st.root_entry = None;
        Ok(())
    }
}

/// Refresh the cached tree after a module disappeared: resolve "modules"
/// under the mount's root node and force-evict the cached child of the
/// module's name. Under the mount slot's invariant this cannot fail, and
/// afterwards the "modules" node holds no cached binding for that name.
fn sync_entry(
    ent: &mut crate::vfs::VfsDirEntry,
    reg: &ModuleRegistry,
    mod_name: &[u8],
) -> (r: Result<(), Errno>)
    requires
        old(ent).wf(),
        old(ent).spec_inode().wf(),
        old(ent).spec_inode() matches VfsInode::Dir(DirNode::SysRoot(_)),
        modules_child_is_dir(*old(ent)),
        reg.wf(),
    ensures
        final(ent).wf(),
        final(ent).spec_inode() == old(ent).spec_inode(),
        final(ent).spec_name() == old(ent).spec_name(),
        modules_child_is_dir(*final(ent)),
        r is Ok,
        exists|k: int|
            0 <= k < final(ent).spec_children().len() && (#[trigger] final(ent).spec_children()[
                k
            ]).spec_name() == modules_name() && !final(ent).spec_children()[k].has_child(
                mod_name@,
            ),
{
    let modules = modules_name_vec();
    let idx = match ent.lookup(reg, modules.as_slice()) {
        Ok(i) => i,
        Err(e) => {
            return Err(e);
        },
    };
    let ghost mid = *ent;
    proof {
        if !old(ent).has_child(modules_name()) {
            crate::vfs::lemma_dir_shape_variant(mid.spec_children()[idx as int].spec_inode());
        }
        crate::vfs::lemma_wf_children(mid, idx as int);
    }
    if !ent.child_at(idx).is_dir() {
        return Err(Errno::ENOTDIR);
    }
    let child = ent.child_at_mut(idx);
    child.remove_child_force(mod_name);
    proof {
        crate::vfs::lemma_child_update_keeps_wf(mid, *ent, idx as int);
        assert forall|k: int|
            0 <= k < final(ent).spec_children().len() && (#[trigger] final(ent).spec_children()[
                k
            ]).spec_name() == modules_name() implies final(ent).spec_children()[k].spec_inode()
            is Dir by {
            if k != idx {
                assert(final(ent).spec_children()[k] == mid.spec_children()[k]);
            }
        }
    }
    Ok(())
}

/// The removal hook the module subsystem triggers when a module
/// disappears: a best-effort call. While unmounted it does nothing at
/// all; while mounted it evicts the module's cached directory entry, and
/// any internal failure is discarded — a cosmetic listing refresh must
/// never fail the module unload that triggered it.
pub fn remove_module_node(st: &mut SysFsState, reg: &ModuleRegistry, mod_name: &[u8])
    requires
        old(st).wf(),
        reg.wf(),
    ensures
        final(st).wf(),
        !old(st).is_mounted() ==> *final(st) == *old(st),
        old(st).is_mounted() ==> final(st).is_mounted() && (old(st).spec_root() matches Some(e1)
            && final(st).spec_root() matches Some(e2) && e2.spec_inode() == e1.spec_inode()
            && e2.spec_name() == e1.spec_name() && exists|k: int|
            0 <= k < e2.spec_children().len() && (#[trigger] e2.spec_children()[k]).spec_name()
                == modules_name() && !e2.spec_children()[k].has_child(mod_name@)),
{
    match st.root_entry_mut() {
        Some(ent) => {
            let _ = sync_entry(ent, reg, mod_name);
        },
        None => {},
    }
}

} // verus!

use std::sync::Arc;

use kvfs::{
    get_file, DirNode, Errno, Fd, FdTable, File, ModuleDirInode, ModuleRegistry, Permission,
    SysFs, SysFsState, SysRootDirInode, SysSb, TmpDirInode, VfsDirEntry, VfsInode, FILE_TYPE_DIR,
};

fn registry_with(names: &[&[u8]]) -> ModuleRegistry {
    let mut reg = ModuleRegistry::new();
    for n in names {
        assert!(reg.load(n.to_vec()));
    }
    reg
}

fn names_of(handle: &mut kvfs::TmpDir) -> Vec<Vec<u8>> {
    handle.rewind();
    let mut out = Vec::new();
    while let Some((tag, name)) = handle.next() {
        assert_eq!(tag, FILE_TYPE_DIR);
        out.push(name);
    }
    out
}

#[test]
fn mount_exclusivity_busy_then_free() {
    let mut st = SysFsState::new();
    let (sb, root) = SysFs::mount(&st).expect("first mount succeeds");
    let entry = VfsDirEntry::new(b"sys".to_vec(), VfsInode::Dir(DirNode::SysRoot(root)));
    SysFs::finish_mount(&mut st, entry);
    assert_eq!(SysFs::mount(&st), Err(Errno::EBUSY));
    assert_eq!(sb.unmount(&mut st), Ok(()));
    assert!(SysFs::mount(&st).is_ok());
}

#[test]
fn mount_before_finish_is_not_busy() {
    let st = SysFsState::new();
    assert!(SysFs::mount(&st).is_ok());
    assert!(SysFs::mount(&st).is_ok());
}

#[test]
fn superblock_names_its_filesystem() {
    let sb = SysSb;
    assert_eq!(sb.filesystem(), SysFs);
}

#[test]
fn lookup_absent_is_not_found_for_every_backend() {
    let reg = registry_with(&[b"net"]);
    let module_dir = ModuleDirInode::new();
    assert_eq!(module_dir.lookup(&reg, b"missing").err(), Some(Errno::ENOENT));
    let root = SysRootDirInode::new();
    assert_eq!(root.lookup(b"missing").err(), Some(Errno::ENOENT));
    let tmp = TmpDirInode::new(Permission::from_bits_truncate(0o755), 0, 0);
    assert_eq!(tmp.lookup(b"missing").err(), Some(Errno::ENOENT));
}

#[test]
fn lookup_present_module_yields_placeholder_dir() {
    let reg = registry_with(&[b"net"]);
    let module_dir = ModuleDirInode::new();
    match module_dir.lookup(&reg, b"net") {
        Ok(VfsInode::Dir(DirNode::Tmp(d))) => {
            let stat = d.stat().unwrap();
            assert_eq!(stat.perm, 0);
            assert_eq!(stat.file_type, FILE_TYPE_DIR);
        }
        other => panic!("unexpected lookup result: {:?}", other),
    }
}

#[test]
fn immutable_backend_denies_every_mutation_and_keeps_listing() {
    let reg = registry_with(&[b"net"]);
    let module_dir = ModuleDirInode::new();
    let before = names_of(&mut module_dir.open(&reg).unwrap());
    assert_eq!(module_dir.mkdir(b"x", Permission::from_bits_truncate(0o755)), Err(Errno::EPERM));
    assert_eq!(module_dir.rmdir(b"net"), Err(Errno::EPERM));
    assert_eq!(module_dir.create(b"x", Permission::from_bits_truncate(0o644)), Err(Errno::EPERM));
    assert_eq!(module_dir.unlink(b"net"), Err(Errno::EPERM));
    assert_eq!(module_dir.symlink(b"t", b"x"), Err(Errno::EPERM));
    assert_eq!(module_dir.chmod(Permission::from_bits_truncate(0o777)), Err(Errno::EPERM));
    assert_eq!(module_dir.chown(1, 1), Err(Errno::EPERM));
    let after = names_of(&mut module_dir.open(&reg).unwrap());
    assert_eq!(before, after);

    let root = SysRootDirInode::new();
    assert_eq!(root.mkdir(b"x", Permission::from_bits_truncate(0o755)), Err(Errno::EPERM));
    assert_eq!(root.chown(1, 1), Err(Errno::EPERM));
    assert_eq!(root.chmod(Permission::from_bits_truncate(0o777)), Err(Errno::EPERM));
}

#[test]
fn dispatch_denies_mutation_on_immutable_backends() {
    let mut d = DirNode::Module(ModuleDirInode::new());
    assert_eq!(d.mkdir(b"x", Permission::from_bits_truncate(0o755)), Err(Errno::EPERM));
    assert_eq!(d.unlink(b"x"), Err(Errno::EPERM));
    let mut r = DirNode::SysRoot(SysRootDirInode::new());
    assert_eq!(r.symlink(b"t", b"x"), Err(Errno::EPERM));
}

#[test]
fn enumeration_always_has_one_dot_and_one_dotdot() {
    let empty_reg = ModuleRegistry::new();
    let module_dir = ModuleDirInode::new();
    let listing = names_of(&mut module_dir.open(&empty_reg).unwrap());
    assert_eq!(listing, vec![b".".to_vec(), b"..".to_vec()]);

    let reg = registry_with(&[b"net", b"fs_ext"]);
    let listing = names_of(&mut module_dir.open(&reg).unwrap());
    assert_eq!(
        listing,
        vec![b"net".to_vec(), b"fs_ext".to_vec(), b".".to_vec(), b"..".to_vec()]
    );
    assert_eq!(listing.iter().filter(|n| n.as_slice() == b".").count(), 1);
    assert_eq!(listing.iter().filter(|n| n.as_slice() == b"..").count(), 1);

    let root_listing = names_of(&mut SysRootDirInode::new().open().unwrap());
    assert_eq!(
        root_listing,
        vec![b"modules".to_vec(), b".".to_vec(), b"..".to_vec()]
    );
}

#[test]
fn enumeration_handle_is_restartable() {
    let reg = registry_with(&[b"net"]);
    let mut handle = ModuleDirInode::new().open(&reg).unwrap();
    let first = names_of(&mut handle);
    assert_eq!(handle.next(), None);
    handle.rewind();
    let second = names_of(&mut handle);
    assert_eq!(first, second);
    assert_eq!(handle.len(), 3);
    assert_eq!(handle.entry_at(0).1, b"net".to_vec());
}

#[test]
fn descriptor_validation_bounds() {
    assert!(Fd::from(0).is_some());
    assert!(Fd::from(255).is_some());
    assert!(Fd::from(256).is_none());
    assert_eq!(Fd::from(7).unwrap().index(), 7);
}

#[test]
fn get_file_rejects_bad_descriptors() {
    let table = FdTable::new();
    assert_eq!(get_file(&table, -1).err(), Some(Errno::EBADF));
    assert_eq!(get_file(&table, 256).err(), Some(Errno::EBADF));
    assert_eq!(get_file(&table, 0).err(), Some(Errno::EBADF));
}

#[test]
fn get_file_returns_the_exact_stored_object() {
    let mut table = FdTable::new();
    let file = Arc::new(File::new(VfsInode::Dir(DirNode::Module(ModuleDirInode::new()))));
    let fd = table.alloc_fd(Arc::clone(&file)).expect("a slot is free");
    assert_eq!(fd.index(), 0);
    let got = get_file(&table, fd.index() as isize).expect("slot filled");
    assert_eq!(*got, *file);
    let fd2 = table.alloc_fd(Arc::clone(&file)).expect("a slot is free");
    assert_eq!(fd2.index(), 1);
}

#[test]
fn forked_table_shares_the_same_files() {
    let mut table = FdTable::new();
    let file = Arc::new(File::new(VfsInode::Dir(DirNode::Module(ModuleDirInode::new()))));
    let fd = table.alloc_fd(Arc::clone(&file)).unwrap();
    let forked = table.clone_for_fork();
    let got = forked.get_file(Fd::from(fd.index()).unwrap()).expect("slot filled");
    assert_eq!(*got, *file);
}

#[test]
fn removal_hook_while_unmounted_is_a_no_op() {
    let mut st = SysFsState::new();
    let reg = registry_with(&[b"net"]);
    kvfs::remove_module_node(&mut st, &reg, b"net");
    assert_eq!(SysFs::mount(&st).is_ok(), true);
}

#[test]
fn removal_hook_evicts_cached_child() {
    let mut st = SysFsState::new();
    let mut reg = registry_with(&[b"net"]);
    let (_sb, root_inode) = SysFs::mount(&st).unwrap();
    let mut root = VfsDirEntry::new(b"sys".to_vec(), VfsInode::Dir(DirNode::SysRoot(root_inode)));

    let modules_idx = root.lookup(&reg, b"modules").expect("modules resolves");
    {
        let modules = root.child_at_mut(modules_idx);
        let net_idx = modules.lookup(&reg, b"net").expect("net is loaded");
        assert_eq!(modules.child_at(net_idx).name(), &b"net".to_vec());
    }

    SysFs::finish_mount(&mut st, root);
    reg.unload(b"net");
    kvfs::remove_module_node(&mut st, &reg, b"net");

    let root = st.root_entry_mut().expect("still mounted");
    let modules_idx = root.lookup(&reg, b"modules").expect("modules resolves");
    let modules = root.child_at_mut(modules_idx);
    assert_eq!(modules.lookup(&reg, b"net").err(), Some(Errno::ENOENT));
}

#[test]
fn module_projection_end_to_end() {
    let mut st = SysFsState::new();
    let mut reg = registry_with(&[b"net", b"fs_ext"]);

    let (sb, root_inode) = SysFs::mount(&st).expect("mount succeeds");
    let root = VfsDirEntry::new(b"sys".to_vec(), VfsInode::Dir(DirNode::SysRoot(root_inode)));
    SysFs::finish_mount(&mut st, root);

    let module_dir = ModuleDirInode::new();
    let mut listing = names_of(&mut module_dir.open(&reg).unwrap());
    listing.sort();
    let mut expected = vec![
        b".".to_vec(),
        b"..".to_vec(),
        b"net".to_vec(),
        b"fs_ext".to_vec(),
    ];
    expected.sort();
    assert_eq!(listing, expected);

    assert_eq!(SysFs::mount(&st), Err(Errno::EBUSY));

    reg.unload(b"net");
    kvfs::remove_module_node(&mut st, &reg, b"net");
    let mut listing = names_of(&mut module_dir.open(&reg).unwrap());
    listing.sort();
    let mut expected = vec![b".".to_vec(), b"..".to_vec(), b"fs_ext".to_vec()];
    expected.sort();
    assert_eq!(listing, expected);

    assert_eq!(sb.unmount(&mut st), Ok(()));
    assert!(SysFs::mount(&st).is_ok());
}

#[test]
fn stat_snapshots_match_the_backends() {
    let module_stat = ModuleDirInode::new().stat().unwrap();
    assert_eq!(module_stat.perm, 0o500);
    assert_eq!(module_stat.file_type, FILE_TYPE_DIR);
    assert_eq!(module_stat.uid, 0);
    let root_stat = SysRootDirInode::new().stat().unwrap();
    assert_eq!(root_stat.perm, 0o555);
    let tmp = TmpDirInode::new(Permission::from_bits_truncate(0o751), 3, 4);
    let tmp_stat = tmp.stat().unwrap();
    assert_eq!(tmp_stat.perm, 0o751);
    assert_eq!(tmp_stat.uid, 3);
    assert_eq!(tmp_stat.gid, 4);
}

#[test]
fn errno_codes_follow_the_posix_convention() {
    assert_eq!(Errno::EPERM.code(), 1);
    assert_eq!(Errno::ENOENT.code(), 2);
    assert_eq!(Errno::EBADF.code(), 9);
    assert_eq!(Errno::EBUSY.code(), 16);
    assert_eq!(Errno::EEXIST.code(), 17);
    assert_eq!(Errno::ENOTDIR.code(), 20);
    assert_eq!(Errno::ENOTEMPTY.code(), 39);
    assert_eq!(Errno::ENOENT.as_ret(), -2);
}

#[test]
fn repeated_dentry_lookup_is_idempotent() {
    let reg = ModuleRegistry::new();
    let mut tree = TmpDirInode::new(Permission::from_bits_truncate(0o755), 0, 0);
    assert_eq!(tree.mkdir(b"home", Permission::from_bits_truncate(0o700)), Ok(()));
    let mut dentry = VfsDirEntry::new(b"root".to_vec(), VfsInode::Dir(DirNode::Tmp(tree)));

    let first = dentry.lookup(&reg, b"home").expect("backend holds the child");
    let cached_name = dentry.child_at(first).name().clone();
    let second = dentry.lookup(&reg, b"home").expect("cache holds the child");
    assert_eq!(first, second);
    assert_eq!(dentry.child_at(second).name(), &cached_name);
    assert_eq!(dentry.child_count(), 1);

    // a non-directory node refuses resolution
    let mut leaf = VfsDirEntry::new(
        b"leaf".to_vec(),
        VfsInode::File(kvfs::FileNode::Tmp(kvfs::TmpFileInode::new(
            Permission::from_bits_truncate(0o644),
            0,
            0,
        ))),
    );
    assert_eq!(leaf.lookup(&reg, b"x").err(), Some(Errno::ENOTDIR));
}

#[test]
fn file_capability_opens_an_equivalent_stream() {
    let node = kvfs::FileNode::Tmp(kvfs::TmpFileInode::new(
        Permission::from_bits_truncate(0o644),
        1,
        2,
    ));
    let file = node.open().expect("open cannot fail");
    let stat = file.inode.stat().expect("stat cannot fail");
    assert_eq!((stat.perm, stat.uid, stat.gid, stat.size), (0o644, 1, 2, 0));
}

use kvfs::{
    DirNode, Errno, ModuleDirInode, Permission, SymLinkNode, TmpDirInode, TmpSymLinkInode,
    VfsInode, FILE_TYPE_DIR, FILE_TYPE_REG, FILE_TYPE_SYMLINK,
};

fn perm(bits: u32) -> Permission {
    Permission::from_bits_truncate(bits)
}

#[test]
fn mkdir_then_lookup_finds_the_child() {
    let mut d = TmpDirInode::new(perm(0o755), 0, 0);
    assert_eq!(d.mkdir(b"a", perm(0o700)), Ok(()));
    match d.lookup(b"a") {
        Ok(VfsInode::Dir(DirNode::Tmp(child))) => {
            assert_eq!(child.stat().unwrap().perm, 0o700);
        }
        other => panic!("unexpected: {:?}", other),
    }
}

#[test]
fn duplicate_names_are_refused() {
    let mut d = TmpDirInode::new(perm(0o755), 0, 0);
    assert_eq!(d.mkdir(b"a", perm(0o700)), Ok(()));
    assert_eq!(d.mkdir(b"a", perm(0o700)), Err(Errno::EEXIST));
    assert_eq!(d.create(b"a", perm(0o644)), Err(Errno::EEXIST));
    assert_eq!(d.symlink(b"t", b"a"), Err(Errno::EEXIST));
}

#[test]
fn dot_names_are_never_stored() {
    let mut d = TmpDirInode::new(perm(0o755), 0, 0);
    assert_eq!(d.mkdir(b".", perm(0o700)), Err(Errno::EEXIST));
    assert_eq!(d.mkdir(b"..", perm(0o700)), Err(Errno::EEXIST));
    assert_eq!(d.create(b"", perm(0o644)), Err(Errno::EEXIST));
}

#[test]
fn unlink_and_rmdir_split_by_child_kind() {
    let mut d = TmpDirInode::new(perm(0o755), 0, 0);
    assert_eq!(d.mkdir(b"dir", perm(0o700)), Ok(()));
    assert_eq!(d.create(b"file", perm(0o644)), Ok(()));
    assert_eq!(d.unlink(b"dir"), Err(Errno::EPERM));
    assert_eq!(d.rmdir(b"file"), Err(Errno::ENOTDIR));
    assert_eq!(d.unlink(b"missing"), Err(Errno::ENOENT));
    assert_eq!(d.rmdir(b"missing"), Err(Errno::ENOENT));
    assert_eq!(d.unlink(b"file"), Ok(()));
    assert_eq!(d.rmdir(b"dir"), Ok(()));
    assert_eq!(d.lookup(b"dir").err(), Some(Errno::ENOENT));
}

#[test]
fn rmdir_refuses_a_non_empty_directory() {
    let mut inner = TmpDirInode::new(perm(0o700), 0, 0);
    assert_eq!(inner.create(b"leaf", perm(0o644)), Ok(()));
    let mut outer = TmpDirInode::new(perm(0o755), 0, 0);
    outer.entries.push((b"dir".to_vec(), VfsInode::Dir(DirNode::Tmp(inner))));
    assert_eq!(outer.rmdir(b"dir"), Err(Errno::ENOTEMPTY));
}

#[test]
fn listing_tags_follow_the_child_kind() {
    let mut d = TmpDirInode::new(perm(0o755), 0, 0);
    assert_eq!(d.mkdir(b"dir", perm(0o700)), Ok(()));
    assert_eq!(d.create(b"file", perm(0o644)), Ok(()));
    assert_eq!(d.symlink(b"target", b"link"), Ok(()));
    let mut handle = d.open().unwrap();
    let mut seen = Vec::new();
    while let Some((tag, name)) = handle.next() {
        seen.push((tag, name));
    }
    assert_eq!(
        seen,
        vec![
            (FILE_TYPE_DIR, b"dir".to_vec()),
            (FILE_TYPE_REG, b"file".to_vec()),
            (FILE_TYPE_SYMLINK, b"link".to_vec()),
            (FILE_TYPE_DIR, b".".to_vec()),
            (FILE_TYPE_DIR, b"..".to_vec()),
        ]
    );
}

#[test]
fn chown_and_chmod_mutate_the_writable_tree() {
    let mut d = TmpDirInode::new(perm(0o755), 0, 0);
    assert_eq!(d.chown(5, 6), Ok(()));
    assert_eq!(d.chmod(perm(0o700)), Ok(()));
    let stat = d.stat().unwrap();
    assert_eq!((stat.uid, stat.gid, stat.perm), (5, 6, 0o700));
    let mut dispatch = DirNode::Tmp(d);
    assert_eq!(dispatch.chown(7, 8), Ok(()));
    assert_eq!(dispatch.stat().unwrap().uid, 7);
}

#[test]
fn permission_bits_truncate_to_twelve_bits() {
    assert_eq!(Permission::from_bits_truncate(0o77777).bits, 0o7777);
    assert_eq!(Permission::from_bits_truncate(0o500).bits, 0o500);
}

#[test]
fn symlink_capability_reports_its_target() {
    let link = TmpSymLinkInode::new(perm(0o777), 0, 0, b"somewhere".to_vec());
    assert_eq!(link.target(), &b"somewhere".to_vec());
    let node = SymLinkNode::Tmp(link);
    assert_eq!(node.target(), &b"somewhere".to_vec());
}

#[test]
fn shared_metadata_contract_covers_all_capabilities() {
    let mut dir = VfsInode::Dir(DirNode::Tmp(TmpDirInode::new(perm(0o755), 0, 0)));
    assert_eq!(dir.chown(2, 3), Ok(()));
    assert_eq!(dir.stat().unwrap().uid, 2);
    assert_eq!(dir.chmod(perm(0o700)), Ok(()));
    assert_eq!(dir.stat().unwrap().perm, 0o700);

    let mut link = VfsInode::SymLink(SymLinkNode::Tmp(TmpSymLinkInode::new(
        perm(0o777),
        0,
        0,
        b"t".to_vec(),
    )));
    assert_eq!(link.chown(4, 5), Ok(()));
    let s = link.stat().unwrap();
    assert_eq!((s.uid, s.gid, s.file_type, s.size), (4, 5, FILE_TYPE_SYMLINK, 1));

    let mut frozen = VfsInode::Dir(DirNode::Module(ModuleDirInode::new()));
    assert_eq!(frozen.chown(1, 1), Err(Errno::EPERM));
    assert_eq!(frozen.chmod(perm(0o777)), Err(Errno::EPERM));
}

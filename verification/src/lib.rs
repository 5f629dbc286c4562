//! Virtual-filesystem core of a small kernel: a uniform inode/dentry model
//! over pluggable backends, a mount lifecycle with exclusivity, a synthetic
//! read-only projection of the loaded-module registry, an in-memory
//! read-write tree, a bounded file-descriptor table, and the VGA text-screen
//! write planner.

mod errno;
mod fd_table;
mod kmap_bitmap;
mod laws;
mod screen;
mod sysfs;
mod tmpfs;
mod vfs;

pub use errno::Errno;
pub use kmap_bitmap::{find_free_space, toggle_bitmap, BITS_PER_WORD, KMAP_WORDS};
pub use laws::{
    lemma_alloc_then_get, lemma_eviction_lookup_misses, lemma_immutable_listing_unchanged,
    lemma_listing_dot_entries,
};
pub use fd_table::{get_file, Fd, FdTable, FDTABLE_SIZE};
pub use screen::{
    CellWrite, IScreen, Position, Screen, BUFFER_HEIGHT, SCREEN_HEIGHT, SCREEN_WIDTH,
    VGA_PORT_DATA, VGA_PORT_INDEX, VGA_TEXT_START,
};
pub use sysfs::{remove_module_node, ModuleDirInode, SysFs, SysFsState, SysRootDirInode, SysSb};
pub use tmpfs::{TmpDir, TmpDirInode, TmpFileInode, TmpSymLinkInode};
pub use vfs::{
    DirNode, File, FileNode, ModuleRegistry, Permission, RawStat, SymLinkNode, TimeSpec,
    VfsDirEntry, VfsInode,
    FILE_TYPE_DIR, FILE_TYPE_REG, FILE_TYPE_SYMLINK,
};

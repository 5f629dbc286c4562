use std::sync::Arc;

use vstd::prelude::*;

use crate::vfs::{
    dot, dotdot, modules_name, DirNode, File, ModuleRegistry, VfsDirEntry, VfsInode,
};

verus! {

/// A mutating call on an immutable backend leaves the directory value
/// unchanged — every such call ensures permission-denied and an unchanged
/// receiver — so the listing it enumerates is unchanged too.
pub proof fn lemma_immutable_listing_unchanged(pre: DirNode, post: DirNode, reg: Seq<Seq<u8>>)
    requires
        pre.is_immutable(),
        post == pre,
    ensures
        post.spec_listing(reg) == pre.spec_listing(reg),
{
}

/// Every enumeration yields exactly one "." and one ".." besides the real
/// children, the zero-children case included: the two synthesized entries
/// close the listing, and no real child may carry either name.
pub proof fn lemma_listing_dot_entries(d: DirNode, reg: ModuleRegistry)
    requires
        d.wf(),
        reg.wf(),
    ensures
        d.spec_listing(reg@).len() == 2 + (match d {
            DirNode::Module(_) => reg@.len(),
            DirNode::SysRoot(_) => 1,
            DirNode::Tmp(t) => t@.len(),
        }),
        d.spec_listing(reg@)[d.spec_listing(reg@).len() - 2].1 == dot(),
        d.spec_listing(reg@)[d.spec_listing(reg@).len() - 1].1 == dotdot(),
        forall|i: int|
            0 <= i < d.spec_listing(reg@).len() - 2 ==> (#[trigger] d.spec_listing(reg@)[i]).1
                != dot() && d.spec_listing(reg@)[i].1 != dotdot(),
{
    let l = d.spec_listing(reg@);
    assert forall|i: int| 0 <= i < l.len() - 2 implies (#[trigger] l[i]).1 != dot() && l[i].1
        != dotdot() by {
        match d {
            DirNode::Module(_) => {
                assert(l[i].1 == reg@[i]);
                assert(crate::vfs::storable_name(reg@[i]));
            },
            DirNode::SysRoot(_) => {
                assert(l[i].1 == modules_name());
                assert(modules_name().len() == 7);
                assert(dot().len() == 1 && dotdot().len() == 2);
            },
            DirNode::Tmp(t) => {
                assert(l[i].1 == t@[i].0);
                assert(crate::vfs::storable_name(t@[i].0));
            },
        }
    }
}

/// A freshly allocated descriptor denotes exactly the allocated file:
/// after a successful allocation the table holds it in the chosen slot,
/// so a fetch of that descriptor yields exactly that object.
pub proof fn lemma_alloc_then_get(
    pre: Seq<Option<Arc<File>>>,
    post: Seq<Option<Arc<File>>>,
    i: int,
    f: Arc<File>,
)
    requires
        0 <= i < pre.len(),
        post =~= pre.update(i, Some(f)),
    ensures
        post[i] == Some(f),
{
}

/// Once the removal hook has evicted a module's cached binding and the
/// module has left the registry, a lookup of its name must miss: the
/// cache no longer holds it and the projection no longer lists it, so the
/// resolution contract forces not-found.
pub proof fn lemma_eviction_lookup_misses(child: VfsDirEntry, reg: ModuleRegistry, name: Seq<u8>)
    requires
        !child.has_child(name),
        child.spec_inode() matches VfsInode::Dir(DirNode::Module(_)),
        !reg@.contains(name),
    ensures
        child.spec_inode() matches VfsInode::Dir(d) ==> !d.spec_lookup_found(reg@, name),
{
}

} // verus!

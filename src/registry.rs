use vstd::prelude::*;
use crate::binding::{Adapter, ReceiverMode, WireKind};

verus! {

/// One registered function: the VM it belongs to, the name scripts call it by,
/// and its adapter.
pub struct FunctionLink {
    pub handle: u64,
    pub name: String,
    pub adapter: Adapter,
}

/// The adapter that the latest link of `(h, name)` in `links` holds: a later
/// registration under the same name replaces an earlier one.
pub open spec fn find_link(links: Seq<FunctionLink>, h: u64, name: Seq<char>) -> Option<(usize, ReceiverMode, Seq<WireKind>, bool)>
    decreases links.len(),
{
    if links.len() == 0 {
        None
    } else if links.last().handle == h && links.last().name@ == name {
        Some(links.last().adapter@)
    } else {
        find_link(links.drop_last(), h, name)
    }
}

/// How registering `a` under `name` on VM `h` changes a registry: only that
/// one name of that one VM, and only when `added`.
pub open spec fn link_added(
    before: HandleRegistry,
    after: HandleRegistry,
    h: u64,
    name: Seq<char>,
    a: (usize, ReceiverMode, Seq<WireKind>, bool),
    added: bool,
) -> bool {
    &&& forall|g: u64| #[trigger] after.is_live(g) == before.is_live(g)
    &&& forall|g: u64, n: Seq<char>| #[trigger] after.lookup_spec(g, n) == if added && g == h && n == name {
        Some(a)
    } else {
        before.lookup_spec(g, n)
    }
}

/// How removing the table of `h` changes a registry: `h` is gone with all its
/// functions, and nothing else changes.
pub open spec fn handle_removed(before: HandleRegistry, after: HandleRegistry, h: u64) -> bool {
    &&& forall|g: u64| #[trigger] after.is_live(g) == (before.is_live(g) && g != h)
    &&& forall|g: u64, n: Seq<char>| #[trigger] after.lookup_spec(g, n) == if g == h {
        None
    } else {
        before.lookup_spec(g, n)
    }
}

/// The table of live VM instances, each with its functions by name.
pub struct HandleRegistry {
    handles: Vec<u64>,
    links: Vec<FunctionLink>,
}

impl HandleRegistry {
    /// Every link belongs to a live handle.
    pub closed spec fn wf(&self) -> bool {
        forall|i: int| 0 <= i < self.links@.len() ==> self.handles@.contains(#[trigger] self.links@[i].handle)
    }

    /// Whether `h` has a table.
    pub closed spec fn is_live(&self, h: u64) -> bool {
        self.handles@.contains(h)
    }

    /// The adapter that `name` resolves to on VM `h`, if any.
    pub closed spec fn lookup_spec(&self, h: u64, name: Seq<char>) -> Option<(usize, ReceiverMode, Seq<WireKind>, bool)> {
        if self.handles@.contains(h) {
            find_link(self.links@, h, name)
        } else {
            None
        }
    }

    /// A VM without a table resolves no name.
    pub proof fn lemma_dead_handle_resolves_nothing(&self, h: u64, name: Seq<char>)
        requires
            !self.is_live(h),
        ensures
            self.lookup_spec(h, name) is None,
    {
    }

    pub fn new() -> (r: HandleRegistry)
        ensures
            r.wf(),
            forall|h: u64| !r.is_live(h),
            forall|h: u64, n: Seq<char>| r.lookup_spec(h, n) is None,
    {
        HandleRegistry { handles: Vec::new(), links: Vec::new() }
    }

    /// Whether `h` has a table.
    pub fn contains(&self, h: u64) -> (r: bool)
        ensures
            r == self.is_live(h),
    {
        let mut i: usize = 0;
        while i < self.handles.len()
            invariant
                i <= self.handles@.len(),
                forall|j: int| 0 <= j < i ==> self.handles@[j] != h,
            decreases self.handles@.len() - i,
        {
            if self.handles[i] == h {
                return true;
            }
            i += 1;
        }
        false
    }

    /// Creates an empty table for `h`; nothing changes if it has one.
    pub fn insert(&mut self, h: u64)
        requires
            old(self).wf(),
        ensures
            final(self).wf(),
            forall|g: u64| #[trigger] final(self).is_live(g) == (old(self).is_live(g) || g == h),
            forall|g: u64, n: Seq<char>| #[trigger] final(self).lookup_spec(g, n) == old(self).lookup_spec(g, n),
    {
        if !self.contains(h) {
            proof {
                assert forall|n: Seq<char>| find_link(self.links@, h, n) is None by {
                    lemma_find_absent(self.links@, h, n);
                }
            }
            let ghost before = self.handles@;
            self.handles.push(h);
            proof {
                lemma_push_contains(before, h);
            }
        }
    }

    /// Registers `adapter` under `name` on VM `h`. A VM without a table, or
    /// one whose table already holds `name`, gets nothing. Tells whether it
    /// was added.
    pub fn add_function_link(&mut self, h: u64, name: String, adapter: Adapter) -> (r: bool)
        requires
            old(self).wf(),
        ensures
            final(self).wf(),
            r == (old(self).is_live(h) && old(self).lookup_spec(h, name@) is None),
            !r ==> *final(self) == *old(self),
            link_added(*old(self), *final(self), h, name@, adapter@, r),
    {
        if !self.contains(h) {
            return false;
        }
        if self.lookup(h, name.as_str()).is_some() {
            return false;
        }
        let ghost old_links = self.links@;
        self.links.push(FunctionLink { handle: h, name, adapter });
        proof {
            assert(self.links@.drop_last() =~= old_links);
        }
        true
    }

    /// The adapter that `name` resolves to on VM `h`, if any.
    pub fn lookup(&self, h: u64, name: &str) -> (r: Option<&Adapter>)
        ensures
            r matches Some(a) ==> self.lookup_spec(h, name@) == Some(a@),
            r is None <==> self.lookup_spec(h, name@) is None,
    {
        if !self.contains(h) {
            return None;
        }
        let mut i: usize = self.links.len();
        assert(self.links@.subrange(0, i as int) =~= self.links@);
        while i > 0
            invariant
                self.handles@.contains(h),
                i <= self.links@.len(),
                find_link(self.links@, h, name@) == find_link(self.links@.subrange(0, i as int), h, name@),
            decreases i,
        {
            let l = &self.links[i - 1];
            proof {
                assert(self.links@.subrange(0, i as int).drop_last() =~= self.links@.subrange(0, i - 1));
            }
            if l.handle == h && crate::params::text_eq(l.name.as_str(), name) {
                return Some(&l.adapter);
            }
            i -= 1;
        }
        None
    }

    /// Deletes the table of `h` with all its functions.
    pub fn remove(&mut self, h: u64)
        requires
            old(self).wf(),
        ensures
            final(self).wf(),
            handle_removed(*old(self), *final(self), h),
    {
        let ghost old_handles = self.handles@;
        let ghost old_links = self.links@;
        let mut i: usize = 0;
        while i < self.handles.len()
            invariant
                i <= self.handles@.len(),
                forall|j: int| 0 <= j < i ==> self.handles@[j] != h,
                forall|g: u64| g != h ==> (self.handles@.contains(g) <==> old_handles.contains(g)),
                forall|g: u64| self.handles@.contains(g) ==> old_handles.contains(g),
                self.links@ == old_links,
            decreases self.handles@.len() - i,
        {
            if self.handles[i] == h {
                let ghost before = self.handles@;
                self.handles.remove(i);
                proof {
                    assert forall|g: u64| g != h implies (self.handles@.contains(g) <==> before.contains(g)) by {
                        if before.contains(g) {
                            let j = choose|j: int| 0 <= j < before.len() && before[j] == g;
                            if j < i {
                                assert(self.handles@[j] == g);
                            } else {
                                assert(self.handles@[j - 1] == g);
                            }
                        }
                    }
                    assert forall|g: u64| self.handles@.contains(g) implies before.contains(g) by {
                        let j = choose|j: int| 0 <= j < self.handles@.len() && self.handles@[j] == g;
                        if j < i {
                            assert(before[j] == g);
                        } else {
                            assert(before[j + 1] == g);
                        }
                    }
                }
            } else {
                i += 1;
            }
        }
        let mut k: usize = 0;
        while k < self.links.len()
            invariant
                k <= self.links@.len(),
                forall|j: int| 0 <= j < k ==> self.links@[j].handle != h,
                forall|g: u64| #[trigger] self.handles@.contains(g) <==> (old_handles.contains(g) && g != h),
                forall|j: int| 0 <= j < self.links@.len() ==> old_handles.contains(#[trigger] self.links@[j].handle),
                forall|g: u64, n: Seq<char>| g != h ==> find_link(self.links@, g, n) == find_link(old_links, g, n),
            decreases self.links@.len() - k,
        {
            if self.links[k].handle == h {
                let ghost before = self.links@;
                let _ = self.links.remove(k);
                proof {
                    assert forall|g: u64, n: Seq<char>| g != h implies find_link(self.links@, g, n) == find_link(before, g, n) by {
                        lemma_find_remove_other(before, k as int, g, n);
                    }
                }
            } else {
                k += 1;
            }
        }
        proof {
            assert forall|n: Seq<char>| find_link(self.links@, h, n) is None by {
                lemma_find_absent(self.links@, h, n);
            }
        }
    }
}

proof fn lemma_push_contains(s: Seq<u64>, h: u64)
    ensures
        forall|g: u64| #[trigger] s.push(h).contains(g) == (s.contains(g) || g == h),
{
    assert forall|g: u64| #[trigger] s.push(h).contains(g) == (s.contains(g) || g == h) by {
        if s.contains(g) {
            let j = choose|j: int| 0 <= j < s.len() && s[j] == g;
            assert(s.push(h)[j] == g);
        }
        if g == h {
            assert(s.push(h)[s.len() as int] == h);
        }
        if s.push(h).contains(g) {
            let j = choose|j: int| 0 <= j < s.len() + 1 && s.push(h)[j] == g;
            if j < s.len() {
                assert(s[j] == g);
            }
        }
    }
}

/// A handle with no link resolves nothing.
proof fn lemma_find_absent(links: Seq<FunctionLink>, h: u64, name: Seq<char>)
    requires
        forall|j: int| 0 <= j < links.len() ==> links[j].handle != h,
    ensures
        find_link(links, h, name) is None,
    decreases links.len(),
{
    if links.len() > 0 {
        lemma_find_absent(links.drop_last(), h, name);
    }
}

/// Taking out a link of another handle changes no lookup of `g`.
proof fn lemma_find_remove_other(links: Seq<FunctionLink>, k: int, g: u64, name: Seq<char>)
    requires
        0 <= k < links.len(),
        links[k].handle != g,
    ensures
        find_link(links.remove(k), g, name) == find_link(links, g, name),
    decreases links.len(),
{
    if k < links.len() - 1 {
        assert(links.remove(k).drop_last() =~= links.drop_last().remove(k));
        assert(links.remove(k).last() == links.last());
        lemma_find_remove_other(links.drop_last(), k, g, name);
    } else {
        assert(links.remove(k) =~= links.drop_last());
    }
}

} // verus!

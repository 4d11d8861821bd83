use vstd::prelude::*;

verus! {

/// One VM's entry in a callback table.
pub struct CallbackEntry<C> {
    pub handle: u64,
    pub callbacks: C,
}

/// The callback set that the latest entry of `h` holds.
pub open spec fn find_entry<C>(es: Seq<CallbackEntry<C>>, h: u64) -> Option<C>
    decreases es.len(),
{
    if es.len() == 0 {
        None
    } else if es.last().handle == h {
        Some(es.last().callbacks)
    } else {
        find_entry(es.drop_last(), h)
    }
}

/// The debug callback sets of the live VM instances, by handle.
pub struct CallbackTable<C> {
    entries: Vec<CallbackEntry<C>>,
}

proof fn lemma_find_entry_remove_other<C>(es: Seq<CallbackEntry<C>>, k: int, g: u64)
    requires
        0 <= k < es.len(),
        es[k].handle != g,
    ensures
        find_entry(es.remove(k), g) == find_entry(es, g),
    decreases es.len(),
{
    if k < es.len() - 1 {
        assert(es.remove(k).drop_last() =~= es.drop_last().remove(k));
        assert(es.remove(k).last() == es.last());
        lemma_find_entry_remove_other(es.drop_last(), k, g);
    } else {
        assert(es.remove(k) =~= es.drop_last());
    }
}

proof fn lemma_find_entry_absent<C>(es: Seq<CallbackEntry<C>>, h: u64)
    requires
        forall|j: int| 0 <= j < es.len() ==> es[j].handle != h,
    ensures
        find_entry(es, h) is None,
    decreases es.len(),
{
    if es.len() > 0 {
        lemma_find_entry_absent(es.drop_last(), h);
    }
}

impl<C> CallbackTable<C> {
    /// The callback set of VM `h`, if one is installed.
    pub closed spec fn get_spec(&self, h: u64) -> Option<C> {
        find_entry(self.entries@, h)
    }

    pub fn new() -> (r: CallbackTable<C>)
        ensures
            forall|h: u64| r.get_spec(h) is None,
    {
        CallbackTable { entries: Vec::new() }
    }

    /// The callback set of VM `h`, if one is installed.
    pub fn get(&self, h: u64) -> (r: Option<&C>)
        ensures
            r matches Some(c) ==> self.get_spec(h) == Some(*c),
            r is None <==> self.get_spec(h) is None,
    {
        let mut i: usize = self.entries.len();
        assert(self.entries@.subrange(0, i as int) =~= self.entries@);
        while i > 0
            invariant
                i <= self.entries@.len(),
                find_entry(self.entries@, h) == find_entry(self.entries@.subrange(0, i as int), h),
            decreases i,
        {
            proof {
                assert(self.entries@.subrange(0, i as int).drop_last() =~= self.entries@.subrange(0, i - 1));
            }
            if self.entries[i - 1].handle == h {
                return Some(&self.entries[i - 1].callbacks);
            }
            i -= 1;
        }
        None
    }

    /// Removes the callback set of VM `h`; other VMs keep theirs.
    pub fn remove(&mut self, h: u64)
        ensures
            final(self).get_spec(h) is None,
            forall|g: u64| g != h ==> #[trigger] final(self).get_spec(g) == old(self).get_spec(g),
    {
        let ghost old_es = self.entries@;
        let mut k: usize = 0;
        while k < self.entries.len()
            invariant
                k <= self.entries@.len(),
                forall|j: int| 0 <= j < k ==> self.entries@[j].handle != h,
                forall|g: u64| g != h ==> find_entry(self.entries@, g) == find_entry(old_es, g),
            decreases self.entries@.len() - k,
        {
            if self.entries[k].handle == h {
                let ghost before = self.entries@;
                let _ = self.entries.remove(k);
                proof {
                    assert forall|g: u64| g != h implies find_entry(self.entries@, g) == find_entry(before, g) by {
                        lemma_find_entry_remove_other(before, k as int, g);
                    }
                }
            } else {
                k += 1;
            }
        }
        proof {
            lemma_find_entry_absent(self.entries@, h);
        }
    }

    /// Installs `callbacks` for VM `h`, replacing a set it had.
    pub fn install(&mut self, h: u64, callbacks: C)
        ensures
            final(self).get_spec(h) == Some(callbacks),
            forall|g: u64| g != h ==> #[trigger] final(self).get_spec(g) == old(self).get_spec(g),
    {
        self.remove(h);
        let ghost mid = *self;
        let ghost before = self.entries@;
        self.entries.push(CallbackEntry { handle: h, callbacks });
        assert(self.entries@.drop_last() =~= before);
        assert forall|g: u64| g != h implies #[trigger] self.get_spec(g) == old(self).get_spec(g) by {
            assert(self.entries@.drop_last() =~= before);
            assert(find_entry(self.entries@, g) == find_entry(before, g));
            assert(mid.get_spec(g) == old(self).get_spec(g));
        }
    }
}

} // verus!

use vstd::prelude::*;
use crate::binding::{adapter_matches, adapter_spec, Adapter, BindingDeclaration, ReceiverMode, WireKind};
use crate::error::{BindingError, SquirrelError};
use crate::params::{domain_spec, script_name_spec, text_eq};
use crate::registry::HandleRegistry;
use crate::vm::SquirrelVM;

verus! {

/// One generated binding: the name scripts call it by and its adapter.
pub struct Binding {
    pub name: String,
    pub adapter: Adapter,
}

/// The registration unit of one domain: installs all of the domain's
/// bindings into a VM.
pub struct Registrar {
    pub domain: String,
    pub bindings: Vec<Binding>,
}

/// The adapter that the last binding named `n` holds, if any.
pub open spec fn find_binding(bs: Seq<Binding>, n: Seq<char>) -> Option<(usize, ReceiverMode, Seq<WireKind>, bool)>
    decreases bs.len(),
{
    if bs.len() == 0 {
        None
    } else if bs.last().name@ == n {
        Some(bs.last().adapter@)
    } else {
        find_binding(bs.drop_last(), n)
    }
}

/// How installing the bindings `bs` on VM `h` changes a registry: each name
/// of `bs` on that VM resolves to its (last) binding's adapter, when `added`;
/// nothing else changes.
pub open spec fn bindings_added(before: HandleRegistry, after: HandleRegistry, h: u64, bs: Seq<Binding>, added: bool) -> bool {
    &&& forall|g: u64| #[trigger] after.is_live(g) == before.is_live(g)
    &&& forall|g: u64, n: Seq<char>| #[trigger] after.lookup_spec(g, n) == if added && g == h && find_binding(bs, n) is Some {
        find_binding(bs, n)
    } else {
        before.lookup_spec(g, n)
    }
}

/// An adapter found among bindings is the adapter of one of them.
proof fn lemma_find_binding_member(bs: Seq<Binding>, n: Seq<char>)
    requires
        find_binding(bs, n) is Some,
    ensures
        exists|k: int| 0 <= k < bs.len() && (#[trigger] bs[k]).adapter@ == find_binding(bs, n)->Some_0,
    decreases bs.len(),
{
    if bs.last().name@ != n {
        lemma_find_binding_member(bs.drop_last(), n);
        let k = choose|k: int| 0 <= k < bs.drop_last().len() && (#[trigger] bs.drop_last()[k]).adapter@ == find_binding(bs, n)->Some_0;
        assert(bs[k] == bs.drop_last()[k]);
    } else {
        assert(bs[bs.len() - 1] == bs.last());
    }
}

/// Domain isolation: declarations of two domains give two registrars, and
/// running one registrar's `add_functions` installs only adapters of its own
/// domain's declarations, never one of the other domain.
pub proof fn lemma_domain_isolation(
    ds: Seq<BindingDeclaration>,
    rs: Seq<Registrar>,
    x: int,
    y: int,
    before: HandleRegistry,
    after: HandleRegistry,
    h: u64,
    added: bool,
)
    requires
        grouped(ds, rs, ds.len() as int),
        0 <= x < rs.len(),
        0 <= y < rs.len(),
        x != y,
        bindings_added(before, after, h, rs[x].bindings@, added),
    ensures
        rs[x].domain@ != rs[y].domain@,
        forall|g: u64, n: Seq<char>| #[trigger] after.lookup_spec(g, n) != before.lookup_spec(g, n) ==> {
            &&& g == h
            &&& after.lookup_spec(g, n) is Some
            &&& decl_domain(ds[after.lookup_spec(g, n)->Some_0.0 as int]) == rs[x].domain@
            &&& decl_domain(ds[after.lookup_spec(g, n)->Some_0.0 as int]) != rs[y].domain@
        },
{
    if x < y {
        assert(rs[x].domain@ != rs[y].domain@);
    } else {
        assert(rs[y].domain@ != rs[x].domain@);
    }
    assert forall|g: u64, n: Seq<char>| #[trigger] after.lookup_spec(g, n) != before.lookup_spec(g, n) implies {
        &&& g == h
        &&& after.lookup_spec(g, n) is Some
        &&& decl_domain(ds[after.lookup_spec(g, n)->Some_0.0 as int]) == rs[x].domain@
        &&& decl_domain(ds[after.lookup_spec(g, n)->Some_0.0 as int]) != rs[y].domain@
    } by {
        let bs = rs[x].bindings@;
        lemma_find_binding_member(bs, n);
        let k = choose|k: int| 0 <= k < bs.len() && (#[trigger] bs[k]).adapter@ == find_binding(bs, n)->Some_0;
        let b = rs[x].bindings@[k];
        assert(decl_domain(ds[b.adapter.target as int]) == rs[x].domain@);
    }
}

/// Whether no two bindings share a name.
pub open spec fn names_distinct(bs: Seq<Binding>) -> bool {
    forall|k: int, l: int| 0 <= k < l < bs.len() ==> (#[trigger] bs[k]).name@ != (#[trigger] bs[l]).name@
}

/// Whether the bindings `bs` can all be registered on VM `h`: there are none,
/// or the VM has a table, their names are distinct and none is taken yet.
pub open spec fn can_register(reg: HandleRegistry, h: u64, bs: Seq<Binding>) -> bool {
    bs.len() == 0 || (reg.is_live(h) && names_distinct(bs) && forall|k: int| 0 <= k < bs.len() ==> reg.lookup_spec(h, (#[trigger] bs[k]).name@) is None)
}

/// Bindings none of which is named `n` resolve nothing under `n`.
proof fn lemma_find_binding_absent(bs: Seq<Binding>, n: Seq<char>)
    requires
        forall|k: int| 0 <= k < bs.len() ==> (#[trigger] bs[k]).name@ != n,
    ensures
        find_binding(bs, n) is None,
    decreases bs.len(),
{
    if bs.len() > 0 {
        assert(bs[bs.len() - 1] == bs.last());
        assert forall|k: int| 0 <= k < bs.drop_last().len() implies (#[trigger] bs.drop_last()[k]).name@ != n by {
            assert(bs.drop_last()[k] == bs[k]);
        }
        lemma_find_binding_absent(bs.drop_last(), n);
    }
}

impl Registrar {
    /// Registers every binding of the domain on `vm`, all or none: a VM
    /// without a table, a name the VM already has, or a name given twice
    /// aborts the registration before anything is installed.
    pub fn add_functions(&self, vm: &SquirrelVM, registry: &mut HandleRegistry) -> (r: Result<(), SquirrelError>)
        requires
            old(registry).wf(),
        ensures
            final(registry).wf(),
            r is Ok <==> can_register(*old(registry), vm.handle_spec(), self.bindings@),
            r is Err ==> *final(registry) == *old(registry),
            bindings_added(*old(registry), *final(registry), vm.handle_spec(), self.bindings@, r is Ok),
    {
        let h = vm.handle();
        let n = self.bindings.len();
        if n == 0 {
            assert(self.bindings@.subrange(0, 0) =~= self.bindings@);
            return Ok(());
        }
        if !registry.contains(h) {
            return Err(SquirrelError::CouldNotAddFunction);
        }
        let mut k: usize = 0;
        while k < n
            invariant
                n == self.bindings@.len(),
                h == vm.handle_spec(),
                *registry == *old(registry),
                registry.wf(),
                k <= n,
                forall|j: int| 0 <= j < k ==> registry.lookup_spec(h, (#[trigger] self.bindings@[j]).name@) is None,
                forall|j: int, l: int| 0 <= j < l < k ==> (#[trigger] self.bindings@[j]).name@ != (#[trigger] self.bindings@[l]).name@,
            decreases n - k,
        {
            let name = &self.bindings[k].name;
            if registry.lookup(h, name.as_str()).is_some() {
                return Err(SquirrelError::FunctionNameTaken(name.clone()));
            }
            let mut l: usize = 0;
            while l < k
                invariant
                    n == self.bindings@.len(),
                    h == vm.handle_spec(),
                    *registry == *old(registry),
                    registry.wf(),
                    l <= k < n,
                    name@ == self.bindings@[k as int].name@,
                    forall|j: int| 0 <= j < l ==> (#[trigger] self.bindings@[j]).name@ != name@,
                decreases k - l,
            {
                if text_eq(self.bindings[l].name.as_str(), name.as_str()) {
                    return Err(SquirrelError::FunctionNameTaken(name.clone()));
                }
                l += 1;
            }
            k += 1;
        }
        let mut i: usize = 0;
        while i < n
            invariant
                n == self.bindings@.len(),
                h == vm.handle_spec(),
                i <= n,
                registry.wf(),
                old(registry).is_live(h),
                names_distinct(self.bindings@),
                forall|j: int| 0 <= j < n ==> old(registry).lookup_spec(h, (#[trigger] self.bindings@[j]).name@) is None,
                forall|g: u64| #[trigger] registry.is_live(g) == old(registry).is_live(g),
                forall|g: u64, m: Seq<char>| #[trigger] registry.lookup_spec(g, m) == if g == h
                    && find_binding(self.bindings@.subrange(0, i as int), m) is Some {
                    find_binding(self.bindings@.subrange(0, i as int), m)
                } else {
                    old(registry).lookup_spec(g, m)
                },
            decreases n - i,
        {
            let b = &self.bindings[i];
            proof {
                let pre = self.bindings@.subrange(0, i as int);
                assert forall|j: int| 0 <= j < pre.len() implies (#[trigger] pre[j]).name@ != b.name@ by {
                    assert(pre[j] == self.bindings@[j]);
                }
                lemma_find_binding_absent(pre, b.name@);
            }
            let res = vm.add_function(registry, b.name.clone(), b.adapter.duplicate());
            assert(res is Ok);
            proof {
                let bs = self.bindings@.subrange(0, i + 1);
                assert(bs.drop_last() =~= self.bindings@.subrange(0, i as int));
                assert(bs.last() == self.bindings@[i as int]);
            }
            i += 1;
        }
        assert(self.bindings@.subrange(0, i as int) =~= self.bindings@);
        Ok(())
    }
}

/// The domain a declaration is grouped under.
pub open spec fn decl_domain(d: BindingDeclaration) -> Seq<char> {
    domain_spec(d.params)
}

/// The name scripts call a declaration by.
pub open spec fn decl_name(d: BindingDeclaration) -> Seq<char> {
    script_name_spec(d.params, d.ident)@
}

/// Whether every declaration has an adapter, declaration `i` being host function `i`.
pub open spec fn all_adapters_ok(ds: Seq<BindingDeclaration>) -> bool {
    forall|i: int| 0 <= i < ds.len() ==> (#[trigger] adapter_spec(ds[i], i as usize)) is Ok
}

/// Whether no two declarations share a domain and a script name.
pub open spec fn no_duplicates(ds: Seq<BindingDeclaration>) -> bool {
    forall|i: int, j: int| 0 <= i < j < ds.len() ==> !(decl_domain(#[trigger] ds[i]) == decl_domain(#[trigger] ds[j])
        && decl_name(ds[i]) == decl_name(ds[j]))
}

/// Whether `rs` groups the first `m` declarations of `ds` by domain: one registrar
/// per domain, none empty, and each declaration's binding in its domain's
/// registrar, under its script name, with its adapter.
pub open spec fn grouped(ds: Seq<BindingDeclaration>, rs: Seq<Registrar>, m: int) -> bool {
    &&& forall|a: int, b: int| 0 <= a < b < rs.len() ==> (#[trigger] rs[a]).domain@ != (#[trigger] rs[b]).domain@
    &&& forall|a: int| 0 <= a < rs.len() ==> (#[trigger] rs[a]).bindings@.len() > 0
    &&& forall|a: int, k: int| 0 <= a < rs.len() && 0 <= k < rs[a].bindings@.len() ==> {
        let b = #[trigger] rs[a].bindings@[k];
        &&& 0 <= b.adapter.target < m
        &&& decl_domain(ds[b.adapter.target as int]) == rs[a].domain@
        &&& decl_name(ds[b.adapter.target as int]) == b.name@
        &&& adapter_matches(b.adapter, ds[b.adapter.target as int], b.adapter.target)
    }
    &&& forall|i: int| 0 <= i < m ==> #[trigger] holds_target(rs, i)
    &&& bound_once(rs)
}

/// Whether no two bindings in `rs` are of the same host function.
pub open spec fn bound_once(rs: Seq<Registrar>) -> bool {
    forall|a: int, k: int, b: int, l: int|
        0 <= a < rs.len() && 0 <= k < rs[a].bindings@.len() && 0 <= b < rs.len() && 0 <= l < rs[b].bindings@.len()
            && (#[trigger] rs[a].bindings@[k]).adapter.target == (#[trigger] rs[b].bindings@[l]).adapter.target
            ==> a == b && k == l
}

/// Whether some registrar holds the binding of host function `i`.
pub open spec fn holds_target(rs: Seq<Registrar>, i: int) -> bool {
    exists|a: int, k: int| 0 <= a < rs.len() && 0 <= k < rs[a].bindings@.len()
        && (#[trigger] rs[a].bindings@[k]).adapter.target == i
}

fn find_registrar(rs: &Vec<Registrar>, domain: &String) -> (r: Option<usize>)
    ensures
        r matches Some(a) ==> a < rs@.len() && rs@[a as int].domain@ == domain@,
        r is None ==> forall|a: int| 0 <= a < rs@.len() ==> rs@[a].domain@ != domain@,
{
    let mut a: usize = 0;
    while a < rs.len()
        invariant
            a <= rs@.len(),
            forall|j: int| 0 <= j < a ==> rs@[j].domain@ != domain@,
        decreases rs@.len() - a,
    {
        if text_eq(rs[a].domain.as_str(), domain.as_str()) {
            return Some(a);
        }
        a += 1;
    }
    None
}

fn has_binding(bs: &Vec<Binding>, name: &String) -> (r: bool)
    ensures
        r == exists|k: int| 0 <= k < bs@.len() && (#[trigger] bs@[k]).name@ == name@,
{
    let mut k: usize = 0;
    while k < bs.len()
        invariant
            k <= bs@.len(),
            forall|j: int| 0 <= j < k ==> bs@[j].name@ != name@,
        decreases bs@.len() - k,
    {
        if text_eq(bs[k].name.as_str(), name.as_str()) {
            return true;
        }
        k += 1;
    }
    false
}

/// Generates the adapters of `decls` (declaration `i` as host function `i`)
/// and groups them into one registrar per domain. Fails when a declaration has
/// no adapter or when two declarations share a domain and a script name.
pub fn build_domain_initalization(decls: &Vec<BindingDeclaration>) -> (r: Result<Vec<Registrar>, BindingError>)
    ensures
        r is Ok <==> all_adapters_ok(decls@) && no_duplicates(decls@),
        r matches Ok(rs) ==> grouped(decls@, rs@, decls@.len() as int),
        r matches Err(e) ==> (exists|i: int| 0 <= i < decls@.len()
            && adapter_spec(#[trigger] decls@[i], i as usize) == Err::<(ReceiverMode, Seq<WireKind>, bool), BindingError>(e))
            || e is DuplicateBinding,
{
    let mut rs: Vec<Registrar> = Vec::new();
    let mut i: usize = 0;
    while i < decls.len()
        invariant
            i <= decls@.len(),
            all_adapters_ok(decls@.subrange(0, i as int)),
            no_duplicates(decls@.subrange(0, i as int)),
            grouped(decls@, rs@, i as int),
        decreases decls@.len() - i,
    {
        let d = &decls[i];
        let adapter = match d.build_adapter(i) {
            Ok(a) => a,
            Err(e) => {
                proof {
                    assert(!all_adapters_ok(decls@)) by {
                        assert(adapter_spec(decls@[i as int], (i as int) as usize) is Err);
                    }
                }
                return Err(e);
            },
        };
        let name = d.params.script_name(&d.ident);
        let domain = d.params.domain_name();
        let ghost rs0 = rs@;
        match find_registrar(&rs, &domain) {
            Some(a) => {
                if has_binding(&rs[a].bindings, &name) {
                    proof {
                        let k = choose|k: int| 0 <= k < rs@[a as int].bindings@.len() && (#[trigger] rs@[a as int].bindings@[k]).name@ == name@;
                        let j = rs@[a as int].bindings@[k].adapter.target as int;
                        assert(decls@[j] == decls@.subrange(0, i as int)[j]);
                        assert(!no_duplicates(decls@)) by {
                            assert(decl_domain(decls@[j]) == decl_domain(decls@[i as int]));
                            assert(decl_name(decls@[j]) == decl_name(decls@[i as int]));
                        }
                    }
                    return Err(BindingError::DuplicateBinding(name));
                }
                let mut reg = rs.remove(a);
                let ghost rs1 = rs@;
                let ghost old_bs = reg.bindings@;
                reg.bindings.push(Binding { name, adapter });
                rs.insert(a, reg);
                proof {
                    assert(rs@ == rs0.update(a as int, rs@[a as int]));
                    assert(rs@[a as int].bindings@ == old_bs.push(rs@[a as int].bindings@.last()));
                    assert forall|x: int, y: int| 0 <= x < y < rs@.len() implies (#[trigger] rs@[x]).domain@ != (#[trigger] rs@[y]).domain@ by {
                        assert(rs@[x].domain@ == rs0[x].domain@);
                        assert(rs@[y].domain@ == rs0[y].domain@);
                    }
                    assert forall|x: int, k: int| 0 <= x < rs@.len() && 0 <= k < rs@[x].bindings@.len() implies {
                        let b = #[trigger] rs@[x].bindings@[k];
                        &&& 0 <= b.adapter.target < i + 1
                        &&& decl_domain(decls@[b.adapter.target as int]) == rs@[x].domain@
                        &&& decl_name(decls@[b.adapter.target as int]) == b.name@
                        &&& adapter_matches(b.adapter, decls@[b.adapter.target as int], b.adapter.target)
                    } by {
                        if x != a || k < old_bs.len() {
                            assert(rs@[x].bindings@[k] == rs0[x].bindings@[k]);
                        }
                    }
                    assert forall|x: int, k: int, y: int, l: int|
                        0 <= x < rs@.len() && 0 <= k < rs@[x].bindings@.len() && 0 <= y < rs@.len() && 0 <= l < rs@[y].bindings@.len()
                            && (#[trigger] rs@[x].bindings@[k]).adapter.target == (#[trigger] rs@[y].bindings@[l]).adapter.target
                        implies x == y && k == l by {
                        let nx = x == a && k == old_bs.len();
                        let ny = y == a && l == old_bs.len();
                        if !nx {
                            assert(rs@[x].bindings@[k] == rs0[x].bindings@[k]);
                        }
                        if !ny {
                            assert(rs@[y].bindings@[l] == rs0[y].bindings@[l]);
                        }
                    }
                    assert forall|j: int| 0 <= j < i + 1 implies #[trigger] holds_target(rs@, j) by {
                        if j < i {
                            assert(holds_target(rs0, j));
                            let (x, k) = choose|x: int, k: int| 0 <= x < rs0.len() && 0 <= k < rs0[x].bindings@.len()
                                && (#[trigger] rs0[x].bindings@[k]).adapter.target == j;
                            if x != a || k < old_bs.len() {
                                assert(rs@[x].bindings@[k] == rs0[x].bindings@[k]);
                            }
                        } else {
                            assert(rs@[a as int].bindings@[old_bs.len() as int].adapter.target == j);
                        }
                    }
                }
            },
            None => {
                let mut bindings: Vec<Binding> = Vec::new();
                bindings.push(Binding { name, adapter });
                rs.push(Registrar { domain, bindings });
                proof {
                    assert forall|x: int, k: int| 0 <= x < rs@.len() && 0 <= k < rs@[x].bindings@.len() implies {
                        let b = #[trigger] rs@[x].bindings@[k];
                        &&& 0 <= b.adapter.target < i + 1
                        &&& decl_domain(decls@[b.adapter.target as int]) == rs@[x].domain@
                        &&& decl_name(decls@[b.adapter.target as int]) == b.name@
                        &&& adapter_matches(b.adapter, decls@[b.adapter.target as int], b.adapter.target)
                    } by {
                        if x < rs0.len() {
                            assert(rs@[x] == rs0[x]);
                        }
                    }
                    assert forall|x: int, k: int, y: int, l: int|
                        0 <= x < rs@.len() && 0 <= k < rs@[x].bindings@.len() && 0 <= y < rs@.len() && 0 <= l < rs@[y].bindings@.len()
                            && (#[trigger] rs@[x].bindings@[k]).adapter.target == (#[trigger] rs@[y].bindings@[l]).adapter.target
                        implies x == y && k == l by {
                        if x < rs0.len() {
                            assert(rs@[x] == rs0[x]);
                        }
                        if y < rs0.len() {
                            assert(rs@[y] == rs0[y]);
                        }
                    }
                    assert forall|j: int| 0 <= j < i + 1 implies #[trigger] holds_target(rs@, j) by {
                        if j < i {
                            assert(holds_target(rs0, j));
                            let (x, k) = choose|x: int, k: int| 0 <= x < rs0.len() && 0 <= k < rs0[x].bindings@.len()
                                && (#[trigger] rs0[x].bindings@[k]).adapter.target == j;
                            assert(rs@[x] == rs0[x]);
                        } else {
                            assert(rs@[rs0.len() as int].bindings@[0].adapter.target == j);
                        }
                    }
                }
            },
        }
        proof {
            let ds1 = decls@.subrange(0, i + 1);
            assert forall|j: int| 0 <= j < ds1.len() implies (#[trigger] adapter_spec(ds1[j], j as usize)) is Ok by {
                if j < i {
                    assert(ds1[j] == decls@.subrange(0, i as int)[j]);
                }
            }
            assert forall|x: int, y: int| 0 <= x < y < ds1.len() implies !(decl_domain(#[trigger] ds1[x]) == decl_domain(#[trigger] ds1[y])
                && decl_name(ds1[x]) == decl_name(ds1[y])) by {
                if y < i {
                    assert(ds1[x] == decls@.subrange(0, i as int)[x]);
                    assert(ds1[y] == decls@.subrange(0, i as int)[y]);
                } else {
                    if decl_domain(ds1[x]) == decl_domain(ds1[y]) && decl_name(ds1[x]) == decl_name(ds1[y]) {
                        // the earlier one sits in the registrar of this domain under this name
                        assert(holds_target(rs0, x));
                        let (a, k) = choose|a: int, k: int| 0 <= a < rs0.len() && 0 <= k < rs0[a].bindings@.len()
                            && (#[trigger] rs0[a].bindings@[k]).adapter.target == x;
                        assert(false);
                    }
                }
            }
        }
        i += 1;
    }
    assert(decls@.subrange(0, i as int) =~= decls@);
    Ok(rs)
}

} // verus!

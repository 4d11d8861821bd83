use vstd::prelude::*;
use crate::binding::{BindingDeclaration, Parameter, TargetKind};
use crate::error::BindingError;
use crate::config::views;
use crate::params::{params_spec, text_eq, AttrArg, SqcrabParams};

verus! {

/// An attribute on a source item: its name, and its `key = value` arguments
/// when it has an argument list.
pub struct SourceAttr {
    pub name: String,
    pub args: Option<Vec<AttrArg>>,
}

/// A function or method found in a source file.
pub struct SourceFn {
    pub attrs: Vec<SourceAttr>,
    pub ident: String,
    pub parameters: Vec<Parameter>,
    /// The return type's name; `None` when there is none.
    pub return_type: Option<String>,
}

/// A top-level item of a source file, as far as binding scanning reads it.
pub enum SourceItem {
    Fn(SourceFn),
    /// An implementation block; `self_type` is the implemented type's literal
    /// name when that is a plain name.
    Impl { attrs: Vec<SourceAttr>, self_type: Option<String>, methods: Vec<SourceFn> },
    /// A struct declaration, by name.
    Struct { name: String },
    Other,
}

/// The attribute that marks a bound function or method.
pub const BINDING_ATTR: &'static str = "sqcrab";

/// The attribute that opts an implementation block into scanning.
pub const HINT_ATTR: &'static str = "sqcrab_hint";

/// The first attribute named `name`, if any.
pub open spec fn first_attr(attrs: Seq<SourceAttr>, name: Seq<char>) -> Option<SourceAttr>
    decreases attrs.len(),
{
    if attrs.len() == 0 {
        None
    } else if attrs[0].name@ == name {
        Some(attrs[0])
    } else {
        first_attr(attrs.drop_first(), name)
    }
}

/// The declaration of a bound function or method, `None` when `f` is not bound.
pub open spec fn decl_of(f: SourceFn, kind: TargetKind, enclosing: Option<String>) -> Option<Result<BindingDeclaration, BindingError>> {
    match first_attr(f.attrs@, BINDING_ATTR@) {
        None => None,
        Some(a) => Some(
            match a.args {
                None => Err(BindingError::MalformedAttribute),
                Some(args) => match params_spec(args@) {
                    Err(e) => Err(e),
                    Ok(p) => Ok(BindingDeclaration {
                        target_kind: kind,
                        ident: f.ident,
                        enclosing_type: enclosing,
                        params: p,
                        parameters: f.parameters,
                        return_type: f.return_type,
                    }),
                },
            },
        ),
    }
}

/// The declarations of the bound functions among `fs`, in order, or the first error.
pub open spec fn fns_decls(fs: Seq<SourceFn>, kind: TargetKind, enclosing: Option<String>) -> Result<Seq<BindingDeclaration>, BindingError>
    decreases fs.len(),
{
    if fs.len() == 0 {
        Ok(Seq::empty())
    } else {
        match fns_decls(fs.drop_last(), kind, enclosing) {
            Err(e) => Err(e),
            Ok(ds) => match decl_of(fs.last(), kind, enclosing) {
                None => Ok(ds),
                Some(Err(e)) => Err(e),
                Some(Ok(d)) => Ok(ds.push(d)),
            },
        }
    }
}

/// The declarations one item gives: a bound free function, or the bound
/// methods of a hinted implementation block (named by its literal type).
pub open spec fn item_decls(item: SourceItem) -> Result<Seq<BindingDeclaration>, BindingError> {
    match item {
        SourceItem::Fn(f) => fns_decls(seq![f], TargetKind::Function, None),
        SourceItem::Impl { attrs, self_type, methods } => if first_attr(attrs@, HINT_ATTR@) is Some {
            fns_decls(methods@, TargetKind::Method, self_type)
        } else {
            Ok(Seq::empty())
        },
        SourceItem::Struct { .. } => Ok(Seq::empty()),
        SourceItem::Other => Ok(Seq::empty()),
    }
}

/// The names of the structs declared among `items`, in order.
pub open spec fn declared_structs_spec(items: Seq<SourceItem>) -> Seq<Seq<char>>
    decreases items.len(),
{
    if items.len() == 0 {
        Seq::empty()
    } else {
        match items.last() {
            SourceItem::Struct { name } => declared_structs_spec(items.drop_last()).push(name@),
            _ => declared_structs_spec(items.drop_last()),
        }
    }
}

/// The names of the structs declared among `items`, in order.
pub fn declared_structs(items: &Vec<SourceItem>) -> (r: Vec<String>)
    ensures
        views(r@) == declared_structs_spec(items@),
{
    let mut out: Vec<String> = Vec::new();
    let mut i: usize = 0;
    while i < items.len()
        invariant
            i <= items@.len(),
            views(out@) == declared_structs_spec(items@.subrange(0, i as int)),
        decreases items@.len() - i,
    {
        proof {
            assert(items@.subrange(0, i + 1).drop_last() =~= items@.subrange(0, i as int));
        }
        match &items[i] {
            SourceItem::Struct { name } => {
                out.push(name.clone());
                assert(views(out@) =~= declared_structs_spec(items@.subrange(0, i + 1)));
            },
            _ => {},
        }
        i += 1;
    }
    assert(items@.subrange(0, i as int) =~= items@);
    out
}

/// The declarations of a whole file, in order; any bad attribute fails it all.
pub open spec fn items_decls(items: Seq<SourceItem>) -> Result<Seq<BindingDeclaration>, BindingError>
    decreases items.len(),
{
    if items.len() == 0 {
        Ok(Seq::empty())
    } else {
        match items_decls(items.drop_last()) {
            Err(e) => Err(e),
            Ok(ds) => match item_decls(items.last()) {
                Err(e) => Err(e),
                Ok(more) => Ok(ds + more),
            },
        }
    }
}

fn find_attr<'a>(attrs: &'a Vec<SourceAttr>, name: &str) -> (r: Option<&'a SourceAttr>)
    ensures
        r matches Some(a) ==> first_attr(attrs@, name@) == Some(*a),
        r is None <==> first_attr(attrs@, name@) is None,
{
    let mut i: usize = 0;
    assert(attrs@.subrange(0, attrs@.len() as int) =~= attrs@);
    while i < attrs.len()
        invariant
            i <= attrs@.len(),
            first_attr(attrs@, name@) == first_attr(attrs@.subrange(i as int, attrs@.len() as int), name@),
        decreases attrs@.len() - i,
    {
        let ghost rest = attrs@.subrange(i as int, attrs@.len() as int);
        assert(rest.drop_first() =~= attrs@.subrange(i + 1, attrs@.len() as int));
        if text_eq(attrs[i].name.as_str(), name) {
            return Some(&attrs[i]);
        }
        i += 1;
    }
    None
}

fn decl_from(f: SourceFn, kind: TargetKind, enclosing: Option<String>) -> (r: Option<Result<BindingDeclaration, BindingError>>)
    ensures
        r == decl_of(f, kind, enclosing),
{
    let params = match find_attr(&f.attrs, BINDING_ATTR) {
        None => {
            return None;
        },
        Some(a) => match &a.args {
            None => {
                return Some(Err(BindingError::MalformedAttribute));
            },
            Some(args) => SqcrabParams::from_args(args),
        },
    };
    match params {
        Err(e) => Some(Err(e)),
        Ok(p) => Some(
            Ok(BindingDeclaration {
                target_kind: kind,
                ident: f.ident,
                enclosing_type: enclosing,
                params: p,
                parameters: f.parameters,
                return_type: f.return_type,
            }),
        ),
    }
}

fn clone_name(s: &Option<String>) -> (r: Option<String>)
    ensures
        r == *s,
{
    match s {
        Some(n) => Some(n.clone()),
        None => None,
    }
}

fn push_decls(out: &mut Vec<BindingDeclaration>, fs: Vec<SourceFn>, kind: TargetKind, enclosing: Option<String>) -> (r: Result<(), BindingError>)
    ensures
        match fns_decls(fs@, kind, enclosing) {
            Ok(ds) => r is Ok && final(out)@ == old(out)@ + ds,
            Err(e) => r == Err::<(), BindingError>(e),
        },
{
    let ghost all = fs@;
    let ghost start = out@;
    let total = fs.len();
    let mut rest = fs;
    let mut i: usize = 0;
    while rest.len() > 0
        invariant
            i + rest@.len() == total,
            total == all.len(),
            all == fs@,
            rest@ == all.subrange(i as int, all.len() as int),
            fns_decls(all.subrange(0, i as int), kind, enclosing) matches Ok(ds) && out@ == start + ds,
        decreases rest@.len(),
    {
        let f = rest.remove(0);
        proof {
            assert(all.subrange(0, i + 1).drop_last() =~= all.subrange(0, i as int));
            assert(all.subrange(0, i + 1).last() == f);
            assert(rest@ =~= all.subrange(i + 1, all.len() as int));
        }
        match decl_from(f, kind, clone_name(&enclosing)) {
            None => {},
            Some(Err(e)) => {
                proof {
                    assert(fns_decls(all.subrange(0, i + 1), kind, enclosing) == Err::<Seq<BindingDeclaration>, BindingError>(e));
                    lemma_fns_error_sticks(all, i as int + 1, kind, enclosing);
                    assert(fns_decls(all, kind, enclosing) == Err::<Seq<BindingDeclaration>, BindingError>(e));
                }
                return Err(e);
            },
            Some(Ok(d)) => {
                out.push(d);
                proof {
                    let ds = fns_decls(all.subrange(0, i as int), kind, enclosing)->Ok_0;
                    assert(out@ =~= start + ds.push(d));
                }
            },
        }
        i += 1;
    }
    assert(all.subrange(0, i as int) =~= all);
    Ok(())
}

proof fn lemma_fns_error_sticks(fs: Seq<SourceFn>, k: int, kind: TargetKind, enclosing: Option<String>)
    requires
        0 <= k <= fs.len(),
        fns_decls(fs.subrange(0, k), kind, enclosing) is Err,
    ensures
        fns_decls(fs, kind, enclosing) == fns_decls(fs.subrange(0, k), kind, enclosing),
    decreases fs.len() - k,
{
    if k < fs.len() {
        assert(fs.subrange(0, k + 1).drop_last() =~= fs.subrange(0, k));
        lemma_fns_error_sticks(fs, k + 1, kind, enclosing);
    } else {
        assert(fs.subrange(0, k) =~= fs);
    }
}

proof fn lemma_items_error_sticks(items: Seq<SourceItem>, k: int)
    requires
        0 <= k <= items.len(),
        items_decls(items.subrange(0, k)) is Err,
    ensures
        items_decls(items) == items_decls(items.subrange(0, k)),
    decreases items.len() - k,
{
    if k < items.len() {
        assert(items.subrange(0, k + 1).drop_last() =~= items.subrange(0, k));
        lemma_items_error_sticks(items, k + 1);
    } else {
        assert(items.subrange(0, k) =~= items);
    }
}

/// The binding declarations of a source file's items, in source order: each
/// free function with the binding attribute, and each method with it in an
/// implementation block with the hint attribute. Any malformed binding
/// attribute fails the whole scan.
pub fn collect_declarations(items: Vec<SourceItem>) -> (r: Result<Vec<BindingDeclaration>, BindingError>)
    ensures
        match items_decls(items@) {
            Ok(ds) => r matches Ok(v) && v@ == ds,
            Err(e) => r == Err::<Vec<BindingDeclaration>, BindingError>(e),
        },
{
    let ghost all = items@;
    let total = items.len();
    let mut rest = items;
    let mut out: Vec<BindingDeclaration> = Vec::new();
    let mut i: usize = 0;
    while rest.len() > 0
        invariant
            i + rest@.len() == total,
            total == all.len(),
            all == items@,
            rest@ == all.subrange(i as int, all.len() as int),
            items_decls(all.subrange(0, i as int)) == Ok::<Seq<BindingDeclaration>, BindingError>(out@),
        decreases rest@.len(),
    {
        let item = rest.remove(0);
        proof {
            assert(all.subrange(0, i + 1).drop_last() =~= all.subrange(0, i as int));
            assert(all.subrange(0, i + 1).last() == item);
            assert(rest@ =~= all.subrange(i + 1, all.len() as int));
        }
        let ghost before = out@;
        let res = match item {
            SourceItem::Fn(f) => {
                let mut one: Vec<SourceFn> = Vec::new();
                one.push(f);
                proof {
                    assert(one@ =~= seq![f]);
                }
                push_decls(&mut out, one, TargetKind::Function, None)
            },
            SourceItem::Impl { attrs, self_type, methods } => {
                if find_attr(&attrs, HINT_ATTR).is_some() {
                    push_decls(&mut out, methods, TargetKind::Method, self_type)
                } else {
                    Ok(())
                }
            },
            SourceItem::Struct { .. } => Ok(()),
            SourceItem::Other => Ok(()),
        };
        match res {
            Err(e) => {
                proof {
                    assert(item_decls(item) == Err::<Seq<BindingDeclaration>, BindingError>(e));
                    assert(items_decls(all.subrange(0, i + 1)) == Err::<Seq<BindingDeclaration>, BindingError>(e));
                    lemma_items_error_sticks(all, i as int + 1);
                }
                return Err(e);
            },
            Ok(()) => {
                proof {
                    assert(out@ =~= before + item_decls(item)->Ok_0);
                }
            },
        }
        i += 1;
    }
    assert(all.subrange(0, i as int) =~= all);
    Ok(out)
}

} // verus!

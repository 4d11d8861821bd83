use vstd::prelude::*;
use crate::error::BindingError;

verus! {

/// The value on the right of one `key = value` attribute argument.
pub enum AttrValue {
    Str(String),
    Bool(bool),
    /// Any other expression.
    Other,
}

/// One `key = value` argument of a binding attribute; `key` is `None` when
/// the left side is not a plain identifier.
pub struct AttrArg {
    pub key: Option<String>,
    pub value: AttrValue,
}

/// The options of one binding attribute.
pub struct SqcrabParams {
    pub name: Option<String>,
    pub domain: Option<String>,
    pub type_checking: bool,
    pub local_pointer: bool,
}

/// The domain of a binding that names none.
pub const DEFAULT_DOMAIN: &'static str = "Default";

pub open spec fn default_params() -> SqcrabParams {
    SqcrabParams { name: None, domain: None, type_checking: false, local_pointer: false }
}

/// The effect of one argument on the options gathered so far.
pub open spec fn apply_arg(p: SqcrabParams, a: AttrArg) -> Result<SqcrabParams, BindingError> {
    match a.key {
        None => Err(BindingError::MissingIdentifier),
        Some(k) => if k@ == "name"@ {
            match a.value {
                AttrValue::Str(s) => Ok(SqcrabParams { name: Some(s), ..p }),
                _ => Err(BindingError::WrongValueType(k)),
            }
        } else if k@ == "domain"@ {
            match a.value {
                AttrValue::Str(s) => Ok(SqcrabParams { domain: Some(s), ..p }),
                _ => Err(BindingError::WrongValueType(k)),
            }
        } else if k@ == "type_checking"@ {
            match a.value {
                AttrValue::Bool(b) => Ok(SqcrabParams { type_checking: b, ..p }),
                _ => Err(BindingError::WrongValueType(k)),
            }
        } else if k@ == "local_pointer"@ {
            match a.value {
                AttrValue::Bool(b) => Ok(SqcrabParams { local_pointer: b, ..p }),
                _ => Err(BindingError::WrongValueType(k)),
            }
        } else {
            Err(BindingError::UnknownParameter(k))
        },
    }
}

/// The options that an argument list gives: arguments apply left to right,
/// a later one overriding an earlier one, and the first bad argument is the error.
pub open spec fn params_spec(args: Seq<AttrArg>) -> Result<SqcrabParams, BindingError>
    decreases args.len(),
{
    if args.len() == 0 {
        Ok(default_params())
    } else {
        match params_spec(args.drop_last()) {
            Ok(p) => apply_arg(p, args.last()),
            Err(e) => Err(e),
        }
    }
}

/// Whether two texts are equal.
pub fn text_eq(a: &str, b: &str) -> (r: bool)
    ensures
        r == (a@ == b@),
{
    let x = a.to_owned();
    let y = b.to_owned();
    x == y
}

fn apply_arg_exec(p: SqcrabParams, a: &AttrArg) -> (r: Result<SqcrabParams, BindingError>)
    ensures
        r == apply_arg(p, *a),
{
    match &a.key {
        None => Err(BindingError::MissingIdentifier),
        Some(k) => {
            if text_eq(k.as_str(), "name") {
                match &a.value {
                    AttrValue::Str(s) => Ok(SqcrabParams { name: Some(s.clone()), ..p }),
                    _ => Err(BindingError::WrongValueType(k.clone())),
                }
            } else if text_eq(k.as_str(), "domain") {
                match &a.value {
                    AttrValue::Str(s) => Ok(SqcrabParams { domain: Some(s.clone()), ..p }),
                    _ => Err(BindingError::WrongValueType(k.clone())),
                }
            } else if text_eq(k.as_str(), "type_checking") {
                match &a.value {
                    AttrValue::Bool(b) => Ok(SqcrabParams { type_checking: *b, ..p }),
                    _ => Err(BindingError::WrongValueType(k.clone())),
                }
            } else if text_eq(k.as_str(), "local_pointer") {
                match &a.value {
                    AttrValue::Bool(b) => Ok(SqcrabParams { local_pointer: *b, ..p }),
                    _ => Err(BindingError::WrongValueType(k.clone())),
                }
            } else {
                Err(BindingError::UnknownParameter(k.clone()))
            }
        },
    }
}

impl SqcrabParams {
    /// Reads the options from the attribute's arguments. Unknown keys and
    /// wrongly typed values are errors; absent keys keep their defaults.
    pub fn from_args(args: &Vec<AttrArg>) -> (r: Result<SqcrabParams, BindingError>)
        ensures
            r == params_spec(args@),
    {
        let mut p = SqcrabParams { name: None, domain: None, type_checking: false, local_pointer: false };
        let mut i: usize = 0;
        while i < args.len()
            invariant
                i <= args@.len(),
                params_spec(args@.subrange(0, i as int)) == Ok::<SqcrabParams, BindingError>(p),
            decreases args@.len() - i,
        {
            assert(args@.subrange(0, i + 1).drop_last() =~= args@.subrange(0, i as int));
            match apply_arg_exec(p, &args[i]) {
                Ok(q) => {
                    p = q;
                },
                Err(e) => {
                    proof {
                        lemma_params_error_sticks(args@, i as int + 1);
                    }
                    return Err(e);
                },
            }
            i += 1;
        }
        assert(args@.subrange(0, args@.len() as int) =~= args@);
        Ok(p)
    }

    /// The name scripts call the binding by: the given one, else `ident`.
    pub fn script_name(&self, ident: &String) -> (r: String)
        ensures
            r == script_name_spec(*self, *ident),
    {
        match &self.name {
            Some(n) => n.clone(),
            None => ident.clone(),
        }
    }

    /// The domain of the binding: the given one, else the default domain.
    pub fn domain_name(&self) -> (r: String)
        ensures
            r@ == domain_spec(*self),
    {
        match &self.domain {
            Some(d) => d.clone(),
            None => String::from_str(DEFAULT_DOMAIN),
        }
    }
}

pub open spec fn script_name_spec(p: SqcrabParams, ident: String) -> String {
    match p.name {
        Some(n) => n,
        None => ident,
    }
}

pub open spec fn domain_spec(p: SqcrabParams) -> Seq<char> {
    match p.domain {
        Some(d) => d@,
        None => DEFAULT_DOMAIN@,
    }
}

/// Once an argument is refused, later arguments change nothing: the error stays.
proof fn lemma_params_error_sticks(args: Seq<AttrArg>, k: int)
    requires
        0 <= k <= args.len(),
        params_spec(args.subrange(0, k)) is Err,
    ensures
        params_spec(args) == params_spec(args.subrange(0, k)),
    decreases args.len() - k,
{
    if k < args.len() {
        assert(args.subrange(0, k + 1).drop_last() =~= args.subrange(0, k));
        lemma_params_error_sticks(args, k + 1);
    } else {
        assert(args.subrange(0, k) =~= args);
    }
}

} // verus!

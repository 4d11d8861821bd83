use vstd::prelude::*;
use crate::binding::{Adapter, ReceiverMode, WireKind};
use crate::domain::{Binding, Registrar};

verus! {

/// The decimal digits.
pub const DIGITS: &'static str = "0123456789";

/// `n` in decimal.
pub open spec fn decimal(n: nat) -> Seq<char>
    decreases n,
{
    if n < 10 {
        seq![DIGITS@[n as int]]
    } else {
        decimal(n / 10) + seq![DIGITS@[(n % 10) as int]]
    }
}

/// Appends `n` in decimal.
pub fn append_decimal(out: &mut String, n: usize)
    ensures
        final(out)@ == old(out)@ + decimal(n as nat),
    decreases n,
{
    proof {
        reveal_strlit("0123456789");
    }
    if n >= 10 {
        append_decimal(out, n / 10);
    }
    let d = n % 10;
    out.append(DIGITS.substring_char(d, d + 1));
    proof {
        assert(DIGITS@.subrange(d as int, d + 1) =~= seq![DIGITS@[d as int]]);
        if n >= 10 {
            assert(old(out)@ + decimal(n as nat) =~= old(out)@ + decimal((n / 10) as nat) + seq![DIGITS@[d as int]]);
        } else {
            assert(decimal(n as nat) == seq![DIGITS@[d as int]]);
        }
    }
}

/// `s` as the body of a string literal: quotes and backslashes escaped.
pub open spec fn escaped(s: Seq<char>) -> Seq<char>
    decreases s.len(),
{
    if s.len() == 0 {
        Seq::empty()
    } else {
        escaped(s.drop_last()) + if s.last() == '"' || s.last() == '\\' {
            seq!['\\', s.last()]
        } else {
            seq![s.last()]
        }
    }
}

/// Appends `s` as a string literal, quotes included.
pub fn append_literal(out: &mut String, s: &str)
    ensures
        final(out)@ == old(out)@ + "\""@ + escaped(s@) + "\""@,
{
    out.append("\"");
    let ghost start = out@;
    let n = s.unicode_len();
    let mut i: usize = 0;
    while i < n
        invariant
            n == s@.len(),
            i <= n,
            out@ == start + escaped(s@.subrange(0, i as int)),
        decreases n - i,
    {
        let c = s.get_char(i);
        proof {
            reveal_strlit("\\");
            assert(s@.subrange(0, i + 1).drop_last() =~= s@.subrange(0, i as int));
        }
        if c == '"' || c == '\\' {
            out.append("\\");
        }
        out.append(s.substring_char(i, i + 1));
        proof {
            assert(s@.subrange(i as int, i + 1) =~= seq![c]);
            let e = if c == '"' || c == '\\' { seq!['\\', c] } else { seq![c] };
            assert(escaped(s@.subrange(0, i + 1)) == escaped(s@.subrange(0, i as int)) + e);
            assert(out@ =~= start + escaped(s@.subrange(0, i + 1)));
        }
        i += 1;
    }
    assert(s@.subrange(0, n as int) =~= s@);
    out.append("\"");
}

pub open spec fn receiver_text(m: ReceiverMode) -> Seq<char> {
    match m {
        ReceiverMode::NoReceiver => "::sqcrab::binding::ReceiverMode::NoReceiver"@,
        ReceiverMode::LocalPointer => "::sqcrab::binding::ReceiverMode::LocalPointer"@,
        ReceiverMode::AmbientThis => "::sqcrab::binding::ReceiverMode::AmbientThis"@,
    }
}

pub open spec fn kind_text(k: WireKind) -> Seq<char> {
    match k {
        WireKind::Integer => "::sqcrab::binding::WireKind::Integer, "@,
        WireKind::Bool => "::sqcrab::binding::WireKind::Bool, "@,
        WireKind::Str => "::sqcrab::binding::WireKind::Str, "@,
        WireKind::UserPointer => "::sqcrab::binding::WireKind::UserPointer, "@,
        WireKind::Null => "::sqcrab::binding::WireKind::Null, "@,
    }
}

pub open spec fn kinds_text(ks: Seq<WireKind>) -> Seq<char>
    decreases ks.len(),
{
    if ks.len() == 0 {
        Seq::empty()
    } else {
        kinds_text(ks.drop_last()) + kind_text(ks.last())
    }
}

/// The source text of one binding of a registrar.
pub open spec fn binding_text(b: Binding) -> Seq<char> {
    "        ::sqcrab::domain::Binding { name: "@ + "\""@ + escaped(b.name@) + "\""@
        + ".to_string(), adapter: ::sqcrab::binding::Adapter { target: "@ + decimal(b.adapter.target as nat)
        + ", receiver: "@ + receiver_text(b.adapter.receiver) + ", params: vec!["@ + kinds_text(b.adapter.params@)
        + "], pushes_result: "@ + (if b.adapter.pushes_result { "true"@ } else { "false"@ }) + " } },\n"@
}

pub open spec fn bindings_text(bs: Seq<Binding>) -> Seq<char>
    decreases bs.len(),
{
    if bs.len() == 0 {
        Seq::empty()
    } else {
        bindings_text(bs.drop_last()) + binding_text(bs.last())
    }
}

/// The source text of one registrar: a function, numbered `index`, that
/// builds the domain's registrar.
pub open spec fn registrar_text(r: Registrar, index: nat) -> Seq<char> {
    "/// The bindings of domain "@ + "\""@ + escaped(r.domain@) + "\""@ + ".\npub fn registrar_"@ + decimal(index)
        + "() -> ::sqcrab::domain::Registrar {\n    ::sqcrab::domain::Registrar { domain: "@ + "\""@ + escaped(r.domain@)
        + "\""@ + ".to_string(), bindings: vec![\n"@ + bindings_text(r.bindings@) + "    ] }\n}\n\n"@
}

pub open spec fn registrars_text(rs: Seq<Registrar>) -> Seq<char>
    decreases rs.len(),
{
    if rs.len() == 0 {
        Seq::empty()
    } else {
        registrars_text(rs.drop_last()) + registrar_text(rs.last(), (rs.len() - 1) as nat)
    }
}

fn append_receiver(out: &mut String, m: ReceiverMode)
    ensures
        final(out)@ == old(out)@ + receiver_text(m),
{
    match m {
        ReceiverMode::NoReceiver => out.append("::sqcrab::binding::ReceiverMode::NoReceiver"),
        ReceiverMode::LocalPointer => out.append("::sqcrab::binding::ReceiverMode::LocalPointer"),
        ReceiverMode::AmbientThis => out.append("::sqcrab::binding::ReceiverMode::AmbientThis"),
    }
}

fn append_kinds(out: &mut String, ks: &Vec<WireKind>)
    ensures
        final(out)@ == old(out)@ + kinds_text(ks@),
{
    let ghost start = out@;
    let mut i: usize = 0;
    while i < ks.len()
        invariant
            i <= ks@.len(),
            out@ == start + kinds_text(ks@.subrange(0, i as int)),
        decreases ks@.len() - i,
    {
        match ks[i] {
            WireKind::Integer => out.append("::sqcrab::binding::WireKind::Integer, "),
            WireKind::Bool => out.append("::sqcrab::binding::WireKind::Bool, "),
            WireKind::Str => out.append("::sqcrab::binding::WireKind::Str, "),
            WireKind::UserPointer => out.append("::sqcrab::binding::WireKind::UserPointer, "),
            WireKind::Null => out.append("::sqcrab::binding::WireKind::Null, "),
        }
        proof {
            assert(ks@.subrange(0, i + 1).drop_last() =~= ks@.subrange(0, i as int));
            assert(out@ =~= start + kinds_text(ks@.subrange(0, i + 1)));
        }
        i += 1;
    }
    assert(ks@.subrange(0, i as int) =~= ks@);
}

fn append_binding(out: &mut String, b: &Binding)
    ensures
        final(out)@ == old(out)@ + binding_text(*b),
{
    let ghost start = out@;
    out.append("        ::sqcrab::domain::Binding { name: ");
    append_literal(out, b.name.as_str());
    out.append(".to_string(), adapter: ::sqcrab::binding::Adapter { target: ");
    append_decimal(out, b.adapter.target);
    out.append(", receiver: ");
    append_receiver(out, b.adapter.receiver);
    out.append(", params: vec![");
    append_kinds(out, &b.adapter.params);
    out.append("], pushes_result: ");
    if b.adapter.pushes_result {
        out.append("true");
    } else {
        out.append("false");
    }
    out.append(" } },\n");
    assert(out@ =~= start + binding_text(*b));
}

fn append_registrar(out: &mut String, r: &Registrar, index: usize)
    ensures
        final(out)@ == old(out)@ + registrar_text(*r, index as nat),
{
    let ghost start = out@;
    out.append("/// The bindings of domain ");
    append_literal(out, r.domain.as_str());
    out.append(".\npub fn registrar_");
    append_decimal(out, index);
    out.append("() -> ::sqcrab::domain::Registrar {\n    ::sqcrab::domain::Registrar { domain: ");
    append_literal(out, r.domain.as_str());
    out.append(".to_string(), bindings: vec![\n");
    let ghost mid = out@;
    let mut i: usize = 0;
    while i < r.bindings.len()
        invariant
            i <= r.bindings@.len(),
            out@ == mid + bindings_text(r.bindings@.subrange(0, i as int)),
        decreases r.bindings@.len() - i,
    {
        append_binding(out, &r.bindings[i]);
        proof {
            assert(r.bindings@.subrange(0, i + 1).drop_last() =~= r.bindings@.subrange(0, i as int));
            assert(out@ =~= mid + bindings_text(r.bindings@.subrange(0, i + 1)));
        }
        i += 1;
    }
    assert(r.bindings@.subrange(0, i as int) =~= r.bindings@);
    out.append("    ] }\n}\n\n");
    assert(out@ =~= start + registrar_text(*r, index as nat));
}

/// The generated source file: one function per registrar, `registrar_<i>` for
/// the registrar at index `i`, each building its domain's registrar with
/// every binding's name and adapter.
pub fn render_registrars(rs: &Vec<Registrar>) -> (r: String)
    ensures
        r@ == registrars_text(rs@),
{
    let mut out = String::new();
    let mut i: usize = 0;
    while i < rs.len()
        invariant
            i <= rs@.len(),
            out@ == registrars_text(rs@.subrange(0, i as int)),
        decreases rs@.len() - i,
    {
        append_registrar(&mut out, &rs[i], i);
        proof {
            assert(rs@.subrange(0, i + 1).drop_last() =~= rs@.subrange(0, i as int));
        }
        i += 1;
    }
    assert(rs@.subrange(0, i as int) =~= rs@);
    out
}

} // verus!

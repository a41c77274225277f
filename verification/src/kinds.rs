//! The typed program as the harness observes it, and how a kind or a callee is
//! described the way source names it rather than by its `Debug` shape.

use vstd::prelude::*;
use crate::text::{decimal, push_decimal};

verus! {

/// A signed integer kind of a given width.
#[derive(Clone, Copy, Debug, PartialEq, Eq, Structural)]
pub struct IntT {
    pub bits: u32,
}

/// Where a denizen lives: a module and the packages under it.
#[derive(Debug, PartialEq, Eq)]
pub struct PackageCoordinate {
    pub module: String,
    pub packages: Vec<String>,
}

/// The full name of a denizen: its package and its local name.
#[derive(Debug, PartialEq, Eq)]
pub struct IdT {
    pub package: PackageCoordinate,
    pub local_name: INameT,
}

/// A struct's or interface's local name, with its template arguments.
#[derive(Debug, PartialEq, Eq)]
pub struct CitizenNameT {
    pub human_name: String,
    pub template_args: Vec<ITemplataT>,
}

/// A function's local name. Parameters ride the name, because a prototype's
/// parameter types are derived from it.
#[derive(Debug, PartialEq, Eq)]
pub struct FunctionNameT {
    pub human_name: String,
    pub template_args: Vec<ITemplataT>,
    pub parameters: Vec<KindT>,
}

/// A local name.
#[derive(Debug, PartialEq, Eq)]
pub enum INameT {
    Struct(CitizenNameT),
    Interface(CitizenNameT),
    Function(FunctionNameT),
    ExternFunction(FunctionNameT),
    Other(String),
}

/// A template argument.
#[derive(Debug, PartialEq, Eq)]
pub enum ITemplataT {
    Kind(KindT),
    Integer(i64),
    Boolean(bool),
    Other,
}

/// A kind: what a value is, apart from how it is held.
#[derive(Debug, PartialEq, Eq)]
pub enum KindT {
    Int(IntT),
    Bool,
    Void,
    Str,
    Float,
    Never,
    Struct(IdT),
    Interface(IdT),
    /// A reference wrapped around another kind.
    Ref(Box<KindT>),
}

/// A resolved callee: the function's full name and what it returns.
#[derive(Debug, PartialEq, Eq)]
pub struct PrototypeT {
    pub id: IdT,
    pub return_type: KindT,
}

/// The kind with every reference wrap removed.
pub open spec fn spec_peel_refs(k: KindT) -> KindT
    decreases k,
{
    match k {
        KindT::Ref(inner) => spec_peel_refs(*inner),
        _ => k,
    }
}

/// Whether an id was minted by the interop seam: it lives in the reserved
/// `rust` package.
pub open spec fn spec_is_rust_backed(id: IdT) -> bool {
    id.package.module@ == "rust"@
}

/// The id of a citizen kind (a struct or an interface).
pub open spec fn spec_citizen_id(k: KindT) -> Option<IdT> {
    match k {
        KindT::Struct(id) => Some(id),
        KindT::Interface(id) => Some(id),
        _ => None,
    }
}

/// How a kind reads in an assertion: `int32`, `bool`, `void`, `str`, `float`,
/// `rust-citizen` or `vale-citizen` followed by its template arguments, or
/// `non-citizen`. Reference wraps are seen through.
pub open spec fn spec_describe_kind(k: KindT) -> Seq<char>
    decreases k, 1nat,
{
    match k {
        KindT::Ref(inner) => spec_describe_kind(*inner),
        KindT::Int(i) => "int"@ + decimal(i.bits as nat),
        KindT::Bool => "bool"@,
        KindT::Void => "void"@,
        KindT::Str => "str"@,
        KindT::Float => "float"@,
        KindT::Struct(id) => spec_citizen_prefix(id) + spec_describe_args(id),
        KindT::Interface(id) => spec_citizen_prefix(id) + spec_describe_args(id),
        KindT::Never => "non-citizen"@,
    }
}

/// Which side of the seam a citizen comes from, as a description starts.
pub open spec fn spec_citizen_prefix(id: IdT) -> Seq<char> {
    if spec_is_rust_backed(id) { "rust-citizen"@ } else { "vale-citizen"@ }
}

/// The template arguments a citizen's description shows: a struct's or an
/// interface's arguments; none for any other name.
pub open spec fn spec_template_args(id: IdT) -> Seq<ITemplataT> {
    match id.local_name {
        INameT::Struct(name) => name.template_args@,
        INameT::Interface(name) => name.template_args@,
        _ => Seq::empty(),
    }
}

/// A citizen's template arguments as source writes them, `<a, b>`, or empty
/// when it has none.
pub open spec fn spec_describe_args(id: IdT) -> Seq<char>
    decreases id, 0nat,
{
    match id.local_name {
        INameT::Struct(name) => spec_describe_bracketed(name.template_args@),
        INameT::Interface(name) => spec_describe_bracketed(name.template_args@),
        _ => Seq::empty(),
    }
}

/// Template arguments as `<a, b>`, or empty when there are none.
pub open spec fn spec_describe_bracketed(args: Seq<ITemplataT>) -> Seq<char>
    decreases args, 1nat,
{
    if args.len() == 0 {
        Seq::empty()
    } else {
        "<"@ + spec_describe_arg_list(args) + ">"@
    }
}

/// Template arguments separated by `, `.
pub open spec fn spec_describe_arg_list(args: Seq<ITemplataT>) -> Seq<char>
    decreases args, 0nat,
{
    if args.len() == 0 {
        Seq::empty()
    } else if args.len() == 1 {
        spec_describe_arg(args[0])
    } else {
        spec_describe_arg_list(args.drop_last()) + ", "@ + spec_describe_arg(args.last())
    }
}

/// One template argument: a kind's description, or `non-kind`.
pub open spec fn spec_describe_arg(a: ITemplataT) -> Seq<char>
    decreases a, 0nat,
{
    match a {
        ITemplataT::Kind(k) => spec_describe_kind(k),
        _ => "non-kind"@,
    }
}


/// Describing a kind sees through every reference wrap around it.
pub proof fn lemma_describe_sees_through_refs(k: KindT)
    ensures
        spec_describe_kind(spec_peel_refs(k)) == spec_describe_kind(k),
    decreases k,
{
    match k {
        KindT::Ref(inner) => lemma_describe_sees_through_refs(*inner),
        _ => {},
    }
}

/// The kind with every reference wrap removed.
pub fn peel_refs(kind: &KindT) -> (r: &KindT)
    ensures
        *r == spec_peel_refs(*kind),
        !(*r is Ref),
    decreases kind,
{
    match kind {
        KindT::Ref(inner) => peel_refs(inner),
        _ => kind,
    }
}

/// The id of a citizen kind (a struct or an interface), if it is one.
pub fn citizen_id(kind: &KindT) -> (r: Option<&IdT>)
    ensures
        match r {
            Some(id) => spec_citizen_id(*kind) == Some(*id),
            None => spec_citizen_id(*kind) is None,
        },
{
    match kind {
        KindT::Struct(id) => Some(id),
        KindT::Interface(id) => Some(id),
        _ => None,
    }
}

/// Whether an id was minted by the interop seam: it lives in the reserved
/// `rust` package.
pub fn is_rust_backed(id: &IdT) -> (r: bool)
    ensures
        r == spec_is_rust_backed(*id),
{
    let rust = String::from_str("rust");
    id.package.module == rust
}

/// How a kind reads in an assertion, the way source names it.
pub fn describe_kind(kind: &KindT) -> (r: String)
    ensures
        r@ == spec_describe_kind(*kind),
    decreases kind, 1nat,
{
    proof {
        lemma_describe_sees_through_refs(*kind);
    }
    let k = peel_refs(kind);
    match k {
        KindT::Int(i) => {
            let mut s = String::from_str("int");
            push_decimal(&mut s, i.bits);
            s
        },
        KindT::Bool => String::from_str("bool"),
        KindT::Void => String::from_str("void"),
        KindT::Str => String::from_str("str"),
        KindT::Float => String::from_str("float"),
        KindT::Ref(_) => vstd::pervasive::unreached(),
        other => match citizen_id(other) {
            Some(id) => {
                let mut s = if is_rust_backed(id) {
                    String::from_str("rust-citizen")
                } else {
                    String::from_str("vale-citizen")
                };
                assert(decreases_to!(*kind => *id)) by {
                    lemma_peel_decreases(*kind);
                };
                let args = describe_args(id);
                s.append(args.as_str());
                s
            },
            None => String::from_str("non-citizen"),
        },
    }
}

proof fn lemma_peel_decreases(k: KindT)
    ensures
        spec_citizen_id(spec_peel_refs(k)) matches Some(id) ==> decreases_to!(k => id),
    decreases k,
{
    match k {
        KindT::Ref(inner) => {
            lemma_peel_decreases(*inner);
        },
        KindT::Struct(id) => {
            assert(decreases_to!(k => id));
        },
        KindT::Interface(id) => {
            assert(decreases_to!(k => id));
        },
        _ => {},
    }
}

/// A citizen's template arguments as source writes them, `<a, b>`, or empty
/// when it has none: a struct's or an interface's arguments.
pub fn describe_args(id: &IdT) -> (r: String)
    ensures
        r@ == spec_describe_args(*id),
    decreases id, 0nat,
{
    match &id.local_name {
        INameT::Struct(name) => {
            assert(decreases_to!(*id => name.template_args)) by {
                assert(decreases_to!(*id => id.local_name));
                assert(id.local_name->Struct_0 == *name);
                assert(decreases_to!(id.local_name => id.local_name->Struct_0));
                assert(decreases_to!(*name => name.template_args));
            };
            describe_bracketed(&name.template_args)
        },
        INameT::Interface(name) => {
            assert(decreases_to!(*id => name.template_args)) by {
                assert(decreases_to!(*id => id.local_name));
                assert(id.local_name->Interface_0 == *name);
                assert(decreases_to!(id.local_name => id.local_name->Interface_0));
                assert(decreases_to!(*name => name.template_args));
            };
            describe_bracketed(&name.template_args)
        },
        _ => String::new(),
    }
}

/// Template arguments as `<a, b>`, or empty when there are none.
fn describe_bracketed(args: &Vec<ITemplataT>) -> (r: String)
    ensures
        r@ == spec_describe_bracketed(args@),
    decreases args, 1nat,
{
    if args.len() == 0 {
        return String::new();
    }
    let mut s = String::from_str("<");
    let mut i: usize = 0;
    while i < args.len()
        invariant
            i <= args@.len(),
            args@.len() > 0,
            s@ == "<"@ + spec_describe_arg_list(args@.take(i as int)),
        decreases args@.len() - i,
    {
        if i > 0 {
            s.append(", ");
        }
        assert(decreases_to!(*args => args@[i as int])) by {
            assert(decreases_to!(*args => args@));
        };
        let piece = describe_arg(&args[i]);
        s.append(piece.as_str());
        proof {
            let t = args@.take(i + 1);
            assert(t.drop_last() =~= args@.take(i as int));
            if i == 0 {
                assert(args@.take(0) =~= Seq::<ITemplataT>::empty());
            }
        }
        i = i + 1;
    }
    assert(args@.take(args@.len() as int) =~= args@);
    s.append(">");
    s
}

fn describe_arg(a: &ITemplataT) -> (r: String)
    ensures
        r@ == spec_describe_arg(*a),
    decreases a, 0nat,
{
    match a {
        ITemplataT::Kind(k) => {
            assert(decreases_to!(*a => *k));
            describe_kind(k)
        },
        _ => String::from_str("non-kind"),
    }
}

} // verus!

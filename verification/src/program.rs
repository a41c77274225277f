//! A typed program's functions and the calls their bodies make, and the owned
//! facts about each resolved callee that survive a compilation.

use vstd::prelude::*;
use crate::kinds::{
    INameT, KindT, PrototypeT, describe_kind, is_rust_backed, spec_describe_kind,
    spec_is_rust_backed,
};

verus! {

/// A call: the resolved callee and the argument expressions.
#[derive(Debug)]
pub struct FunctionCallTE {
    pub callable: PrototypeT,
    pub args: Vec<ExprT>,
}

/// A typed expression, as far as call collection looks into it.
#[derive(Debug)]
pub enum ExprT {
    FunctionCall(FunctionCallTE),
    /// Statements in order.
    Block(Vec<ExprT>),
    /// A local bound to a value.
    Let(String, Box<ExprT>),
    Return(Box<ExprT>),
    /// An expression with no sub-expressions: a constant, a local read.
    Leaf,
}

/// A function definition: its human name and its body.
#[derive(Debug)]
pub struct FunctionDefinitionT {
    pub name: String,
    pub body: ExprT,
}

/// What the typing pass produced: its function definitions.
#[derive(Debug)]
pub struct HinputsT {
    pub functions: Vec<FunctionDefinitionT>,
}

/// Every call an expression makes, in traversal order: a call before the
/// calls in its arguments, statements left to right.
pub open spec fn spec_calls(e: ExprT) -> Seq<PrototypeT>
    decreases e, 1nat,
{
    match e {
        ExprT::FunctionCall(c) => seq![c.callable] + spec_calls_list(c.args@),
        ExprT::Block(es) => spec_calls_list(es@),
        ExprT::Let(_, inner) => spec_calls(*inner),
        ExprT::Return(inner) => spec_calls(*inner),
        ExprT::Leaf => Seq::empty(),
    }
}

/// Every call a list of expressions makes, left to right.
pub open spec fn spec_calls_list(es: Seq<ExprT>) -> Seq<PrototypeT>
    decreases es, 0nat,
{
    if es.len() == 0 {
        Seq::empty()
    } else {
        spec_calls_list(es.drop_last()) + spec_calls(es.last())
    }
}

/// The first function in `fns` with this human name.
pub open spec fn spec_lookup(fns: Seq<FunctionDefinitionT>, name: Seq<char>) -> Option<FunctionDefinitionT>
    decreases fns.len(),
{
    if fns.len() == 0 {
        None
    } else if fns[0].name@ == name {
        Some(fns[0])
    } else {
        spec_lookup(fns.drop_first(), name)
    }
}

fn collect_calls<'a>(e: &'a ExprT, out: &mut Vec<&'a PrototypeT>)
    ensures
        final(out)@.map_values(|p: &PrototypeT| *p) == old(out)@.map_values(|p: &PrototypeT| *p)
            + spec_calls(*e),
    decreases e, 1nat,
{
    match e {
        ExprT::FunctionCall(c) => {
            out.push(&c.callable);
            assert(decreases_to!(*e => c.args));
            collect_calls_list(&c.args, out);
            assert(out@.map_values(|p: &PrototypeT| *p) =~= old(out)@.map_values(|p: &PrototypeT| *p)
                + spec_calls(*e));
        },
        ExprT::Block(es) => {
            collect_calls_list(es, out);
        },
        ExprT::Let(_, inner) => {
            collect_calls(inner, out);
        },
        ExprT::Return(inner) => {
            collect_calls(inner, out);
        },
        ExprT::Leaf => {
            assert(out@.map_values(|p: &PrototypeT| *p) =~= old(out)@.map_values(|p: &PrototypeT| *p)
                + spec_calls(*e));
        },
    }
}

fn collect_calls_list<'a>(es: &'a Vec<ExprT>, out: &mut Vec<&'a PrototypeT>)
    ensures
        final(out)@.map_values(|p: &PrototypeT| *p) == old(out)@.map_values(|p: &PrototypeT| *p)
            + spec_calls_list(es@),
    decreases es, 0nat,
{
    let mut i: usize = 0;
    while i < es.len()
        invariant
            i <= es@.len(),
            out@.map_values(|p: &PrototypeT| *p) == old(out)@.map_values(|p: &PrototypeT| *p)
                + spec_calls_list(es@.take(i as int)),
        decreases es@.len() - i,
    {
        assert(decreases_to!(*es => es@[i as int])) by {
            assert(decreases_to!(*es => es@));
        };
        collect_calls(&es[i], out);
        assert(es@.take(i + 1).drop_last() =~= es@.take(i as int));
        assert(out@.map_values(|p: &PrototypeT| *p) =~= old(out)@.map_values(|p: &PrototypeT| *p)
            + spec_calls_list(es@.take(i + 1)));
        i = i + 1;
    }
    assert(es@.take(es@.len() as int) =~= es@);
}

/// Every call an expression makes, in traversal order.
pub fn calls_in<'a>(e: &'a ExprT) -> (r: Vec<&'a PrototypeT>)
    ensures
        r@.map_values(|p: &PrototypeT| *p) == spec_calls(*e),
{
    let mut out: Vec<&'a PrototypeT> = Vec::new();
    collect_calls(e, &mut out);
    assert(out@.map_values(|p: &PrototypeT| *p) =~= spec_calls(*e));
    out
}

impl HinputsT {
    /// The function definition with this human name.
    pub fn lookup_function_by_str(&self, name: &str) -> (r: &FunctionDefinitionT)
        requires
            spec_lookup(self.functions@, name@) is Some,
        ensures
            spec_lookup(self.functions@, name@) == Some(*r),
    {
        let wanted = String::from_str(name);
        let mut i: usize = 0;
        assert(self.functions@.skip(0) =~= self.functions@);
        while i < self.functions.len()
            invariant
                i <= self.functions@.len(),
                wanted@ == name@,
                spec_lookup(self.functions@.skip(i as int), name@) == spec_lookup(self.functions@, name@),
            decreases self.functions@.len() - i,
        {
            if self.functions[i].name == wanted {
                return &self.functions[i];
            }
            assert(self.functions@.skip(i as int).drop_first() =~= self.functions@.skip(i + 1));
            i = i + 1;
        }
        vstd::pervasive::unreached()
    }
}

/// The facts about one resolved callee that survive the compilation: its
/// human name, whether it lives in the reserved `rust` package, and its
/// parameter and return kinds as source names them.
#[derive(Debug, PartialEq, Eq)]
pub struct Callee {
    pub name: String,
    pub rust_backed: bool,
    pub params: Vec<String>,
    pub ret: String,
}

/// `c` describes the prototype `p`, whose local name is a function's.
pub open spec fn describes_callee(c: Callee, p: PrototypeT) -> bool {
    match p.id.local_name {
        INameT::Function(f) => {
            &&& c.name@ == f.human_name@
            &&& c.rust_backed == spec_is_rust_backed(p.id)
            &&& c.params@.len() == f.parameters@.len()
            &&& forall|i: int| 0 <= i < c.params@.len()
                ==> #[trigger] c.params@[i]@ == spec_describe_kind(f.parameters@[i])
            &&& c.ret@ == spec_describe_kind(p.return_type)
        },
        _ => false,
    }
}

/// Whether a prototype's local name is an ordinary function's. A Rust callee
/// resolves to the ordinary function wrapping the extern one.
pub open spec fn is_function_callee(p: PrototypeT) -> bool {
    p.id.local_name is Function
}

/// The owned facts about one resolved callee.
pub fn describe_callee(p: &PrototypeT) -> (c: Callee)
    requires
        is_function_callee(*p),
    ensures
        describes_callee(c, *p),
{
    match &p.id.local_name {
        INameT::Function(f) => {
            let name = f.human_name.clone();
            let rust_backed = is_rust_backed(&p.id);
            let mut params: Vec<String> = Vec::new();
            let mut i: usize = 0;
            while i < f.parameters.len()
                invariant
                    i <= f.parameters@.len(),
                    params@.len() == i,
                    forall|j: int| 0 <= j < i ==> #[trigger] params@[j]@ == spec_describe_kind(f.parameters@[j]),
                decreases f.parameters@.len() - i,
            {
                let d = describe_kind(&f.parameters[i]);
                params.push(d);
                i = i + 1;
            }
            let ret = describe_kind(&p.return_type);
            Callee { name, rust_backed, params, ret }
        },
        _ => vstd::pervasive::unreached(),
    }
}

/// The callees of `main`'s calls, in traversal order.
pub open spec fn main_calls(coutputs: HinputsT) -> Seq<PrototypeT> {
    spec_calls(spec_lookup(coutputs.functions@, "main"@)->Some_0.body)
}

/// Every call `main`'s body makes, in traversal order, described.
pub fn callees_in_main(coutputs: &HinputsT) -> (r: Vec<Callee>)
    requires
        spec_lookup(coutputs.functions@, "main"@) is Some,
        forall|i: int| 0 <= i < main_calls(*coutputs).len() ==> #[trigger] is_function_callee(main_calls(*coutputs)[i]),
    ensures
        r@.len() == main_calls(*coutputs).len(),
        forall|i: int| 0 <= i < r@.len() ==> #[trigger] describes_callee(r@[i], main_calls(*coutputs)[i]),
{
    let main = coutputs.lookup_function_by_str("main");
    let calls = calls_in(&main.body);
    let ghost seen = calls@.map_values(|p: &PrototypeT| *p);
    assert forall|j: int| 0 <= j < seen.len() implies #[trigger] is_function_callee(seen[j]) by {
        assert(seen[j] == main_calls(*coutputs)[j]);
    };
    let mut out: Vec<Callee> = Vec::new();
    let mut i: usize = 0;
    while i < calls.len()
        invariant
            i <= calls@.len(),
            seen == main_calls(*coutputs),
            seen == calls@.map_values(|p: &PrototypeT| *p),
            out@.len() == i,
            forall|j: int| 0 <= j < seen.len() ==> #[trigger] is_function_callee(seen[j]),
            forall|j: int| 0 <= j < i ==> #[trigger] describes_callee(out@[j], seen[j]),
        decreases calls@.len() - i,
    {
        assert(seen[i as int] == *calls@[i as int]);
        let c = describe_callee(calls[i]);
        out.push(c);
        i = i + 1;
    }
    out
}


/// Some callee in `callees` is Rust-backed and has this name.
pub open spec fn has_rust_callee_named(callees: Seq<Callee>, name: Seq<char>) -> bool {
    exists|i: int| 0 <= i < callees.len() && #[trigger] callees[i].name@ == name && callees[i].rust_backed
}

/// Whether some callee with this name resolved to a Rust-backed function.
pub fn has_rust_callee(callees: &Vec<Callee>, name: &str) -> (r: bool)
    ensures
        r == has_rust_callee_named(callees@, name@),
{
    let wanted = String::from_str(name);
    let mut i: usize = 0;
    while i < callees.len()
        invariant
            i <= callees@.len(),
            wanted@ == name@,
            forall|j: int| 0 <= j < i ==> !(#[trigger] callees@[j].name@ == name@ && callees@[j].rust_backed),
        decreases callees@.len() - i,
    {
        if callees[i].rust_backed && callees[i].name == wanted {
            return true;
        }
        i = i + 1;
    }
    false
}

/// The common shape of a case's assertion: each expected name resolved to a
/// Rust-backed callee. Rust-backedness is the load-bearing half: a Vale
/// function of the same name would satisfy "it compiled" just as well.
pub fn rust_callees_resolved(callees: &Vec<Callee>, expected: &[&str]) -> (r: bool)
    ensures
        r == forall|k: int| 0 <= k < expected@.len() ==> #[trigger] has_rust_callee_named(callees@, expected@[k]@),
{
    let mut k: usize = 0;
    while k < expected.len()
        invariant
            k <= expected@.len(),
            forall|j: int| 0 <= j < k ==> #[trigger] has_rust_callee_named(callees@, expected@[j]@),
        decreases expected@.len() - k,
    {
        if !has_rust_callee(callees, expected[k]) {
            return false;
        }
        k = k + 1;
    }
    true
}

} // verus!

//! Properties that hold across the harness's functions.

use vstd::prelude::*;
use crate::compilation::{DebugSink, TypingPassCompilation, is_test_compilation, spec_test_options};
use crate::harness::{CompileFailure, Expectation, asked_answer, first_offer_in_log, found_answer, meets_expectation};
use crate::oracle::{OracleCall, OracleQuery, query_offers};
use crate::kinds::{
    INameT, ITemplataT, IdT, KindT, spec_describe_bracketed, spec_citizen_prefix, spec_describe_arg, spec_describe_arg_list, spec_describe_args, spec_describe_kind,
    spec_template_args,
};
use crate::program::{ExprT, FunctionCallTE, spec_calls, spec_calls_list};
use crate::kinds::PrototypeT;
use crate::text::{ascii_classified, ident_char, is_ascii_char, is_ascii_ident_char, is_leading_ident};

verus! {

/// A predicate gives one answer per query of the log.
pub open spec fn decides_log<F: Fn(&OracleQuery) -> bool>(pred: F, log: Seq<OracleCall>) -> bool {
    forall|i: int, b1: bool, b2: bool|
        0 <= i < log.len() && #[trigger] call_ensures(pred, (&log[i].query,), b1)
            && #[trigger] call_ensures(pred, (&log[i].query,), b2) ==> b1 == b2
}

/// For a predicate that answers each query one way, `find_query` finds a
/// query exactly when `asked` says one was asked.
pub proof fn lemma_find_query_agrees_with_asked<F: Fn(&OracleQuery) -> bool>(
    log: Seq<OracleCall>,
    pred: F,
    asked: bool,
    found: Option<OracleQuery>,
)
    requires
        decides_log(pred, log),
        asked_answer(log, pred, asked),
        found_answer(log, pred, found),
    ensures
        asked == found is Some,
{
    if asked {
        let i = choose|i: int| 0 <= i < log.len() && call_ensures(pred, (&log[i].query,), true);
        if found is None {
            assert(call_ensures(pred, (&log[i].query,), false));
        }
    } else {
        if found is Some {
            let i = choose|i: int|
                0 <= i < log.len() && log[i].query == found->Some_0 && call_ensures(pred, (&log[i].query,), true)
                    && forall|j: int| 0 <= j < i ==> call_ensures(pred, (&log[j].query,), false);
            assert(call_ensures(pred, (&log[i].query,), false));
        }
    }
}

/// A rendering has one leading identifier: two failures read off the same
/// rendering carry the same error arm.
pub proof fn lemma_leading_ident_unique(s: Seq<char>, p1: Seq<char>, p2: Seq<char>)
    requires
        is_leading_ident(s, p1),
        is_leading_ident(s, p2),
    ensures
        p1 == p2,
{
    if p1.len() < p2.len() {
        assert(ident_char(s[p1.len() as int]));
    } else if p2.len() < p1.len() {
        assert(ident_char(s[p2.len() as int]));
    }
    assert(p1 =~= p2);
}

/// Some query of the log offered an item under `name` exactly when `offered`
/// finds one: the vacuity check `asked(|q| q.offered(name).is_some())` and
/// `offered` agree.
pub proof fn lemma_offer_found_iff_offered(log: Seq<OracleCall>, name: Seq<char>)
    ensures
        first_offer_in_log(log, name) is Some
            <==> exists|i: int| 0 <= i < log.len() && #[trigger] query_offers(log[i].query, name) is Some,
    decreases log.len(),
{
    if log.len() > 0 {
        lemma_offer_found_iff_offered(log.drop_first(), name);
        if query_offers(log[0].query, name) is None {
            if exists|i: int| 0 <= i < log.len() && #[trigger] query_offers(log[i].query, name) is Some {
                let i = choose|i: int| 0 <= i < log.len() && #[trigger] query_offers(log[i].query, name) is Some;
                assert(log.drop_first()[i - 1] == log[i]);
            }
            if exists|i: int| 0 <= i < log.drop_first().len() && #[trigger] query_offers(log.drop_first()[i].query, name) is Some {
                let i = choose|i: int| 0 <= i < log.drop_first().len() && #[trigger] query_offers(log.drop_first()[i].query, name) is Some;
                assert(log[i + 1] == log.drop_first()[i]);
            }
        } else {
            assert(query_offers(log[0].query, name) is Some);
        }
    }
}

/// A case that declares it compiles is met only by a compiled outcome; a case
/// that declares a failure only by a failure with that error arm.
pub proof fn lemma_expectation_fixes_outcome<R>(compiled: Result<R, CompileFailure>, e: Expectation)
    requires
        meets_expectation(compiled, e),
    ensures
        e is Compiles ==> compiled is Ok,
        e matches Expectation::FailsWith(v) ==> (compiled matches Err(f) && f.variant@ == v@),
{
}

/// The test compilation with a Rust oracle builds what the one without it
/// builds, from the same code, with the same options.
pub proof fn lemma_oracle_is_the_only_difference(
    plain: TypingPassCompilation,
    with_rust: TypingPassCompilation,
    code: Seq<String>,
)
    requires
        is_test_compilation(plain, code),
        is_test_compilation(with_rust, code),
    ensures
        plain.packages_to_build@.len() == with_rust.packages_to_build@.len(),
        plain.packages_to_build@[0].module@ == with_rust.packages_to_build@[0].module@,
        plain.packages_to_build@[0].packages@ == with_rust.packages_to_build@[0].packages@,
        plain.code_source@ == with_rust.code_source@,
        plain.options == with_rust.options,
{
    assert(plain.packages_to_build@[0].packages@ =~= with_rust.packages_to_build@[0].packages@);
}



/// A citizen's argument description is its shown arguments, bracketed.
proof fn lemma_args_are_bracketed(id: IdT)
    ensures
        spec_describe_args(id) == spec_describe_bracketed(spec_template_args(id)),
{
    match id.local_name {
        INameT::Struct(_) => {},
        INameT::Interface(_) => {},
        _ => {
            assert(spec_template_args(id) =~= Seq::<ITemplataT>::empty());
        },
    }
}

/// A struct or interface kind, on either side of the seam, is described by
/// its side (`rust-citizen` when its id lives in the reserved `rust` module,
/// else `vale-citizen`) followed by its template arguments, `<a, b>`, or by
/// nothing when it shows none. A struct and an interface with one id describe
/// alike.
pub proof fn lemma_citizen_description(id: IdT)
    ensures
        spec_describe_kind(KindT::Struct(id)) == spec_describe_kind(KindT::Interface(id)),
        spec_describe_kind(KindT::Struct(id)) == (if id.package.module@ == "rust"@ {
            "rust-citizen"@
        } else {
            "vale-citizen"@
        }) + (if spec_template_args(id).len() == 0 {
            Seq::<char>::empty()
        } else {
            "<"@ + spec_describe_arg_list(spec_template_args(id)) + ">"@
        }),
{
    lemma_args_are_bracketed(id);
}

/// A one-argument citizen's description carries its argument: two such
/// citizens from the same side of the seam describe alike exactly when their
/// arguments do.
pub proof fn lemma_argument_is_recoverable(id1: IdT, id2: IdT, a1: KindT, a2: KindT)
    requires
        spec_citizen_prefix(id1) == spec_citizen_prefix(id2),
        spec_template_args(id1) == seq![ITemplataT::Kind(a1)],
        spec_template_args(id2) == seq![ITemplataT::Kind(a2)],
    ensures
        (spec_citizen_prefix(id1) + spec_describe_args(id1) == spec_citizen_prefix(id2) + spec_describe_args(id2))
            <==> spec_describe_kind(a1) == spec_describe_kind(a2),
        (spec_describe_kind(KindT::Struct(id1)) == spec_describe_kind(KindT::Struct(id2)))
            <==> spec_describe_kind(a1) == spec_describe_kind(a2),
        (spec_describe_kind(KindT::Interface(id1)) == spec_describe_kind(KindT::Interface(id2)))
            <==> spec_describe_kind(a1) == spec_describe_kind(a2),
{
    lemma_citizen_description(id1);
    lemma_citizen_description(id2);
    let p = spec_citizen_prefix(id1);
    let d1 = spec_describe_kind(a1);
    let d2 = spec_describe_kind(a2);
    let args1 = spec_template_args(id1);
    let args2 = spec_template_args(id2);
    assert(args1.len() == 1 && args2.len() == 1);
    lemma_args_are_bracketed(id1);
    lemma_args_are_bracketed(id2);
    assert(spec_describe_arg_list(args1) == d1) by {
        assert(args1[0] == ITemplataT::Kind(a1));
        assert(spec_describe_arg(args1[0]) == d1);
    };
    assert(spec_describe_arg_list(args2) == d2) by {
        assert(args2[0] == ITemplataT::Kind(a2));
        assert(spec_describe_arg(args2[0]) == d2);
    };
    let s1 = p + spec_describe_args(id1);
    let s2 = p + spec_describe_args(id2);
    assert(s1 =~= p + "<"@ + d1 + ">"@);
    assert(s2 =~= p + "<"@ + d2 + ">"@);
    if s1 == s2 {
        let lo: int = (p.len() + "<"@.len()) as int;
        assert(s1.len() == s2.len());
        assert(d1.len() == d2.len());
        assert(d1 =~= s1.subrange(lo, lo + d1.len() as int));
        assert(d2 =~= s2.subrange(lo, lo + d2.len() as int));
    }
}


/// The derived `Debug` rendering of an error names its arm first. When that
/// name is an ASCII identifier followed by the end of the rendering or by an
/// ASCII character that cannot continue it (`(`, ` `, `{`), the failure read
/// off the rendering carries exactly that name, however the fields print.
pub proof fn lemma_variant_is_the_arm_name(rendered: Seq<char>, arm: Seq<char>, variant: Seq<char>)
    requires
        ascii_classified(rendered),
        is_leading_ident(rendered, variant),
        arm.len() <= rendered.len(),
        rendered.take(arm.len() as int) == arm,
        forall|i: int| 0 <= i < arm.len() ==> is_ascii_char(#[trigger] arm[i]) && is_ascii_ident_char(arm[i]),
        arm.len() == rendered.len() || (is_ascii_char(rendered[arm.len() as int]) && !is_ascii_ident_char(
            rendered[arm.len() as int],
        )),
    ensures
        variant == arm,
{
    assert forall|i: int| 0 <= i < arm.len() implies #[trigger] ident_char(rendered[i]) by {
        assert(rendered[i] == arm[i]);
        assert(is_ascii_char(arm[i]) && is_ascii_ident_char(arm[i]));
    };
    if arm.len() < rendered.len() {
        let c = rendered[arm.len() as int];
        assert(is_ascii_char(c));
        assert(!ident_char(c));
    }
    assert(is_leading_ident(rendered, arm));
    lemma_leading_ident_unique(rendered, variant, arm);
}

/// `pred` answers, for every query of the log, whether it offered an item
/// under `name`.
pub open spec fn asks_if_offered<F: Fn(&OracleQuery) -> bool>(pred: F, log: Seq<OracleCall>, name: Seq<char>) -> bool {
    forall|i: int, b: bool|
        0 <= i < log.len() && #[trigger] call_ensures(pred, (&log[i].query,), b) ==> b == (query_offers(log[i].query, name) is Some)
}

/// `offered(outcome, name)` has an item to return exactly when the vacuity
/// check `asked(|q| q.offered(name).is_some())` answers true: where that check
/// fails, `offered` has nothing to return.
pub proof fn lemma_offered_iff_asked<F: Fn(&OracleQuery) -> bool>(
    log: Seq<OracleCall>,
    name: Seq<char>,
    pred: F,
    asked: bool,
)
    requires
        asks_if_offered(pred, log, name),
        asked_answer(log, pred, asked),
    ensures
        asked <==> first_offer_in_log(log, name) is Some,
{
    lemma_offer_found_iff_offered(log, name);
    if asked {
        let i = choose|i: int| 0 <= i < log.len() && call_ensures(pred, (&log[i].query,), true);
        assert(query_offers(log[i].query, name) is Some);
    } else {
        if first_offer_in_log(log, name) is Some {
            let i = choose|i: int| 0 <= i < log.len() && #[trigger] query_offers(log[i].query, name) is Some;
            assert(call_ensures(pred, (&log[i].query,), false));
        }
    }
}

/// For every outcome exactly one of `expect_compiled` and `expect_failure`
/// may be called: the first exactly when the program compiled.
pub proof fn lemma_exactly_one_expectation<R>(compiled: Result<R, CompileFailure>)
    ensures
        compiled is Ok <==> !(compiled is Err),
{
}


/// The number of call nodes in an expression, at any depth.
pub open spec fn call_nodes(e: ExprT) -> nat
    decreases e, 1nat,
{
    match e {
        ExprT::FunctionCall(c) => 1 + call_nodes_list(c.args@),
        ExprT::Block(es) => call_nodes_list(es@),
        ExprT::Let(_, inner) => call_nodes(*inner),
        ExprT::Return(inner) => call_nodes(*inner),
        ExprT::Leaf => 0,
    }
}

/// The number of call nodes in a list of expressions.
pub open spec fn call_nodes_list(es: Seq<ExprT>) -> nat
    decreases es, 0nat,
{
    if es.len() == 0 {
        0
    } else {
        call_nodes_list(es.drop_last()) + call_nodes(es.last())
    }
}

/// The calls of a list of expressions are the calls of its parts, in order.
pub proof fn lemma_calls_of_concatenation(a: Seq<ExprT>, b: Seq<ExprT>)
    ensures
        spec_calls_list(a + b) == spec_calls_list(a) + spec_calls_list(b),
    decreases b.len(),
{
    if b.len() == 0 {
        assert(a + b =~= a);
        assert(spec_calls_list(a) + spec_calls_list(b) =~= spec_calls_list(a));
    } else {
        lemma_calls_of_concatenation(a, b.drop_last());
        assert((a + b).drop_last() =~= a + b.drop_last());
        assert((a + b).last() == b.last());
        assert(spec_calls_list(a + b) =~= spec_calls_list(a) + spec_calls_list(b));
    }
}

/// A list of one expression makes exactly that expression's calls, whatever
/// the expression is and whatever its callee returns.
pub proof fn lemma_calls_of_one(e: ExprT)
    ensures
        spec_calls_list(seq![e]) == spec_calls(e),
{
    assert(seq![e].drop_last() =~= Seq::<ExprT>::empty());
    assert(seq![e].last() == e);
    assert(spec_calls_list(Seq::<ExprT>::empty()) =~= Seq::<PrototypeT>::empty());
    assert(spec_calls_list(seq![e]) =~= spec_calls(e));
}

/// A call contributes its callee, then every call in its arguments, left to
/// right, each argument's calls in full.
pub proof fn lemma_calls_of_a_call(c: FunctionCallTE, k: int)
    requires
        0 <= k <= c.args@.len(),
    ensures
        spec_calls(ExprT::FunctionCall(c))[0] == c.callable,
        spec_calls(ExprT::FunctionCall(c)) == seq![c.callable] + spec_calls_list(c.args@.take(k))
            + spec_calls_list(c.args@.skip(k)),
{
    lemma_calls_of_concatenation(c.args@.take(k), c.args@.skip(k));
    assert(c.args@.take(k) + c.args@.skip(k) =~= c.args@);
    assert(spec_calls(ExprT::FunctionCall(c)) =~= seq![c.callable] + spec_calls_list(c.args@.take(k))
        + spec_calls_list(c.args@.skip(k)));
}

/// Every call node is collected, at any depth: as many calls are collected
/// as the expression has call nodes.
pub proof fn lemma_every_call_node_is_collected(e: ExprT)
    ensures
        spec_calls(e).len() == call_nodes(e),
    decreases e, 1nat,
{
    match e {
        ExprT::FunctionCall(c) => {
            assert(decreases_to!(e => c.args@)) by {
                assert(decreases_to!(e => c));
                assert(decreases_to!(c => c.args));
                assert(decreases_to!(c.args => c.args@));
            };
            lemma_every_call_node_is_collected_list(c.args@);
        },
        ExprT::Block(es) => {
            assert(decreases_to!(e => es@)) by {
                assert(decreases_to!(e => es));
                assert(decreases_to!(es => es@));
            };
            lemma_every_call_node_is_collected_list(es@);
        },
        ExprT::Let(_, inner) => {
            lemma_every_call_node_is_collected(*inner);
        },
        ExprT::Return(inner) => {
            lemma_every_call_node_is_collected(*inner);
        },
        ExprT::Leaf => {},
    }
}

/// Every call node of a list of expressions is collected.
pub proof fn lemma_every_call_node_is_collected_list(es: Seq<ExprT>)
    ensures
        spec_calls_list(es).len() == call_nodes_list(es),
    decreases es, 0nat,
{
    if es.len() > 0 {
        lemma_every_call_node_is_collected_list(es.drop_last());
        assert(decreases_to!(es => es.last()));
        lemma_every_call_node_is_collected(es.last());
    }
}


/// A test compilation runs with every global option on (sanity checks, the
/// overload index, the optimized solver, verbose errors, debug output), its
/// debug output going to standard output, and tree shaking on.
pub proof fn lemma_test_compilations_turn_everything_on(c: TypingPassCompilation, code: Seq<String>)
    requires
        is_test_compilation(c, code),
    ensures
        c.options.global_options.sanity_check,
        c.options.global_options.use_overload_index,
        c.options.global_options.use_optimized_solver,
        c.options.global_options.verbose_errors,
        c.options.global_options.debug_output,
        c.options.debug_out == DebugSink::Stdout,
        c.options.tree_shaking_enabled,
        spec_test_options().global_options.use_optimized_solver,
{
}

} // verus!

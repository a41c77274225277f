//! What one interop case observed, and the questions its assertions ask of it.

use vstd::prelude::*;
use crate::oracle::{OracleCall, OracleQuery, RustItemId, query_offers};
use crate::text::{ascii_classified, is_leading_ident, join_lines, leading_ident, push_char};

verus! {

/// A typing-pass failure, owned so it can outlive the compilation that
/// produced it.
///
/// `variant` is the error arm's name, taken from the leading identifier of the
/// derived `Debug` rendering; it is the only part of that rendering anything
/// keys on. `detail` is the whole rendering, for failure messages.
#[derive(Clone, Debug)]
pub struct CompileFailure {
    pub variant: String,
    pub detail: String,
}

impl CompileFailure {
    /// A failure from the `Debug` rendering of a typing-pass error.
    pub fn from_debug(rendered: String) -> (r: CompileFailure)
        ensures
            is_leading_ident(rendered@, r.variant@),
            ascii_classified(rendered@),
            r.detail@ == rendered@,
    {
        let variant = leading_ident(rendered.as_str());
        CompileFailure { variant, detail: rendered }
    }

    /// Did the typing pass fail with this error arm?
    pub fn is(&self, variant: &str) -> (r: bool)
        ensures
            r == (self.variant@ == variant@),
    {
        let wanted = String::from_str(variant);
        self.variant == wanted
    }
}

/// What a case declares about its own program.
#[derive(Clone, Debug, PartialEq, Eq)]
pub enum Expectation {
    /// The program typechecks.
    Compiles,
    /// The typing pass fails with the error arm of this name.
    FailsWith(String),
}

/// One interop case: a Vale program compiled against a fixture's Rust crate,
/// with the Rust items the allowlist admits, and what the case expects.
#[derive(Clone, Debug)]
pub struct Case {
    pub name: String,
    pub fixture: String,
    pub program: String,
    pub allowlist: Vec<String>,
    pub expectation: Expectation,
}

/// What one case observed: whether it compiled, and every question the oracle
/// was asked. The log's one job is vacuity: proving the oracle was consulted.
pub struct CaseOutcome<R> {
    pub compiled: Result<R, CompileFailure>,
    pub oracle_log: Vec<OracleCall>,
}

/// `r` is what a call of `asked` may answer for `pred` over `log`.
pub open spec fn asked_answer<F: Fn(&OracleQuery) -> bool>(log: Seq<OracleCall>, pred: F, r: bool) -> bool {
    &&& r ==> exists|i: int| 0 <= i < log.len() && call_ensures(pred, (&log[i].query,), true)
    &&& !r ==> forall|i: int| 0 <= i < log.len() ==> call_ensures(pred, (&log[i].query,), false)
}

/// `r` is what a call of `find_query` may answer for `pred` over `log`: the
/// first query the predicate accepted, or `None` when it accepted none.
pub open spec fn found_answer<F: Fn(&OracleQuery) -> bool>(
    log: Seq<OracleCall>,
    pred: F,
    r: Option<OracleQuery>,
) -> bool {
    match r {
        Some(q) => exists|i: int|
            0 <= i < log.len() && log[i].query == q && call_ensures(pred, (&log[i].query,), true)
                && forall|j: int| 0 <= j < i ==> call_ensures(pred, (&log[j].query,), false),
        None => forall|i: int| 0 <= i < log.len() ==> call_ensures(pred, (&log[i].query,), false),
    }
}

/// The first handle any query of `log` offered under `name`.
pub open spec fn first_offer_in_log(log: Seq<OracleCall>, name: Seq<char>) -> Option<RustItemId>
    decreases log.len(),
{
    if log.len() == 0 {
        None
    } else {
        match query_offers(log[0].query, name) {
            Some(id) => Some(id),
            None => first_offer_in_log(log.drop_first(), name),
        }
    }
}

/// The rendered lines of a log.
pub open spec fn rendered_lines(log: Seq<OracleCall>) -> Seq<Seq<char>> {
    log.map_values(|c: OracleCall| c.rendered@)
}

/// Whether an outcome is what the case declares: it compiled where the case
/// says it compiles, or it failed with the error arm the case names.
pub open spec fn meets_expectation<R>(compiled: Result<R, CompileFailure>, e: Expectation) -> bool {
    match (e, compiled) {
        (Expectation::Compiles, Ok(_)) => true,
        (Expectation::FailsWith(v), Err(f)) => f.variant@ == v@,
        _ => false,
    }
}

impl<R> CaseOutcome<R> {
    /// The outcome of one compilation: what the extractor pulled out of the
    /// typing pass's output, or the failure read off the `Debug` rendering of
    /// its error; and the oracle log.
    pub fn from_compilation(compiled: Result<R, String>, oracle_log: Vec<OracleCall>) -> (r: CaseOutcome<R>)
        ensures
            r.oracle_log == oracle_log,
            match compiled {
                Ok(v) => r.compiled == Ok::<R, CompileFailure>(v),
                Err(rendered) => r.compiled matches Err(f) && is_leading_ident(rendered@, f.variant@)
                    && ascii_classified(rendered@) && f.detail@ == rendered@,
            },
    {
        let compiled = match compiled {
            Ok(v) => Ok(v),
            Err(rendered) => Err(CompileFailure::from_debug(rendered)),
        };
        CaseOutcome { compiled, oracle_log }
    }

    /// What the extractor pulled out of a program that typechecked.
    pub fn expect_compiled(&self) -> (r: &R)
        requires
            self.compiled is Ok,
        ensures
            self.compiled == Ok::<R, CompileFailure>(*r),
    {
        match &self.compiled {
            Ok(r) => r,
            Err(_) => vstd::pervasive::unreached(),
        }
    }

    /// The failure of a program that did not typecheck.
    pub fn expect_failure(&self) -> (r: &CompileFailure)
        requires
            self.compiled is Err,
        ensures
            self.compiled == Err::<R, CompileFailure>(*r),
    {
        match &self.compiled {
            Err(e) => e,
            Ok(_) => vstd::pervasive::unreached(),
        }
    }

    /// Was a question matching `pred` asked? The vacuity assertion.
    pub fn asked(&self, pred: impl Fn(&OracleQuery) -> bool) -> (r: bool)
        requires
            forall|i: int| 0 <= i < self.oracle_log@.len() ==> call_requires(pred, (&self.oracle_log@[i].query,)),
        ensures
            asked_answer(self.oracle_log@, pred, r),
    {
        let mut i: usize = 0;
        while i < self.oracle_log.len()
            invariant
                i <= self.oracle_log@.len(),
                forall|k: int| 0 <= k < self.oracle_log@.len() ==> call_requires(pred, (&self.oracle_log@[k].query,)),
                forall|k: int| 0 <= k < i ==> call_ensures(pred, (&self.oracle_log@[k].query,), false),
            decreases self.oracle_log@.len() - i,
        {
            let b = pred(&self.oracle_log[i].query);
            if b {
                return true;
            }
            i = i + 1;
        }
        false
    }

    /// The first question matching `pred`, for cases that assert on what came
    /// back.
    pub fn find_query(&self, pred: impl Fn(&OracleQuery) -> bool) -> (r: Option<&OracleQuery>)
        requires
            forall|i: int| 0 <= i < self.oracle_log@.len() ==> call_requires(pred, (&self.oracle_log@[i].query,)),
        ensures
            found_answer(self.oracle_log@, pred, match r { Some(q) => Some(*q), None => None }),
    {
        let mut i: usize = 0;
        while i < self.oracle_log.len()
            invariant
                i <= self.oracle_log@.len(),
                forall|k: int| 0 <= k < self.oracle_log@.len() ==> call_requires(pred, (&self.oracle_log@[k].query,)),
                forall|k: int| 0 <= k < i ==> call_ensures(pred, (&self.oracle_log@[k].query,), false),
            decreases self.oracle_log@.len() - i,
        {
            let b = pred(&self.oracle_log[i].query);
            if b {
                return Some(&self.oracle_log[i].query);
            }
            i = i + 1;
        }
        None
    }

    /// The log as a person reads it: one rendered query per line.
    pub fn rendered_log(&self) -> (r: String)
        ensures
            r@ == join_lines(rendered_lines(self.oracle_log@)),
    {
        let mut out = String::new();
        let mut i: usize = 0;
        while i < self.oracle_log.len()
            invariant
                i <= self.oracle_log@.len(),
                out@ == join_lines(rendered_lines(self.oracle_log@.take(i as int))),
            decreases self.oracle_log@.len() - i,
        {
            if i > 0 {
                push_char(&mut out, '\n');
            }
            out.append(self.oracle_log[i].rendered.as_str());
            proof {
                let lines = rendered_lines(self.oracle_log@.take(i + 1));
                assert(lines.drop_last() =~= rendered_lines(self.oracle_log@.take(i as int)));
                assert(lines.last() == self.oracle_log@[i as int].rendered@);
                if i == 0 {
                    assert(out@ =~= lines[0]);
                } else {
                    assert(out@ =~= join_lines(lines.drop_last()) + seq!['\n'] + lines.last());
                }
            }
            i = i + 1;
        }
        assert(self.oracle_log@.take(self.oracle_log@.len() as int) =~= self.oracle_log@);
        out
    }

    /// The first handle any query offered under `name`.
    pub fn first_offer(&self, name: &str) -> (r: Option<RustItemId>)
        ensures
            r == first_offer_in_log(self.oracle_log@, name@),
    {
        let mut i: usize = 0;
        assert(self.oracle_log@.skip(0) =~= self.oracle_log@);
        while i < self.oracle_log.len()
            invariant
                i <= self.oracle_log@.len(),
                first_offer_in_log(self.oracle_log@.skip(i as int), name@)
                    == first_offer_in_log(self.oracle_log@, name@),
            decreases self.oracle_log@.len() - i,
        {
            let o = self.oracle_log[i].query.offered(name);
            assert(self.oracle_log@.skip(i as int).drop_first() =~= self.oracle_log@.skip(i + 1));
            if o.is_some() {
                return o;
            }
            i = i + 1;
        }
        None
    }

    /// Whether this outcome is what `case` declares.
    pub fn meets(&self, case: &Case) -> (r: bool)
        ensures
            r == meets_expectation(self.compiled, case.expectation),
    {
        match (&case.expectation, &self.compiled) {
            (Expectation::Compiles, Ok(_)) => true,
            (Expectation::FailsWith(v), Err(f)) => f.is(v.as_str()),
            _ => false,
        }
    }

    /// Holds the outcome to what `case` declares: what the extractor pulled
    /// out when the case compiles, nothing when it fails as declared.
    pub fn check(&self, case: &Case) -> (r: Option<&R>)
        requires
            meets_expectation(self.compiled, case.expectation),
        ensures
            r is Some <==> case.expectation is Compiles,
            r matches Some(v) ==> self.compiled == Ok::<R, CompileFailure>(*v),
    {
        match &self.compiled {
            Ok(v) => Some(v),
            Err(_) => None,
        }
    }
}

/// The handle the oracle offered under `name`, from whichever enumerating
/// query offered it first.
pub fn offered<R>(outcome: &CaseOutcome<R>, name: &str) -> (r: RustItemId)
    requires
        first_offer_in_log(outcome.oracle_log@, name@) is Some,
    ensures
        first_offer_in_log(outcome.oracle_log@, name@) == Some(r),
{
    match outcome.first_offer(name) {
        Some(id) => id,
        None => vstd::pervasive::unreached(),
    }
}

} // verus!

//! What the Rust oracle was asked during a compilation, as the harness keeps it.

use vstd::prelude::*;

verus! {

/// A Rust item's identity as rustc knows it: the crate it lives in, and its
/// definition index within that crate. Identity never comes from a name.
#[derive(Clone, Copy, Debug, PartialEq, Eq, Structural)]
pub struct RustItemId {
    pub krate: u32,
    pub index: u32,
}

/// Where a type stands in a structurally read Rust signature.
#[derive(Clone, Copy, Debug, PartialEq, Eq, Structural)]
pub enum SigPosition {
    /// The signature's own generic parameter with this index.
    Generic(usize),
    /// A signed integer of this width.
    Int(u32),
    Bool,
    Unit,
    /// An imported Rust type.
    Citizen(RustItemId),
}

/// A Rust function's signature read structurally: generic parameters intact,
/// not collapsed to one instantiation.
#[derive(Clone, Debug, PartialEq, Eq)]
pub struct FnShape {
    pub generic_params: Vec<String>,
    pub params: Vec<SigPosition>,
    pub ret: SigPosition,
}

/// One item an enumerating query handed back, under its human name.
#[derive(Clone, Debug, PartialEq, Eq)]
pub struct OfferedItem {
    pub name: String,
    pub item: RustItemId,
}

/// One question put to the Rust oracle, with its answer.
#[derive(Clone, Debug, PartialEq, Eq)]
pub enum OracleQuery {
    /// The allowlisted items a crate exports.
    CrateItems { krate: String, offered: Vec<OfferedItem> },
    /// The methods of one imported type.
    Methods { owner: RustItemId, offered: Vec<OfferedItem> },
    /// An item's signature; `None` means the signature was declined because
    /// Vale cannot represent it.
    FnSig { item: RustItemId, answer: Option<FnShape> },
}

/// One entry of the oracle log: the query and how it reads to a person.
#[derive(Clone, Debug)]
pub struct OracleCall {
    pub query: OracleQuery,
    pub rendered: String,
}

/// The first item in `items` offered under `name`.
pub open spec fn first_offered_in(items: Seq<OfferedItem>, name: Seq<char>) -> Option<RustItemId>
    decreases items.len(),
{
    if items.len() == 0 {
        None
    } else if items[0].name@ == name {
        Some(items[0].item)
    } else {
        first_offered_in(items.drop_first(), name)
    }
}

/// The item a query offered under `name`: only enumerating queries offer items.
pub open spec fn query_offers(q: OracleQuery, name: Seq<char>) -> Option<RustItemId> {
    match q {
        OracleQuery::CrateItems { offered, .. } => first_offered_in(offered@, name),
        OracleQuery::Methods { offered, .. } => first_offered_in(offered@, name),
        OracleQuery::FnSig { .. } => None,
    }
}

proof fn lemma_first_offered_step(items: Seq<OfferedItem>, i: int, name: Seq<char>)
    requires
        0 <= i < items.len(),
        items[i].name@ != name,
    ensures
        first_offered_in(items.skip(i), name) == first_offered_in(items.skip(i + 1), name),
{
    assert(items.skip(i).drop_first() =~= items.skip(i + 1));
}

/// The first item in `items` offered under `name`.
pub fn first_offered(items: &Vec<OfferedItem>, name: &str) -> (r: Option<RustItemId>)
    ensures
        r == first_offered_in(items@, name@),
{
    let wanted = String::from_str(name);
    let mut i: usize = 0;
    assert(items@.skip(0) =~= items@);
    while i < items.len()
        invariant
            i <= items.len(),
            wanted@ == name@,
            first_offered_in(items@.skip(i as int), name@) == first_offered_in(items@, name@),
        decreases items.len() - i,
    {
        if items[i].name == wanted {
            return Some(items[i].item);
        }
        proof {
            lemma_first_offered_step(items@, i as int, name@);
        }
        i = i + 1;
    }
    None
}

impl OracleQuery {
    /// The handle this query offered under `name`, if it is an enumerating
    /// query that offered one.
    pub fn offered(&self, name: &str) -> (r: Option<RustItemId>)
        ensures
            r == query_offers(*self, name@),
    {
        match self {
            OracleQuery::CrateItems { offered, .. } => first_offered(offered, name),
            OracleQuery::Methods { offered, .. } => first_offered(offered, name),
            OracleQuery::FnSig { .. } => None,
        }
    }
}

} // verus!

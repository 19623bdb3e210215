use crate::errors::AppError;
use crate::models::HybridContext;
use crate::text::{
    chars_of, lemma_trim_end_is_prefix, lemma_trim_nonempty, trim, trim_start_index, CharClass,
};
use vstd::prelude::*;
use vstd::string::StringExecFns;

verus! {

/// Whether a text holds nothing but white space.
pub open spec fn blank(s: Seq<char>) -> bool {
    trim(s, CharClass::Space).len() == 0
}

/// Whether a text holds nothing but white space.
pub fn is_blank(s: &str) -> (r: bool)
    ensures
        r == blank(s@),
{
    let v: Vec<char> = chars_of(s);
    let lo: usize = trim_start_index(&v, CharClass::Space);
    proof {
        lemma_trim_end_is_prefix(v@.skip(lo as int), CharClass::Space);
        if lo < v.len() {
            lemma_trim_nonempty(v@, CharClass::Space);
        }
    }
    lo == v.len()
}

/// Why a blank query is rejected.
pub open spec fn blank_query_text() -> Seq<char> {
    "Texto vacío para embedding"@
}

/// What retrieval does first for a query.
#[derive(Clone, Debug)]
pub enum RetrievalPlan {
    /// The query is blank: fail with this error and call no provider.
    Reject(AppError),
    /// No fragment is wanted: the result is empty and no provider is called.
    Nothing,
    /// Embed the query and ask the store for the nearest fragments.
    Embed,
}

/// Whether `plan` is what retrieval does first for the query and the count.
pub open spec fn is_plan_of(plan: RetrievalPlan, query: Seq<char>, k: nat) -> bool {
    match plan {
        RetrievalPlan::Reject(e) => {
            &&& blank(query)
            &&& e matches AppError::ValidationError(cause)
            &&& cause@ == blank_query_text()
        },
        RetrievalPlan::Nothing => !blank(query) && k == 0,
        RetrievalPlan::Embed => !blank(query) && k > 0,
    }
}

/// Decides what retrieval does first: a blank query is rejected before any
/// provider is called, and a query for no fragments is answered at once.
pub fn plan_retrieval(query: &str, k: usize) -> (r: RetrievalPlan)
    ensures
        is_plan_of(r, query@, k as nat),
{
    if is_blank(query) {
        RetrievalPlan::Reject(
            AppError::ValidationError(String::from_str("Texto vacío para embedding")),
        )
    } else if k == 0 {
        RetrievalPlan::Nothing
    } else {
        RetrievalPlan::Embed
    }
}

/// The first `k` of the fragments, or all of them where they are fewer.
pub open spec fn at_most(fragments: Seq<HybridContext>, k: nat) -> Seq<HybridContext> {
    if fragments.len() <= k {
        fragments
    } else {
        fragments.take(k as int)
    }
}

/// How a retrieval ends.
pub enum Retrieval {
    /// The query was blank: a validation error, and no provider was called.
    Rejected,
    /// These fragments, and no error.
    Fragments(Seq<HybridContext>),
    /// The providers were asked and failed with this error.
    Failed(AppError),
}

/// How retrieval ends for a query, given what the providers would answer if
/// they were asked.
pub open spec fn retrieved(
    query: Seq<char>,
    k: nat,
    fetched: Result<Seq<HybridContext>, AppError>,
) -> Retrieval {
    if blank(query) {
        Retrieval::Rejected
    } else if k == 0 {
        Retrieval::Fragments(Seq::empty())
    } else {
        match fetched {
            Ok(found) => Retrieval::Fragments(at_most(found, k)),
            Err(e) => Retrieval::Failed(e),
        }
    }
}

/// Ends a retrieval with what the providers answered: the fragments found,
/// cut to `k`, or the providers' error as it is.
pub fn finish_retrieval(fetched: Result<Vec<HybridContext>, AppError>, k: usize) -> (r: Result<
    Vec<HybridContext>,
    AppError,
>)
    ensures
        match fetched {
            Ok(found) => r matches Ok(kept) && kept@ == at_most(found@, k as nat),
            Err(e) => r == Err::<Vec<HybridContext>, AppError>(e),
        },
        r matches Ok(kept) ==> kept@.len() <= k,
{
    match fetched {
        Ok(found) => {
            let mut kept: Vec<HybridContext> = found;
            kept.truncate(k);
            assert(kept@ =~= at_most(found@, k as nat));
            Ok(kept)
        },
        Err(e) => Err(e),
    }
}

/// What the providers answered, with the fragments as a plain sequence.
pub open spec fn answer_of(fetched: Result<Vec<HybridContext>, AppError>) -> Result<
    Seq<HybridContext>,
    AppError,
> {
    match fetched {
        Ok(found) => Ok(found@),
        Err(e) => Err(e),
    }
}

/// Whether `r` is the way `retrieval` ends.
pub open spec fn ends_as(r: Result<Vec<HybridContext>, AppError>, retrieval: Retrieval) -> bool {
    match retrieval {
        Retrieval::Rejected => r matches Err(AppError::ValidationError(cause)) && cause@
            == blank_query_text(),
        Retrieval::Fragments(kept) => r matches Ok(fragments) && fragments@ == kept,
        Retrieval::Failed(e) => r == Err::<Vec<HybridContext>, AppError>(e),
    }
}

/// Retrieves the context of a query, given what the providers answered.
/// Where `plan_retrieval` says that no provider is to be asked, `fetched`
/// is not looked at.
pub fn retrieve(query: &str, k: usize, fetched: Result<Vec<HybridContext>, AppError>) -> (r: Result<
    Vec<HybridContext>,
    AppError,
>)
    ensures
        ends_as(r, retrieved(query@, k as nat, answer_of(fetched))),
{
    match plan_retrieval(query, k) {
        RetrievalPlan::Reject(e) => Err(e),
        RetrievalPlan::Nothing => Ok(Vec::new()),
        RetrievalPlan::Embed => finish_retrieval(fetched, k),
    }
}

/// Retrieval of a query that is not blank returns at most `k` fragments
/// whatever the store holds, and for `k` zero it returns no fragment and no
/// error whatever the providers would have answered.
pub proof fn lemma_retrieval_bounded(
    query: Seq<char>,
    k: nat,
    fetched: Result<Seq<HybridContext>, AppError>,
)
    requires
        !blank(query),
    ensures
        retrieved(query, k, fetched) matches Retrieval::Fragments(kept) ==> kept.len() <= k,
        k == 0 ==> retrieved(query, k, fetched) == Retrieval::Fragments(Seq::empty()),
        !(retrieved(query, k, fetched) is Rejected),
        retrieved(query, k, fetched) is Failed ==> fetched is Err,
{
}

} // verus!

//! Browsing models: the curated list and how a search is answered.
use vstd::prelude::*;
use vstd::string::StringExecFns;

use crate::domain::HfModelSummary;
use crate::text::{is_blank, trim, trim_view};

verus! {

/// A search asks the hub for at most this many repositories.
pub const SEARCH_LIMIT: usize = 25;

/// `m` is a curated entry with this repository and description.
pub open spec fn curated_entry(m: HfModelSummary, repo_id: Seq<char>, description: Seq<char>) -> bool {
    &&& m.repo_id@ == repo_id
    &&& m.description matches Some(d) && d@ == description
    &&& m.likes is None
    &&& m.downloads is None
}

/// `v` is the curated list.
pub open spec fn is_curated_list(v: Seq<HfModelSummary>) -> bool {
    &&& v.len() == 2
    &&& curated_entry(
        v[0],
        "bartowski/Phi-3-mini-4k-instruct-v0.3-GGUF"@,
        "Phi-3 Mini 4k Instruct (v0.3) - GGUF quantizations (Bartowski)"@,
    )
    &&& curated_entry(
        v[1],
        "TheBloke/Mistral-7B-Instruct-v0.2-GGUF"@,
        "Mistral 7B Instruct v0.2 - GGUF (TheBloke)"@,
    )
}

/// The models offered before any search.
pub fn curated_defaults() -> (r: Vec<HfModelSummary>)
    ensures
        is_curated_list(r@),
{
    let mut r: Vec<HfModelSummary> = Vec::new();
    r.push(
        HfModelSummary {
            repo_id: String::from_str("bartowski/Phi-3-mini-4k-instruct-v0.3-GGUF"),
            description: Some(
                String::from_str("Phi-3 Mini 4k Instruct (v0.3) - GGUF quantizations (Bartowski)"),
            ),
            likes: None,
            downloads: None,
        },
    );
    r.push(
        HfModelSummary {
            repo_id: String::from_str("TheBloke/Mistral-7B-Instruct-v0.2-GGUF"),
            description: Some(String::from_str("Mistral 7B Instruct v0.2 - GGUF (TheBloke)")),
            likes: None,
            downloads: None,
        },
    );
    r
}

/// How a search is answered.
#[derive(Debug)]
pub enum SearchPlan {
    /// With these entries, without asking the hub.
    Curated(Vec<HfModelSummary>),
    /// By asking the hub for this query, at most `limit` results.
    Remote { query: String, limit: usize },
}

/// A blank or missing query gets the curated list; any other query, trimmed,
/// goes to the hub.
pub fn plan_search(query: Option<String>) -> (r: SearchPlan)
    ensures
        match query {
            Some(q) if trim_view(q@).len() > 0 => r matches SearchPlan::Remote { query, limit }
                && query@ == trim_view(q@) && limit == SEARCH_LIMIT,
            _ => r matches SearchPlan::Curated(v) && is_curated_list(v@),
        },
{
    match query {
        Some(q) => {
            if is_blank(q.as_str()) {
                SearchPlan::Curated(curated_defaults())
            } else {
                SearchPlan::Remote { query: String::from_str(trim(q.as_str())), limit: SEARCH_LIMIT }
            }
        },
        None => SearchPlan::Curated(curated_defaults()),
    }
}

} // verus!

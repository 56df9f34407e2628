//! What indexing stores for one environment, apart from reading and writing.
use vstd::prelude::*;
use crate::export::{join, push_joined};
use crate::parser::{parse_requires_dist, requirement_of, ParsedRequirement};
use crate::text::push_char;

verus! {

/// The configuration files of a project as one comma-separated text.
pub fn join_config_files(files: &Vec<String>) -> (r: String)
    ensures
        r@ == join(files.deep_view(), seq![',']),
{
    let mut s = String::new();
    push_joined(&mut s, files, ',');
    assert(Seq::<char>::empty() + join(files.deep_view(), seq![',']) =~= join(
        files.deep_view(),
        seq![','],
    ));
    s
}

/// The dependency records of a package: one parsed requirement per
/// `Requires-Dist` value, in order.
pub fn parse_requirements(requires_dist: &Vec<String>) -> (r: Vec<ParsedRequirement>)
    ensures
        r@.len() == requires_dist@.len(),
        forall|i: int|
            0 <= i < r@.len() ==> (#[trigger] r@[i])@ == requirement_of(requires_dist@[i]@),
{
    let mut out: Vec<ParsedRequirement> = Vec::new();
    let n = requires_dist.len();
    let mut i: usize = 0;
    while i < n
        invariant
            i <= n == requires_dist.len(),
            out@.len() == i,
            forall|j: int|
                0 <= j < i ==> (#[trigger] out@[j])@ == requirement_of(requires_dist@[j]@),
        decreases n - i,
    {
        out.push(parse_requires_dist(requires_dist[i].as_str()));
        i += 1;
    }
    out
}

/// The SQL `LIKE` pattern of a package search: the query anywhere in the name.
pub fn search_pattern(query: &str) -> (r: String)
    ensures
        r@ == seq!['%'] + query@ + seq!['%'],
{
    let mut s = String::new();
    push_char(&mut s, '%');
    s.append(query);
    push_char(&mut s, '%');
    assert(s@ =~= seq!['%'] + query@ + seq!['%']);
    s
}

} // verus!

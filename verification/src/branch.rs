//! Branch names derived from a pull request.
//!
//! When the service prepares a working branch from a pull request's head,
//! it names it after the pull request and, where that name is taken,
//! appends an increasing counter until a free name is found. The candidate
//! for each attempt is computed here; asking the host which names exist
//! stays outside the library.

use vstd::prelude::*;
use vstd::string::StringExecFns;
use crate::numeral::dec_rendering;
use crate::numeral::lemma_dec_rendering_digits;
use crate::numeral::lemma_dec_rendering_injective;
use crate::numeral::u64_to_dec;

verus! {

/// The branch name tried at a given attempt: the pull request's own name
/// first, then the same name with the attempt counter appended.
pub open spec fn branch_candidate_name(pr_number: int, counter: int) -> Seq<char> {
    if counter == 0 {
        "mechanic-"@ + dec_rendering(pr_number)
    } else {
        "mechanic-"@ + dec_rendering(pr_number) + "-"@ + dec_rendering(counter)
    }
}

/// The branch name to try at the given attempt; the first attempt is
/// counter zero.
pub fn branch_candidate(pr_number: u64, counter: u64) -> (r: String)
    ensures
        r@ == branch_candidate_name(pr_number as int, counter as int),
{
    let mut out: String = "mechanic-".to_owned();
    let pr = u64_to_dec(pr_number);
    out.append(pr.as_str());
    if counter > 0 {
        out.append("-");
        let c = u64_to_dec(counter);
        out.append(c.as_str());
    }
    out
}

proof fn lemma_append_cancels(prefix: Seq<char>, a: Seq<char>, b: Seq<char>)
    requires
        prefix + a == prefix + b,
        a.len() == b.len(),
    ensures
        a == b,
{
    assert forall|i: int| 0 <= i < a.len() implies a[i] == b[i] by {
        assert((prefix + a)[prefix.len() + i] == a[i]);
        assert((prefix + b)[prefix.len() + i] == b[i]);
    }
    assert(a =~= b);
}

/// Distinct attempt counters for one pull request always produce distinct
/// branch names: the search for a free name never retries a name it has
/// already found taken.
pub proof fn lemma_branch_candidates_distinct(pr_number: u64, c1: u64, c2: u64)
    requires
        c1 != c2,
    ensures
        branch_candidate_name(pr_number as int, c1 as int) != branch_candidate_name(
            pr_number as int,
            c2 as int,
        ),
{
    reveal_strlit("-");
    let plain = "mechanic-"@ + dec_rendering(pr_number as int);
    let n1 = branch_candidate_name(pr_number as int, c1 as int);
    let n2 = branch_candidate_name(pr_number as int, c2 as int);
    if c1 == 0 {
        lemma_dec_rendering_digits(c2 as int);
        assert(n2.len() == plain.len() + 1 + dec_rendering(c2 as int).len());
        assert(n1.len() < n2.len());
    } else if c2 == 0 {
        lemma_dec_rendering_digits(c1 as int);
        assert(n1.len() == plain.len() + 1 + dec_rendering(c1 as int).len());
        assert(n2.len() < n1.len());
    } else {
        let marked = plain + "-"@;
        assert(n1 =~= marked + dec_rendering(c1 as int));
        assert(n2 =~= marked + dec_rendering(c2 as int));
        if n1 == n2 {
            lemma_append_cancels(marked, dec_rendering(c1 as int), dec_rendering(c2 as int));
            lemma_dec_rendering_injective(c1, c2);
        }
    }
}

} // verus!

use vstd::prelude::*;
use crate::enums::{ProposalStatus, QuorumThreshold};

verus! {

/// Sum of a sequence of vote counts.
pub open spec fn sum_of(s: Seq<u128>) -> int
    decreases s.len(),
{
    if s.len() == 0 {
        0
    } else {
        sum_of(s.drop_last()) + s.last()
    }
}

/// The largest of a sequence of vote counts, and zero for no counts.
pub open spec fn max_of(s: Seq<u128>) -> u128
    decreases s.len(),
{
    if s.len() == 0 {
        0
    } else if s.last() > max_of(s.drop_last()) {
        s.last()
    } else {
        max_of(s.drop_last())
    }
}

/// How many entries of `s` equal `v`.
pub open spec fn count_of(s: Seq<u128>, v: u128) -> nat
    decreases s.len(),
{
    if s.len() == 0 {
        0
    } else {
        count_of(s.drop_last(), v) + if s.last() == v { 1nat } else { 0nat }
    }
}

/// The index of the first entry of `s` that equals `v`, and `s.len()` if there is none.
pub open spec fn first_index_of(s: Seq<u128>, v: u128) -> nat
    decreases s.len(),
{
    if s.len() == 0 {
        0
    } else if s[0] == v {
        0
    } else {
        first_index_of(s.drop_first(), v) + 1
    }
}

/// Votes needed for quorum: the threshold's share of all registered voters, rounded down.
pub open spec fn required_votes(total_voters: u32, threshold: QuorumThreshold) -> int {
    (total_voters * threshold.to_percentage()) / 100
}

/// Whether the votes cast reach the quorum.
pub open spec fn quorum_reached(counts: Seq<u128>, total_voters: u32, threshold: QuorumThreshold) -> bool {
    sum_of(counts) >= required_votes(total_voters, threshold)
}

/// The verdict of a tally that reached quorum: passed when exactly one option
/// has the highest count, rejected on a tie for the highest count.
pub open spec fn plurality_outcome(counts: Seq<u128>) -> ProposalStatus {
    if count_of(counts, max_of(counts)) > 1 {
        ProposalStatus::Rejected
    } else {
        ProposalStatus::Passed
    }
}

/// The verdict of a closed vote: rejected without quorum, else by plurality.
pub open spec fn tally_outcome(counts: Seq<u128>, total_voters: u32, threshold: QuorumThreshold) -> ProposalStatus {
    if !quorum_reached(counts, total_voters, threshold) {
        ProposalStatus::Rejected
    } else {
        plurality_outcome(counts)
    }
}

proof fn lemma_take_step<T>(s: Seq<T>, i: int)
    requires
        0 <= i < s.len(),
    ensures
        s.take(i + 1).drop_last() == s.take(i),
        s.take(i + 1).last() == s[i],
{
    assert(s.take(i + 1).drop_last() =~= s.take(i));
}

/// A prefix of the counts never sums to more than all of them.
pub proof fn lemma_sum_prefix_le(s: Seq<u128>, i: int)
    requires
        0 <= i <= s.len(),
    ensures
        0 <= sum_of(s.take(i)) <= sum_of(s),
    decreases s.len(),
{
    if i == s.len() {
        assert(s.take(i) =~= s);
        lemma_sum_nonneg(s);
    } else {
        assert(s.drop_last().take(i) =~= s.take(i));
        lemma_sum_prefix_le(s.drop_last(), i);
    }
}

/// Counts never sum to less than zero.
pub proof fn lemma_sum_nonneg(s: Seq<u128>)
    ensures
        sum_of(s) >= 0,
    decreases s.len(),
{
    if s.len() > 0 {
        lemma_sum_nonneg(s.drop_last());
    }
}

/// Adding one to an entry adds one to the sum.
pub proof fn lemma_sum_increment(s: Seq<u128>, i: int)
    requires
        0 <= i < s.len(),
        s[i] < u128::MAX,
    ensures
        sum_of(s.update(i, (s[i] + 1) as u128)) == sum_of(s) + 1,
    decreases s.len(),
{
    let t = s.update(i, (s[i] + 1) as u128);
    if i == s.len() - 1 {
        assert(t.drop_last() =~= s.drop_last());
    } else {
        assert(t.drop_last() =~= s.drop_last().update(i, (s[i] + 1) as u128));
        lemma_sum_increment(s.drop_last(), i);
    }
}

/// No count exceeds the sum of the counts.
pub proof fn lemma_entry_le_sum(s: Seq<u128>, i: int)
    requires
        0 <= i < s.len(),
    ensures
        s[i] <= sum_of(s),
    decreases s.len(),
{
    lemma_sum_nonneg(s.drop_last());
    if i < s.len() - 1 {
        lemma_entry_le_sum(s.drop_last(), i);
    }
}

proof fn lemma_first_index_char(s: Seq<u128>, v: u128, i: int)
    requires
        0 <= i <= s.len(),
        forall|j: int| 0 <= j < i ==> s[j] != v,
        i < s.len() ==> s[i] == v,
    ensures
        first_index_of(s, v) == i,
    decreases i,
{
    if i > 0 {
        assert(s[0] != v);
        lemma_first_index_char(s.drop_first(), v, i - 1);
    }
}


/// The highest count is one of the counts, and no count exceeds it.
pub proof fn lemma_max_of(s: Seq<u128>)
    requires
        s.len() > 0,
    ensures
        exists|i: int| 0 <= i < s.len() && s[i] == max_of(s),
        forall|i: int| 0 <= i < s.len() ==> s[i] <= max_of(s),
    decreases s.len(),
{
    if s.len() == 1 {
        assert(s[0] == max_of(s));
    } else {
        lemma_max_of(s.drop_last());
        let j = choose|i: int| 0 <= i < s.drop_last().len() && s.drop_last()[i] == max_of(s.drop_last());
        if s.last() > max_of(s.drop_last()) {
            assert(s[s.len() - 1] == max_of(s));
        } else {
            assert(s[j] == max_of(s));
        }
        assert forall|i: int| 0 <= i < s.len() implies s[i] <= max_of(s) by {
            if i < s.len() - 1 {
                assert(s[i] == s.drop_last()[i]);
            }
        }
    }
}

/// The first position of `v` comes no later than any position holding `v`.
pub proof fn lemma_first_index_le(s: Seq<u128>, v: u128, j: int)
    requires
        0 <= j < s.len(),
        s[j] == v,
    ensures
        first_index_of(s, v) <= j,
        s[first_index_of(s, v) as int] == v,
        forall|k: int| 0 <= k < first_index_of(s, v) ==> s[k] != v,
    decreases j,
{
    if s[0] != v {
        lemma_first_index_le(s.drop_first(), v, j - 1);
        let f = first_index_of(s.drop_first(), v);
        assert forall|k: int| 0 <= k < first_index_of(s, v) implies s[k] != v by {
            if k > 0 {
                assert(s[k] == s.drop_first()[k - 1]);
            }
        }
    }
}


/// A value that occurs in the counts is counted at least once.
pub proof fn lemma_count_member(s: Seq<u128>, v: u128, j: int)
    requires
        0 <= j < s.len(),
        s[j] == v,
    ensures
        count_of(s, v) >= 1,
    decreases s.len(),
{
    if j < s.len() - 1 {
        assert(s.drop_last()[j] == v);
        lemma_count_member(s.drop_last(), v, j);
    }
}

/// A value held by exactly one entry is counted once.
pub proof fn lemma_count_unique(s: Seq<u128>, v: u128, i: int)
    requires
        0 <= i < s.len(),
        s[i] == v,
        forall|j: int| 0 <= j < s.len() && j != i ==> s[j] != v,
    ensures
        count_of(s, v) == 1,
    decreases s.len(),
{
    if i == s.len() - 1 {
        lemma_count_absent(s.drop_last(), v);
    } else {
        assert forall|j: int| 0 <= j < s.drop_last().len() && j != i implies s.drop_last()[j] != v by {
            assert(s.drop_last()[j] == s[j]);
        }
        lemma_count_unique(s.drop_last(), v, i);
    }
}

/// A value held by no entry is not counted.
pub proof fn lemma_count_absent(s: Seq<u128>, v: u128)
    requires
        forall|j: int| 0 <= j < s.len() ==> s[j] != v,
    ensures
        count_of(s, v) == 0,
    decreases s.len(),
{
    if s.len() > 0 {
        assert forall|j: int| 0 <= j < s.drop_last().len() implies s.drop_last()[j] != v by {
            assert(s.drop_last()[j] == s[j]);
        }
        lemma_count_absent(s.drop_last(), v);
    }
}

/// A value held by two different entries is counted at least twice.
pub proof fn lemma_count_two(s: Seq<u128>, v: u128, i: int, j: int)
    requires
        0 <= i < j < s.len(),
        s[i] == v,
        s[j] == v,
    ensures
        count_of(s, v) >= 2,
    decreases s.len(),
{
    if j == s.len() - 1 {
        assert(s.drop_last()[i] == v);
        lemma_count_member(s.drop_last(), v, i);
    } else {
        assert(s.drop_last()[i] == v);
        assert(s.drop_last()[j] == v);
        lemma_count_two(s.drop_last(), v, i, j);
    }
}

/// An entry no smaller than every entry is the highest count.
pub proof fn lemma_max_at(s: Seq<u128>, i: int)
    requires
        0 <= i < s.len(),
        forall|k: int| 0 <= k < s.len() ==> s[k] <= s[i],
    ensures
        max_of(s) == s[i],
{
    lemma_max_of(s);
    let j = choose|j: int| 0 <= j < s.len() && s[j] == max_of(s);
    assert(s[j] <= s[i]);
    assert(s[i] <= max_of(s));
}

/// `s` reaches `x / 100` rounded down exactly when `100 * s + 100 > x`.
pub proof fn lemma_floor_hundredth(s: int, x: int)
    requires
        s >= 0,
        x >= 0,
    ensures
        (s >= x / 100) <==> (100 * s + 100 > x),
{
    assert(100 * (x / 100) <= x < 100 * (x / 100) + 100);
}

/// Sum of the counts.
pub(crate) fn total_votes(counts: &Vec<u128>) -> (r: u128)
    requires
        sum_of(counts@) <= u128::MAX,
    ensures
        r == sum_of(counts@),
{
    let mut total: u128 = 0;
    let mut i: usize = 0;
    while i < counts.len()
        invariant
            i <= counts@.len(),
            total == sum_of(counts@.take(i as int)),
            sum_of(counts@) <= u128::MAX,
        decreases counts@.len() - i,
    {
        proof {
            lemma_take_step(counts@, i as int);
            lemma_sum_prefix_le(counts@, i + 1);
        }
        total = total + counts[i];
        i = i + 1;
    }
    assert(counts@.take(i as int) =~= counts@);
    total
}

/// The highest count, and zero for no counts.
pub(crate) fn max_votes(counts: &Vec<u128>) -> (r: u128)
    ensures
        r == max_of(counts@),
{
    let mut best: u128 = 0;
    let mut i: usize = 0;
    while i < counts.len()
        invariant
            i <= counts@.len(),
            best == max_of(counts@.take(i as int)),
        decreases counts@.len() - i,
    {
        proof {
            lemma_take_step(counts@, i as int);
        }
        if counts[i] > best {
            best = counts[i];
        }
        i = i + 1;
    }
    assert(counts@.take(i as int) =~= counts@);
    best
}

/// How many counts equal `v`.
pub(crate) fn count_equal(counts: &Vec<u128>, v: u128) -> (r: usize)
    ensures
        r == count_of(counts@, v),
{
    let mut n: usize = 0;
    let mut i: usize = 0;
    while i < counts.len()
        invariant
            i <= counts@.len(),
            n == count_of(counts@.take(i as int), v),
            n <= i,
        decreases counts@.len() - i,
    {
        proof {
            lemma_take_step(counts@, i as int);
        }
        if counts[i] == v {
            n = n + 1;
        }
        i = i + 1;
    }
    assert(counts@.take(i as int) =~= counts@);
    n
}

/// The index of the first count equal to `v`, and the length if there is none.
pub(crate) fn first_position(counts: &Vec<u128>, v: u128) -> (r: usize)
    ensures
        r == first_index_of(counts@, v),
{
    let mut i: usize = 0;
    while i < counts.len()
        invariant
            i <= counts@.len(),
            forall|j: int| 0 <= j < i ==> counts@[j] != v,
        decreases counts@.len() - i,
    {
        if counts[i] == v {
            proof {
                lemma_first_index_char(counts@, v, i as int);
            }
            return i;
        }
        i = i + 1;
    }
    proof {
        lemma_first_index_char(counts@, v, i as int);
    }
    i
}

/// Votes needed for quorum among `total_voters` registered voters.
pub(crate) fn compute_required_votes(total_voters: u32, threshold: QuorumThreshold) -> (r: u128)
    ensures
        r == required_votes(total_voters, threshold),
{
    let pct = threshold.to_percentage();
    assert(total_voters * pct <= 0xffff_ffff * 25) by (nonlinear_arith)
        requires
            pct <= 25,
    ;
    (total_voters as u128 * pct as u128) / 100
}

/// The verdict of a closed vote, as `tally_outcome` states it.
pub(crate) fn decide_tally(counts: &Vec<u128>, total_voters: u32, threshold: QuorumThreshold) -> (r: ProposalStatus)
    requires
        sum_of(counts@) <= u128::MAX,
    ensures
        r == tally_outcome(counts@, total_voters, threshold),
{
    let required = compute_required_votes(total_voters, threshold);
    let total = total_votes(counts);
    if total < required {
        return ProposalStatus::Rejected;
    }
    let max = max_votes(counts);
    let winners = count_equal(counts, max);
    if winners > 1 {
        ProposalStatus::Rejected
    } else {
        ProposalStatus::Passed
    }
}

} // verus!

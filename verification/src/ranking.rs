//! Which findings count, and in what order they are reported.
//!
//! A finding counts where its likelihood is strictly above three tenths.
//! Those that count are reported from the greatest likelihood down; of two
//! with the same likelihood, the one that was found first comes first.

use crate::infrigement::{FindingView, ProductInfrigement};
use crate::likelihood::{lemma_at_least_total, lemma_at_least_transitive};
use vstd::prelude::*;

verus! {

/// The findings of `findings` that count, in their order.
pub open spec fn qualifying(findings: Seq<FindingView>) -> Seq<FindingView>
    decreases findings.len(),
{
    if findings.len() == 0 {
        Seq::empty()
    } else if findings.last().likelihood.above_threshold() {
        qualifying(findings.drop_last()).push(findings.last())
    } else {
        qualifying(findings.drop_last())
    }
}

/// `sorted` with `finding` put behind the last finding whose likelihood is
/// at least as great.
pub open spec fn insert_ranked(sorted: Seq<FindingView>, finding: FindingView) -> Seq<
    FindingView,
>
    decreases sorted.len(),
{
    if sorted.len() == 0 {
        seq![finding]
    } else if sorted.last().likelihood.at_least(finding.likelihood) {
        sorted.push(finding)
    } else {
        insert_ranked(sorted.drop_last(), finding).push(sorted.last())
    }
}

/// The findings from the greatest likelihood down, equal ones in the order
/// they had.
pub open spec fn sorted_down(findings: Seq<FindingView>) -> Seq<FindingView>
    decreases findings.len(),
{
    if findings.len() == 0 {
        Seq::empty()
    } else {
        insert_ranked(sorted_down(findings.drop_last()), findings.last())
    }
}

/// The findings that are reported: those that count, from the greatest
/// likelihood down.
pub open spec fn ranked(findings: Seq<FindingView>) -> Seq<FindingView> {
    sorted_down(qualifying(findings))
}

/// Whether the likelihoods never rise along `findings`.
pub open spec fn non_increasing(findings: Seq<FindingView>) -> bool {
    forall|i: int, j: int|
        0 <= i <= j < findings.len() ==> (#[trigger] findings[i]).likelihood.at_least(
            (#[trigger] findings[j]).likelihood,
        )
}

/// Whether every finding of `findings` counts.
pub open spec fn all_above_threshold(findings: Seq<FindingView>) -> bool {
    forall|i: int|
        0 <= i < findings.len() ==> (#[trigger] findings[i]).likelihood.above_threshold()
}

/// Every finding that is kept counts.
pub proof fn lemma_qualifying_all_above(findings: Seq<FindingView>)
    ensures
        all_above_threshold(qualifying(findings)),
        qualifying(findings).len() <= findings.len(),
    decreases findings.len(),
{
    if findings.len() > 0 {
        lemma_qualifying_all_above(findings.drop_last());
    }
}

/// The findings that are kept are those that count, each as often as it
/// occurred: none that counts is lost, and none is made up.
pub proof fn lemma_qualifying_keeps_what_counts(findings: Seq<FindingView>)
    ensures
        qualifying(findings).to_multiset() =~= findings.to_multiset().filter(
            |f: FindingView| f.likelihood.above_threshold(),
        ),
    decreases findings.len(),
{
    broadcast use vstd::seq_lib::group_to_multiset_ensures;

    let keep = |f: FindingView| f.likelihood.above_threshold();
    if findings.len() == 0 {
        assert(findings.to_multiset() =~= vstd::multiset::Multiset::<FindingView>::empty());
    } else {
        let rest = findings.drop_last();
        let last = findings.last();
        lemma_qualifying_keeps_what_counts(rest);
        assert(findings =~= rest.push(last));
        assert(findings.to_multiset() =~= rest.to_multiset().insert(last));
        assert forall|f: FindingView|
            qualifying(findings).to_multiset().count(f) == findings.to_multiset().filter(
                keep,
            ).count(f) by {
            assert(rest.to_multiset().filter(keep).count(f) == if keep(f) {
                rest.to_multiset().count(f)
            } else {
                0
            });
        }
    }
}

/// Where no finding counts, none is kept; and where none is kept, no finding
/// counted.
pub proof fn lemma_qualifying_empty_iff_none_counts(findings: Seq<FindingView>)
    ensures
        qualifying(findings).len() == 0 <==> forall|i: int|
            0 <= i < findings.len() ==> !(#[trigger] findings[i]).likelihood.above_threshold(),
    decreases findings.len(),
{
    if findings.len() > 0 {
        let rest = findings.drop_last();
        lemma_qualifying_empty_iff_none_counts(rest);
        if qualifying(findings).len() == 0 {
            assert forall|i: int| 0 <= i < findings.len() implies !(
            #[trigger] findings[i]).likelihood.above_threshold() by {
                if i < rest.len() {
                    assert(rest[i] == findings[i]);
                }
            }
        } else {
            if !findings.last().likelihood.above_threshold() {
                let i = choose|i: int|
                    0 <= i < rest.len() && (#[trigger] rest[i]).likelihood.above_threshold();
                assert(findings[i] == rest[i]);
            }
        }
    }
}

/// Putting a finding into a non-increasing sequence keeps it non-increasing,
/// one longer, and with the same findings and the new one.
pub proof fn lemma_insert_ranked(sorted: Seq<FindingView>, finding: FindingView)
    requires
        non_increasing(sorted),
    ensures
        non_increasing(insert_ranked(sorted, finding)),
        insert_ranked(sorted, finding).len() == sorted.len() + 1,
        insert_ranked(sorted, finding).to_multiset() =~= sorted.to_multiset().insert(finding),
        all_above_threshold(sorted) && finding.likelihood.above_threshold()
            ==> all_above_threshold(insert_ranked(sorted, finding)),
    decreases sorted.len(),
{
    broadcast use vstd::seq_lib::group_to_multiset_ensures;

    let out = insert_ranked(sorted, finding);
    if sorted.len() == 0 {
        assert(sorted.to_multiset() =~= vstd::multiset::Multiset::<FindingView>::empty());
        assert(out =~= Seq::<FindingView>::empty().push(finding));
    } else if sorted.last().likelihood.at_least(finding.likelihood) {
        assert forall|i: int, j: int| 0 <= i <= j < out.len() implies (
        #[trigger] out[i]).likelihood.at_least((#[trigger] out[j]).likelihood) by {
            if j == sorted.len() {
                if i < sorted.len() {
                    assert(sorted[i].likelihood.at_least(sorted.last().likelihood));
                    lemma_at_least_transitive(
                        sorted[i].likelihood,
                        sorted.last().likelihood,
                        finding.likelihood,
                    );
                }
            } else {
                assert(out[i] == sorted[i] && out[j] == sorted[j]);
            }
        }
    } else {
        let rest = sorted.drop_last();
        let last = sorted.last();
        assert forall|i: int, j: int| 0 <= i <= j < rest.len() implies (
        #[trigger] rest[i]).likelihood.at_least((#[trigger] rest[j]).likelihood) by {
            assert(rest[i] == sorted[i] && rest[j] == sorted[j]);
        }
        lemma_insert_ranked(rest, finding);
        let inner = insert_ranked(rest, finding);
        assert(sorted =~= rest.push(last));
        assert(sorted.to_multiset() =~= rest.to_multiset().insert(last));
        assert(out.to_multiset() =~= inner.to_multiset().insert(last));
        lemma_at_least_total(last.likelihood, finding.likelihood);
        assert forall|i: int, j: int| 0 <= i <= j < out.len() implies (
        #[trigger] out[i]).likelihood.at_least((#[trigger] out[j]).likelihood) by {
            if j < inner.len() {
                assert(out[i] == inner[i] && out[j] == inner[j]);
            } else if i < inner.len() {
                // every finding of `inner` is the new one or one of `rest`
                assert(out[i] == inner[i]);
                assert(inner.to_multiset().count(inner[i]) > 0);
                if inner[i] == finding {
                } else {
                    assert(rest.to_multiset().count(inner[i]) > 0);
                    assert(rest.contains(inner[i]));
                    let k = choose|k: int| 0 <= k < rest.len() && rest[k] == inner[i];
                    assert(sorted[k] == rest[k]);
                    assert(sorted[k].likelihood.at_least(sorted[sorted.len() - 1].likelihood));
                }
            } else {
            }
        }
        if all_above_threshold(sorted) && finding.likelihood.above_threshold() {
            assert forall|i: int| 0 <= i < rest.len() implies (
            #[trigger] rest[i]).likelihood.above_threshold() by {
                assert(rest[i] == sorted[i]);
            }
            assert forall|i: int| 0 <= i < out.len() implies (
            #[trigger] out[i]).likelihood.above_threshold() by {
                if i < inner.len() {
                    assert(out[i] == inner[i]);
                } else {
                    assert(out[i] == sorted[sorted.len() - 1]);
                }
            }
        }
    }
}

/// Sorting gives the same findings, each as often as before, with
/// likelihoods that never rise.
pub proof fn lemma_sorted_down(findings: Seq<FindingView>)
    ensures
        non_increasing(sorted_down(findings)),
        sorted_down(findings).len() == findings.len(),
        sorted_down(findings).to_multiset() =~= findings.to_multiset(),
        all_above_threshold(findings) ==> all_above_threshold(sorted_down(findings)),
    decreases findings.len(),
{
    broadcast use vstd::seq_lib::group_to_multiset_ensures;

    if findings.len() == 0 {
    } else {
        let rest = findings.drop_last();
        let last = findings.last();
        lemma_sorted_down(rest);
        lemma_insert_ranked(sorted_down(rest), last);
        assert(findings =~= rest.push(last));
        assert(findings.to_multiset() =~= rest.to_multiset().insert(last));
        if all_above_threshold(findings) {
            assert forall|i: int| 0 <= i < rest.len() implies (
            #[trigger] rest[i]).likelihood.above_threshold() by {
                assert(rest[i] == findings[i]);
            }
        }
    }
}

/// Every finding that is reported has a likelihood strictly above three
/// tenths, and no finding at or below it is reported.
pub proof fn lemma_ranked_all_above_threshold(findings: Seq<FindingView>)
    ensures
        all_above_threshold(ranked(findings)),
        forall|f: FindingView|
            ranked(findings).contains(f) ==> findings.contains(f)
                && f.likelihood.above_threshold(),
        forall|f: FindingView|
            findings.contains(f) && f.likelihood.above_threshold() ==> ranked(findings).contains(
                f,
            ),
{
    broadcast use vstd::seq_lib::group_to_multiset_ensures;

    lemma_qualifying_all_above(findings);
    lemma_qualifying_keeps_what_counts(findings);
    lemma_sorted_down(qualifying(findings));
    let keep = |f: FindingView| f.likelihood.above_threshold();
    assert forall|f: FindingView| ranked(findings).contains(f) implies findings.contains(f)
        && f.likelihood.above_threshold() by {
        assert(ranked(findings).to_multiset().count(f) > 0);
        assert(findings.to_multiset().filter(keep).count(f) > 0);
        assert(keep(f));
        assert(findings.to_multiset().count(f) > 0);
    }
    assert forall|f: FindingView|
        findings.contains(f) && f.likelihood.above_threshold() implies ranked(findings).contains(
        f,
    ) by {
        assert(findings.to_multiset().count(f) > 0);
        assert(keep(f));
        assert(findings.to_multiset().filter(keep).count(f) > 0);
        assert(ranked(findings).to_multiset().count(f) > 0);
    }
}

/// The findings that are reported never rise in likelihood, from the first
/// to the last.
pub proof fn lemma_ranked_non_increasing(findings: Seq<FindingView>)
    ensures
        non_increasing(ranked(findings)),
{
    lemma_sorted_down(qualifying(findings));
}

/// Nothing is reported exactly where no finding counts.
pub proof fn lemma_ranked_empty_iff_none_counts(findings: Seq<FindingView>)
    ensures
        ranked(findings).len() == 0 <==> forall|i: int|
            0 <= i < findings.len() ==> !(#[trigger] findings[i]).likelihood.above_threshold(),
{
    lemma_qualifying_empty_iff_none_counts(findings);
    lemma_sorted_down(qualifying(findings));
}

proof fn lemma_insert_ranked_at(sorted: Seq<FindingView>, finding: FindingView, at: int)
    requires
        0 <= at <= sorted.len(),
        at > 0 ==> sorted[at - 1].likelihood.at_least(finding.likelihood),
        forall|j: int|
            at <= j < sorted.len() ==> !(#[trigger] sorted[j]).likelihood.at_least(
                finding.likelihood,
            ),
    ensures
        insert_ranked(sorted, finding) == sorted.insert(at, finding),
    decreases sorted.len() - at,
{
    if at == sorted.len() {
        assert(sorted.insert(at, finding) =~= sorted.push(finding));
        if sorted.len() == 0 {
            assert(sorted.push(finding) =~= seq![finding]);
        }
    } else {
        let rest = sorted.drop_last();
        assert(!sorted[sorted.len() - 1].likelihood.at_least(finding.likelihood));
        assert forall|j: int| at <= j < rest.len() implies !(
        #[trigger] rest[j]).likelihood.at_least(finding.likelihood) by {
            assert(rest[j] == sorted[j]);
        }
        if at > 0 {
            assert(rest[at - 1] == sorted[at - 1]);
        }
        lemma_insert_ranked_at(rest, finding, at);
        assert(rest.insert(at, finding).push(sorted.last()) =~= sorted.insert(at, finding));
    }
}

/// Puts `finding` into `sorted`, behind the last finding whose likelihood is
/// at least as great.
pub fn insert_finding(sorted: &mut Vec<ProductInfrigement>, finding: ProductInfrigement)
    ensures
        final(sorted).deep_view() == insert_ranked(old(sorted).deep_view(), finding@),
{
    let ghost before = sorted.deep_view();
    let mut at: usize = sorted.len();
    while at > 0 && !sorted[at - 1].infringement_likelihood.is_at_least(
        &finding.infringement_likelihood,
    )
        invariant
            at <= sorted.len(),
            sorted.deep_view() == before,
            forall|j: int|
                at <= j < before.len() ==> !(#[trigger] before[j]).likelihood.at_least(
                    finding@.likelihood,
                ),
        decreases at,
    {
        proof {
            assert(before[at - 1] == sorted@[at - 1]@);
        }
        at -= 1;
    }
    proof {
        if at > 0 {
            assert(before[at - 1] == sorted@[at - 1]@);
        }
        lemma_insert_ranked_at(before, finding@, at as int);
    }
    sorted.insert(at, finding);
    proof {
        assert(sorted.deep_view() =~= before.insert(at as int, finding@));
    }
}

/// The findings that are reported: those of `findings` that count, from the
/// greatest likelihood down, equal ones in the order they had.
pub fn rank(findings: &Vec<ProductInfrigement>) -> (out: Vec<ProductInfrigement>)
    ensures
        out.deep_view() == ranked(findings.deep_view()),
        non_increasing(out.deep_view()),
        all_above_threshold(out.deep_view()),
{
    let ghost all = findings.deep_view();
    let mut out: Vec<ProductInfrigement> = Vec::new();
    let mut i: usize = 0;
    proof {
        assert(all.take(0) =~= Seq::<FindingView>::empty());
        assert(out.deep_view() =~= Seq::<FindingView>::empty());
    }
    while i < findings.len()
        invariant
            i <= findings.len(),
            all == findings.deep_view(),
            out.deep_view() == ranked(all.take(i as int)),
        decreases findings.len() - i,
    {
        proof {
            assert(all.take(i + 1).drop_last() =~= all.take(i as int));
            assert(all.take(i + 1).last() == findings@[i as int]@);
        }
        if findings[i].infringement_likelihood.is_above_threshold() {
            proof {
                let kept = qualifying(all.take(i as int));
                let last = findings@[i as int]@;
                assert(kept.push(last).drop_last() =~= kept);
                assert(kept.push(last).last() == last);
            }
            insert_finding(&mut out, findings[i].clone());
        }
        i += 1;
    }
    proof {
        assert(all.take(findings.len() as int) =~= all);
        lemma_ranked_non_increasing(all);
        lemma_ranked_all_above_threshold(all);
    }
    out
}

} // verus!

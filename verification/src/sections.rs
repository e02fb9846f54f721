//! Serialized critical sections.
//!
//! Mutual exclusion gives a total order of critical sections per lock: the
//! protected value ends up as if the sections had run one after another in
//! some order. This module states that model — a serialization is a sequence
//! of sections, each the list of pushes its holder performed — and proves
//! what every serialization guarantees: no push is lost, each section's
//! pushes stay contiguous and in submission order, and a run of sections
//! under the lock realizes exactly the model's outcome.

use vstd::prelude::*;

use crate::lock::Spinlock;

verus! {

/// The protected sequence grown by the sections of `ss` run in that order,
/// each appending its pushes: the concatenation of `ss`.
pub open spec fn concat_all(ss: Seq<Seq<u64>>) -> Seq<u64>
    decreases ss.len(),
{
    if ss.len() == 0 {
        Seq::empty()
    } else {
        concat_all(ss.drop_last()) + ss.last()
    }
}

/// The number of pushes the sections of `ss` perform in all.
pub open spec fn total_len(ss: Seq<Seq<u64>>) -> nat
    decreases ss.len(),
{
    if ss.len() == 0 {
        0
    } else {
        total_len(ss.drop_last()) + ss.last().len()
    }
}

/// Where the pushes of section `i` begin in the serialized result: after
/// every push of the sections ordered before it.
pub open spec fn section_start(ss: Seq<Seq<u64>>, i: int) -> nat {
    total_len(ss.take(i))
}

/// The sections of a vector of push lists, as sequences.
pub open spec fn seq_views(sections: Seq<Vec<u64>>) -> Seq<Seq<u64>> {
    sections.map_values(|v: Vec<u64>| v@)
}

/// No data loss: a serialization ends with every push present, whatever the
/// order — the final length is the total number of pushes.
pub proof fn lemma_concat_all_len(ss: Seq<Seq<u64>>)
    ensures
        concat_all(ss).len() == total_len(ss),
    decreases ss.len(),
{
    if ss.len() > 0 {
        lemma_concat_all_len(ss.drop_last());
    }
}

/// No data loss under a uniform load: when each of the sections pushes `p`
/// values, the serialized result holds exactly `ss.len() * p` values.
pub proof fn lemma_total_len_uniform(ss: Seq<Seq<u64>>, p: nat)
    requires
        forall|i: int| 0 <= i < ss.len() ==> #[trigger] ss[i].len() == p,
    ensures
        total_len(ss) == ss.len() * p,
        concat_all(ss).len() == ss.len() * p,
    decreases ss.len(),
{
    lemma_concat_all_len(ss);
    if ss.len() > 0 {
        let head = ss.drop_last();
        assert(forall|i: int| 0 <= i < head.len() ==> #[trigger] head[i].len() == p);
        lemma_total_len_uniform(head, p);
        assert(ss.last().len() == p);
        assert((ss.len() - 1) * p + p == ss.len() * p) by (nonlinear_arith);
    }
}

/// Intra-critical-section ordering: in the serialized result the pushes of
/// section `i` stand contiguously, in submission order, beginning at
/// `section_start(ss, i)`.
pub proof fn lemma_section_contiguous(ss: Seq<Seq<u64>>, i: int)
    requires
        0 <= i < ss.len(),
    ensures
        section_start(ss, i) + ss[i].len() <= concat_all(ss).len(),
        concat_all(ss).subrange(
            section_start(ss, i) as int,
            section_start(ss, i) + ss[i].len() as int,
        ) == ss[i],
    decreases ss.len(),
{
    let head = ss.drop_last();
    let start = section_start(ss, i) as int;
    if i == ss.len() - 1 {
        assert(ss.take(i) =~= head);
        lemma_concat_all_len(head);
        assert(concat_all(ss).subrange(start, start + ss[i].len()) =~= ss[i]);
    } else {
        assert(head.take(i) =~= ss.take(i));
        lemma_section_contiguous(head, i);
        assert(concat_all(ss).subrange(start, start + ss[i].len()) =~= concat_all(
            head,
        ).subrange(start, start + ss[i].len()));
    }
}

/// Two critical sections admit exactly the two serialization orders: one
/// section's pushes stand wholly before the other's, never interleaved.
pub proof fn lemma_pair_serializations(a: Seq<u64>, b: Seq<u64>)
    ensures
        concat_all(seq![a, b]) == a + b,
        concat_all(seq![b, a]) == b + a,
{
    reveal_with_fuel(concat_all, 3);
    assert(seq![a, b].drop_last() =~= seq![a]);
    assert(seq![b, a].drop_last() =~= seq![b]);
    assert(seq![a].drop_last() =~= Seq::<Seq<u64>>::empty());
    assert(seq![b].drop_last() =~= Seq::<Seq<u64>>::empty());
    assert(concat_all(seq![a, b]) =~= a + b);
    assert(concat_all(seq![b, a]) =~= b + a);
}

/// Run each section of `sections`, in the given order, as one critical
/// section: acquire the lock once, push that section's values in submission
/// order through the guard, release. The protected sequence ends as the
/// serialization model says: what it held, extended by the concatenation of
/// the sections.
pub fn run_sections(lk: &mut Spinlock<Vec<u64>>, sections: &Vec<Vec<u64>>)
    requires
        old(lk).wf(),
        !old(lk).is_locked(),
    ensures
        final(lk).wf(),
        !final(lk).is_locked(),
        final(lk).stored()@ == old(lk).stored()@ + concat_all(seq_views(sections@)),
{
    let ghost all = seq_views(sections@);
    let mut i: usize = 0;
    while i < sections.len()
        invariant
            i <= sections.len(),
            all == seq_views(sections@),
            lk.wf(),
            !lk.is_locked(),
            lk.stored()@ == old(lk).stored()@ + concat_all(all.take(i as int)),
        decreases sections.len() - i,
    {
        let ghost before = lk.stored()@;
        let mut g = lk.lock();
        let section = &sections[i];
        let mut j: usize = 0;
        while j < section.len()
            invariant
                j <= section.len(),
                g@@ == before + section@.take(j as int),
            decreases section.len() - j,
        {
            let v = section[j];
            let target = g.get_mut();
            target.push(v);
            assert(section@.take(j as int + 1) =~= section@.take(j as int).push(v));
            j += 1;
        }
        assert(section@.take(section@.len() as int) =~= section@);
        lk.unlock(g);
        proof {
            let next = all.take(i as int + 1);
            assert(next.drop_last() =~= all.take(i as int));
            assert(next.last() == section@);
            assert(old(lk).stored()@ + concat_all(all.take(i as int)) + section@
                =~= old(lk).stored()@ + concat_all(next));
        }
        i += 1;
    }
    assert(all.take(sections@.len() as int) =~= all);
}

/// Run `n` critical sections, each incrementing the protected counter once:
/// acquire, add one through the guard, release. No update is lost — the
/// counter ends exactly `n` above where it began.
pub fn run_increments(lk: &mut Spinlock<u64>, n: u64)
    requires
        old(lk).wf(),
        !old(lk).is_locked(),
        old(lk).stored() + n <= u64::MAX,
    ensures
        final(lk).wf(),
        !final(lk).is_locked(),
        final(lk).stored() == old(lk).stored() + n,
{
    let mut k: u64 = 0;
    while k < n
        invariant
            k <= n,
            lk.wf(),
            !lk.is_locked(),
            lk.stored() == old(lk).stored() + k,
            old(lk).stored() + n <= u64::MAX,
        decreases n - k,
    {
        let mut g = lk.lock();
        let target = g.get_mut();
        *target = *target + 1;
        lk.unlock(g);
        k += 1;
    }
}

} // verus!

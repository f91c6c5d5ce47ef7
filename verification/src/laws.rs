//! Laws of the transpiler, stated and proved over its specification.

use crate::events::{EventS, TagS};
use crate::shell::{run_st, slug_of, spec_needs_push_st, transpile_output};
use vstd::prelude::*;

verus! {

/// Whether an event starts a level-2 heading.
pub open spec fn is_h2_start(ev: EventS) -> bool {
    ev matches EventS::Start(TagS::Header(2))
}

/// The number of level-2 heading-start events in `evs`. The function-open
/// comment is emitted exactly once at each such event.
pub open spec fn count_h2(evs: Seq<EventS>) -> int
    decreases evs.len(),
{
    if evs.len() == 0 {
        0
    } else {
        count_h2(evs.drop_last()) + (if is_h2_start(evs.last()) {
            1int
        } else {
            0int
        })
    }
}

/// Whether every level-2 heading start is immediately followed by its text
/// leaf, as a document parser emits headings.
pub open spec fn h2_has_text(evs: Seq<EventS>) -> bool {
    forall|i: int|
        0 <= i < evs.len() && #[trigger] is_h2_start(evs[i]) ==> i + 1 < evs.len() && (evs[i + 1]
            matches EventS::Text(_))
}

/// The function names a document is expected to record: for each level-2
/// heading start, the slug of the text leaf that follows it, in document
/// order.
pub open spec fn expected_names(evs: Seq<EventS>) -> Seq<Seq<char>>
    decreases evs.len(),
{
    if evs.len() == 0 {
        Seq::<Seq<char>>::empty()
    } else if evs.len() >= 2 && is_h2_start(evs[evs.len() - 2]) {
        match evs.last() {
            EventS::Text(t) => expected_names(evs.drop_last()).push(slug_of(t)),
            _ => expected_names(evs.drop_last()),
        }
    } else {
        expected_names(evs.drop_last())
    }
}

#[verifier::rlimit(100)]
#[verifier::spinoff_prover]
proof fn lemma_names_invariant(evs: Seq<EventS>, k: int)
    requires
        h2_has_text(evs),
        0 <= k <= evs.len(),
    ensures
        spec_needs_push_st(run_st(evs.take(k))) <==> (k > 0 && is_h2_start(evs[k - 1])),
        run_st(evs.take(k)).function_names == expected_names(evs.take(k)),
        expected_names(evs.take(k)).len() == count_h2(evs.take(k)) - (if k > 0 && is_h2_start(
            evs[k - 1],
        ) {
            1int
        } else {
            0int
        }),
    decreases k,
{
    if k == 0 {
        assert(evs.take(0) =~= Seq::<EventS>::empty());
    } else {
        lemma_names_invariant(evs, k - 1);
        let p = evs.take(k);
        let q = evs.take(k - 1);
        assert(p.drop_last() =~= q);
        assert(p.last() == evs[k - 1]);
        let st0 = run_st(q);
        let ev = evs[k - 1];
        if ev matches EventS::Text(t) {
            if spec_needs_push_st(st0) {
                assert(k - 1 > 0 && is_h2_start(evs[k - 2]));
                assert(q.last() == evs[k - 2]);
            }
        } else if is_h2_start(ev) {
            assert(run_st(p).function_names == st0.function_names);
        } else {
            if spec_needs_push_st(st0) {
                assert(k - 1 > 0 && is_h2_start(evs[k - 2]));
                assert(evs[k - 1] matches EventS::Text(_));
                assert(false);
            }
            assert(run_st(p).function_names == st0.function_names);
            assert(!spec_needs_push_st(run_st(p)));
        }
    }
}

/// For a document where each level-2 heading start is immediately followed by
/// its text leaf, the recorded function names are exactly the slugs of those
/// texts, in document order, and number exactly the level-2 heading-start
/// events. A lone heading start with no following text records no name, so
/// the hypothesis cannot be dropped.
pub proof fn lemma_function_count(evs: Seq<EventS>)
    requires
        h2_has_text(evs),
    ensures
        run_st(evs).function_names == expected_names(evs),
        run_st(evs).function_names.len() == count_h2(evs),
{
    lemma_names_invariant(evs, evs.len() as int);
    assert(evs.take(evs.len() as int) =~= evs);
    if evs.len() > 0 && is_h2_start(evs[evs.len() - 1]) {
        assert(false);
    }
}

/// A document with no level-2 heading start records no function name, so its
/// trailer invokes nothing.
pub proof fn lemma_no_h2_no_functions(evs: Seq<EventS>)
    requires
        forall|i: int| 0 <= i < evs.len() ==> !is_h2_start(#[trigger] evs[i]),
    ensures
        run_st(evs).function_names.len() == 0,
        !(run_st(evs).header matches Some(h) && h.level == 2),
    decreases evs.len(),
{
    if evs.len() > 0 {
        assert(forall|i: int|
            0 <= i < evs.drop_last().len() ==> !is_h2_start(#[trigger] evs.drop_last()[i]));
        lemma_no_h2_no_functions(evs.drop_last());
        assert(!is_h2_start(evs.last()));
    }
}

/// Transpiling the same event sequence twice yields byte-identical output:
/// the output is a function of the event sequence alone.
pub proof fn lemma_transpile_deterministic(evs1: Seq<EventS>, evs2: Seq<EventS>)
    requires
        evs1 == evs2,
    ensures
        transpile_output(evs1) == transpile_output(evs2),
{
}

/// An empty event sequence yields exactly the unconditional function close
/// followed by the trailer label and an empty joined-names block.
pub proof fn lemma_empty_transpile()
    ensures
        transpile_output(Seq::<EventS>::empty()) == "\n}\n\n# - run doc: \n"@,
{
    reveal_strlit("\n}\n");
    reveal_strlit("\n# - run doc: \n");
    reveal_strlit("\n}\n\n# - run doc: \n");
    assert(transpile_output(Seq::<EventS>::empty()) =~= "\n}\n\n# - run doc: \n"@);
}

} // verus!

//! The audio accumulator behind the engine's synthesis callback.
//!
//! During one synthesis call the engine delivers zero or more fragments of
//! signed 16-bit samples.  The unverified host layer checks the raw callback
//! arguments (null sample pointer, non-positive length, null context handle)
//! and hands each delivery here: a checked fragment, or nothing when the
//! engine's documented not-applicable case holds.  This module appends the
//! fragments, in arrival order, to the caller-supplied buffer, with no gaps,
//! drops, or duplication.

use vstd::prelude::*;

verus! {

/// One delivery from the engine's synthesis callback.  `fragment` is `None`
/// in the engine's documented not-applicable case (null sample pointer,
/// non-positive length, or missing context handle), in which case the buffer
/// is left untouched.  Otherwise the fragment is appended whole, in order,
/// after the buffer's existing content.  The result is the callback's
/// "continue" signal, always 0: the design does not support early
/// cancellation of an in-flight synthesis call.
pub fn bridge_deliver(buffer: &mut Vec<i16>, fragment: Option<&[i16]>) -> (r: i32)
    ensures
        r == 0,
        fragment matches Some(f) ==> final(buffer)@ == old(buffer)@ + f@,
        fragment is None ==> final(buffer)@ == old(buffer)@,
{
    match fragment {
        Some(f) => {
            let mut i: usize = 0;
            while i < f.len()
                invariant
                    i <= f@.len(),
                    buffer@ == old(buffer)@ + f@.subrange(0, i as int),
                decreases f@.len() - i,
            {
                buffer.push(*vstd::slice::slice_index_get(f, i));
                proof {
                    assert(buffer@ =~= old(buffer)@ + f@.subrange(0, i + 1));
                }
                i = i + 1;
            }
            proof {
                assert(f@.subrange(0, f@.len() as int) =~= f@);
            }
        },
        None => {},
    }
    0
}

/// Law: fragments delivered in order only ever extend the buffer.  After a
/// buffer holding `prior` receives `first` and then `second`, the earlier
/// content stands unchanged at its old position, the fragments follow it in
/// arrival order, and nothing else was added.
pub proof fn lemma_deliveries_preserve_prior(prior: Seq<i16>, first: Seq<i16>, second: Seq<i16>)
    ensures
        (prior + first + second).len() == prior.len() + first.len() + second.len(),
        (prior + first + second).subrange(0, prior.len() as int) == prior,
        (prior + first + second).subrange(
            prior.len() as int,
            (prior.len() + first.len()) as int,
        ) == first,
        (prior + first + second).subrange(
            (prior.len() + first.len()) as int,
            (prior.len() + first.len() + second.len()) as int,
        ) == second,
{
    assert((prior + first + second).subrange(0, prior.len() as int) =~= prior);
    assert((prior + first + second).subrange(
        prior.len() as int,
        (prior.len() + first.len()) as int,
    ) =~= first);
    assert((prior + first + second).subrange(
        (prior.len() + first.len()) as int,
        (prior.len() + first.len() + second.len()) as int,
    ) =~= second);
}

} // verus!

use vstd::prelude::*;
use crate::types::{RouterError, MAX_PAYLOAD};

verus! {

#[verifier::external_type_specification]
#[verifier::external_body]
#[verifier::reject_recursive_types(T)]
pub struct ExHeaplessVec<T, const N: usize>(heapless::Vec<T, N>);

/// The bytes that a message buffer holds.
pub uninterp spec fn message_bytes(v: heapless::Vec<u8, MAX_PAYLOAD>) -> Seq<u8>;

/// Relies on heapless::Vec::clear: the vector is empty afterwards.
#[verifier::external_body]
fn message_clear(v: &mut heapless::Vec<u8, MAX_PAYLOAD>)
    ensures
        message_bytes(*final(v)) == Seq::<u8>::empty(),
{
    v.clear()
}

/// Relies on heapless::Vec::extend_from_slice: when the result would exceed
/// the capacity it fails and changes nothing, else it appends `other`.
#[verifier::external_body]
fn message_extend(v: &mut heapless::Vec<u8, MAX_PAYLOAD>, other: &[u8]) -> (r: Result<(), ()>)
    ensures
        message_bytes(*old(v)).len() + other@.len() > MAX_PAYLOAD ==> r is Err
            && *final(v) == *old(v),
        message_bytes(*old(v)).len() + other@.len() <= MAX_PAYLOAD ==> r is Ok
            && message_bytes(*final(v)) == message_bytes(*old(v)) + other@,
{
    v.extend_from_slice(other)
}

/// The views of a list of slices.
pub open spec fn chunk_views(chunks: Seq<&[u8]>) -> Seq<Seq<u8>> {
    chunks.map_values(|c: &[u8]| c@)
}

/// The concatenation of a list of byte sequences.
pub open spec fn concat(s: Seq<Seq<u8>>) -> Seq<u8>
    decreases s.len(),
{
    if s.len() == 0 {
        Seq::empty()
    } else {
        concat(s.drop_last()) + s.last()
    }
}

proof fn lemma_concat_prefix_len(s: Seq<Seq<u8>>, i: int)
    requires
        0 <= i <= s.len(),
    ensures
        concat(s.subrange(0, i)).len() <= concat(s).len(),
    decreases s.len() - i,
{
    if i < s.len() {
        lemma_concat_prefix_len(s, i + 1);
        assert(s.subrange(0, i + 1).drop_last() =~= s.subrange(0, i));
    } else {
        assert(s.subrange(0, i) =~= s);
    }
}

/// Concatenates the chunks of a message into `msg`, replacing what it held.
///
/// Fails with `NoSpace` when the whole message exceeds `MAX_PAYLOAD`.
pub fn flatten(chunks: &[&[u8]], msg: &mut heapless::Vec<u8, MAX_PAYLOAD>) -> (r: Result<
    (),
    RouterError,
>)
    ensures
        r == (if concat(chunk_views(chunks@)).len() > MAX_PAYLOAD {
            Err(RouterError::NoSpace)
        } else {
            Ok(())
        }),
        r is Ok ==> message_bytes(*final(msg)) == concat(chunk_views(chunks@)),
{
    let ghost views = chunk_views(chunks@);
    message_clear(msg);
    let mut i: usize = 0;
    assert(views.subrange(0, 0) =~= Seq::<Seq<u8>>::empty());
    while i < chunks.len()
        invariant
            i <= chunks@.len(),
            views == chunk_views(chunks@),
            message_bytes(*msg) == concat(views.subrange(0, i as int)),
            message_bytes(*msg).len() <= MAX_PAYLOAD,
        decreases chunks@.len() - i,
    {
        let c: &[u8] = chunks[i];
        assert(views.subrange(0, i + 1).drop_last() =~= views.subrange(0, i as int));
        match message_extend(msg, c) {
            Ok(()) => {},
            Err(()) => {
                proof {
                    lemma_concat_prefix_len(views, i + 1);
                }
                return Err(RouterError::NoSpace);
            },
        }
        i = i + 1;
    }
    assert(views.subrange(0, i as int) =~= views);
    Ok(())
}

} // verus!

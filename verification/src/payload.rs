use vstd::prelude::*;

use crate::error::ExtractError;

verus! {

/// The bytes of each source, in order.
pub open spec fn payloads(sources: Seq<&[u8]>) -> Seq<Seq<u8>> {
    sources.map_values(|source: &[u8]| source@)
}

/// The unsigned byte with the same bits as a signed one.
pub open spec fn byte_of(value: i8) -> u8 {
    if value < 0 {
        (value + 256) as u8
    } else {
        value as u8
    }
}

/// A run of signed bytes read as unsigned bytes with the same bits.
pub open spec fn unsigned(bytes: Seq<i8>) -> Seq<u8> {
    bytes.map_values(|value: i8| byte_of(value))
}

/// Reads signed bytes as unsigned ones with `bytemuck::cast_slice`.
///
/// Taken on trust from that function: between `i8` and `u8`, which have the
/// same size and alignment, the cast never fails and hands back the same
/// memory, so as many bytes as before, each with its bits unchanged.
#[verifier::external_body]
pub(crate) fn cast_bytes(data: &[i8]) -> (bytes: &[u8])
    ensures
        bytes@ == unsigned(data@),
{
    bytemuck::cast_slice(data)
}

/// Taken on trust from std: `<[T]>::copy_from_slice` overwrites the slice
/// with the elements of `src`, and panics unless both have the same length.
pub assume_specification<T>[ <[T]>::copy_from_slice ](slice: &mut [T], src: &[T]) where T: Copy
    requires
        old(slice)@.len() == src@.len(),
    ensures
        final(slice)@ == src@,
;

/// A destination that was filled in part: `copied` was written at its
/// start, and the `remaining` bytes behind are as they were before.
pub open spec fn filled(before: Seq<u8>, copied: Seq<u8>, remaining: usize, after: Seq<u8>) -> bool {
    &&& copied.len() + remaining == before.len()
    &&& after == copied + before.skip(copied.len() as int)
}

/// Appending one more part appends its bytes and adds its length.
proof fn lemma_take_next(parts: Seq<Seq<u8>>, count: int)
    requires
        0 <= count < parts.len(),
    ensures
        parts.take(count + 1).flatten() == parts.take(count).flatten() + parts[count],
{
    assert(parts.take(count + 1) == parts.take(count).push(parts[count]));
    parts.take(count).lemma_flatten_push(parts[count]);
}

/// The first parts of a payload are never longer than the whole payload.
proof fn lemma_take_len(parts: Seq<Seq<u8>>, count: int)
    requires
        0 <= count <= parts.len(),
    ensures
        parts.take(count).flatten().len() <= parts.flatten().len(),
    decreases parts.len() - count,
{
    if count == parts.len() {
        assert(parts.take(count) == parts);
    } else {
        lemma_take_next(parts, count);
        lemma_take_len(parts, count + 1);
    }
}

/// Fills a destination buffer with the given sources, one after the other.
///
/// Each source is copied whole to the first bytes of the destination that
/// are still unfilled. The copy succeeds when the sources fill the
/// destination exactly. A source that does not fit in what is left stops the
/// copy before any of its bytes is written, and sources that leave a part of
/// the destination unfilled are reported with the number of bytes missing.
/// In both cases the bytes already copied stay, and the rest of the
/// destination is left as it was.
pub fn assemble(destination: &mut [u8], sources: &[&[u8]]) -> (outcome: Result<(), ExtractError>)
    ensures
        final(destination)@.len() == old(destination)@.len(),
        outcome is Ok <==> payloads(sources@).flatten().len() == old(destination)@.len(),
        outcome matches Err(ExtractError::IncompletePayload { .. }) <==> payloads(
            sources@,
        ).flatten().len() < old(destination)@.len(),
        outcome matches Err(ExtractError::SourceOverrun { .. }) <==> payloads(
            sources@,
        ).flatten().len() > old(destination)@.len(),
        (match outcome {
            Ok(()) => final(destination)@ == payloads(sources@).flatten(),
            Err(ExtractError::IncompletePayload { remaining }) => filled(
                old(destination)@,
                payloads(sources@).flatten(),
                remaining,
                final(destination)@,
            ),
            Err(ExtractError::SourceOverrun { index, length, remaining }) => index < sources@.len()
                && length == sources@[index as int]@.len() && length > remaining && filled(
                old(destination)@,
                payloads(sources@).take(index as int).flatten(),
                remaining,
                final(destination)@,
            ),
            Err(_) => false,
        }),
{
    let ghost parts = payloads(sources@);
    let ghost before = destination@;
    let ghost after = final(destination)@;
    let mut target = destination;
    let mut index: usize = 0;
    while index < sources.len()
        invariant
            index <= sources.len(),
            parts == payloads(sources@),
            before == old(destination)@,
            after == final(destination)@,
            parts.take(index as int).flatten().len() + target@.len() == before.len(),
            target@ == before.skip(parts.take(index as int).flatten().len() as int),
            after == parts.take(index as int).flatten() + final(target)@,
        decreases sources.len() - index,
    {
        let source: &[u8] = sources[index];
        proof {
            lemma_take_next(parts, index as int);
        }
        if source.len() > target.len() {
            proof {
                lemma_take_len(parts, index + 1);
            }
            return Err(
                ExtractError::SourceOverrun {
                    index,
                    length: source.len(),
                    remaining: target.len(),
                },
            );
        }
        let (head, tail) = target.split_at_mut(source.len());
        head.copy_from_slice(source);
        target = tail;
        index += 1;
    }
    assert(parts.take(index as int) == parts);
    if target.len() != 0 {
        Err(ExtractError::IncompletePayload { remaining: target.len() })
    } else {
        Ok(())
    }
}

} // verus!

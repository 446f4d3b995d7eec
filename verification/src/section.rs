//! The section writer: one payload appended to the file image, padded to an
//! 8-byte boundary and closed by the section marker.

use vstd::prelude::*;
use crate::error::Pod5Error;
use crate::reads_format::EmbeddedFileArgs;

verus! {

/// The number of zero bytes that bring a cursor at `pos` to the next multiple
/// of 8.
pub open spec fn padding_for(pos: int) -> int {
    (8 - pos % 8) % 8
}

/// `n` zero bytes.
pub open spec fn zeros(n: int) -> Seq<u8> {
    Seq::new(n as nat, |i: int| 0u8)
}

/// What writing one section adds to a file whose cursor stands at `start`:
/// the payload as it is, the padding, and the marker.
pub open spec fn section_bytes(start: int, payload: Seq<u8>, marker: Seq<u8>) -> Seq<u8> {
    payload + zeros(padding_for(start + payload.len())) + marker
}

/// Whether the cursor after a section stays within the signed 64-bit
/// positions that a footer can hold.
pub open spec fn section_fits(start: int, payload_len: int) -> bool {
    start + payload_len + padding_for(start + payload_len) + 16 <= i64::MAX
}

/// After a section the cursor is a multiple of 8, wherever it stood before.
pub proof fn lemma_section_aligned(start: int, payload: Seq<u8>, marker: Seq<u8>)
    requires
        0 <= start,
        marker.len() == 16,
    ensures
        section_bytes(start, payload, marker).len() == payload.len() + padding_for(
            start + payload.len(),
        ) + 16,
        0 <= padding_for(start + payload.len()) < 8,
        (start + section_bytes(start, payload, marker).len()) % 8 == 0,
{
}

/// The span that a section's descriptor names holds the payload and nothing
/// else, whatever is written after the section.
pub proof fn lemma_section_payload_exact(
    before: Seq<u8>,
    payload: Seq<u8>,
    marker: Seq<u8>,
    after: Seq<u8>,
)
    ensures
        (before + section_bytes(before.len() as int, payload, marker) + after).subrange(
            before.len() as int,
            (before.len() + payload.len()) as int,
        ) == payload,
{
    let file = before + section_bytes(before.len() as int, payload, marker) + after;
    assert(file.subrange(before.len() as int, (before.len() + payload.len()) as int) =~= payload);
}

/// Appends `src` to `out`.
pub fn append_bytes(out: &mut Vec<u8>, src: &[u8])
    ensures
        final(out)@ == old(out)@ + src@,
{
    let ghost before = out@;
    out.extend_from_slice(src);
    assert(out@ =~= before + src@);
}

/// Appends `n` zero bytes to `out`.
pub fn append_zeros(out: &mut Vec<u8>, n: usize)
    ensures
        final(out)@ == old(out)@ + zeros(n as int),
{
    let ghost before = out@;
    let mut i: usize = 0;
    while i < n
        invariant
            i <= n,
            out@ == before + zeros(i as int),
        decreases n - i,
    {
        out.push(0u8);
        i += 1;
        assert(out@ =~= before + zeros(i as int));
    }
}

/// The number of padding bytes after a cursor at `pos`.
pub fn padding_needed(pos: usize) -> (padding: usize)
    ensures
        padding == padding_for(pos as int),
        padding < 8,
{
    (8 - pos % 8) % 8
}

/// Writes one section at the end of `file`: the payload, zero bytes up to the
/// next 8-byte boundary, and the section marker. The descriptor gets the
/// position at which the payload starts and the payload's own length; its
/// format and content kind stay.
///
/// Fails, and changes nothing, where the cursor after the section would not
/// fit a footer's signed 64-bit positions.
pub fn _write_table(
    file: &mut Vec<u8>,
    section_marker: &[u8; 16],
    payload: &[u8],
    embedded_file: &mut EmbeddedFileArgs,
) -> (result: Result<(), Pod5Error>)
    ensures
        result is Ok <==> section_fits(old(file)@.len() as int, payload@.len() as int),
        match result {
            Ok(()) => {
                &&& final(file)@ == old(file)@ + section_bytes(
                    old(file)@.len() as int,
                    payload@,
                    section_marker@,
                )
                &&& final(embedded_file).offset == old(file)@.len()
                &&& final(embedded_file).length == payload@.len()
                &&& final(embedded_file).format == old(embedded_file).format
                &&& final(embedded_file).content_type == old(embedded_file).content_type
                &&& final(file)@.len() % 8 == 0
                &&& final(file)@.subrange(
                    final(embedded_file).offset as int,
                    final(embedded_file).offset + final(embedded_file).length,
                ) == payload@
            },
            Err(e) => {
                &&& e == Pod5Error::TooLarge
                &&& final(file)@ == old(file)@
                &&& *final(embedded_file) == *old(embedded_file)
            },
        },
{
    let start: usize = file.len();
    let size: usize = payload.len();
    let limit: u128 = 0x7fff_ffff_ffff_ffff;
    let after_payload: u128 = start as u128 + size as u128;
    let padding: usize = ((8 - after_payload % 8) % 8) as usize;
    if after_payload + padding as u128 + 16 > limit {
        return Err(Pod5Error::TooLarge);
    }
    proof {
        lemma_section_aligned(start as int, payload@, section_marker@);
        lemma_section_payload_exact(
            file@,
            payload@,
            section_marker@,
            Seq::<u8>::empty(),
        );
    }
    let ghost before = file@;
    append_bytes(file, payload);
    append_zeros(file, padding);
    append_bytes(file, section_marker.as_slice());
    assert(file@ =~= before + section_bytes(start as int, payload@, section_marker@));
    assert(file@ =~= before + section_bytes(start as int, payload@, section_marker@) + Seq::<
        u8,
    >::empty());
    embedded_file.offset = start as i64;
    embedded_file.length = size as i64;
    Ok(())
}

} // verus!

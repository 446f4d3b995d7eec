//! The record builder of the `flatbuffers` crate, which lays out the footer.
//!
//! The builder is an outside type: nothing here looks inside it. What is
//! known of a builder is the list of calls that were made on it, and every
//! function of this module says which call it adds to that list. The bytes
//! that come out in the end are named, not computed: they are what the crate
//! makes of the calls.

use vstd::prelude::*;
use vstd::utf8::encode_utf8;
use flatbuffers::{FlatBufferBuilder, WIPOffset};

verus! {

/// A `flatbuffers::FlatBufferBuilder` with the crate's own allocator.
#[verifier::external_body]
pub struct RecordBuilder {
    inner: FlatBufferBuilder<'static>,
}

/// A call on a builder, with what was handed to it.
#[allow(inconsistent_fields)]
pub enum BuilderCall {
    CreateString { text: Seq<char> },
    StartTable,
    PushSlotI64 { slot: u16, value: i64, default: i64 },
    PushSlotI16 { slot: u16, value: i16, default: i16 },
    PushSlotOffset { slot: u16, target: u32 },
    EndTable { start: u32 },
    CreateVector { items: Seq<u32> },
    Finish { root: u32 },
    FinishSizePrefixed { root: u32 },
}

/// The calls that were made on a builder since it was created, in order.
pub uninterp spec fn builder_calls(builder: &RecordBuilder) -> Seq<BuilderCall>;

/// The offset that `create_string` returns for a text, after the given calls.
pub uninterp spec fn string_offset(before: Seq<BuilderCall>, text: Seq<char>) -> u32;

/// The offset that `start_table` returns after the given calls.
pub uninterp spec fn table_start(before: Seq<BuilderCall>) -> u32;

/// The offset that `end_table` returns after the given calls.
pub uninterp spec fn table_end(before: Seq<BuilderCall>, start: u32) -> u32;

/// The offset that `create_vector` returns for a list of offsets, after the
/// given calls.
pub uninterp spec fn vector_offset(before: Seq<BuilderCall>, items: Seq<u32>) -> u32;

/// The bytes that `finished_data` returns after the given calls.
pub uninterp spec fn finished_bytes(calls: Seq<BuilderCall>) -> Seq<u8>;

/// The size up to which the format lets a record grow: 2^31 - 1 bytes.
pub const MAX_RECORD: usize = 0x7fff_ffff;

/// The most bytes that a call adds to the record, after the calls before
/// it. Ending a table writes a field table as long as the table's greatest
/// slot demands.
pub open spec fn call_cost(before: Seq<BuilderCall>, call: BuilderCall) -> int {
    match call {
        BuilderCall::CreateString { text } => (encode_utf8(text).len() + 8) as int,
        BuilderCall::StartTable => 0,
        BuilderCall::PushSlotI64 { .. } => 15,
        BuilderCall::PushSlotI16 { .. } => 3,
        BuilderCall::PushSlotOffset { .. } => 7,
        BuilderCall::EndTable { .. } => 9 + open_width(before),
        BuilderCall::CreateVector { items } => (4 * items.len() + 7) as int,
        BuilderCall::Finish { .. } => 11,
        BuilderCall::FinishSizePrefixed { .. } => 15,
    }
}

/// The most bytes that the record holds after the given calls.
pub open spec fn record_bound(calls: Seq<BuilderCall>) -> int
    decreases calls.len(),
{
    if calls.len() == 0 {
        0
    } else {
        record_bound(calls.drop_last()) + call_cost(calls.drop_last(), calls.last())
    }
}

/// The greatest slot that got a field in the open table, and at least 2.
pub open spec fn open_width(calls: Seq<BuilderCall>) -> int
    decreases calls.len(),
{
    if calls.len() == 0 {
        2
    } else {
        match calls.last() {
            BuilderCall::PushSlotI64 { slot, .. } => wider(open_width(calls.drop_last()), slot),
            BuilderCall::PushSlotI16 { slot, .. } => wider(open_width(calls.drop_last()), slot),
            BuilderCall::PushSlotOffset { slot, .. } => wider(
                open_width(calls.drop_last()),
                slot,
            ),
            _ => 2,
        }
    }
}

/// The greater of a width and a slot.
pub open spec fn wider(width: int, slot: u16) -> int {
    if slot > width {
        slot as int
    } else {
        width
    }
}

/// Whether a table was started and not yet ended.
pub open spec fn table_open(calls: Seq<BuilderCall>) -> bool
    decreases calls.len(),
{
    if calls.len() == 0 {
        false
    } else {
        match calls.last() {
            BuilderCall::StartTable => true,
            BuilderCall::PushSlotI64 { .. } => table_open(calls.drop_last()),
            BuilderCall::PushSlotI16 { .. } => table_open(calls.drop_last()),
            BuilderCall::PushSlotOffset { .. } => table_open(calls.drop_last()),
            _ => false,
        }
    }
}

/// The offset at which the open table was started.
pub open spec fn open_start(calls: Seq<BuilderCall>) -> u32
    decreases calls.len(),
{
    if calls.len() == 0 {
        0
    } else {
        match calls.last() {
            BuilderCall::StartTable => table_start(calls.drop_last()),
            BuilderCall::PushSlotI64 { .. } => open_start(calls.drop_last()),
            BuilderCall::PushSlotI16 { .. } => open_start(calls.drop_last()),
            BuilderCall::PushSlotOffset { .. } => open_start(calls.drop_last()),
            _ => 0,
        }
    }
}

/// The most bytes that the fields of the open table take.
pub open spec fn open_bound(calls: Seq<BuilderCall>) -> int
    decreases calls.len(),
{
    if calls.len() == 0 {
        0
    } else {
        match calls.last() {
            BuilderCall::PushSlotI64 { .. } => open_bound(calls.drop_last()) + 15,
            BuilderCall::PushSlotI16 { .. } => open_bound(calls.drop_last()) + 3,
            BuilderCall::PushSlotOffset { .. } => open_bound(calls.drop_last()) + 7,
            _ => 0,
        }
    }
}

/// Whether the record was finished.
pub open spec fn finished(calls: Seq<BuilderCall>) -> bool {
    calls.len() > 0 && (calls.last() is Finish || calls.last() is FinishSizePrefixed)
}

/// Whether call `i` of the list returned the offset `offset`: the offset of
/// a text, of a finished table, or of a list.
pub open spec fn issued_at(calls: Seq<BuilderCall>, i: int, offset: u32) -> bool {
    0 <= i < calls.len() && match calls[i] {
        BuilderCall::CreateString { text } => offset == string_offset(calls.take(i), text),
        BuilderCall::EndTable { start } => offset == table_end(calls.take(i), start),
        BuilderCall::CreateVector { items } => offset == vector_offset(calls.take(i), items),
        _ => false,
    }
}

/// Whether one of the calls returned the offset.
pub open spec fn issued(calls: Seq<BuilderCall>, offset: u32) -> bool {
    exists|i: int| issued_at(calls, i, offset)
}

/// Whether a slot can hold a field: an even number from 4 on, small enough
/// for the field table's 16-bit length.
pub open spec fn slot_ok(slot: u16) -> bool {
    4 <= slot <= 0xfffc && slot % 2 == 0
}

/// Calls `FlatBufferBuilder::new`: a builder on which no call was made.
#[verifier::external_body]
pub(crate) fn new_builder() -> (builder: RecordBuilder)
    ensures
        builder_calls(&builder) == Seq::<BuilderCall>::empty(),
{
    RecordBuilder { inner: FlatBufferBuilder::new() }
}

/// Calls `FlatBufferBuilder::create_string`, outside a table. The crate
/// writes the text's bytes, a zero byte and a length, after at most 3 bytes
/// of padding.
/// The call joins the list of the calls on the builder, and the offset is
/// named as the one that the crate returns for it after the calls before.
#[verifier::external_body]
pub(crate) fn create_string(builder: &mut RecordBuilder, text: &str) -> (offset: u32)
    requires
        !table_open(builder_calls(old(builder))),
        !finished(builder_calls(old(builder))),
        record_bound(builder_calls(old(builder))) + encode_utf8(text@).len() + 8 <= MAX_RECORD,
    ensures
        builder_calls(final(builder)) == builder_calls(old(builder)).push(
            BuilderCall::CreateString { text: text@ },
        ),
        offset == string_offset(builder_calls(old(builder)), text@),
{
    builder.inner.create_string(text).value()
}

/// Calls `FlatBufferBuilder::start_table`, outside a table. Nothing is
/// written.
/// The call joins the list of the calls on the builder, and the offset is
/// named as the one that the crate returns for it after the calls before.
#[verifier::external_body]
pub(crate) fn start_table(builder: &mut RecordBuilder) -> (offset: u32)
    requires
        !table_open(builder_calls(old(builder))),
        !finished(builder_calls(old(builder))),
    ensures
        builder_calls(final(builder)) == builder_calls(old(builder)).push(BuilderCall::StartTable),
        offset == table_start(builder_calls(old(builder))),
{
    builder.inner.start_table().value()
}

/// Calls `FlatBufferBuilder::push_slot` with a 64-bit integer, inside a
/// table. The crate writes the 8 bytes after at most 7 bytes of padding, or
/// nothing where the value is the default.
/// The call joins the list of the calls on the builder.
#[verifier::external_body]
pub(crate) fn push_slot_i64(
    builder: &mut RecordBuilder,
    slot: u16,
    value: i64,
    default: i64,
)
    requires
        table_open(builder_calls(old(builder))),
        slot_ok(slot),
        record_bound(builder_calls(old(builder))) + 15 <= MAX_RECORD,
    ensures
        builder_calls(final(builder)) == builder_calls(old(builder)).push(
            BuilderCall::PushSlotI64 { slot, value, default },
        ),
{
    builder.inner.push_slot::<i64>(slot, value, default)
}

/// Calls `FlatBufferBuilder::push_slot` with a 16-bit integer, inside a
/// table. The crate writes the 2 bytes after at most 1 byte of padding, or
/// nothing where the value is the default.
/// The call joins the list of the calls on the builder.
#[verifier::external_body]
pub(crate) fn push_slot_i16(
    builder: &mut RecordBuilder,
    slot: u16,
    value: i16,
    default: i16,
)
    requires
        table_open(builder_calls(old(builder))),
        slot_ok(slot),
        record_bound(builder_calls(old(builder))) + 3 <= MAX_RECORD,
    ensures
        builder_calls(final(builder)) == builder_calls(old(builder)).push(
            BuilderCall::PushSlotI16 { slot, value, default },
        ),
{
    builder.inner.push_slot::<i16>(slot, value, default)
}

/// Calls `FlatBufferBuilder::push_slot_always` with an offset that the
/// builder returned before, inside a table. The crate writes 4 bytes after
/// at most 3 bytes of padding.
/// The call joins the list of the calls on the builder.
#[verifier::external_body]
pub(crate) fn push_slot_always(builder: &mut RecordBuilder, slot: u16, target: u32)
    requires
        table_open(builder_calls(old(builder))),
        slot_ok(slot),
        issued(builder_calls(old(builder)), target),
        record_bound(builder_calls(old(builder))) + 7 <= MAX_RECORD,
    ensures
        builder_calls(final(builder)) == builder_calls(old(builder)).push(
            BuilderCall::PushSlotOffset { slot, target },
        ),
{
    builder.inner.push_slot_always(slot, WIPOffset::<()>::new(target))
}

/// Calls `FlatBufferBuilder::end_table` with the offset at which the open
/// table was started. The crate writes 4 bytes after at most 3 bytes of
/// padding, and a field table of at most 65534 bytes; the fields of the
/// table must take less than 65536 bytes.
/// The call joins the list of the calls on the builder, and the offset is
/// named as the one that the crate returns for it after the calls before.
#[verifier::external_body]
pub(crate) fn end_table(builder: &mut RecordBuilder, start: u32) -> (offset: u32)
    requires
        table_open(builder_calls(old(builder))),
        start == open_start(builder_calls(old(builder))),
        open_bound(builder_calls(old(builder))) + 7 < 0x1_0000,
        record_bound(builder_calls(old(builder))) + 9 + open_width(builder_calls(old(builder)))
            <= MAX_RECORD,
    ensures
        builder_calls(final(builder)) == builder_calls(old(builder)).push(
            BuilderCall::EndTable { start },
        ),
        offset == table_end(builder_calls(old(builder)), start),
{
    builder.inner.end_table(WIPOffset::new(start)).value()
}

/// Calls `FlatBufferBuilder::create_vector` with offsets that the builder
/// returned before, outside a table. The crate writes 4 bytes for each and
/// 4 for their number, after at most 3 bytes of padding.
/// The call joins the list of the calls on the builder, and the offset is
/// named as the one that the crate returns for it after the calls before.
#[verifier::external_body]
pub(crate) fn create_vector(builder: &mut RecordBuilder, items: &Vec<u32>) -> (offset:
    u32)
    requires
        !table_open(builder_calls(old(builder))),
        !finished(builder_calls(old(builder))),
        forall|i: int| 0 <= i < items@.len() ==> issued(builder_calls(old(builder)), items@[i]),
        record_bound(builder_calls(old(builder))) + 4 * items@.len() + 7 <= MAX_RECORD,
    ensures
        builder_calls(final(builder)) == builder_calls(old(builder)).push(
            BuilderCall::CreateVector { items: items@ },
        ),
        offset == vector_offset(builder_calls(old(builder)), items@),
{
    let offsets: Vec<WIPOffset<()>> = items.iter().map(|o| WIPOffset::new(*o)).collect();
    builder.inner.create_vector(&offsets).value()
}

/// Calls `FlatBufferBuilder::finish` with the offset of the root table and
/// no file identifier, outside a table. The crate writes 4 bytes after at
/// most 7 bytes of padding.
/// The call joins the list of the calls on the builder.
#[verifier::external_body]
pub(crate) fn finish(builder: &mut RecordBuilder, root: u32)
    requires
        !table_open(builder_calls(old(builder))),
        !finished(builder_calls(old(builder))),
        issued(builder_calls(old(builder)), root),
        record_bound(builder_calls(old(builder))) + 11 <= MAX_RECORD,
    ensures
        builder_calls(final(builder)) == builder_calls(old(builder)).push(
            BuilderCall::Finish { root },
        ),
{
    builder.inner.finish(WIPOffset::<()>::new(root), None)
}

/// Calls `FlatBufferBuilder::finish_size_prefixed` with the offset of the
/// root table and no file identifier, outside a table. The crate writes 4
/// bytes for the offset and 4 for the size of what was written, after at
/// most 7 bytes of padding.
/// The call joins the list of the calls on the builder.
#[verifier::external_body]
pub(crate) fn finish_size_prefixed(builder: &mut RecordBuilder, root: u32)
    requires
        !table_open(builder_calls(old(builder))),
        !finished(builder_calls(old(builder))),
        issued(builder_calls(old(builder)), root),
        record_bound(builder_calls(old(builder))) + 15 <= MAX_RECORD,
    ensures
        builder_calls(final(builder)) == builder_calls(old(builder)).push(
            BuilderCall::FinishSizePrefixed { root },
        ),
{
    builder.inner.finish_size_prefixed(WIPOffset::<()>::new(root), None)
}

/// Calls `FlatBufferBuilder::finished_data` on a finished builder and copies
/// the bytes.
/// The bytes are named by the calls on the builder.
#[verifier::external_body]
pub(crate) fn finished_data(builder: &RecordBuilder) -> (bytes: Vec<u8>)
    requires
        finished(builder_calls(builder)),
    ensures
        bytes@ == finished_bytes(builder_calls(builder)),
{
    builder.inner.finished_data().to_vec()
}

impl RecordBuilder {
    /// A builder on which no call was made.
    pub fn new() -> (builder: RecordBuilder)
        ensures
            builder_calls(&builder) == Seq::<BuilderCall>::empty(),
    {
        new_builder()
    }

    /// Writes a text into the record, outside a table, and returns the
    /// offset by which a field can point to it.
    pub fn create_string(&mut self, text: &str) -> (offset: u32)
        requires
            !table_open(builder_calls(old(self))),
            !finished(builder_calls(old(self))),
            record_bound(builder_calls(old(self))) + encode_utf8(text@).len() + 8 <= MAX_RECORD,
        ensures
            builder_calls(final(self)) == builder_calls(old(self)).push(
                BuilderCall::CreateString { text: text@ },
            ),
            offset == string_offset(builder_calls(old(self)), text@),
            issued(builder_calls(final(self)), offset),
            forall|other: u32|
                issued(builder_calls(old(self)), other) ==> issued(
                    builder_calls(final(self)),
                    other,
                ),
    {
        proof {
            lemma_after_call(builder_calls(self), BuilderCall::CreateString { text: text@ });
        }
        create_string(self, text)
    }

    /// Writes a list of offsets that the builder returned before into the
    /// record, outside a table, and returns the offset by which a field can
    /// point to the list.
    pub fn create_vector(&mut self, items: &Vec<u32>) -> (offset: u32)
        requires
            !table_open(builder_calls(old(self))),
            !finished(builder_calls(old(self))),
            forall|i: int| 0 <= i < items@.len() ==> issued(builder_calls(old(self)), items@[i]),
            record_bound(builder_calls(old(self))) + 4 * items@.len() + 7 <= MAX_RECORD,
        ensures
            builder_calls(final(self)) == builder_calls(old(self)).push(
                BuilderCall::CreateVector { items: items@ },
            ),
            offset == vector_offset(builder_calls(old(self)), items@),
            issued(builder_calls(final(self)), offset),
            forall|other: u32|
                issued(builder_calls(old(self)), other) ==> issued(
                    builder_calls(final(self)),
                    other,
                ),
    {
        proof {
            lemma_after_call(builder_calls(self), BuilderCall::CreateVector { items: items@ });
        }
        create_vector(self, items)
    }

    /// The bytes of the finished record.
    pub fn finished_data(&self) -> (bytes: Vec<u8>)
        requires
            finished(builder_calls(self)),
        ensures
            bytes@ == finished_bytes(builder_calls(self)),
    {
        finished_data(self)
    }
}

/// What one more call changes: the bound on the record grows by the call's
/// cost, a table is open from `StartTable` up to the next call that is no
/// field, offsets that were returned stay returned, and the offset that the
/// call returns is returned.
pub proof fn lemma_after_call(calls: Seq<BuilderCall>, call: BuilderCall)
    ensures
        record_bound(calls.push(call)) == record_bound(calls) + call_cost(calls, call),
        finished(calls.push(call)) == (call is Finish || call is FinishSizePrefixed),
        table_open(calls.push(call)) == match call {
            BuilderCall::StartTable => true,
            BuilderCall::PushSlotI64 { .. } => table_open(calls),
            BuilderCall::PushSlotI16 { .. } => table_open(calls),
            BuilderCall::PushSlotOffset { .. } => table_open(calls),
            _ => false,
        },
        open_start(calls.push(call)) == match call {
            BuilderCall::StartTable => table_start(calls),
            BuilderCall::PushSlotI64 { .. } => open_start(calls),
            BuilderCall::PushSlotI16 { .. } => open_start(calls),
            BuilderCall::PushSlotOffset { .. } => open_start(calls),
            _ => 0u32,
        },
        open_bound(calls.push(call)) == match call {
            BuilderCall::PushSlotI64 { .. } => open_bound(calls) + 15,
            BuilderCall::PushSlotI16 { .. } => open_bound(calls) + 3,
            BuilderCall::PushSlotOffset { .. } => open_bound(calls) + 7,
            _ => 0,
        },
        open_width(calls.push(call)) == match call {
            BuilderCall::PushSlotI64 { slot, .. } => wider(open_width(calls), slot),
            BuilderCall::PushSlotI16 { slot, .. } => wider(open_width(calls), slot),
            BuilderCall::PushSlotOffset { slot, .. } => wider(open_width(calls), slot),
            _ => 2,
        },
        forall|offset: u32| issued(calls, offset) ==> issued(calls.push(call), offset),
        match call {
            BuilderCall::CreateString { text } => issued(
                calls.push(call),
                string_offset(calls, text),
            ),
            BuilderCall::EndTable { start } => issued(calls.push(call), table_end(calls, start)),
            BuilderCall::CreateVector { items } => issued(
                calls.push(call),
                vector_offset(calls, items),
            ),
            _ => true,
        },
{
    let after = calls.push(call);
    assert(after.drop_last() =~= calls);
    assert(after.last() == call);
    assert forall|offset: u32| issued(calls, offset) implies issued(after, offset) by {
        let i = choose|i: int| issued_at(calls, i, offset);
        assert(after.take(i) =~= calls.take(i));
        assert(after[i] == calls[i]);
        assert(issued_at(after, i, offset));
    }
    let n = calls.len() as int;
    assert(after.take(n) =~= calls);
    match call {
        BuilderCall::CreateString { text } => {
            assert(issued_at(after, n, string_offset(calls, text)));
        },
        BuilderCall::EndTable { start } => {
            assert(issued_at(after, n, table_end(calls, start)));
        },
        BuilderCall::CreateVector { items } => {
            assert(issued_at(after, n, vector_offset(calls, items)));
        },
        _ => {},
    }
}

} // verus!

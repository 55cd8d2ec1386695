//! The fifteen fields of a transaction, in protocol order, and the lengths of
//! the whole transaction in trits, trytes and bytes.
//!
//! Only the payload is placed by an explicit start; every other field is
//! placed behind the one before it, so the fields tile the transaction
//! without gap or overlap.

use vstd::prelude::*;
use crate::offset::{bytes_for_trits, Field};

verus! {

/// Length of a transaction in trits.
pub const TRANSACTION_TRIT_LEN: usize = 8019;

/// Length of a transaction in trytes.
pub const TRANSACTION_TRYT_LEN: usize = TRANSACTION_TRIT_LEN / 3;

/// Length of a transaction in bytes: the trit length is no multiple of
/// five, so the last byte is partly used.
pub const TRANSACTION_BYTE_LEN: usize = TRANSACTION_TRIT_LEN / 5 + 1;

/// Number of fields in a transaction.
pub const FIELD_COUNT: usize = 15;

/// What `payload` returns.
pub open spec fn spec_payload() -> Field {
    Field::at_trits(0, 6561)
}

/// The signature or message fragment, the first field of a transaction.
#[verifier::when_used_as_spec(spec_payload)]
pub fn payload() -> (field: Field)
    ensures
        field == spec_payload(),
{
    Field::offsets_from_trits(0, 6561)
}

/// What `address` returns.
pub open spec fn spec_address() -> Field {
    Field::after(spec_payload(), 243)
}

/// The address that the transaction credits or debits.
#[verifier::when_used_as_spec(spec_address)]
pub fn address() -> (field: Field)
    ensures
        field == spec_address(),
{
    Field::offsets_from_previous_field(&payload(), 243)
}

/// What `value` returns.
pub open spec fn spec_value() -> Field {
    Field::after(spec_address(), 81)
}

/// The amount moved to or from the address.
#[verifier::when_used_as_spec(spec_value)]
pub fn value() -> (field: Field)
    ensures
        field == spec_value(),
{
    Field::offsets_from_previous_field(&address(), 81)
}

/// What `obsolete_tag` returns.
pub open spec fn spec_obsolete_tag() -> Field {
    Field::after(spec_value(), 81)
}

/// The tag of earlier protocol versions.
#[verifier::when_used_as_spec(spec_obsolete_tag)]
pub fn obsolete_tag() -> (field: Field)
    ensures
        field == spec_obsolete_tag(),
{
    Field::offsets_from_previous_field(&value(), 81)
}

/// What `timestamp` returns.
pub open spec fn spec_timestamp() -> Field {
    Field::after(spec_obsolete_tag(), 27)
}

/// The time at which the transaction was issued.
#[verifier::when_used_as_spec(spec_timestamp)]
pub fn timestamp() -> (field: Field)
    ensures
        field == spec_timestamp(),
{
    Field::offsets_from_previous_field(&obsolete_tag(), 27)
}

/// What `index` returns.
pub open spec fn spec_index() -> Field {
    Field::after(spec_timestamp(), 27)
}

/// The position of the transaction in its bundle.
#[verifier::when_used_as_spec(spec_index)]
pub fn index() -> (field: Field)
    ensures
        field == spec_index(),
{
    Field::offsets_from_previous_field(&timestamp(), 27)
}

/// What `last_index` returns.
pub open spec fn spec_last_index() -> Field {
    Field::after(spec_index(), 27)
}

/// The position of the last transaction of the bundle.
#[verifier::when_used_as_spec(spec_last_index)]
pub fn last_index() -> (field: Field)
    ensures
        field == spec_last_index(),
{
    Field::offsets_from_previous_field(&index(), 27)
}

/// What `bundle_hash` returns.
pub open spec fn spec_bundle_hash() -> Field {
    Field::after(spec_last_index(), 243)
}

/// The hash of the bundle that the transaction belongs to.
#[verifier::when_used_as_spec(spec_bundle_hash)]
pub fn bundle_hash() -> (field: Field)
    ensures
        field == spec_bundle_hash(),
{
    Field::offsets_from_previous_field(&last_index(), 243)
}

/// What `trunk_hash` returns.
pub open spec fn spec_trunk_hash() -> Field {
    Field::after(spec_bundle_hash(), 243)
}

/// The hash of the first transaction that this one approves.
#[verifier::when_used_as_spec(spec_trunk_hash)]
pub fn trunk_hash() -> (field: Field)
    ensures
        field == spec_trunk_hash(),
{
    Field::offsets_from_previous_field(&bundle_hash(), 243)
}

/// What `branch_hash` returns.
pub open spec fn spec_branch_hash() -> Field {
    Field::after(spec_trunk_hash(), 243)
}

/// The hash of the second transaction that this one approves.
#[verifier::when_used_as_spec(spec_branch_hash)]
pub fn branch_hash() -> (field: Field)
    ensures
        field == spec_branch_hash(),
{
    Field::offsets_from_previous_field(&trunk_hash(), 243)
}

/// What `tag` returns.
pub open spec fn spec_tag() -> Field {
    Field::after(spec_branch_hash(), 81)
}

/// The tag chosen by the issuer.
#[verifier::when_used_as_spec(spec_tag)]
pub fn tag() -> (field: Field)
    ensures
        field == spec_tag(),
{
    Field::offsets_from_previous_field(&branch_hash(), 81)
}

/// What `attachment_ts` returns.
pub open spec fn spec_attachment_ts() -> Field {
    Field::after(spec_tag(), 27)
}

/// The time at which the transaction was attached to the ledger.
#[verifier::when_used_as_spec(spec_attachment_ts)]
pub fn attachment_ts() -> (field: Field)
    ensures
        field == spec_attachment_ts(),
{
    Field::offsets_from_previous_field(&tag(), 27)
}

/// What `attachment_lbts` returns.
pub open spec fn spec_attachment_lbts() -> Field {
    Field::after(spec_attachment_ts(), 27)
}

/// The lower bound of the attachment time.
#[verifier::when_used_as_spec(spec_attachment_lbts)]
pub fn attachment_lbts() -> (field: Field)
    ensures
        field == spec_attachment_lbts(),
{
    Field::offsets_from_previous_field(&attachment_ts(), 27)
}

/// What `attachment_ubts` returns.
pub open spec fn spec_attachment_ubts() -> Field {
    Field::after(spec_attachment_lbts(), 27)
}

/// The upper bound of the attachment time.
#[verifier::when_used_as_spec(spec_attachment_ubts)]
pub fn attachment_ubts() -> (field: Field)
    ensures
        field == spec_attachment_ubts(),
{
    Field::offsets_from_previous_field(&attachment_lbts(), 27)
}

/// What `nonce` returns.
pub open spec fn spec_nonce() -> Field {
    Field::after(spec_attachment_ubts(), 81)
}

/// The proof-of-work nonce, the last field of a transaction.
#[verifier::when_used_as_spec(spec_nonce)]
pub fn nonce() -> (field: Field)
    ensures
        field == spec_nonce(),
{
    Field::offsets_from_previous_field(&attachment_ubts(), 81)
}

/// The fields of a transaction in protocol order.
pub open spec fn transaction_fields() -> Seq<Field> {
    seq![
        payload(),
        address(),
        value(),
        obsolete_tag(),
        timestamp(),
        index(),
        last_index(),
        bundle_hash(),
        trunk_hash(),
        branch_hash(),
        tag(),
        attachment_ts(),
        attachment_lbts(),
        attachment_ubts(),
        nonce(),
    ]
}

/// Builds the table of all fields in protocol order.
pub fn transaction_layout() -> (table: [Field; 15])
    ensures
        table@ == transaction_fields(),
{
    let table = [
        payload(),
        address(),
        value(),
        obsolete_tag(),
        timestamp(),
        index(),
        last_index(),
        bundle_hash(),
        trunk_hash(),
        branch_hash(),
        tag(),
        attachment_ts(),
        attachment_lbts(),
        attachment_ubts(),
        nonce(),
    ];
    assert(table@ =~= transaction_fields());
    table
}

/// Building the table again gives the same table: any two results of
/// `transaction_layout` are equal, field by field.
pub proof fn lemma_layout_is_reproducible(first: [Field; 15], second: [Field; 15])
    requires
        first@ == transaction_fields(),
        second@ == transaction_fields(),
    ensures
        first == second,
        forall|i: int| 0 <= i < FIELD_COUNT ==> first[i] == second[i],
{
    assert(first =~= second);
}

/// Every field but the first begins where the one before it ends.
pub open spec fn contiguous(fields: Seq<Field>) -> bool {
    forall|i: int| 0 < i < fields.len() ==> (#[trigger] fields[i]).follows(fields[i - 1])
}

/// Sum of the trit lengths of the first `count` fields.
pub open spec fn trit_length_sum(fields: Seq<Field>, count: nat) -> int
    decreases count,
{
    if count == 0 {
        0
    } else {
        trit_length_sum(fields, (count - 1) as nat) + fields[count - 1].trit_offset.length
    }
}

/// Sum of the tryte lengths of the first `count` fields.
pub open spec fn tryte_length_sum(fields: Seq<Field>, count: nat) -> int
    decreases count,
{
    if count == 0 {
        0
    } else {
        tryte_length_sum(fields, (count - 1) as nat) + fields[count - 1].tryte_offset.length
    }
}

/// In a contiguous sequence the trit lengths of the first `count` fields add
/// up to the distance from the start of the first field to the end of the
/// last of them.
pub proof fn lemma_contiguous_lengths_telescope(fields: Seq<Field>, count: nat)
    requires
        contiguous(fields),
        0 < count <= fields.len(),
    ensures
        trit_length_sum(fields, count) == fields[count - 1].trit_offset.end()
            - fields[0].trit_offset.start,
    decreases count,
{
    if count > 1 {
        lemma_contiguous_lengths_telescope(fields, (count - 1) as nat);
        assert(fields[count - 1].follows(fields[count - 2]));
    } else {
        assert(trit_length_sum(fields, 0) == 0);
    }
}

/// Where each of the first `count` fields is well formed and has a trit
/// length divisible by three, their tryte lengths add up to a third of
/// their trit lengths.
pub proof fn lemma_tryte_sum_is_third_of_trit_sum(fields: Seq<Field>, count: nat)
    requires
        count <= fields.len(),
        forall|i: int|
            0 <= i < count ==> (#[trigger] fields[i]).well_formed()
                && fields[i].trit_offset.length % 3 == 0,
    ensures
        3 * tryte_length_sum(fields, count) == trit_length_sum(fields, count),
    decreases count,
{
    if count > 0 {
        lemma_tryte_sum_is_third_of_trit_sum(fields, (count - 1) as nat);
        assert(fields[count - 1].well_formed());
    }
}

/// The table holds fifteen fields.
pub proof fn lemma_layout_has_all_fields()
    ensures
        transaction_fields().len() == FIELD_COUNT,
{
}

/// The payload begins at trit 0, and every field after it begins at the
/// trit where the field before it ends.
pub proof fn lemma_layout_is_contiguous()
    ensures
        contiguous(transaction_fields()),
        transaction_fields()[0].trit_offset.start == 0,
{
}

/// Every field's tryte interval is its trit interval divided by three, and
/// the division is exact: each field begins and ends on a tryte boundary.
pub proof fn lemma_layout_trytes_are_derived(i: int)
    requires
        0 <= i < FIELD_COUNT,
    ensures
        ({
            let field = transaction_fields()[i];
            &&& field.tryte_offset.start == field.trit_offset.start / 3
            &&& field.tryte_offset.length == field.trit_offset.length / 3
            &&& field.trit_offset.start % 3 == 0
            &&& field.trit_offset.length % 3 == 0
            &&& field.well_formed()
            &&& field.tryte_aligned()
        }),
{
}

/// The trit lengths of all fields add up to the trit length of a
/// transaction, and the last field ends exactly there.
pub proof fn lemma_layout_trit_total()
    ensures
        trit_length_sum(transaction_fields(), FIELD_COUNT as nat) == TRANSACTION_TRIT_LEN,
        TRANSACTION_TRIT_LEN == 8019,
        nonce().trit_offset.end() == TRANSACTION_TRIT_LEN,
{
    lemma_layout_is_contiguous();
    lemma_contiguous_lengths_telescope(transaction_fields(), FIELD_COUNT as nat);
}

/// The tryte lengths of all fields add up to the tryte length of a
/// transaction, and the last field ends exactly there.
pub proof fn lemma_layout_tryte_total()
    ensures
        tryte_length_sum(transaction_fields(), FIELD_COUNT as nat) == TRANSACTION_TRYT_LEN,
        TRANSACTION_TRYT_LEN == 2673,
        nonce().tryte_offset.end() == TRANSACTION_TRYT_LEN,
{
    lemma_layout_trit_total();
    let fields = transaction_fields();
    assert forall|i: int| 0 <= i < FIELD_COUNT implies (#[trigger] fields[i]).well_formed()
        && fields[i].trit_offset.length % 3 == 0 by {
        lemma_layout_trytes_are_derived(i);
    }
    lemma_tryte_sum_is_third_of_trit_sum(transaction_fields(), FIELD_COUNT as nat);
}

/// The byte length of a transaction is the number of bytes that its trits
/// occupy.
pub proof fn lemma_transaction_byte_length()
    ensures
        TRANSACTION_BYTE_LEN == bytes_for_trits(TRANSACTION_TRIT_LEN as nat),
        TRANSACTION_BYTE_LEN == 1604,
{
}

} // verus!

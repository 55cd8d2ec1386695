use bee_bundle::layout::{
    address, attachment_lbts, attachment_ts, attachment_ubts, branch_hash, bundle_hash, index,
    last_index, nonce, obsolete_tag, payload, tag, timestamp, transaction_layout, trunk_hash,
    value, FIELD_COUNT, TRANSACTION_BYTE_LEN, TRANSACTION_TRIT_LEN, TRANSACTION_TRYT_LEN,
};
use bee_bundle::{Field, Offset};

#[test]
fn add_up_to_transaction_trit_length() {
    let total_trit_length = payload().trit_offset.length
        + address().trit_offset.length
        + value().trit_offset.length
        + obsolete_tag().trit_offset.length
        + timestamp().trit_offset.length
        + index().trit_offset.length
        + last_index().trit_offset.length
        + bundle_hash().trit_offset.length
        + trunk_hash().trit_offset.length
        + branch_hash().trit_offset.length
        + tag().trit_offset.length
        + attachment_ts().trit_offset.length
        + attachment_lbts().trit_offset.length
        + attachment_ubts().trit_offset.length
        + nonce().trit_offset.length;

    assert_eq!(total_trit_length, TRANSACTION_TRIT_LEN);
}

#[test]
fn add_up_to_transaction_tryte_length() {
    let total_tryte_length = payload().tryte_offset.length
        + address().tryte_offset.length
        + value().tryte_offset.length
        + obsolete_tag().tryte_offset.length
        + timestamp().tryte_offset.length
        + index().tryte_offset.length
        + last_index().tryte_offset.length
        + bundle_hash().tryte_offset.length
        + trunk_hash().tryte_offset.length
        + branch_hash().tryte_offset.length
        + tag().tryte_offset.length
        + attachment_ts().tryte_offset.length
        + attachment_lbts().tryte_offset.length
        + attachment_ubts().tryte_offset.length
        + nonce().tryte_offset.length;

    assert_eq!(total_tryte_length, TRANSACTION_TRYT_LEN);
}

#[test]
fn transaction_lengths_have_protocol_values() {
    assert_eq!(TRANSACTION_TRIT_LEN, 8019);
    assert_eq!(TRANSACTION_TRYT_LEN, 2673);
    assert_eq!(TRANSACTION_BYTE_LEN, 1604);
    assert_eq!(FIELD_COUNT, 15);
}

#[test]
fn payload_and_address_open_the_transaction() {
    assert_eq!(payload().trit_offset, Offset { start: 0, length: 6561 });
    assert_eq!(payload().tryte_offset, Offset { start: 0, length: 2187 });
    assert_eq!(address().trit_offset, Offset { start: 6561, length: 243 });
    assert_eq!(address().tryte_offset, Offset { start: 2187, length: 81 });
}

#[test]
fn nonce_ends_the_transaction() {
    let last = nonce();
    assert_eq!(last.trit_offset.start + last.trit_offset.length, 8019);
    assert_eq!(last.tryte_offset.start + last.tryte_offset.length, 2673);
}

#[test]
fn every_field_has_its_protocol_position() {
    let expected: [(usize, usize); 15] = [
        (0, 6561),
        (6561, 243),
        (6804, 81),
        (6885, 81),
        (6966, 27),
        (6993, 27),
        (7020, 27),
        (7047, 243),
        (7290, 243),
        (7533, 243),
        (7776, 81),
        (7857, 27),
        (7884, 27),
        (7911, 27),
        (7938, 81),
    ];
    let table = transaction_layout();
    assert_eq!(table.len(), FIELD_COUNT);
    for (field, (start, length)) in table.iter().zip(expected.iter()) {
        assert_eq!(field.trit_offset, Offset { start: *start, length: *length });
    }
}

#[test]
fn table_lists_the_fields_in_protocol_order() {
    let table = transaction_layout();
    let named = [
        payload(),
        address(),
        value(),
        obsolete_tag(),
        timestamp(),
        index(),
        last_index(),
        bundle_hash(),
        trunk_hash(),
        branch_hash(),
        tag(),
        attachment_ts(),
        attachment_lbts(),
        attachment_ubts(),
        nonce(),
    ];
    assert_eq!(table, named);
}

#[test]
fn each_field_starts_where_the_previous_ends() {
    let table = transaction_layout();
    assert_eq!(table[0].trit_offset.start, 0);
    for i in 1..table.len() {
        assert_eq!(
            table[i].trit_offset.start,
            table[i - 1].trit_offset.start + table[i - 1].trit_offset.length
        );
    }
}

#[test]
fn tryte_intervals_are_exact_thirds() {
    for field in transaction_layout().iter() {
        assert_eq!(field.tryte_offset.start, field.trit_offset.start / 3);
        assert_eq!(field.tryte_offset.length, field.trit_offset.length / 3);
        assert_eq!(field.trit_offset.start % 3, 0);
        assert_eq!(field.trit_offset.length % 3, 0);
    }
}

#[test]
fn building_the_table_twice_gives_the_same_table() {
    assert_eq!(transaction_layout(), transaction_layout());
    assert_eq!(nonce(), nonce());
}

#[test]
fn payload_needs_a_partly_used_last_byte() {
    assert_eq!(payload().byte_start(), 0);
    assert_eq!(payload().byte_length(), 1313);
}

#[test]
fn address_starts_in_byte_1312() {
    assert_eq!(address().byte_start(), 1312);
    assert_eq!(address().byte_length(), 49);
}

#[test]
fn byte_length_is_the_exact_quotient_for_multiples_of_five() {
    assert_eq!(Field::offsets_from_trits(0, 10).byte_length(), 2);
    assert_eq!(Field::offsets_from_trits(0, 5).byte_length(), 1);
    assert_eq!(Field::offsets_from_trits(7, 0).byte_length(), 0);
}

#[test]
fn byte_length_rounds_up_on_a_remainder() {
    assert_eq!(Field::offsets_from_trits(0, 1).byte_length(), 1);
    assert_eq!(Field::offsets_from_trits(0, 4).byte_length(), 1);
    assert_eq!(Field::offsets_from_trits(0, 6).byte_length(), 2);
    assert_eq!(Field::offsets_from_trits(0, 8019).byte_length(), TRANSACTION_BYTE_LEN);
}

#[test]
fn byte_start_rounds_down() {
    assert_eq!(Field::offsets_from_trits(0, 3).byte_start(), 0);
    assert_eq!(Field::offsets_from_trits(4, 3).byte_start(), 0);
    assert_eq!(Field::offsets_from_trits(5, 3).byte_start(), 1);
    assert_eq!(Field::offsets_from_trits(9, 3).byte_start(), 1);
    assert_eq!(nonce().byte_start(), 1587);
}

#[test]
fn byte_functions_read_the_trit_interval_only() {
    let field = Field {
        trit_offset: Offset { start: 12, length: 11 },
        tryte_offset: Offset { start: 0, length: 0 },
    };
    assert_eq!(field.byte_start(), 2);
    assert_eq!(field.byte_length(), 3);
}

#[test]
fn base_construction_divides_by_three_rounding_down() {
    let field = Field::offsets_from_trits(7, 11);
    assert_eq!(field.trit_offset, Offset { start: 7, length: 11 });
    assert_eq!(field.tryte_offset, Offset { start: 2, length: 3 });
}

#[test]
fn chained_construction_follows_without_gap() {
    let first = Field::offsets_from_trits(6, 9);
    let second = Field::offsets_from_previous_field(&first, 12);
    assert_eq!(second.trit_offset, Offset { start: 15, length: 12 });
    assert_eq!(second.tryte_offset, Offset { start: 5, length: 4 });

    let third = Field::offsets_from_previous_field(&second, 2);
    assert_eq!(third.trit_offset, Offset { start: 27, length: 2 });
    assert_eq!(third.tryte_offset, Offset { start: 9, length: 0 });
}

#[test]
fn chained_construction_ignores_the_previous_tryte_interval() {
    let prev = Field {
        trit_offset: Offset { start: 10, length: 4 },
        tryte_offset: Offset { start: 100, length: 100 },
    };
    let next = Field::offsets_from_previous_field(&prev, 6);
    assert_eq!(next.trit_offset, Offset { start: 14, length: 6 });
    assert_eq!(next.tryte_offset, Offset { start: 4, length: 2 });
}

//! Which label values have series of their own. A series is filed under the FNV-1a hash of
//! its label values, so two lists of label values can share a series; lists that differ in
//! one byte only never do.

use vstd::prelude::*;
use vstd::utf8::{encode_utf8, is_ascii_chars, is_ascii_chars_encode_utf8};
use crate::collectors::{fnv_bytes, fnv_step, fnv_texts, series_key, FNV_OFFSET_BASIS};
use crate::metrics::result_key;
use crate::text::{all_digits, decimal_text, lemma_decimal_text_value};

verus! {

/// A step of the hash takes two states apart to two states apart, and two bytes apart from one
/// state to two states apart.
pub proof fn lemma_fnv_step_is_one_to_one(hash: u64, other: u64, byte: u8, another: u8)
    ensures
        hash != other ==> fnv_step(hash, byte) != fnv_step(other, byte),
        byte != another ==> fnv_step(hash, byte) != fnv_step(hash, another),
{
    let x = hash ^ (byte as u64);
    let y = other ^ (byte as u64);
    let z = hash ^ (another as u64);
    assert(hash != other ==> (hash ^ (byte as u64)) != (other ^ (byte as u64))) by (bit_vector);
    assert(byte != another ==> (hash ^ (byte as u64)) != (hash ^ (another as u64)))
        by (bit_vector);
    assert(((x * 0x100000001b3u64) % 0x1_0000_0000_0000_0000) == ((y * 0x100000001b3u64)
        % 0x1_0000_0000_0000_0000) ==> x == y) by (bit_vector);
    assert(((x * 0x100000001b3u64) % 0x1_0000_0000_0000_0000) == ((z * 0x100000001b3u64)
        % 0x1_0000_0000_0000_0000) ==> x == z) by (bit_vector);
}

/// The same bytes take two states apart to two states apart.
pub proof fn lemma_fnv_bytes_keeps_apart(hash: u64, other: u64, bytes: Seq<u8>)
    requires
        hash != other,
    ensures
        fnv_bytes(hash, bytes) != fnv_bytes(other, bytes),
    decreases bytes.len(),
{
    if bytes.len() > 0 {
        lemma_fnv_bytes_keeps_apart(hash, other, bytes.drop_last());
        lemma_fnv_step_is_one_to_one(
            fnv_bytes(hash, bytes.drop_last()),
            fnv_bytes(other, bytes.drop_last()),
            bytes.last(),
            bytes.last(),
        );
    }
}

/// Whether two texts of one length differ at the place `k` and nowhere else.
pub open spec fn differ_at<T>(first: Seq<T>, second: Seq<T>, k: int) -> bool {
    &&& first.len() == second.len()
    &&& 0 <= k < first.len()
    &&& first[k] != second[k]
    &&& forall|i: int| 0 <= i < first.len() && i != k ==> first[i] == second[i]
}

/// Bytes that differ in one place only have two hashes.
pub proof fn lemma_fnv_bytes_differ(hash: u64, first: Seq<u8>, second: Seq<u8>, k: int)
    requires
        differ_at(first, second, k),
    ensures
        fnv_bytes(hash, first) != fnv_bytes(hash, second),
    decreases first.len(),
{
    let before = fnv_bytes(hash, first.drop_last());
    let other = fnv_bytes(hash, second.drop_last());
    if k == first.len() - 1 {
        assert(first.drop_last() == second.drop_last());
    } else {
        lemma_fnv_bytes_differ(hash, first.drop_last(), second.drop_last(), k);
    }
    lemma_fnv_step_is_one_to_one(before, other, first.last(), second.last());
}

/// Two lists of label values that agree but for their last values, which are ASCII texts
/// that differ in one character only, have series of their own.
pub proof fn lemma_last_values_have_their_own_series(
    values: Seq<Seq<char>>,
    first: Seq<char>,
    second: Seq<char>,
    k: int,
)
    requires
        is_ascii_chars(first),
        is_ascii_chars(second),
        differ_at(first, second, k),
    ensures
        series_key(values.push(first)) != series_key(values.push(second)),
{
    reveal(series_key);
    is_ascii_chars_encode_utf8(first);
    is_ascii_chars_encode_utf8(second);
    let shared = fnv_texts(FNV_OFFSET_BASIS, values);
    assert(values.push(first).drop_last() == values);
    assert(values.push(second).drop_last() == values);
    assert(encode_utf8(first)[k] == first[k] as u8);
    assert(encode_utf8(second)[k] == second[k] as u8);
    assert(first[k] as u8 != second[k] as u8);
    assert(differ_at(encode_utf8(first), encode_utf8(second), k));
    lemma_fnv_bytes_differ(shared, encode_utf8(first), encode_utf8(second), k);
}

/// Requests of one method and route label that end with two statuses whose numerals differ
/// in one digit only, such as 200 and 500, are counted and observed in series of their own.
pub proof fn lemma_statuses_have_their_own_series(
    method: Seq<char>,
    endpoint: Seq<char>,
    first: u16,
    second: u16,
    k: int,
)
    requires
        differ_at(decimal_text(first as nat), decimal_text(second as nat), k),
    ensures
        result_key(method, endpoint, first) != result_key(method, endpoint, second),
{
    lemma_decimal_text_value(first as nat);
    lemma_decimal_text_value(second as nat);
    let one = decimal_text(first as nat);
    let two = decimal_text(second as nat);
    assert(is_ascii_chars(one)) by {
        assert(all_digits(one));
    }
    assert(is_ascii_chars(two)) by {
        assert(all_digits(two));
    }
    let values = seq![method, endpoint];
    assert(values.push(one) == seq![method, endpoint, one]);
    assert(values.push(two) == seq![method, endpoint, two]);
    lemma_last_values_have_their_own_series(values, one, two, k);
}

/// A request that completed with 200 and one that failed, counted as 500, are never counted
/// in one series.
pub proof fn lemma_success_and_failure_are_counted_apart(method: Seq<char>, endpoint: Seq<char>)
    ensures
        result_key(method, endpoint, 200) != result_key(method, endpoint, 500),
{
    reveal_with_fuel(decimal_text, 3);
    assert(decimal_text(200) == seq!['2', '0', '0']);
    assert(decimal_text(500) == seq!['5', '0', '0']);
    lemma_statuses_have_their_own_series(method, endpoint, 200, 500, 0);
}

} // verus!

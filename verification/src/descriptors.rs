//! The descriptor identifiers of the three metric families, worked out byte by byte: a
//! registry takes a family only if it holds none with the same identifier.

use vstd::prelude::*;
use vstd::utf8::{encode_utf8, is_ascii_chars, is_ascii_chars_encode_utf8};
use crate::collectors::{
    bucket_label, descriptor_id, fnv_bytes, fnv_step, is_family_description, is_label_name,
    is_metric_name, FNV_OFFSET_BASIS, FNV_PRIME, NAME_SEPARATOR,
};

verus! {

/// One more byte of a hash: from the state `before`, the byte at `k` is mixed in, which gives
/// `mixed`, and the product with the prime is `after`.
proof fn lemma_fnv_next(bytes: Seq<u8>, k: int, before: u64, mixed: u64, after: u64)
    requires
        0 <= k < bytes.len(),
        fnv_bytes(FNV_OFFSET_BASIS, bytes.take(k)) == before,
        mixed == before ^ (bytes[k] as u64),
        after == (mixed * FNV_PRIME) % 0x1_0000_0000_0000_0000,
    ensures
        fnv_bytes(FNV_OFFSET_BASIS, bytes.take(k + 1)) == after,
{
    assert(bytes.take(k + 1).drop_last() == bytes.take(k));
    assert(bytes.take(k + 1).last() == bytes[k]);
}

/// The last step of a descriptor identifier: behind all the bytes, whose hash is `before`,
/// the separator is mixed in, which gives `mixed`, and the product with the prime is `after`.
proof fn lemma_fnv_end(bytes: Seq<u8>, before: u64, mixed: u64, after: u64)
    requires
        fnv_bytes(FNV_OFFSET_BASIS, bytes.take(bytes.len() as int)) == before,
        mixed == before ^ (NAME_SEPARATOR as u64),
        after == (mixed * FNV_PRIME) % 0x1_0000_0000_0000_0000,
    ensures
        fnv_step(fnv_bytes(FNV_OFFSET_BASIS, bytes), NAME_SEPARATOR) == after,
{
    assert(bytes.take(bytes.len() as int) == bytes);
}

/// Whether `bytes` are the bytes of `http_requests_total`.
spec fn is_bytes_of_requests_total(bytes: Seq<u8>) -> bool {
    &&& bytes.len() == 19
    &&& bytes[0] == 0x68
    &&& bytes[1] == 0x74
    &&& bytes[2] == 0x74
    &&& bytes[3] == 0x70
    &&& bytes[4] == 0x5f
    &&& bytes[5] == 0x72
    &&& bytes[6] == 0x65
    &&& bytes[7] == 0x71
    &&& bytes[8] == 0x75
    &&& bytes[9] == 0x65
    &&& bytes[10] == 0x73
    &&& bytes[11] == 0x74
    &&& bytes[12] == 0x73
    &&& bytes[13] == 0x5f
    &&& bytes[14] == 0x74
    &&& bytes[15] == 0x6f
    &&& bytes[16] == 0x74
    &&& bytes[17] == 0x61
    &&& bytes[18] == 0x6c
}

/// The bytes of `http_requests_total`.
proof fn lemma_requests_total_bytes()
    ensures
        is_bytes_of_requests_total(encode_utf8("http_requests_total"@)),
{
    reveal_strlit("http_requests_total");
    let name = "http_requests_total"@;
    assert(is_ascii_chars(name));
    is_ascii_chars_encode_utf8(name);
    let bytes = encode_utf8(name);
    assert(bytes[0] == name[0] as u8 && name[0] == 'h');
    assert(bytes[1] == name[1] as u8 && name[1] == 't');
    assert(bytes[2] == name[2] as u8 && name[2] == 't');
    assert(bytes[3] == name[3] as u8 && name[3] == 'p');
    assert(bytes[4] == name[4] as u8 && name[4] == '_');
    assert(bytes[5] == name[5] as u8 && name[5] == 'r');
    assert(bytes[6] == name[6] as u8 && name[6] == 'e');
    assert(bytes[7] == name[7] as u8 && name[7] == 'q');
    assert(bytes[8] == name[8] as u8 && name[8] == 'u');
    assert(bytes[9] == name[9] as u8 && name[9] == 'e');
    assert(bytes[10] == name[10] as u8 && name[10] == 's');
    assert(bytes[11] == name[11] as u8 && name[11] == 't');
    assert(bytes[12] == name[12] as u8 && name[12] == 's');
    assert(bytes[13] == name[13] as u8 && name[13] == '_');
    assert(bytes[14] == name[14] as u8 && name[14] == 't');
    assert(bytes[15] == name[15] as u8 && name[15] == 'o');
    assert(bytes[16] == name[16] as u8 && name[16] == 't');
    assert(bytes[17] == name[17] as u8 && name[17] == 'a');
    assert(bytes[18] == name[18] as u8 && name[18] == 'l');
}

/// The hash of `http_requests_total` over its bytes 0 to 7.
proof fn lemma_requests_total_first(bytes: Seq<u8>)
    requires
        is_bytes_of_requests_total(bytes),
        fnv_bytes(FNV_OFFSET_BASIS, bytes.take(0)) == 0xcbf29ce484222325,
    ensures
        fnv_bytes(FNV_OFFSET_BASIS, bytes.take(8)) == 0xab98e71113dde536,
{
    assert(
        0xcbf29ce484222325u64 ^ 0x68u64 == 0xcbf29ce48422234du64 &&
            0xaf63e54c8601fbd7u64 ^ 0x74u64 == 0xaf63e54c8601fba3u64 &&
            0x8ba4407b55e95f9u64 ^ 0x74u64 == 0x8ba4407b55e958du64 &&
            0x331726192fb81e97u64 ^ 0x70u64 == 0x331726192fb81ee7u64 &&
            0x8874a3cc15dc8285u64 ^ 0x5fu64 == 0x8874a3cc15dc82dau64 &&
            0xbab52dc925b2586eu64 ^ 0x72u64 == 0xbab52dc925b2581cu64 &&
            0xf434e8cb0e0bb794u64 ^ 0x65u64 == 0xf434e8cb0e0bb7f1u64 &&
            0x19f8208dde98e83u64 ^ 0x71u64 == 0x19f8208dde98ef2u64
    ) by (bit_vector);
    lemma_fnv_next(bytes, 0, 0xcbf29ce484222325, 0xcbf29ce48422234d, 0xaf63e54c8601fbd7);
    lemma_fnv_next(bytes, 1, 0xaf63e54c8601fbd7, 0xaf63e54c8601fba3, 0x8ba4407b55e95f9);
    lemma_fnv_next(bytes, 2, 0x8ba4407b55e95f9, 0x8ba4407b55e958d, 0x331726192fb81e97);
    lemma_fnv_next(bytes, 3, 0x331726192fb81e97, 0x331726192fb81ee7, 0x8874a3cc15dc8285);
    lemma_fnv_next(bytes, 4, 0x8874a3cc15dc8285, 0x8874a3cc15dc82da, 0xbab52dc925b2586e);
    lemma_fnv_next(bytes, 5, 0xbab52dc925b2586e, 0xbab52dc925b2581c, 0xf434e8cb0e0bb794);
    lemma_fnv_next(bytes, 6, 0xf434e8cb0e0bb794, 0xf434e8cb0e0bb7f1, 0x19f8208dde98e83);
    lemma_fnv_next(bytes, 7, 0x19f8208dde98e83, 0x19f8208dde98ef2, 0xab98e71113dde536);
}

/// The hash of `http_requests_total` over its bytes 8 to 15.
proof fn lemma_requests_total_second(bytes: Seq<u8>)
    requires
        is_bytes_of_requests_total(bytes),
        fnv_bytes(FNV_OFFSET_BASIS, bytes.take(8)) == 0xab98e71113dde536,
    ensures
        fnv_bytes(FNV_OFFSET_BASIS, bytes.take(16)) == 0x7759416beaf4044c,
{
    assert(
        0xab98e71113dde536u64 ^ 0x75u64 == 0xab98e71113dde543u64 &&
            0x72b5e504c20c90d9u64 ^ 0x65u64 == 0x72b5e504c20c90bcu64 &&
            0xf7a4e315bb59ef74u64 ^ 0x73u64 == 0xf7a4e315bb59ef07u64 &&
            0x271ce4ed59d128e5u64 ^ 0x74u64 == 0x271ce4ed59d12891u64 &&
            0x4741904f9e67ee63u64 ^ 0x73u64 == 0x4741904f9e67ee10u64 &&
            0x7c56474a2a998530u64 ^ 0x5fu64 == 0x7c56474a2a99856fu64 &&
            0xe020920662ddbb9du64 ^ 0x74u64 == 0xe020920662ddbbe9u64 &&
            0xb51409d9fec64cebu64 ^ 0x6fu64 == 0xb51409d9fec64c84u64
    ) by (bit_vector);
    lemma_fnv_next(bytes, 8, 0xab98e71113dde536, 0xab98e71113dde543, 0x72b5e504c20c90d9);
    lemma_fnv_next(bytes, 9, 0x72b5e504c20c90d9, 0x72b5e504c20c90bc, 0xf7a4e315bb59ef74);
    lemma_fnv_next(bytes, 10, 0xf7a4e315bb59ef74, 0xf7a4e315bb59ef07, 0x271ce4ed59d128e5);
    lemma_fnv_next(bytes, 11, 0x271ce4ed59d128e5, 0x271ce4ed59d12891, 0x4741904f9e67ee63);
    lemma_fnv_next(bytes, 12, 0x4741904f9e67ee63, 0x4741904f9e67ee10, 0x7c56474a2a998530);
    lemma_fnv_next(bytes, 13, 0x7c56474a2a998530, 0x7c56474a2a99856f, 0xe020920662ddbb9d);
    lemma_fnv_next(bytes, 14, 0xe020920662ddbb9d, 0xe020920662ddbbe9, 0xb51409d9fec64ceb);
    lemma_fnv_next(bytes, 15, 0xb51409d9fec64ceb, 0xb51409d9fec64c84, 0x7759416beaf4044c);
}

/// The hash of `http_requests_total` over its bytes 16 to 18.
proof fn lemma_requests_total_third(bytes: Seq<u8>)
    requires
        is_bytes_of_requests_total(bytes),
        fnv_bytes(FNV_OFFSET_BASIS, bytes.take(16)) == 0x7759416beaf4044c,
    ensures
        fnv_bytes(FNV_OFFSET_BASIS, bytes.take(19)) == 0xc7040274bc164605,
{
    assert(
        0x7759416beaf4044cu64 ^ 0x74u64 == 0x7759416beaf40438u64 &&
            0xc0ae62603ca32b28u64 ^ 0x61u64 == 0xc0ae62603ca32b49u64 &&
            0xb7c728709428d0bu64 ^ 0x6cu64 == 0xb7c728709428d67u64
    ) by (bit_vector);
    lemma_fnv_next(bytes, 16, 0x7759416beaf4044c, 0x7759416beaf40438, 0xc0ae62603ca32b28);
    lemma_fnv_next(bytes, 17, 0xc0ae62603ca32b28, 0xc0ae62603ca32b49, 0xb7c728709428d0b);
    lemma_fnv_next(bytes, 18, 0xb7c728709428d0b, 0xb7c728709428d67, 0xc7040274bc164605);
}

/// The hash of the bytes of `http_requests_total` and the separator.
#[verifier::rlimit(50)]
proof fn lemma_requests_total_hash(bytes: Seq<u8>)
    requires
        is_bytes_of_requests_total(bytes),
    ensures
        fnv_step(fnv_bytes(FNV_OFFSET_BASIS, bytes), NAME_SEPARATOR) == 0x4217265b99da9ace,
{
    assert(bytes.take(0).len() == 0);
    lemma_requests_total_first(bytes);
    lemma_requests_total_second(bytes);
    lemma_requests_total_third(bytes);
    assert(0xc7040274bc164605u64 ^ 0xffu64 == 0xc7040274bc1646fau64) by (bit_vector);
    lemma_fnv_end(bytes, 0xc7040274bc164605, 0xc7040274bc1646fa, 0x4217265b99da9ace);
}

/// The descriptor identifier of `http_requests_total`.
pub proof fn lemma_requests_total_id()
    ensures
        descriptor_id("http_requests_total"@) == 0x4217265b99da9ace,
{
    reveal(descriptor_id);
    lemma_requests_total_bytes();
    lemma_requests_total_hash(encode_utf8("http_requests_total"@));
}

/// Whether `bytes` are the bytes of `http_request_duration_seconds`.
spec fn is_bytes_of_request_duration(bytes: Seq<u8>) -> bool {
    &&& bytes.len() == 29
    &&& bytes[0] == 0x68
    &&& bytes[1] == 0x74
    &&& bytes[2] == 0x74
    &&& bytes[3] == 0x70
    &&& bytes[4] == 0x5f
    &&& bytes[5] == 0x72
    &&& bytes[6] == 0x65
    &&& bytes[7] == 0x71
    &&& bytes[8] == 0x75
    &&& bytes[9] == 0x65
    &&& bytes[10] == 0x73
    &&& bytes[11] == 0x74
    &&& bytes[12] == 0x5f
    &&& bytes[13] == 0x64
    &&& bytes[14] == 0x75
    &&& bytes[15] == 0x72
    &&& bytes[16] == 0x61
    &&& bytes[17] == 0x74
    &&& bytes[18] == 0x69
    &&& bytes[19] == 0x6f
    &&& bytes[20] == 0x6e
    &&& bytes[21] == 0x5f
    &&& bytes[22] == 0x73
    &&& bytes[23] == 0x65
    &&& bytes[24] == 0x63
    &&& bytes[25] == 0x6f
    &&& bytes[26] == 0x6e
    &&& bytes[27] == 0x64
    &&& bytes[28] == 0x73
}

/// The bytes of `http_request_duration_seconds`.
proof fn lemma_request_duration_bytes()
    ensures
        is_bytes_of_request_duration(encode_utf8("http_request_duration_seconds"@)),
{
    reveal_strlit("http_request_duration_seconds");
    let name = "http_request_duration_seconds"@;
    assert(is_ascii_chars(name));
    is_ascii_chars_encode_utf8(name);
    let bytes = encode_utf8(name);
    assert(bytes[0] == name[0] as u8 && name[0] == 'h');
    assert(bytes[1] == name[1] as u8 && name[1] == 't');
    assert(bytes[2] == name[2] as u8 && name[2] == 't');
    assert(bytes[3] == name[3] as u8 && name[3] == 'p');
    assert(bytes[4] == name[4] as u8 && name[4] == '_');
    assert(bytes[5] == name[5] as u8 && name[5] == 'r');
    assert(bytes[6] == name[6] as u8 && name[6] == 'e');
    assert(bytes[7] == name[7] as u8 && name[7] == 'q');
    assert(bytes[8] == name[8] as u8 && name[8] == 'u');
    assert(bytes[9] == name[9] as u8 && name[9] == 'e');
    assert(bytes[10] == name[10] as u8 && name[10] == 's');
    assert(bytes[11] == name[11] as u8 && name[11] == 't');
    assert(bytes[12] == name[12] as u8 && name[12] == '_');
    assert(bytes[13] == name[13] as u8 && name[13] == 'd');
    assert(bytes[14] == name[14] as u8 && name[14] == 'u');
    assert(bytes[15] == name[15] as u8 && name[15] == 'r');
    assert(bytes[16] == name[16] as u8 && name[16] == 'a');
    assert(bytes[17] == name[17] as u8 && name[17] == 't');
    assert(bytes[18] == name[18] as u8 && name[18] == 'i');
    assert(bytes[19] == name[19] as u8 && name[19] == 'o');
    assert(bytes[20] == name[20] as u8 && name[20] == 'n');
    assert(bytes[21] == name[21] as u8 && name[21] == '_');
    assert(bytes[22] == name[22] as u8 && name[22] == 's');
    assert(bytes[23] == name[23] as u8 && name[23] == 'e');
    assert(bytes[24] == name[24] as u8 && name[24] == 'c');
    assert(bytes[25] == name[25] as u8 && name[25] == 'o');
    assert(bytes[26] == name[26] as u8 && name[26] == 'n');
    assert(bytes[27] == name[27] as u8 && name[27] == 'd');
    assert(bytes[28] == name[28] as u8 && name[28] == 's');
}

/// The hash of `http_request_duration_seconds` over its bytes 0 to 7.
proof fn lemma_request_duration_first(bytes: Seq<u8>)
    requires
        is_bytes_of_request_duration(bytes),
        fnv_bytes(FNV_OFFSET_BASIS, bytes.take(0)) == 0xcbf29ce484222325,
    ensures
        fnv_bytes(FNV_OFFSET_BASIS, bytes.take(8)) == 0xab98e71113dde536,
{
    assert(
        0xcbf29ce484222325u64 ^ 0x68u64 == 0xcbf29ce48422234du64 &&
            0xaf63e54c8601fbd7u64 ^ 0x74u64 == 0xaf63e54c8601fba3u64 &&
            0x8ba4407b55e95f9u64 ^ 0x74u64 == 0x8ba4407b55e958du64 &&
            0x331726192fb81e97u64 ^ 0x70u64 == 0x331726192fb81ee7u64 &&
            0x8874a3cc15dc8285u64 ^ 0x5fu64 == 0x8874a3cc15dc82dau64 &&
            0xbab52dc925b2586eu64 ^ 0x72u64 == 0xbab52dc925b2581cu64 &&
            0xf434e8cb0e0bb794u64 ^ 0x65u64 == 0xf434e8cb0e0bb7f1u64 &&
            0x19f8208dde98e83u64 ^ 0x71u64 == 0x19f8208dde98ef2u64
    ) by (bit_vector);
    lemma_fnv_next(bytes, 0, 0xcbf29ce484222325, 0xcbf29ce48422234d, 0xaf63e54c8601fbd7);
    lemma_fnv_next(bytes, 1, 0xaf63e54c8601fbd7, 0xaf63e54c8601fba3, 0x8ba4407b55e95f9);
    lemma_fnv_next(bytes, 2, 0x8ba4407b55e95f9, 0x8ba4407b55e958d, 0x331726192fb81e97);
    lemma_fnv_next(bytes, 3, 0x331726192fb81e97, 0x331726192fb81ee7, 0x8874a3cc15dc8285);
    lemma_fnv_next(bytes, 4, 0x8874a3cc15dc8285, 0x8874a3cc15dc82da, 0xbab52dc925b2586e);
    lemma_fnv_next(bytes, 5, 0xbab52dc925b2586e, 0xbab52dc925b2581c, 0xf434e8cb0e0bb794);
    lemma_fnv_next(bytes, 6, 0xf434e8cb0e0bb794, 0xf434e8cb0e0bb7f1, 0x19f8208dde98e83);
    lemma_fnv_next(bytes, 7, 0x19f8208dde98e83, 0x19f8208dde98ef2, 0xab98e71113dde536);
}

/// The hash of `http_request_duration_seconds` over its bytes 8 to 15.
proof fn lemma_request_duration_second(bytes: Seq<u8>)
    requires
        is_bytes_of_request_duration(bytes),
        fnv_bytes(FNV_OFFSET_BASIS, bytes.take(8)) == 0xab98e71113dde536,
    ensures
        fnv_bytes(FNV_OFFSET_BASIS, bytes.take(16)) == 0x71cb0cd79bdb3f57,
{
    assert(
        0xab98e71113dde536u64 ^ 0x75u64 == 0xab98e71113dde543u64 &&
            0x72b5e504c20c90d9u64 ^ 0x65u64 == 0x72b5e504c20c90bcu64 &&
            0xf7a4e315bb59ef74u64 ^ 0x73u64 == 0xf7a4e315bb59ef07u64 &&
            0x271ce4ed59d128e5u64 ^ 0x74u64 == 0x271ce4ed59d12891u64 &&
            0x4741904f9e67ee63u64 ^ 0x5fu64 == 0x4741904f9e67ee3cu64 &&
            0x7c56734a2a99cff4u64 ^ 0x64u64 == 0x7c56734a2a99cf90u64 &&
            0xe0b57706635bb1b0u64 ^ 0x75u64 == 0xe0b57706635bb1c5u64 &&
            0x300b04dad4cf11bfu64 ^ 0x72u64 == 0x300b04dad4cf11cdu64
    ) by (bit_vector);
    lemma_fnv_next(bytes, 8, 0xab98e71113dde536, 0xab98e71113dde543, 0x72b5e504c20c90d9);
    lemma_fnv_next(bytes, 9, 0x72b5e504c20c90d9, 0x72b5e504c20c90bc, 0xf7a4e315bb59ef74);
    lemma_fnv_next(bytes, 10, 0xf7a4e315bb59ef74, 0xf7a4e315bb59ef07, 0x271ce4ed59d128e5);
    lemma_fnv_next(bytes, 11, 0x271ce4ed59d128e5, 0x271ce4ed59d12891, 0x4741904f9e67ee63);
    lemma_fnv_next(bytes, 12, 0x4741904f9e67ee63, 0x4741904f9e67ee3c, 0x7c56734a2a99cff4);
    lemma_fnv_next(bytes, 13, 0x7c56734a2a99cff4, 0x7c56734a2a99cf90, 0xe0b57706635bb1b0);
    lemma_fnv_next(bytes, 14, 0xe0b57706635bb1b0, 0xe0b57706635bb1c5, 0x300b04dad4cf11bf);
    lemma_fnv_next(bytes, 15, 0x300b04dad4cf11bf, 0x300b04dad4cf11cd, 0x71cb0cd79bdb3f57);
}

/// The hash of `http_request_duration_seconds` over its bytes 16 to 23.
proof fn lemma_request_duration_third(bytes: Seq<u8>)
    requires
        is_bytes_of_request_duration(bytes),
        fnv_bytes(FNV_OFFSET_BASIS, bytes.take(16)) == 0x71cb0cd79bdb3f57,
    ensures
        fnv_bytes(FNV_OFFSET_BASIS, bytes.take(24)) == 0xa24088ddc8d083c1,
{
    assert(
        0x71cb0cd79bdb3f57u64 ^ 0x61u64 == 0x71cb0cd79bdb3f36u64 &&
            0x3746085dd58c68c2u64 ^ 0x74u64 == 0x3746085dd58c68b6u64 &&
            0x7868ed71dd95ed42u64 ^ 0x69u64 == 0x7868ed71dd95ed2bu64 &&
            0x3038a37b85c20011u64 ^ 0x6fu64 == 0x3038a37b85c2007eu64 &&
            0xb23e48e448a6d61au64 ^ 0x6eu64 == 0xb23e48e448a6d674u64 &&
            0x86ac4fe7737e671cu64 ^ 0x5fu64 == 0x86ac4fe7737e6743u64 &&
            0x553309493fc976d9u64 ^ 0x73u64 == 0x553309493fc976aau64 &&
            0x8f2f71776354a2deu64 ^ 0x65u64 == 0x8f2f71776354a2bbu64
    ) by (bit_vector);
    lemma_fnv_next(bytes, 16, 0x71cb0cd79bdb3f57, 0x71cb0cd79bdb3f36, 0x3746085dd58c68c2);
    lemma_fnv_next(bytes, 17, 0x3746085dd58c68c2, 0x3746085dd58c68b6, 0x7868ed71dd95ed42);
    lemma_fnv_next(bytes, 18, 0x7868ed71dd95ed42, 0x7868ed71dd95ed2b, 0x3038a37b85c20011);
    lemma_fnv_next(bytes, 19, 0x3038a37b85c20011, 0x3038a37b85c2007e, 0xb23e48e448a6d61a);
    lemma_fnv_next(bytes, 20, 0xb23e48e448a6d61a, 0xb23e48e448a6d674, 0x86ac4fe7737e671c);
    lemma_fnv_next(bytes, 21, 0x86ac4fe7737e671c, 0x86ac4fe7737e6743, 0x553309493fc976d9);
    lemma_fnv_next(bytes, 22, 0x553309493fc976d9, 0x553309493fc976aa, 0x8f2f71776354a2de);
    lemma_fnv_next(bytes, 23, 0x8f2f71776354a2de, 0x8f2f71776354a2bb, 0xa24088ddc8d083c1);
}

/// The hash of `http_request_duration_seconds` over its bytes 24 to 28.
proof fn lemma_request_duration_fourth(bytes: Seq<u8>)
    requires
        is_bytes_of_request_duration(bytes),
        fnv_bytes(FNV_OFFSET_BASIS, bytes.take(24)) == 0xa24088ddc8d083c1,
    ensures
        fnv_bytes(FNV_OFFSET_BASIS, bytes.take(29)) == 0xa85a242c73eca856,
{
    assert(
        0xa24088ddc8d083c1u64 ^ 0x63u64 == 0xa24088ddc8d083a2u64 &&
            0x842c32dc3a4fac46u64 ^ 0x6fu64 == 0x842c32dc3a4fac29u64 &&
            0xe6c69537156189abu64 ^ 0x6eu64 == 0xe6c69537156189c5u64 &&
            0x84f9519954bd19bfu64 ^ 0x64u64 == 0x84f9519954bd19dbu64 &&
            0xb0bf828afd52ef21u64 ^ 0x73u64 == 0xb0bf828afd52ef52u64
    ) by (bit_vector);
    lemma_fnv_next(bytes, 24, 0xa24088ddc8d083c1, 0xa24088ddc8d083a2, 0x842c32dc3a4fac46);
    lemma_fnv_next(bytes, 25, 0x842c32dc3a4fac46, 0x842c32dc3a4fac29, 0xe6c69537156189ab);
    lemma_fnv_next(bytes, 26, 0xe6c69537156189ab, 0xe6c69537156189c5, 0x84f9519954bd19bf);
    lemma_fnv_next(bytes, 27, 0x84f9519954bd19bf, 0x84f9519954bd19db, 0xb0bf828afd52ef21);
    lemma_fnv_next(bytes, 28, 0xb0bf828afd52ef21, 0xb0bf828afd52ef52, 0xa85a242c73eca856);
}

/// The hash of the bytes of `http_request_duration_seconds` and the separator.
#[verifier::rlimit(50)]
proof fn lemma_request_duration_hash(bytes: Seq<u8>)
    requires
        is_bytes_of_request_duration(bytes),
    ensures
        fnv_step(fnv_bytes(FNV_OFFSET_BASIS, bytes), NAME_SEPARATOR) == 0xfdd42088fb22972b,
{
    assert(bytes.take(0).len() == 0);
    lemma_request_duration_first(bytes);
    lemma_request_duration_second(bytes);
    lemma_request_duration_third(bytes);
    lemma_request_duration_fourth(bytes);
    assert(0xa85a242c73eca856u64 ^ 0xffu64 == 0xa85a242c73eca8a9u64) by (bit_vector);
    lemma_fnv_end(bytes, 0xa85a242c73eca856, 0xa85a242c73eca8a9, 0xfdd42088fb22972b);
}

/// The descriptor identifier of `http_request_duration_seconds`.
pub proof fn lemma_request_duration_id()
    ensures
        descriptor_id("http_request_duration_seconds"@) == 0xfdd42088fb22972b,
{
    reveal(descriptor_id);
    lemma_request_duration_bytes();
    lemma_request_duration_hash(encode_utf8("http_request_duration_seconds"@));
}

/// Whether `bytes` are the bytes of `http_requests_in_flight`.
spec fn is_bytes_of_requests_in_flight(bytes: Seq<u8>) -> bool {
    &&& bytes.len() == 23
    &&& bytes[0] == 0x68
    &&& bytes[1] == 0x74
    &&& bytes[2] == 0x74
    &&& bytes[3] == 0x70
    &&& bytes[4] == 0x5f
    &&& bytes[5] == 0x72
    &&& bytes[6] == 0x65
    &&& bytes[7] == 0x71
    &&& bytes[8] == 0x75
    &&& bytes[9] == 0x65
    &&& bytes[10] == 0x73
    &&& bytes[11] == 0x74
    &&& bytes[12] == 0x73
    &&& bytes[13] == 0x5f
    &&& bytes[14] == 0x69
    &&& bytes[15] == 0x6e
    &&& bytes[16] == 0x5f
    &&& bytes[17] == 0x66
    &&& bytes[18] == 0x6c
    &&& bytes[19] == 0x69
    &&& bytes[20] == 0x67
    &&& bytes[21] == 0x68
    &&& bytes[22] == 0x74
}

/// The bytes of `http_requests_in_flight`.
proof fn lemma_requests_in_flight_bytes()
    ensures
        is_bytes_of_requests_in_flight(encode_utf8("http_requests_in_flight"@)),
{
    reveal_strlit("http_requests_in_flight");
    let name = "http_requests_in_flight"@;
    assert(is_ascii_chars(name));
    is_ascii_chars_encode_utf8(name);
    let bytes = encode_utf8(name);
    assert(bytes[0] == name[0] as u8 && name[0] == 'h');
    assert(bytes[1] == name[1] as u8 && name[1] == 't');
    assert(bytes[2] == name[2] as u8 && name[2] == 't');
    assert(bytes[3] == name[3] as u8 && name[3] == 'p');
    assert(bytes[4] == name[4] as u8 && name[4] == '_');
    assert(bytes[5] == name[5] as u8 && name[5] == 'r');
    assert(bytes[6] == name[6] as u8 && name[6] == 'e');
    assert(bytes[7] == name[7] as u8 && name[7] == 'q');
    assert(bytes[8] == name[8] as u8 && name[8] == 'u');
    assert(bytes[9] == name[9] as u8 && name[9] == 'e');
    assert(bytes[10] == name[10] as u8 && name[10] == 's');
    assert(bytes[11] == name[11] as u8 && name[11] == 't');
    assert(bytes[12] == name[12] as u8 && name[12] == 's');
    assert(bytes[13] == name[13] as u8 && name[13] == '_');
    assert(bytes[14] == name[14] as u8 && name[14] == 'i');
    assert(bytes[15] == name[15] as u8 && name[15] == 'n');
    assert(bytes[16] == name[16] as u8 && name[16] == '_');
    assert(bytes[17] == name[17] as u8 && name[17] == 'f');
    assert(bytes[18] == name[18] as u8 && name[18] == 'l');
    assert(bytes[19] == name[19] as u8 && name[19] == 'i');
    assert(bytes[20] == name[20] as u8 && name[20] == 'g');
    assert(bytes[21] == name[21] as u8 && name[21] == 'h');
    assert(bytes[22] == name[22] as u8 && name[22] == 't');
}

/// The hash of `http_requests_in_flight` over its bytes 0 to 7.
proof fn lemma_requests_in_flight_first(bytes: Seq<u8>)
    requires
        is_bytes_of_requests_in_flight(bytes),
        fnv_bytes(FNV_OFFSET_BASIS, bytes.take(0)) == 0xcbf29ce484222325,
    ensures
        fnv_bytes(FNV_OFFSET_BASIS, bytes.take(8)) == 0xab98e71113dde536,
{
    assert(
        0xcbf29ce484222325u64 ^ 0x68u64 == 0xcbf29ce48422234du64 &&
            0xaf63e54c8601fbd7u64 ^ 0x74u64 == 0xaf63e54c8601fba3u64 &&
            0x8ba4407b55e95f9u64 ^ 0x74u64 == 0x8ba4407b55e958du64 &&
            0x331726192fb81e97u64 ^ 0x70u64 == 0x331726192fb81ee7u64 &&
            0x8874a3cc15dc8285u64 ^ 0x5fu64 == 0x8874a3cc15dc82dau64 &&
            0xbab52dc925b2586eu64 ^ 0x72u64 == 0xbab52dc925b2581cu64 &&
            0xf434e8cb0e0bb794u64 ^ 0x65u64 == 0xf434e8cb0e0bb7f1u64 &&
            0x19f8208dde98e83u64 ^ 0x71u64 == 0x19f8208dde98ef2u64
    ) by (bit_vector);
    lemma_fnv_next(bytes, 0, 0xcbf29ce484222325, 0xcbf29ce48422234d, 0xaf63e54c8601fbd7);
    lemma_fnv_next(bytes, 1, 0xaf63e54c8601fbd7, 0xaf63e54c8601fba3, 0x8ba4407b55e95f9);
    lemma_fnv_next(bytes, 2, 0x8ba4407b55e95f9, 0x8ba4407b55e958d, 0x331726192fb81e97);
    lemma_fnv_next(bytes, 3, 0x331726192fb81e97, 0x331726192fb81ee7, 0x8874a3cc15dc8285);
    lemma_fnv_next(bytes, 4, 0x8874a3cc15dc8285, 0x8874a3cc15dc82da, 0xbab52dc925b2586e);
    lemma_fnv_next(bytes, 5, 0xbab52dc925b2586e, 0xbab52dc925b2581c, 0xf434e8cb0e0bb794);
    lemma_fnv_next(bytes, 6, 0xf434e8cb0e0bb794, 0xf434e8cb0e0bb7f1, 0x19f8208dde98e83);
    lemma_fnv_next(bytes, 7, 0x19f8208dde98e83, 0x19f8208dde98ef2, 0xab98e71113dde536);
}

/// The hash of `http_requests_in_flight` over its bytes 8 to 15.
proof fn lemma_requests_in_flight_second(bytes: Seq<u8>)
    requires
        is_bytes_of_requests_in_flight(bytes),
        fnv_bytes(FNV_OFFSET_BASIS, bytes.take(8)) == 0xab98e71113dde536,
    ensures
        fnv_bytes(FNV_OFFSET_BASIS, bytes.take(16)) == 0x777f606beb150836,
{
    assert(
        0xab98e71113dde536u64 ^ 0x75u64 == 0xab98e71113dde543u64 &&
            0x72b5e504c20c90d9u64 ^ 0x65u64 == 0x72b5e504c20c90bcu64 &&
            0xf7a4e315bb59ef74u64 ^ 0x73u64 == 0xf7a4e315bb59ef07u64 &&
            0x271ce4ed59d128e5u64 ^ 0x74u64 == 0x271ce4ed59d12891u64 &&
            0x4741904f9e67ee63u64 ^ 0x73u64 == 0x4741904f9e67ee10u64 &&
            0x7c56474a2a998530u64 ^ 0x5fu64 == 0x7c56474a2a99856fu64 &&
            0xe020920662ddbb9du64 ^ 0x69u64 == 0xe020920662ddbbf4u64 &&
            0xb51414d9fec65f9cu64 ^ 0x6eu64 == 0xb51414d9fec65ff2u64
    ) by (bit_vector);
    lemma_fnv_next(bytes, 8, 0xab98e71113dde536, 0xab98e71113dde543, 0x72b5e504c20c90d9);
    lemma_fnv_next(bytes, 9, 0x72b5e504c20c90d9, 0x72b5e504c20c90bc, 0xf7a4e315bb59ef74);
    lemma_fnv_next(bytes, 10, 0xf7a4e315bb59ef74, 0xf7a4e315bb59ef07, 0x271ce4ed59d128e5);
    lemma_fnv_next(bytes, 11, 0x271ce4ed59d128e5, 0x271ce4ed59d12891, 0x4741904f9e67ee63);
    lemma_fnv_next(bytes, 12, 0x4741904f9e67ee63, 0x4741904f9e67ee10, 0x7c56474a2a998530);
    lemma_fnv_next(bytes, 13, 0x7c56474a2a998530, 0x7c56474a2a99856f, 0xe020920662ddbb9d);
    lemma_fnv_next(bytes, 14, 0xe020920662ddbb9d, 0xe020920662ddbbf4, 0xb51414d9fec65f9c);
    lemma_fnv_next(bytes, 15, 0xb51414d9fec65f9c, 0xb51414d9fec65ff2, 0x777f606beb150836);
}

/// The hash of `http_requests_in_flight` over its bytes 16 to 22.
proof fn lemma_requests_in_flight_third(bytes: Seq<u8>)
    requires
        is_bytes_of_requests_in_flight(bytes),
        fnv_bytes(FNV_OFFSET_BASIS, bytes.take(16)) == 0x777f606beb150836,
    ensures
        fnv_bytes(FNV_OFFSET_BASIS, bytes.take(23)) == 0x4bca6b038577b631,
{
    assert(
        0x777f606beb150836u64 ^ 0x5fu64 == 0x777f606beb150869u64 &&
            0x2279406074bd4a6bu64 ^ 0x66u64 == 0x2279406074bd4a0du64 &&
            0x515270e65da4d417u64 ^ 0x6cu64 == 0x515270e65da4d47bu64 &&
            0xd3ea52711f150d01u64 ^ 0x69u64 == 0xd3ea52711f150d68u64 &&
            0x2c377e37d0c5c7b8u64 ^ 0x67u64 == 0x2c377e37d0c5c7dfu64 &&
            0xe81357d7c0129fedu64 ^ 0x68u64 == 0xe81357d7c0129f85u64 &&
            0x6b7dc89b5fa50effu64 ^ 0x74u64 == 0x6b7dc89b5fa50e8bu64
    ) by (bit_vector);
    lemma_fnv_next(bytes, 16, 0x777f606beb150836, 0x777f606beb150869, 0x2279406074bd4a6b);
    lemma_fnv_next(bytes, 17, 0x2279406074bd4a6b, 0x2279406074bd4a0d, 0x515270e65da4d417);
    lemma_fnv_next(bytes, 18, 0x515270e65da4d417, 0x515270e65da4d47b, 0xd3ea52711f150d01);
    lemma_fnv_next(bytes, 19, 0xd3ea52711f150d01, 0xd3ea52711f150d68, 0x2c377e37d0c5c7b8);
    lemma_fnv_next(bytes, 20, 0x2c377e37d0c5c7b8, 0x2c377e37d0c5c7df, 0xe81357d7c0129fed);
    lemma_fnv_next(bytes, 21, 0xe81357d7c0129fed, 0xe81357d7c0129f85, 0x6b7dc89b5fa50eff);
    lemma_fnv_next(bytes, 22, 0x6b7dc89b5fa50eff, 0x6b7dc89b5fa50e8b, 0x4bca6b038577b631);
}

/// The hash of the bytes of `http_requests_in_flight` and the separator.
#[verifier::rlimit(50)]
proof fn lemma_requests_in_flight_hash(bytes: Seq<u8>)
    requires
        is_bytes_of_requests_in_flight(bytes),
    ensures
        fnv_step(fnv_bytes(FNV_OFFSET_BASIS, bytes), NAME_SEPARATOR) == 0x40aaa4fbca6ba00a,
{
    assert(bytes.take(0).len() == 0);
    lemma_requests_in_flight_first(bytes);
    lemma_requests_in_flight_second(bytes);
    lemma_requests_in_flight_third(bytes);
    assert(0x4bca6b038577b631u64 ^ 0xffu64 == 0x4bca6b038577b6ceu64) by (bit_vector);
    lemma_fnv_end(bytes, 0x4bca6b038577b631, 0x4bca6b038577b6ce, 0x40aaa4fbca6ba00a);
}

/// The descriptor identifier of `http_requests_in_flight`.
pub proof fn lemma_requests_in_flight_id()
    ensures
        descriptor_id("http_requests_in_flight"@) == 0x40aaa4fbca6ba00a,
{
    reveal(descriptor_id);
    lemma_requests_in_flight_bytes();
    lemma_requests_in_flight_hash(encode_utf8("http_requests_in_flight"@));
}

/// No two of the three metric families have the same descriptor identifier.
pub proof fn lemma_descriptor_ids_differ()
    ensures
        descriptor_id("http_requests_total"@) != descriptor_id("http_request_duration_seconds"@),
        descriptor_id("http_requests_total"@) != descriptor_id("http_requests_in_flight"@),
        descriptor_id("http_request_duration_seconds"@) != descriptor_id(
            "http_requests_in_flight"@,
        ),
{
    lemma_requests_total_id();
    lemma_request_duration_id();
    lemma_requests_in_flight_id();
}

/// No label of the metric families has the name that a histogram keeps for its buckets.
pub proof fn lemma_labels_are_free()
    ensures
        "method"@ != bucket_label(),
        "endpoint"@ != bucket_label(),
        "status"@ != bucket_label(),
{
    reveal_strlit("method");
    reveal_strlit("endpoint");
    reveal_strlit("status");
    assert("method"@.len() == 6 && "endpoint"@.len() == 8 && "status"@.len() == 6);
}

/// The three metric families are made with well-formed names, help texts and label names.
pub proof fn lemma_family_descriptions()
    ensures
        is_family_description(
            "http_requests_total"@,
            "Total number of HTTP requests processed"@,
            seq!["method"@, "endpoint"@, "status"@],
        ),
        is_family_description(
            "http_request_duration_seconds"@,
            "HTTP request latency in seconds"@,
            seq!["method"@, "endpoint"@, "status"@],
        ),
        is_family_description(
            "http_requests_in_flight"@,
            "In-flight HTTP requests"@,
            seq!["method"@, "endpoint"@],
        ),
{
    reveal_strlit("http_requests_total");
    reveal_strlit("http_request_duration_seconds");
    reveal_strlit("http_requests_in_flight");
    reveal_strlit("Total number of HTTP requests processed");
    reveal_strlit("HTTP request latency in seconds");
    reveal_strlit("In-flight HTTP requests");
    reveal_strlit("method");
    reveal_strlit("endpoint");
    reveal_strlit("status");
    assert(is_metric_name("http_requests_total"@));
    assert(is_metric_name("http_request_duration_seconds"@));
    assert(is_metric_name("http_requests_in_flight"@));
    assert(is_label_name("method"@));
    assert(is_label_name("endpoint"@));
    assert(is_label_name("status"@));
    assert("method"@.len() == 6 && "endpoint"@.len() == 8);
}

} // verus!

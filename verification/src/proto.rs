//! The protobuf wire format as far as this library writes it (LEB128 varints,
//! coded by prost), and prost's decoding of a `google.protobuf.Any`.

use vstd::prelude::*;

verus! {

/// prost's decoding error; the library carries it as it came.
#[verifier::external_type_specification]
#[verifier::external_body]
pub struct ExDecodeError(prost::DecodeError);

/// The LEB128 bytes of `v`: seven bits a byte, the least significant first,
/// with the high bit set on every byte but the last.
pub open spec fn varint_bytes(v: nat) -> Seq<u8>
    decreases v,
{
    if v < 128 {
        seq![v as u8]
    } else {
        seq![(v % 128 + 128) as u8] + varint_bytes(v / 128)
    }
}

/// The number that LEB128 bytes stand for: seven bits a byte, the least
/// significant first.
pub open spec fn varint_value(bytes: Seq<u8>) -> nat
    decreases bytes.len(),
{
    if bytes.len() == 0 {
        0
    } else {
        (bytes[0] % 128) as nat + 128 * varint_value(bytes.drop_first())
    }
}

/// The varint of `v` stands for `v`: it is not empty, every byte but the
/// last has the high bit set, and the last has it clear.
pub proof fn lemma_varint_bytes(v: nat)
    ensures
        varint_value(varint_bytes(v)) == v,
        varint_bytes(v).len() >= 1,
        varint_bytes(v).last() < 128,
        forall|i: int| 0 <= i < varint_bytes(v).len() - 1 ==> varint_bytes(v)[i] >= 128,
        v < 128 ==> varint_bytes(v) == seq![v as u8],
    decreases v,
{
    if v >= 128 {
        lemma_varint_bytes(v / 128);
        let rest = varint_bytes(v / 128);
        let b = varint_bytes(v);
        assert(b == seq![(v % 128 + 128) as u8] + rest);
        assert(b.drop_first() =~= rest);
        assert(b[0] % 128 == v % 128);
        assert forall|i: int| 0 <= i < b.len() - 1 implies b[i] >= 128 by {
            if i > 0 {
                assert(b[i] == rest[i - 1]);
            }
        }
        assert(b.last() == rest.last());
        assert(varint_value(b) == (b[0] % 128) as nat + 128 * varint_value(rest));
        assert(v == 128 * (v / 128) + v % 128);
    } else {
        let b = varint_bytes(v);
        assert(b.drop_first() =~= Seq::<u8>::empty());
        assert(varint_value(b.drop_first()) == 0);
        assert(b[0] % 128 == v);
    }
}

/// The bytes of a length-delimited field with the given key byte: the key,
/// the length of `body` as a varint, and `body`.
pub open spec fn delimited_field(key: u8, body: Seq<u8>) -> Seq<u8> {
    seq![key] + varint_bytes(body.len()) + body
}

/// The bytes of a `uint64` field with the given key byte, which proto3 leaves
/// out when the value is 0.
pub open spec fn uint64_field(key: u8, v: u64) -> Seq<u8> {
    if v == 0 {
        Seq::empty()
    } else {
        seq![key] + varint_bytes(v as nat)
    }
}

/// `prost::encoding::encode_varint`: appends the LEB128 bytes of `value`
/// (seven bits a byte, the high bit marking that more follow) to `buf`.
#[verifier::external_body]
pub(crate) fn encode_varint(value: u64, buf: &mut Vec<u8>)
    ensures
        final(buf)@ == old(buf)@ + varint_bytes(value as nat),
{
    prost::encoding::encode_varint(value, buf)
}

/// What prost's `Message::decode` makes of `value` as a
/// `google.protobuf.Any`: its type URL and value, or `None` where decoding
/// fails.
pub uninterp spec fn prost_any_decode(value: Seq<u8>) -> Option<(Seq<char>, Seq<u8>)>;

/// prost's `Message::decode` of `value` as a `prost_types::Any`: its type URL
/// and value, as `prost_any_decode` names them, or prost's error. A message
/// decoded from no bytes is the default (empty type URL and value); one whose
/// type URL is not empty took at least three bytes of `value` for it, so its
/// own value is shorter than `value`.
#[verifier::external_body]
pub(crate) fn decode_any(value: &[u8]) -> (r: Result<(String, Vec<u8>), prost::DecodeError>)
    ensures
        match r {
            Ok((url, v)) => prost_any_decode(value@) == Some((url@, v@)) && (url@.len() == 0
                || v@.len() < value@.len()),
            Err(_) => prost_any_decode(value@) is None,
        },
{
    match <prost_types::Any as prost::Message>::decode(value) {
        Ok(any) => Ok((any.type_url, any.value)),
        Err(e) => Err(e),
    }
}

} // verus!

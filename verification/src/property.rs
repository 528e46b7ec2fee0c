use crate::status::Status;
use vstd::bytes::{spec_u64_from_le_bytes, u64_from_le_bytes};
use vstd::prelude::*;
use vstd::slice::slice_to_vec;
use vstd::string::StringSliceAdditionalSpecFns;
use vstd::utf8::{decode_utf8, valid_utf8};

pub mod all;
pub mod envoy;

verus! {

/// The text that std's lossy decoding makes of `bytes`: the text itself
/// where the bytes are UTF-8, and else the text with a replacement
/// character for each ill-formed run.
pub uninterp spec fn utf8_lossy(bytes: Seq<u8>) -> Seq<char>;

/// Calls `String::from_utf8_lossy`. The result is named, not described,
/// but for the one fact that std documents in a line: bytes that are
/// UTF-8 come out as the text they encode.
#[verifier::external_body]
fn string_from_utf8_lossy(bytes: &Vec<u8>) -> (r: String)
    ensures
        r@ == utf8_lossy(bytes@),
        valid_utf8(bytes@) ==> r@ == decode_utf8(bytes@),
{
    String::from_utf8_lossy(bytes).into_owned()
}

/// The path that the host takes for the property `name`: the bytes of the
/// name, with a zero byte in place of each dot between its parts.
pub open spec fn spec_property_path(name: Seq<u8>) -> Seq<u8> {
    Seq::new(name.len(), |i: int| if name[i] == 0x2e { 0u8 } else { name[i] })
}

/// The path that the host takes for the property `name`: the bytes of the
/// name, with a zero byte in place of each dot between its parts.
pub fn property_path(name: &str) -> (r: Vec<u8>)
    ensures
        r@ == spec_property_path(name.spec_bytes()),
{
    let bytes = name.as_bytes();
    let mut out: Vec<u8> = Vec::new();
    let mut i: usize = 0;
    while i < bytes.len()
        invariant
            i <= bytes@.len(),
            bytes@ == name.spec_bytes(),
            out@ == spec_property_path(bytes@.subrange(0, i as int)),
        decreases bytes@.len() - i,
    {
        let byte = bytes[i];
        out.push(if byte == 0x2e { 0 } else { byte });
        i = i + 1;
        assert(out@ =~= spec_property_path(bytes@.subrange(0, i as int)));
    }
    assert(bytes@.subrange(0, i as int) =~= bytes@);
    out
}

/// The bytes of a property in the host's answer: none where the host
/// holds none or refused.
pub open spec fn property_of(answer: Result<Option<Vec<u8>>, Status>) -> Option<Vec<u8>> {
    match answer {
        Ok(value) => value,
        Err(_) => None,
    }
}

/// The value of the property `name`: what the host, asked through
/// `host_get` with the path of the name, holds for it.
pub fn get_property<F: FnOnce(Vec<u8>) -> Result<Option<Vec<u8>>, Status>>(
    name: &str,
    host_get: F,
) -> (r: Option<Vec<u8>>)
    requires
        forall|path: Vec<u8>|
            path@ == spec_property_path(name.spec_bytes()) ==> call_requires(host_get, (path,)),
    ensures
        exists|path: Vec<u8>, answer: Result<Option<Vec<u8>>, Status>|
            path@ == spec_property_path(name.spec_bytes()) && #[trigger] call_ensures(
                host_get,
                (path,),
                answer,
            ) && r == property_of(answer),
{
    match host_get(property_path(name)) {
        Ok(value) => value,
        Err(_) => None,
    }
}

/// Sets the property `name`: asks the host, through `host_set` with
/// the path of the name, to hold `value` for it, and hands its answer
/// back.
pub fn set_property<F: FnOnce(Vec<u8>, Option<&[u8]>) -> Result<(), Status>>(
    name: &str,
    value: &[u8],
    host_set: F,
) -> (r: Result<(), Status>)
    requires
        forall|path: Vec<u8>|
            path@ == spec_property_path(name.spec_bytes()) ==> call_requires(
                host_set,
                (path, Some(value)),
            ),
    ensures
        exists|path: Vec<u8>|
            path@ == spec_property_path(name.spec_bytes()) && #[trigger] call_ensures(
                host_set,
                (path, Some(value)),
                r,
            ),
{
    host_set(property_path(name), Some(value))
}

/// Whether `r` is the text of the raw property `raw`: its lossy decoding,
/// or nothing where there is no property.
pub open spec fn string_read(raw: Option<Vec<u8>>, r: Option<String>) -> bool {
    match raw {
        Some(bytes) => r is Some && r->0@ == utf8_lossy(bytes@),
        None => r is None,
    }
}

/// The number that the raw property `raw` holds: its eight bytes, read as
/// a little-endian two's complement number; nothing where there is no
/// property or it has another length.
pub open spec fn int_read(raw: Option<Vec<u8>>) -> Option<i64> {
    match raw {
        Some(bytes) => if bytes@.len() == 8 {
            Some(spec_u64_from_le_bytes(bytes@) as i64)
        } else {
            None
        },
        None => None,
    }
}

/// The truth value that the raw property `raw` holds: whether its one
/// byte is not zero; nothing where there is no property or it has another
/// length.
pub open spec fn bool_read(raw: Option<Vec<u8>>) -> Option<bool> {
    match raw {
        Some(bytes) => if bytes@.len() == 1 {
            Some(bytes@[0] != 0)
        } else {
            None
        },
        None => None,
    }
}

/// The property `name` as text, read through `read`.
pub fn get_property_string<P: FnOnce(&str) -> Option<Vec<u8>>>(name: &str, read: P) -> (r:
    Option<String>)
    requires
        call_requires(read, (name,)),
    ensures
        exists|raw: Option<Vec<u8>>|
            #[trigger] call_ensures(read, (name,), raw) && string_read(raw, r),
{
    match read(name) {
        Some(bytes) => Some(string_from_utf8_lossy(&bytes)),
        None => None,
    }
}

/// The property `name` as a number, read through `read`.
pub fn get_property_int<P: FnOnce(&str) -> Option<Vec<u8>>>(name: &str, read: P) -> (r:
    Option<i64>)
    requires
        call_requires(read, (name,)),
    ensures
        exists|raw: Option<Vec<u8>>|
            #[trigger] call_ensures(read, (name,), raw) && r == int_read(raw),
{
    let raw = match read(name) {
        Some(raw) => raw,
        None => {
            return None;
        },
    };
    if raw.len() != 8 {
        return None;
    }
    let unsigned = u64_from_le_bytes(raw.as_slice());
    Some(#[verifier::truncate] (unsigned as i64))
}

/// The property `name` as a truth value, read through `read`.
pub fn get_property_bool<P: FnOnce(&str) -> Option<Vec<u8>>>(name: &str, read: P) -> (r:
    Option<bool>)
    requires
        call_requires(read, (name,)),
    ensures
        exists|raw: Option<Vec<u8>>|
            #[trigger] call_ensures(read, (name,), raw) && r == bool_read(raw),
{
    let raw = match read(name) {
        Some(raw) => raw,
        None => {
            return None;
        },
    };
    if raw.len() != 1 {
        return None;
    }
    Some(raw[0] != 0)
}

/// Whether `r` is what `decode` makes of the raw property `raw`: nothing
/// where there is no property.
pub open spec fn decode_read<M, D: FnOnce(Vec<u8>) -> Option<M>>(
    raw: Option<Vec<u8>>,
    decode: D,
    r: Option<M>,
) -> bool {
    match raw {
        Some(bytes) => call_ensures(decode, (bytes,), r),
        None => r is None,
    }
}

/// The property `name` as a message, read through `read` and
/// decoded by `decode`, which gives nothing for bytes that are no such
/// message.
pub fn get_property_decode<M, P: FnOnce(&str) -> Option<Vec<u8>>, D: FnOnce(Vec<u8>) -> Option<M>>(
    name: &str,
    read: P,
    decode: D,
) -> (r: Option<M>)
    requires
        call_requires(read, (name,)),
        forall|bytes: Vec<u8>| call_requires(decode, (bytes,)),
    ensures
        exists|raw: Option<Vec<u8>>|
            #[trigger] call_ensures(read, (name,), raw) && decode_read(raw, decode, r),
{
    match read(name) {
        Some(bytes) => decode(bytes),
        None => None,
    }
}

} // verus!

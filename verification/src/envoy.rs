use crate::upstream::Upstream;
use vstd::prelude::*;
use vstd::slice::slice_to_vec;
use vstd::string::StringSliceAdditionalSpecFns;

verus! {

/// The variable-length encoding of a number, seven bits to a byte, low
/// bits first, each byte but the last marked with its high bit.
pub open spec fn varint(value: u64) -> Seq<u8>
    decreases value,
{
    if value < 0x80 {
        seq![value as u8]
    } else {
        seq![(value % 0x80 + 0x80) as u8] + varint(value / 0x80)
    }
}

/// The encoding of a field that holds bytes, a text or a message: the key
/// of the field, the length of its content, and the content.
pub open spec fn length_delimited(tag: u32, content: Seq<u8>) -> Seq<u8> {
    varint((tag * 8 + 2) as u64) + varint(content.len() as u64) + content
}

/// The encoding of a text field, which is left out where the text is
/// empty.
pub open spec fn text_field(tag: u32, text: Seq<u8>) -> Seq<u8> {
    if text.len() == 0 {
        Seq::empty()
    } else {
        length_delimited(tag, text)
    }
}

/// Calls `prost::encoding::bytes::encode` with a `Vec<u8>` as the value
/// and as the buffer. It appends to the buffer the key of a
/// length-delimited field with the tag, which is the tag shifted left by
/// three with the wire type 2 in the low bits, then the length of the
/// value, both as varints, then the value. The tag must be one that
/// protobuf allows.
#[verifier::external_body]
fn encode_bytes_field(tag: u32, value: &Vec<u8>, buf: &mut Vec<u8>)
    requires
        1 <= tag <= 0x1fff_ffff,
    ensures
        final(buf)@ == old(buf)@ + length_delimited(tag, value@),
{
    prost::encoding::bytes::encode(tag, value, buf)
}

/// Appends a text field to a message, unless the text is empty.
fn encode_text_field(tag: u32, text: &Vec<u8>, buf: &mut Vec<u8>)
    requires
        1 <= tag <= 0x1fff_ffff,
    ensures
        final(buf)@ == old(buf)@ + text_field(tag, text@),
{
    if text.len() != 0 {
        encode_bytes_field(tag, text, buf);
    } else {
        assert(buf@ + Seq::<u8>::empty() =~= buf@);
    }
}

/// The prefix by which a target is marked as plain text.
pub open spec fn plain_prefix() -> Seq<u8> {
    seq![0x68u8, 0x74, 0x74, 0x70, 0x3a, 0x2f, 0x2f]
}

/// The prefix by which a target is marked as secured.
pub open spec fn secure_prefix() -> Seq<u8> {
    seq![0x68u8, 0x74, 0x74, 0x70, 0x73, 0x3a, 0x2f, 0x2f]
}

/// Whether `text` starts with `prefix`.
pub open spec fn starts_with(text: Seq<u8>, prefix: Seq<u8>) -> bool {
    prefix.len() <= text.len() && text.subrange(0, prefix.len() as int) == prefix
}

/// `text` without `prefix` at its start, or `text` itself where it does
/// not start with it.
pub open spec fn without_prefix(text: Seq<u8>, prefix: Seq<u8>) -> Seq<u8> {
    if starts_with(text, prefix) {
        text.subrange(prefix.len() as int, text.len() as int)
    } else {
        text
    }
}

/// The name under which calls to a target are counted.
pub open spec fn stat_prefix() -> Seq<u8> {
    "leaksignal_command".spec_bytes()
}

/// The message that names the cluster `cluster_name` of the proxy as the
/// target, with the authority `authority`.
pub open spec fn spec_envoy_upstream(cluster_name: Seq<u8>, authority: Seq<u8>) -> Seq<u8> {
    length_delimited(1, text_field(1, cluster_name) + text_field(2, authority))
}

/// The message that names `target_uri` as the target, reached without
/// TLS.
pub open spec fn spec_insecure_grpc_upstream(target_uri: Seq<u8>) -> Seq<u8> {
    length_delimited(2, text_field(1, target_uri) + text_field(4, stat_prefix()))
}

/// The credentials of a target that is reached with TLS: the channel
/// credentials that hold SSL credentials with nothing set.
pub open spec fn ssl_credentials() -> Seq<u8> {
    length_delimited(2, length_delimited(1, Seq::empty()))
}

/// The message that names the target `target_uri`: what follows its
/// scheme is the target, and it is reached with TLS unless the scheme is
/// `http://`.
pub open spec fn spec_grpc_upstream(target_uri: Seq<u8>) -> Seq<u8> {
    if starts_with(target_uri, plain_prefix()) {
        length_delimited(
            2,
            text_field(1, without_prefix(target_uri, plain_prefix())) + text_field(
                4,
                stat_prefix(),
            ),
        )
    } else {
        length_delimited(
            2,
            text_field(1, without_prefix(target_uri, secure_prefix())) + ssl_credentials()
                + text_field(4, stat_prefix()),
        )
    }
}

/// Whether `text` starts with `prefix`.
fn has_prefix(text: &[u8], prefix: &Vec<u8>) -> (r: bool)
    ensures
        r == starts_with(text@, prefix@),
{
    if prefix.len() > text.len() {
        return false;
    }
    let mut i: usize = 0;
    while i < prefix.len()
        invariant
            i <= prefix@.len() <= text@.len(),
            forall|k: int| 0 <= k < i ==> text@[k] == prefix@[k],
        decreases prefix@.len() - i,
    {
        if text[i] != prefix[i] {
            assert(text@.subrange(0, prefix@.len() as int)[i as int] != prefix@[i as int]);
            return false;
        }
        i = i + 1;
    }
    assert(text@.subrange(0, prefix@.len() as int) =~= prefix@);
    true
}

/// The bytes of `text` from the place `from` on.
fn tail(text: &[u8], from: usize) -> (r: Vec<u8>)
    requires
        from <= text@.len(),
    ensures
        r@ == text@.subrange(from as int, text@.len() as int),
{
    let mut out: Vec<u8> = Vec::new();
    let mut i: usize = from;
    while i < text.len()
        invariant
            from <= i <= text@.len(),
            out@ == text@.subrange(from as int, i as int),
        decreases text@.len() - i,
    {
        out.push(text[i]);
        i = i + 1;
        assert(out@ =~= text@.subrange(from as int, i as int));
    }
    out
}

impl Upstream {
    /// Creates an Envoy-compatible upstream configuration for the given
    /// upstream cluster name.
    pub fn envoy_upstream(cluster_name: &str, authority: &str) -> (r: Upstream)
        ensures
            r.0@ == spec_envoy_upstream(cluster_name.spec_bytes(), authority.spec_bytes()),
    {
        let mut target: Vec<u8> = Vec::new();
        encode_text_field(1, &slice_to_vec(cluster_name.as_bytes()), &mut target);
        encode_text_field(2, &slice_to_vec(authority.as_bytes()), &mut target);
        let mut service: Vec<u8> = Vec::new();
        encode_bytes_field(1, &target, &mut service);
        assert(target@ =~= text_field(1, cluster_name.spec_bytes()) + text_field(
            2,
            authority.spec_bytes(),
        ));
        assert(service@ =~= length_delimited(1, target@));
        Upstream(service)
    }

    /// Like `grpc_upstream`, but without TLS and with the target taken as
    /// it is. Used for testing purposes.
    pub fn insecure_grpc_upstream(target_uri: &str) -> (r: Upstream)
        ensures
            r.0@ == spec_insecure_grpc_upstream(target_uri.spec_bytes()),
    {
        let mut target: Vec<u8> = Vec::new();
        encode_text_field(1, &slice_to_vec(target_uri.as_bytes()), &mut target);
        encode_text_field(4, &slice_to_vec("leaksignal_command".as_bytes()), &mut target);
        let mut service: Vec<u8> = Vec::new();
        encode_bytes_field(2, &target, &mut service);
        assert(target@ =~= text_field(1, target_uri.spec_bytes()) + text_field(4, stat_prefix()));
        assert(service@ =~= length_delimited(2, target@));
        Upstream(service)
    }

    /// Creates an upstream configuration for the target `target_uri`,
    /// which is reached with TLS unless its scheme is `http://`.
    pub fn grpc_upstream(target_uri: &str) -> (r: Upstream)
        ensures
            r.0@ == spec_grpc_upstream(target_uri.spec_bytes()),
    {
        let text = target_uri.as_bytes();
        let plain: Vec<u8> = vec![0x68u8, 0x74, 0x74, 0x70, 0x3a, 0x2f, 0x2f];
        let secure: Vec<u8> = vec![0x68u8, 0x74, 0x74, 0x70, 0x73, 0x3a, 0x2f, 0x2f];
        assert(plain@ =~= plain_prefix());
        assert(secure@ =~= secure_prefix());
        let is_plaintext = has_prefix(text, &plain);
        let stripped = if is_plaintext {
            tail(text, plain.len())
        } else if has_prefix(text, &secure) {
            tail(text, secure.len())
        } else {
            slice_to_vec(text)
        };
        let mut target: Vec<u8> = Vec::new();
        encode_text_field(1, &stripped, &mut target);
        if !is_plaintext {
            let ssl: Vec<u8> = Vec::new();
            let mut channel: Vec<u8> = Vec::new();
            encode_bytes_field(1, &ssl, &mut channel);
            assert(channel@ =~= length_delimited(1, Seq::empty()));
            encode_bytes_field(2, &channel, &mut target);
        }
        encode_text_field(4, &slice_to_vec("leaksignal_command".as_bytes()), &mut target);
        let mut service: Vec<u8> = Vec::new();
        encode_bytes_field(2, &target, &mut service);
        proof {
            if is_plaintext {
                assert(target@ =~= text_field(
                    1,
                    without_prefix(target_uri.spec_bytes(), plain_prefix()),
                ) + text_field(4, stat_prefix()));
            } else {
                assert(target@ =~= text_field(
                    1,
                    without_prefix(target_uri.spec_bytes(), secure_prefix()),
                ) + ssl_credentials() + text_field(4, stat_prefix()));
            }
            assert(service@ =~= length_delimited(2, target@));
        }
        Upstream(service)
    }
}

} // verus!

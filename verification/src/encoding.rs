//! The canonical signing encoding of a token.
//!
//! A token is signed over a deterministic byte encoding of its fields
//! with the signature itself left out, so that any two parties derive
//! byte-identical input for the same logical token. The layout is:
//! each string as its UTF-8 byte length (8 bytes, little endian)
//! followed by its UTF-8 bytes; the capability list as its count
//! (8 bytes, little endian) followed by each capability as a one-byte
//! kind tag and, for the pattern-carrying kinds, the pattern string;
//! and the expiry as its offset-binary 64-bit word (the signed value
//! shifted up by 2^63), little endian.

use vstd::prelude::*;
use vstd::bytes::{spec_u64_to_le_bytes, u64_to_le_bytes};
use vstd::string::StrSliceExecFns;
use vstd::utf8::encode_utf8;
use crate::identity::Capability;

verus! {

/// A string as a length-prefixed UTF-8 byte sequence.
pub open spec fn encoded_str(s: Seq<char>) -> Seq<u8> {
    spec_u64_to_le_bytes(encode_utf8(s).len() as u64) + encode_utf8(s)
}

/// A capability as a one-byte kind tag followed by its pattern, if any.
pub open spec fn encoded_cap(c: Capability) -> Seq<u8> {
    match c {
        Capability::ReadMessages(p) => seq![0u8] + encoded_str(p@),
        Capability::WriteMessages(p) => seq![1u8] + encoded_str(p@),
        Capability::ManageGroup(p) => seq![2u8] + encoded_str(p@),
        Capability::ManageDevice(p) => seq![3u8] + encoded_str(p@),
        Capability::CreateInvites => seq![4u8],
        Capability::AdminAccess => seq![5u8],
    }
}

/// The kind tag of a capability's encoding.
spec fn cap_tag(c: Capability) -> u8 {
    match c {
        Capability::ReadMessages(_) => 0u8,
        Capability::WriteMessages(_) => 1u8,
        Capability::ManageGroup(_) => 2u8,
        Capability::ManageDevice(_) => 3u8,
        Capability::CreateInvites => 4u8,
        Capability::AdminAccess => 5u8,
    }
}

/// What follows the kind tag in a capability's encoding.
spec fn cap_body(c: Capability) -> Seq<u8> {
    match c {
        Capability::ReadMessages(p) => encoded_str(p@),
        Capability::WriteMessages(p) => encoded_str(p@),
        Capability::ManageGroup(p) => encoded_str(p@),
        Capability::ManageDevice(p) => encoded_str(p@),
        Capability::CreateInvites => Seq::<u8>::empty(),
        Capability::AdminAccess => Seq::<u8>::empty(),
    }
}

/// A capability list as the concatenation of its encoded members.
pub open spec fn encoded_caps(caps: Seq<Capability>) -> Seq<u8>
    decreases caps.len(),
{
    if caps.len() == 0 {
        Seq::<u8>::empty()
    } else {
        encoded_caps(caps.drop_last()) + encoded_cap(caps.last())
    }
}

/// The expiry as an order-preserving unsigned word: the signed value
/// shifted up by 2^63.
pub open spec fn expiry_word(expires_at: i64) -> u64 {
    (expires_at as int + 0x8000_0000_0000_0000) as u64
}

/// The canonical signing input of a token with the given fields. The
/// signature field is not part of the input: signing always covers the
/// token with its signature cleared.
pub open spec fn signing_input(
    user_id: Seq<char>,
    device_id: Seq<char>,
    caps: Seq<Capability>,
    expires_at: i64,
) -> Seq<u8> {
    encoded_str(user_id) + encoded_str(device_id) + spec_u64_to_le_bytes(caps.len() as u64)
        + encoded_caps(caps) + spec_u64_to_le_bytes(expiry_word(expires_at))
}

/// Whether a string's UTF-8 byte length fits the 64-bit length prefix.
/// Every string an executable can hold does.
pub open spec fn str_fits(s: Seq<char>) -> bool {
    encode_utf8(s).len() < 0x1_0000_0000_0000_0000
}

/// Whether a capability's pattern, if any, fits the length prefix.
pub open spec fn cap_fits(c: Capability) -> bool {
    match c {
        Capability::ReadMessages(p) => str_fits(p@),
        Capability::WriteMessages(p) => str_fits(p@),
        Capability::ManageGroup(p) => str_fits(p@),
        Capability::ManageDevice(p) => str_fits(p@),
        Capability::CreateInvites => true,
        Capability::AdminAccess => true,
    }
}

/// Whether a capability list and all its patterns fit their prefixes.
pub open spec fn caps_fit(caps: Seq<Capability>) -> bool {
    caps.len() < 0x1_0000_0000_0000_0000 && forall|i: int|
        0 <= i < caps.len() ==> cap_fits(#[trigger] caps[i])
}

/// Whether two capabilities carry the same kind and the same pattern
/// characters.
pub open spec fn cap_like(a: Capability, b: Capability) -> bool {
    match (a, b) {
        (Capability::ReadMessages(p), Capability::ReadMessages(q)) => p@ == q@,
        (Capability::WriteMessages(p), Capability::WriteMessages(q)) => p@ == q@,
        (Capability::ManageGroup(p), Capability::ManageGroup(q)) => p@ == q@,
        (Capability::ManageDevice(p), Capability::ManageDevice(q)) => p@ == q@,
        (Capability::CreateInvites, Capability::CreateInvites) => true,
        (Capability::AdminAccess, Capability::AdminAccess) => true,
        _ => false,
    }
}

/// The 64-bit little-endian encoding is injective.
proof fn lemma_u64_le_injective(x: u64, y: u64)
    requires
        spec_u64_to_le_bytes(x) == spec_u64_to_le_bytes(y),
    ensures
        x == y,
{
    vstd::bytes::lemma_auto_spec_u64_to_from_le_bytes();
}

/// Equal concatenations with equally long heads split identically.
proof fn lemma_concat_cancel(a1: Seq<u8>, a2: Seq<u8>, r1: Seq<u8>, r2: Seq<u8>)
    requires
        a1.len() == a2.len(),
        a1 + r1 == a2 + r2,
    ensures
        a1 == a2,
        r1 == r2,
{
    broadcast use vstd::seq::group_seq_axioms;

    let n = a1.len() as int;
    assert(a1 =~= a2) by {
        assert(forall|i: int| 0 <= i < n ==> #[trigger] a1[i] == (a1 + r1)[i]);
        assert(forall|i: int| 0 <= i < n ==> #[trigger] a2[i] == (a2 + r2)[i]);
    }
    assert(r1 =~= r2) by {
        assert((a1 + r1).len() == a1.len() + r1.len());
        assert((a2 + r2).len() == a2.len() + r2.len());
        assert((a1 + r1).len() == (a2 + r2).len());
        assert(r1.len() == r2.len());
        assert(forall|i: int| 0 <= i < r1.len() ==> #[trigger] r1[i] == (a1 + r1)[n + i]);
        assert(forall|i: int| 0 <= i < r2.len() ==> #[trigger] r2[i] == (a2 + r2)[n + i]);
    }
}

/// A length-prefixed string determines itself and whatever follows it:
/// equal concatenations starting with encoded strings split identically.
proof fn lemma_encoded_str_prefix(s1: Seq<char>, s2: Seq<char>, r1: Seq<u8>, r2: Seq<u8>)
    requires
        str_fits(s1),
        str_fits(s2),
        encoded_str(s1) + r1 == encoded_str(s2) + r2,
    ensures
        s1 == s2,
        r1 == r2,
{
    vstd::bytes::lemma_auto_spec_u64_to_from_le_bytes();
    let e1 = encode_utf8(s1);
    let e2 = encode_utf8(s2);
    let p1 = spec_u64_to_le_bytes(e1.len() as u64);
    let p2 = spec_u64_to_le_bytes(e2.len() as u64);
    assert(p1 + (e1 + r1) =~= encoded_str(s1) + r1);
    assert(p2 + (e2 + r2) =~= encoded_str(s2) + r2);
    lemma_concat_cancel(p1, p2, e1 + r1, e2 + r2);
    lemma_u64_le_injective(e1.len() as u64, e2.len() as u64);
    lemma_concat_cancel(e1, e2, r1, r2);
    vstd::utf8::encode_utf8_decode_utf8(s1);
    vstd::utf8::encode_utf8_decode_utf8(s2);
}

/// An encoded capability determines itself — kind and pattern — and
/// whatever follows it.
proof fn lemma_encoded_cap_prefix(a: Capability, b: Capability, r1: Seq<u8>, r2: Seq<u8>)
    requires
        cap_fits(a),
        cap_fits(b),
        encoded_cap(a) + r1 == encoded_cap(b) + r2,
    ensures
        cap_like(a, b),
        r1 == r2,
{
    let ta = cap_tag(a);
    let tb = cap_tag(b);
    let ba = cap_body(a);
    let bb = cap_body(b);
    assert(seq![ta] + (ba + r1) =~= encoded_cap(a) + r1);
    assert(seq![tb] + (bb + r2) =~= encoded_cap(b) + r2);
    lemma_concat_cancel(seq![ta], seq![tb], ba + r1, bb + r2);
    assert(ta == seq![ta][0] && tb == seq![tb][0]);
    match (a, b) {
        (Capability::ReadMessages(p), Capability::ReadMessages(q)) => {
            lemma_encoded_str_prefix(p@, q@, r1, r2);
        },
        (Capability::WriteMessages(p), Capability::WriteMessages(q)) => {
            lemma_encoded_str_prefix(p@, q@, r1, r2);
        },
        (Capability::ManageGroup(p), Capability::ManageGroup(q)) => {
            lemma_encoded_str_prefix(p@, q@, r1, r2);
        },
        (Capability::ManageDevice(p), Capability::ManageDevice(q)) => {
            lemma_encoded_str_prefix(p@, q@, r1, r2);
        },
        (Capability::CreateInvites, Capability::CreateInvites) => {
            lemma_concat_cancel(Seq::<u8>::empty(), Seq::<u8>::empty(), r1, r2);
        },
        (Capability::AdminAccess, Capability::AdminAccess) => {
            lemma_concat_cancel(Seq::<u8>::empty(), Seq::<u8>::empty(), r1, r2);
        },
        _ => {},
    }
}

/// The capability-list encoding, read from the front; equal to
/// `encoded_caps` and easier to peel one capability at a time.
spec fn encoded_caps_front(caps: Seq<Capability>) -> Seq<u8>
    decreases caps.len(),
{
    if caps.len() == 0 {
        Seq::<u8>::empty()
    } else {
        encoded_cap(caps.first()) + encoded_caps_front(caps.drop_first())
    }
}

proof fn lemma_caps_front_push(caps: Seq<Capability>, c: Capability)
    ensures
        encoded_caps_front(caps.push(c)) == encoded_caps_front(caps) + encoded_cap(c),
    decreases caps.len(),
{
    broadcast use vstd::seq::group_seq_axioms;

    if caps.len() == 0 {
        assert(caps.push(c).len() == 1);
        assert(caps.push(c).first() == c);
        assert(caps.push(c).drop_first() =~= Seq::<Capability>::empty());
        assert(encoded_caps_front(Seq::<Capability>::empty()) == Seq::<u8>::empty());
        assert(encoded_caps_front(caps.push(c)) == encoded_cap(c) + Seq::<u8>::empty());
        assert(encoded_caps_front(caps) == Seq::<u8>::empty());
        assert(encoded_cap(c) + Seq::<u8>::empty() =~= Seq::<u8>::empty() + encoded_cap(c));
    } else {
        assert(caps.push(c).drop_first() =~= caps.drop_first().push(c));
        assert(caps.push(c).first() == caps.first());
        lemma_caps_front_push(caps.drop_first(), c);
        assert(caps.push(c).len() == caps.len() + 1);
        assert(encoded_caps_front(caps.push(c)) == encoded_cap(caps.first())
            + encoded_caps_front(caps.drop_first().push(c)));
        assert(encoded_caps_front(caps.push(c)) == encoded_cap(caps.first())
            + (encoded_caps_front(caps.drop_first()) + encoded_cap(c)));
        assert(encoded_caps_front(caps) == encoded_cap(caps.first())
            + encoded_caps_front(caps.drop_first()));
        assert(encoded_cap(caps.first()) + (encoded_caps_front(caps.drop_first())
            + encoded_cap(c)) =~= (encoded_cap(caps.first())
            + encoded_caps_front(caps.drop_first())) + encoded_cap(c));
    }
}

proof fn lemma_caps_front_eq(caps: Seq<Capability>)
    ensures
        encoded_caps(caps) == encoded_caps_front(caps),
    decreases caps.len(),
{
    if caps.len() != 0 {
        lemma_caps_front_eq(caps.drop_last());
        lemma_caps_front_push(caps.drop_last(), caps.last());
        assert(caps.drop_last().push(caps.last()) =~= caps);
    }
}

/// An encoded capability list of known length determines its members —
/// kind and pattern each — and whatever follows it.
proof fn lemma_encoded_caps_prefix(
    c1: Seq<Capability>,
    c2: Seq<Capability>,
    r1: Seq<u8>,
    r2: Seq<u8>,
)
    requires
        forall|i: int| 0 <= i < c1.len() ==> cap_fits(#[trigger] c1[i]),
        forall|i: int| 0 <= i < c2.len() ==> cap_fits(#[trigger] c2[i]),
        c1.len() == c2.len(),
        encoded_caps(c1) + r1 == encoded_caps(c2) + r2,
    ensures
        forall|i: int| 0 <= i < c1.len() ==> cap_like(#[trigger] c1[i], c2[i]),
        r1 == r2,
    decreases c1.len(),
{
    broadcast use vstd::seq::group_seq_axioms;

    lemma_caps_front_eq(c1);
    lemma_caps_front_eq(c2);
    if c1.len() == 0 {
        lemma_concat_cancel(Seq::<u8>::empty(), Seq::<u8>::empty(), r1, r2);
    } else {
        let t1 = c1.drop_first();
        let t2 = c2.drop_first();
        assert(encoded_cap(c1.first()) + (encoded_caps_front(t1) + r1) =~= encoded_caps_front(c1)
            + r1);
        assert(encoded_cap(c2.first()) + (encoded_caps_front(t2) + r2) =~= encoded_caps_front(c2)
            + r2);
        lemma_encoded_cap_prefix(
            c1.first(),
            c2.first(),
            encoded_caps_front(t1) + r1,
            encoded_caps_front(t2) + r2,
        );
        lemma_caps_front_eq(t1);
        lemma_caps_front_eq(t2);
        assert(forall|i: int| 0 <= i < t1.len() ==> cap_fits(#[trigger] t1[i]));
        assert(forall|i: int| 0 <= i < t2.len() ==> cap_fits(#[trigger] t2[i]));
        lemma_encoded_caps_prefix(t1, t2, r1, r2);
        assert(forall|i: int| 0 <= i < c1.len() ==> cap_like(#[trigger] c1[i], c2[i])) by {
            assert(forall|i: int| 1 <= i < c1.len() ==> #[trigger] c1[i] == t1[i - 1]);
            assert(forall|i: int| 1 <= i < c2.len() ==> #[trigger] c2[i] == t2[i - 1]);
        }
    }
}

/// The canonical signing input commits to every field: equal inputs come
/// only from an equal user, an equal device, an equal expiry, and
/// capability lists that agree member by member in kind and pattern. So
/// changing any of those fields of a token changes the bytes that its
/// signature covers. The bounds only ask that lengths fit their 64-bit
/// prefixes, which holds of everything an executable can build.
#[verifier::rlimit(50)]
pub proof fn lemma_signing_input_injective(
    u1: Seq<char>,
    d1: Seq<char>,
    c1: Seq<Capability>,
    e1: i64,
    u2: Seq<char>,
    d2: Seq<char>,
    c2: Seq<Capability>,
    e2: i64,
)
    requires
        str_fits(u1),
        str_fits(d1),
        caps_fit(c1),
        str_fits(u2),
        str_fits(d2),
        caps_fit(c2),
        signing_input(u1, d1, c1, e1) == signing_input(u2, d2, c2, e2),
    ensures
        u1 == u2,
        d1 == d2,
        e1 == e2,
        c1.len() == c2.len(),
        forall|i: int| 0 <= i < c1.len() ==> cap_like(#[trigger] c1[i], c2[i]),
{
    broadcast use vstd::seq::group_seq_axioms;

    vstd::bytes::lemma_auto_spec_u64_to_from_le_bytes();
    let n1 = spec_u64_to_le_bytes(c1.len() as u64);
    let n2 = spec_u64_to_le_bytes(c2.len() as u64);
    let w1 = spec_u64_to_le_bytes(expiry_word(e1));
    let w2 = spec_u64_to_le_bytes(expiry_word(e2));
    assert(encoded_str(u1) + (encoded_str(d1) + (n1 + (encoded_caps(c1) + w1))) =~= signing_input(
        u1,
        d1,
        c1,
        e1,
    ));
    assert(encoded_str(u2) + (encoded_str(d2) + (n2 + (encoded_caps(c2) + w2))) =~= signing_input(
        u2,
        d2,
        c2,
        e2,
    ));
    lemma_encoded_str_prefix(
        u1,
        u2,
        encoded_str(d1) + (n1 + (encoded_caps(c1) + w1)),
        encoded_str(d2) + (n2 + (encoded_caps(c2) + w2)),
    );
    lemma_encoded_str_prefix(
        d1,
        d2,
        n1 + (encoded_caps(c1) + w1),
        n2 + (encoded_caps(c2) + w2),
    );
    lemma_concat_cancel(n1, n2, encoded_caps(c1) + w1, encoded_caps(c2) + w2);
    lemma_u64_le_injective(c1.len() as u64, c2.len() as u64);
    lemma_encoded_caps_prefix(c1, c2, w1, w2);
    lemma_u64_le_injective(expiry_word(e1), expiry_word(e2));
}

/// Appends the canonical encoding of one string.
fn append_str(out: &mut Vec<u8>, s: &str)
    ensures
        final(out)@ == old(out)@ + encoded_str(s@),
{
    let bytes = s.as_bytes();
    let mut len_bytes = u64_to_le_bytes(bytes.len() as u64);
    out.append(&mut len_bytes);
    out.extend_from_slice(bytes);
    proof {
        assert(final(out)@ =~= old(out)@ + encoded_str(s@));
    }
}

/// Appends the canonical encoding of one capability.
fn append_cap(out: &mut Vec<u8>, cap: &Capability)
    ensures
        final(out)@ == old(out)@ + encoded_cap(*cap),
{
    match cap {
        Capability::ReadMessages(p) => {
            out.push(0u8);
            append_str(out, p.as_str());
        },
        Capability::WriteMessages(p) => {
            out.push(1u8);
            append_str(out, p.as_str());
        },
        Capability::ManageGroup(p) => {
            out.push(2u8);
            append_str(out, p.as_str());
        },
        Capability::ManageDevice(p) => {
            out.push(3u8);
            append_str(out, p.as_str());
        },
        Capability::CreateInvites => {
            out.push(4u8);
        },
        Capability::AdminAccess => {
            out.push(5u8);
        },
    }
    proof {
        assert(final(out)@ =~= old(out)@ + encoded_cap(*cap));
    }
}

proof fn lemma_encoded_caps_step(caps: Seq<Capability>, i: int)
    requires
        0 <= i < caps.len(),
    ensures
        encoded_caps(caps.take(i + 1)) == encoded_caps(caps.take(i)) + encoded_cap(caps[i]),
{
    assert(caps.take(i + 1).drop_last() =~= caps.take(i));
    assert(caps.take(i + 1).last() == caps[i]);
}

/// Appends the canonical encoding of a capability list, count first.
fn append_caps(out: &mut Vec<u8>, caps: &Vec<Capability>)
    ensures
        final(out)@ == old(out)@ + spec_u64_to_le_bytes(caps@.len() as u64)
            + encoded_caps(caps@),
{
    let mut count_bytes = u64_to_le_bytes(caps.len() as u64);
    out.append(&mut count_bytes);
    let ghost prefix: Seq<u8> = out@;
    let n = caps.len();
    let mut i: usize = 0;
    while i < n
        invariant
            n == caps@.len(),
            i <= n,
            out@ == prefix + encoded_caps(caps@.take(i as int)),
        decreases n - i,
    {
        append_cap(out, &caps[i]);
        proof {
            lemma_encoded_caps_step(caps@, i as int);
        }
        i += 1;
    }
    proof {
        assert(caps@.take(n as int) =~= caps@);
        assert(final(out)@ =~= old(out)@ + spec_u64_to_le_bytes(caps@.len() as u64)
            + encoded_caps(caps@));
    }
}

/// Builds the canonical signing input for a token with the given fields.
pub fn signing_input_bytes(
    user_id: &str,
    device_id: &str,
    caps: &Vec<Capability>,
    expires_at: i64,
) -> (r: Vec<u8>)
    ensures
        r@ == signing_input(user_id@, device_id@, caps@, expires_at),
{
    let mut out: Vec<u8> = Vec::new();
    append_str(&mut out, user_id);
    append_str(&mut out, device_id);
    append_caps(&mut out, caps);
    let word: u64 = ((expires_at as i128) + 0x8000_0000_0000_0000i128) as u64;
    let mut expiry_bytes = u64_to_le_bytes(word);
    out.append(&mut expiry_bytes);
    proof {
        assert(out@ =~= signing_input(user_id@, device_id@, caps@, expires_at));
    }
    out
}

} // verus!

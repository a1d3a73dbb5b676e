//! Construction and validation of slash-delimited resource paths.
//!
//! Paths locate profiles, messages, groups and device keys. Validation
//! is a shallow textual check — non-empty and free of the literal `..` —
//! not a full normalization; `.` segments and other malformed patterns
//! are deliberately left alone.

use vstd::prelude::*;
use vstd::string::{StrSliceExecFns, StringExecFns};

verus! {

/// The segments joined by `/`: plain concatenation, with no leading or
/// trailing separator handling.
pub open spec fn joined(parts: Seq<Seq<char>>) -> Seq<char>
    decreases parts.len(),
{
    if parts.len() == 0 {
        Seq::<char>::empty()
    } else if parts.len() == 1 {
        parts[0]
    } else {
        joined(parts.drop_last()) + seq!['/'] + parts.last()
    }
}

/// Whether the string holds the literal substring `..`.
pub open spec fn has_dotdot(s: Seq<char>) -> bool {
    exists|i: int| 0 <= i && i + 2 <= s.len() && #[trigger] s[i] == '.' && s[i + 1] == '.'
}

/// A well-formed path is non-empty and free of `..`.
pub open spec fn valid_path(s: Seq<char>) -> bool {
    s.len() > 0 && !has_dotdot(s)
}

/// The path split at every `/`. Splitting the empty string yields one
/// empty segment, and each separator ends a segment, as `str::split`
/// does.
pub open spec fn split_slash(s: Seq<char>) -> Seq<Seq<char>>
    decreases s.len(),
{
    if s.len() == 0 {
        seq![Seq::<char>::empty()]
    } else if s[0] == '/' {
        seq![Seq::<char>::empty()] + split_slash(s.drop_first())
    } else {
        let rest = split_slash(s.drop_first());
        seq![seq![s[0]] + rest[0]] + rest.drop_first()
    }
}

/// Splitting always yields at least one segment.
pub proof fn lemma_split_slash_len(s: Seq<char>)
    ensures
        split_slash(s).len() >= 1,
    decreases s.len(),
{
    if s.len() != 0 {
        lemma_split_slash_len(s.drop_first());
    }
}

proof fn lemma_joined_step(parts: Seq<Seq<char>>, i: int)
    requires
        1 <= i < parts.len(),
    ensures
        joined(parts.take(i + 1)) == joined(parts.take(i)) + seq!['/'] + parts[i],
{
    assert(parts.take(i + 1).drop_last() =~= parts.take(i));
    assert(parts.take(i + 1).last() == parts[i]);
}

/// Joins the parts with `/` between them.
pub fn build_path(parts: &[&str]) -> (r: String)
    ensures
        r@ == joined(parts@.map_values(|p: &str| p@)),
{
    let ghost views = parts@.map_values(|p: &str| p@);
    let n = parts.len();
    if n == 0 {
        return String::new();
    }
    let mut r = parts[0].to_owned();
    let mut i: usize = 1;
    while i < n
        invariant
            1 <= i <= n,
            n == parts@.len(),
            views == parts@.map_values(|p: &str| p@),
            r@ == joined(views.take(i as int)),
        decreases n - i,
    {
        r.append("/");
        r.append(parts[i]);
        proof {
            reveal_strlit("/");
            assert("/"@ =~= seq!['/']);
            assert(views[i as int] == parts@[i as int]@);
            lemma_joined_step(views, i as int);
        }
        i += 1;
    }
    proof {
        assert(views.take(n as int) =~= views);
    }
    r
}

/// Accepts exactly the non-empty paths without the literal `..`.
pub fn validate_path(path: &str) -> (r: bool)
    ensures
        r == valid_path(path@),
{
    let n = path.unicode_len();
    if n == 0 {
        return false;
    }
    let mut i: usize = 0;
    while i < n - 1
        invariant
            1 <= n == path@.len(),
            i <= n,
            forall|j: int| 0 <= j < i ==> !(#[trigger] path@[j] == '.' && path@[j + 1] == '.'),
        decreases n - i,
    {
        if path.get_char(i) == '.' && path.get_char(i + 1) == '.' {
            return false;
        }
        i += 1;
    }
    true
}

/// The character sequences of a list of owned segments.
pub open spec fn seg_views(segs: Seq<String>) -> Seq<Seq<char>> {
    segs.map_values(|x: String| x@)
}

/// Splits a path at every `/` into its segments, as `split_slash`
/// describes.
pub fn split_path(s: &str) -> (r: Vec<String>)
    ensures
        seg_views(r@) == split_slash(s@),
{
    let n = s.unicode_len();
    let mut segs: Vec<String> = Vec::new();
    let mut start: usize = 0;
    let mut i: usize = 0;
    proof {
        lemma_split_slash_len(s@);
        assert(s@.skip(0) =~= s@);
        let rest = split_slash(s@);
        assert(s@.subrange(0, 0) + rest[0] =~= rest[0]);
        assert(seg_views(segs@) + (seq![s@.subrange(0, 0) + rest[0]] + rest.drop_first())
            =~= seq![rest[0]] + rest.drop_first());
        assert(seq![rest[0]] + rest.drop_first() =~= rest);
    }
    while i < n
        invariant
            n == s@.len(),
            start <= i <= n,
            forall|j: int| start <= j < i ==> s@[j] != '/',
            split_slash(s@) == seg_views(segs@) + ({
                let rest = split_slash(s@.skip(i as int));
                seq![s@.subrange(start as int, i as int) + rest[0]] + rest.drop_first()
            }),
        decreases n - i,
    {
        proof {
            lemma_split_slash_len(s@.skip(i as int));
            lemma_split_slash_len(s@.skip(i as int + 1));
            assert(s@.skip(i as int).drop_first() =~= s@.skip(i as int + 1));
        }
        if s.get_char(i) == '/' {
            let seg = s.substring_char(start, i).to_owned();
            let ghost prev = seg_views(segs@);
            segs.push(seg);
            proof {
                let rest = split_slash(s@.skip(i as int));
                let rest2 = split_slash(s@.skip(i as int + 1));
                assert(rest == seq![Seq::<char>::empty()] + rest2);
                assert(s@.subrange(start as int, i as int) + rest[0]
                    =~= s@.subrange(start as int, i as int));
                assert(seq![rest2[0]] + rest2.drop_first() =~= rest2);
                assert(s@.subrange(i as int + 1, i as int + 1) + rest2[0] =~= rest2[0]);
                assert(seg_views(segs@) =~= prev.push(s@.subrange(start as int, i as int)));
                assert(seg_views(segs@) + (seq![s@.subrange(i as int + 1, i as int + 1)
                    + rest2[0]] + rest2.drop_first())
                    =~= prev + (seq![s@.subrange(start as int, i as int) + rest[0]]
                        + rest.drop_first()));
            }
            start = i + 1;
        } else {
            proof {
                let rest = split_slash(s@.skip(i as int));
                let rest2 = split_slash(s@.skip(i as int + 1));
                assert(rest == seq![seq![s@[i as int]] + rest2[0]] + rest2.drop_first());
                assert(s@.subrange(start as int, i as int) + (seq![s@[i as int]] + rest2[0])
                    =~= s@.subrange(start as int, i as int + 1) + rest2[0]);
            }
        }
        i += 1;
    }
    let seg = s.substring_char(start, n).to_owned();
    let ghost prev = seg_views(segs@);
    segs.push(seg);
    proof {
        assert(s@.skip(n as int) =~= Seq::<char>::empty());
        let rest = split_slash(s@.skip(n as int));
        assert(rest == seq![Seq::<char>::empty()]);
        assert(s@.subrange(start as int, n as int) + rest[0]
            =~= s@.subrange(start as int, n as int));
        assert(seg_views(segs@) =~= prev.push(s@.subrange(start as int, n as int)));
        assert(seg_views(segs@) =~= split_slash(s@));
    }
    segs
}

/// The path of a direct message:
/// `messages/{sender}/{recipient}/{thread}/{msg}`.
pub fn generate_direct_message_path(
    sender_id: &str,
    recipient_id: &str,
    thread_id: &str,
    msg_id: &str,
) -> (r: String)
    ensures
        r@ == joined(seq!["messages"@, sender_id@, recipient_id@, thread_id@, msg_id@]),
{
    let parts = ["messages", sender_id, recipient_id, thread_id, msg_id];
    let r = build_path(parts.as_slice());
    proof {
        assert(parts@.map_values(|p: &str| p@) =~= seq![
            "messages"@,
            sender_id@,
            recipient_id@,
            thread_id@,
            msg_id@,
        ]);
    }
    r
}

/// The path of a group message: `groups/{group}/messages/{msg}`.
pub fn generate_group_message_path(group_id: &str, msg_id: &str) -> (r: String)
    ensures
        r@ == joined(seq!["groups"@, group_id@, "messages"@, msg_id@]),
{
    let parts = ["groups", group_id, "messages", msg_id];
    let r = build_path(parts.as_slice());
    proof {
        assert(parts@.map_values(|p: &str| p@) =~= seq![
            "groups"@,
            group_id@,
            "messages"@,
            msg_id@,
        ]);
    }
    r
}

/// The path of a profile field: `profiles/{user}/{public|private}/{field}`.
pub fn generate_profile_path(user_id: &str, field_type: &str, is_public: bool) -> (r: String)
    ensures
        is_public ==> r@ == joined(seq!["profiles"@, user_id@, "public"@, field_type@]),
        !is_public ==> r@ == joined(seq!["profiles"@, user_id@, "private"@, field_type@]),
{
    if is_public {
        let parts = ["profiles", user_id, "public", field_type];
        let r = build_path(parts.as_slice());
        proof {
            assert(parts@.map_values(|p: &str| p@) =~= seq![
                "profiles"@,
                user_id@,
                "public"@,
                field_type@,
            ]);
        }
        r
    } else {
        let parts = ["profiles", user_id, "private", field_type];
        let r = build_path(parts.as_slice());
        proof {
            assert(parts@.map_values(|p: &str| p@) =~= seq![
                "profiles"@,
                user_id@,
                "private"@,
                field_type@,
            ]);
        }
        r
    }
}

/// The path of a device key: `devices/{user}/{device}/keys/{keytype}`.
pub fn generate_device_key_path(user_id: &str, device_id: &str, key_type: &str) -> (r: String)
    ensures
        r@ == joined(seq!["devices"@, user_id@, device_id@, "keys"@, key_type@]),
{
    let parts = ["devices", user_id, device_id, "keys", key_type];
    let r = build_path(parts.as_slice());
    proof {
        assert(parts@.map_values(|p: &str| p@) =~= seq![
            "devices"@,
            user_id@,
            device_id@,
            "keys"@,
            key_type@,
        ]);
    }
    r
}

} // verus!

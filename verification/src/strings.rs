//! Small string utilities: repeating, masking, and recognizing keys that
//! likely name secrets (so that diagnostic output can mask their values).

use vstd::prelude::*;
use vstd::string::*;

verus! {

/// `s` concatenated with itself `n` times.
pub open spec fn spec_repeat(s: Seq<char>, n: nat) -> Seq<char>
    decreases n,
{
    if n == 0 {
        Seq::empty()
    } else {
        spec_repeat(s, (n - 1) as nat) + s
    }
}

/// Repeats a string an arbitrary number of times.
pub fn repeat_string(repetitions: usize, value: &str) -> (repeated: String)
    ensures
        repeated@ == spec_repeat(value@, repetitions as nat),
{
    let mut buffer = String::new();
    let mut i: usize = 0;
    while i < repetitions
        invariant
            i <= repetitions,
            buffer@ == spec_repeat(value@, i as nat),
        decreases repetitions - i,
    {
        buffer.append(value);
        i = i + 1;
    }
    buffer
}

/// Repeating a one-character string gives that character at every index.
proof fn lemma_repeat_single_char(s: Seq<char>, n: nat)
    requires
        s.len() == 1,
    ensures
        spec_repeat(s, n).len() == n,
        forall|i: int| 0 <= i < n ==> spec_repeat(s, n)[i] == s[0],
    decreases n,
{
    if n > 0 {
        lemma_repeat_single_char(s, (n - 1) as nat);
    }
}

/// Masks a secret: one asterisk per character of the value.
pub fn mask_string(value: &str) -> (masked: String)
    ensures
        masked@.len() == value@.len(),
        forall|i: int| 0 <= i < masked@.len() ==> masked@[i] == '*',
{
    let size: usize = value.unicode_len();
    let masked = repeat_string(size, "*");
    proof {
        reveal_strlit("*");
        lemma_repeat_single_char("*"@, size as nat);
    }
    masked
}

/// Whether `needle` occurs as a contiguous run of characters in `hay`.
pub open spec fn spec_contains_seq(hay: Seq<char>, needle: Seq<char>) -> bool {
    exists|i: int|
        0 <= i && i + needle.len() <= hay.len()
            && #[trigger] hay.subrange(i, i + needle.len()) == needle
}

/// Substring search by character comparison.
pub fn str_contains(hay: &str, needle: &str) -> (found: bool)
    ensures
        found == spec_contains_seq(hay@, needle@),
{
    let hay_len: usize = hay.unicode_len();
    let needle_len: usize = needle.unicode_len();
    if needle_len == 0 {
        proof {
            assert(hay@.subrange(0, 0 + needle@.len() as int) =~= needle@);
        }
        return true;
    }
    if needle_len > hay_len {
        return false;
    }
    let mut i: usize = 0;
    while i <= hay_len - needle_len
        invariant
            0 < needle_len <= hay_len,
            hay_len == hay@.len(),
            needle_len == needle@.len(),
            i <= hay_len - needle_len + 1,
            forall|k: int|
                0 <= k < i ==> #[trigger] hay@.subrange(k, k + needle@.len()) != needle@,
        decreases hay_len - needle_len + 1 - i,
    {
        let mut j: usize = 0;
        let mut matched = true;
        while j < needle_len
            invariant
                j <= needle_len,
                i + needle_len <= hay_len,
                hay_len == hay@.len(),
                needle_len == needle@.len(),
                matched == (forall|k: int| 0 <= k < j ==> hay@[i + k] == needle@[k]),
            decreases needle_len - j,
        {
            if hay.get_char(i + j) != needle.get_char(j) {
                matched = false;
            }
            j = j + 1;
        }
        if matched {
            proof {
                assert(hay@.subrange(i as int, i + needle@.len()) =~= needle@);
            }
            return true;
        }
        proof {
            let k0 = choose|k: int| 0 <= k < needle@.len() && hay@[i + k] != needle@[k];
            assert(hay@.subrange(i as int, i + needle@.len())[k0] == hay@[i + k0]);
        }
        i = i + 1;
    }
    false
}

/// The lowercase markers whose presence in a (lowercased) key suggests
/// that the key names a secret.
pub open spec fn spec_secret_markers() -> Seq<Seq<char>> {
    seq![
        "password"@,
        "secret"@,
        "token"@,
        "ssh"@,
        "webhook"@,
        "signing"@,
        "api_key"@,
        "release_key"@,
        "release_store"@,
        "account"@,
    ]
}

/// Whether any secret marker occurs in the given characters.
pub open spec fn spec_has_secret_marker(s: Seq<char>) -> bool {
    exists|m: Seq<char>| spec_secret_markers().contains(m) && spec_contains_seq(s, m)
}

/// Checks an already-lowercased key against every secret marker.
pub fn contains_secret_marker(key: &str) -> (found: bool)
    ensures
        found == spec_has_secret_marker(key@),
{
    let c0 = str_contains(key, "password");
    let c1 = str_contains(key, "secret");
    let c2 = str_contains(key, "token");
    let c3 = str_contains(key, "ssh");
    let c4 = str_contains(key, "webhook");
    let c5 = str_contains(key, "signing");
    let c6 = str_contains(key, "api_key");
    let c7 = str_contains(key, "release_key");
    let c8 = str_contains(key, "release_store");
    let c9 = str_contains(key, "account");
    let found = c0 || c1 || c2 || c3 || c4 || c5 || c6 || c7 || c8 || c9;
    proof {
        let markers = spec_secret_markers();
        assert(markers[0] == "password"@);
        assert(markers[1] == "secret"@);
        assert(markers[2] == "token"@);
        assert(markers[3] == "ssh"@);
        assert(markers[4] == "webhook"@);
        assert(markers[5] == "signing"@);
        assert(markers[6] == "api_key"@);
        assert(markers[7] == "release_key"@);
        assert(markers[8] == "release_store"@);
        assert(markers[9] == "account"@);
        if !found {
            assert forall|m: Seq<char>|
                spec_secret_markers().contains(m) implies !spec_contains_seq(key@, m) by {
                let idx = choose|idx: int|
                    0 <= idx < spec_secret_markers().len() && spec_secret_markers()[idx] == m;
            }
        }
    }
    found
}

/// What `str::to_lowercase` returns for the given characters.
pub uninterp spec fn lower_of(s: Seq<char>) -> Seq<char>;

/// Relies on str::to_lowercase: the result depends on the characters
/// alone (Unicode lowercase mapping, without tailoring).
#[verifier::external_body]
fn lowercase(s: &str) -> (lowered: String)
    ensures
        lowered@ == lower_of(s@),
{
    s.to_lowercase()
}

/// Determines if a string (an environment variable name, a configuration
/// key) likely names a secret: its lowercase form contains one of the
/// secret markers.
pub fn is_likely_secret(key: &str) -> (secret: bool)
    ensures
        secret == spec_has_secret_marker(lower_of(key@)),
{
    let lowered = lowercase(key);
    contains_secret_marker(lowered.as_str())
}

} // verus!

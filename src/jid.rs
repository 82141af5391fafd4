//! Phone-JID normalization: a chat identifier `<digits>@<domain>` of country
//! code 55 gets the mobile `9` after its area code when it lacks one.
use vstd::prelude::*;

verus! {

/// `k` is the position of the first `@` of `s`.
pub open spec fn is_first_at(s: Seq<char>, k: int) -> bool {
    &&& 0 <= k < s.len()
    &&& s[k] == '@'
    &&& forall|i: int| 0 <= i < k ==> s[i] != '@'
}

pub open spec fn has_at(s: Seq<char>) -> bool {
    exists|k: int| is_first_at(s, k)
}

pub open spec fn first_at(s: Seq<char>) -> int {
    choose|k: int| is_first_at(s, k)
}

pub open spec fn is_digit(c: char) -> bool {
    '0' <= c && c <= '9'
}

/// The first `k` characters of `s` are ASCII digits.
pub open spec fn all_digits(s: Seq<char>, k: int) -> bool {
    forall|i: int| 0 <= i < k ==> is_digit(#[trigger] s[i])
}

/// The number before the `@` at `k` is made of digits only, starts with
/// country code 55, has at least twelve digits, and its remainder after the
/// two-digit area code does not start with `9`.
pub open spec fn lacks_mobile_nine(s: Seq<char>, k: int) -> bool {
    &&& all_digits(s, k)
    &&& k >= 12
    &&& s[0] == '5'
    &&& s[1] == '5'
    &&& s[4] != '9'
}

/// The normalized JID: country code and area code (four characters), then
/// `9`, then the rest of the number, `@` and the domain, unchanged. Any other
/// identifier (one whose part before the `@` is not all digits included) is
/// returned as it is.
pub open spec fn normalized_jid(s: Seq<char>) -> Seq<char> {
    if has_at(s) && lacks_mobile_nine(s, first_at(s)) {
        s.subrange(0, 4) + seq!['9'] + s.subrange(4, s.len() as int)
    } else {
        s
    }
}

proof fn lemma_first_at_unique(s: Seq<char>, a: int, b: int)
    requires
        is_first_at(s, a),
        is_first_at(s, b),
    ensures
        a == b,
{
    if a < b {
        assert(s[a] != '@');
    } else if b < a {
        assert(s[b] != '@');
    }
}

proof fn lemma_first_at_is(s: Seq<char>, k: int)
    requires
        is_first_at(s, k),
    ensures
        has_at(s),
        first_at(s) == k,
{
    assert(has_at(s));
    lemma_first_at_unique(s, k, first_at(s));
}

/// Normalizing a JID twice gives what normalizing it once gives.
pub proof fn lemma_normalize_idempotent(s: Seq<char>)
    ensures
        normalized_jid(normalized_jid(s)) == normalized_jid(s),
{
    if has_at(s) && lacks_mobile_nine(s, first_at(s)) {
        let k = first_at(s);
        let t = normalized_jid(s);
        assert(is_first_at(t, k + 1)) by {
            assert forall|i: int| 0 <= i < k + 1 implies t[i] != '@' by {
                if i < 4 {
                    assert(t[i] == s[i]);
                } else if i > 4 {
                    assert(t[i] == s[i - 1]);
                }
            }
            assert(t[k + 1] == s[k]);
        }
        lemma_first_at_is(t, k + 1);
        assert(t[4] == '9');
    }
}

/// The part of a JID before its first `@`; the whole identifier when it has none.
pub open spec fn local_part(s: Seq<char>) -> Seq<char> {
    if has_at(s) {
        s.subrange(0, first_at(s))
    } else {
        s
    }
}

/// Finds the first `@` of a JID.
pub fn find_at(s: &str) -> (r: Option<usize>)
    ensures
        r is Some <==> has_at(s@),
        r is Some ==> is_first_at(s@, r->0 as int) && first_at(s@) == r->0,
{
    let n = s.unicode_len();
    let mut k: usize = 0;
    while k < n
        invariant
            k <= n,
            n == s@.len(),
            forall|i: int| 0 <= i < k ==> s@[i] != '@',
        ensures
            k <= n,
            forall|i: int| 0 <= i < k ==> s@[i] != '@',
            k < n ==> s@[k as int] == '@',
        decreases n - k,
    {
        if s.get_char(k) == '@' {
            break;
        }
        k += 1;
    }
    if k < n {
        proof {
            lemma_first_at_is(s@, k as int);
        }
        Some(k)
    } else {
        assert(!has_at(s@));
        None
    }
}

/// The part of a JID before its first `@` (the phone number of a chat).
pub fn local_part_of(jid: &str) -> (r: String)
    ensures
        r@ == local_part(jid@),
{
    match find_at(jid) {
        Some(k) => String::from_str(jid.substring_char(0, k)),
        None => String::from_str(jid),
    }
}

/// Whether the first `k` characters of `s` are ASCII digits.
fn digits_up_to(s: &str, k: usize) -> (r: bool)
    requires
        k <= s@.len(),
    ensures
        r == all_digits(s@, k as int),
{
    let mut i: usize = 0;
    while i < k
        invariant
            i <= k,
            k <= s@.len(),
            all_digits(s@, i as int),
        decreases k - i,
    {
        let c = s.get_char(i);
        if !('0' <= c && c <= '9') {
            return false;
        }
        i += 1;
    }
    true
}

/// Normalizes a chat identifier so that the legacy eight-digit and the
/// nine-digit form of one mobile number give one identity.
pub fn normalize_chat_id(jid: &str) -> (r: String)
    ensures
        r@ == normalized_jid(jid@),
{
    if let Some(k) = find_at(jid) {
        if k >= 12 && digits_up_to(jid, k) && jid.get_char(0) == '5' && jid.get_char(1) == '5' && jid.get_char(4) != '9' {
            let n = jid.unicode_len();
            let mut r = String::from_str(jid.substring_char(0, 4));
            r.append("9");
            r.append(jid.substring_char(4, n));
            proof {
                reveal_strlit("9");
            }
            assert(r@ =~= normalized_jid(jid@));
            return r;
        }
    }
    String::from_str(jid)
}

} // verus!

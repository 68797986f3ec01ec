use vstd::prelude::*;
use rand::Rng;

verus! {

/// Characters that may appear in a random salt: ASCII lowercase letters and digits.
pub open spec fn is_lower_or_digit(c: char) -> bool {
    ('a' <= c && c <= 'z') || ('0' <= c && c <= '9')
}

/// `s` with every non-overlapping occurrence of `p` removed, scanning left to right.
pub open spec fn spec_remove_all(s: Seq<char>, p: Seq<char>) -> Seq<char>
    decreases s.len(),
{
    if p.len() == 0 || s.len() == 0 {
        s
    } else if p.len() <= s.len() && s.subrange(0, p.len() as int) == p {
        spec_remove_all(s.subrange(p.len() as int, s.len() as int), p)
    } else {
        seq![s[0]] + spec_remove_all(s.subrange(1, s.len() as int), p)
    }
}

/// What `str::to_lowercase` returns for a string (Unicode lower-case mapping).
pub uninterp spec fn spec_to_lowercase(s: Seq<char>) -> Seq<char>;

/// No ASCII upper-case letter in `s`.
pub open spec fn no_ascii_upper(s: Seq<char>) -> bool {
    forall|i: int| 0 <= i < s.len() ==> !('A' <= #[trigger] s[i] <= 'Z')
}

/// Calls `str::to_lowercase`. Claimed: the result is the lower-case mapping of the argument,
/// a function of the argument alone, and it holds no ASCII upper-case letter (each ASCII
/// upper-case letter maps to its lower-case one, and no character's lower-case mapping is an
/// upper-case letter).
#[verifier::external_body]
pub(crate) fn to_lowercase(s: &str) -> (r: String)
    ensures
        r@ == spec_to_lowercase(s@),
        no_ascii_upper(r@),
{
    s.to_lowercase()
}

/// Calls `rand::thread_rng().gen_range(0..n)`. Claimed: the result lies in `0..n`; which value
/// comes out is left to the random generator. The call panics on an empty range, hence `n > 0`.
#[verifier::external_body]
pub(crate) fn random_index(n: usize) -> (r: usize)
    requires
        n > 0,
    ensures
        r < n,
{
    rand::thread_rng().gen_range(0..n)
}

/// Whether two string slices hold the same characters.
pub fn str_eq(a: &str, b: &str) -> (r: bool)
    ensures
        r == (a@ == b@),
{
    let x = a.to_owned();
    let y = b.to_owned();
    x == y
}

/// A fresh string holding the characters of `s`.
pub fn owned(s: &str) -> (r: String)
    ensures
        r@ == s@,
{
    s.to_owned()
}

/// `a` followed by `b`.
pub fn concat(a: &str, b: &str) -> (r: String)
    ensures
        r@ == a@ + b@,
{
    let mut r = a.to_owned();
    r.append(b);
    r
}

proof fn lemma_subrange_prefix(s: Seq<char>, i: int, k: int)
    requires
        0 <= i,
        0 <= k,
        i + k <= s.len(),
    ensures
        s.subrange(i, s.len() as int).subrange(0, k) == s.subrange(i, i + k),
        s.subrange(i, s.len() as int).subrange(k, s.len() - i) == s.subrange(i + k, s.len() as int),
{
    assert(s.subrange(i, s.len() as int).subrange(0, k) =~= s.subrange(i, i + k));
    assert(s.subrange(i, s.len() as int).subrange(k, s.len() - i) =~= s.subrange(i + k, s.len() as int));
}

/// Removing occurrences keeps a text free of ASCII upper-case letters: every character of the
/// result is a character of `s`.
pub proof fn lemma_remove_all_no_upper(s: Seq<char>, p: Seq<char>)
    requires
        no_ascii_upper(s),
    ensures
        no_ascii_upper(spec_remove_all(s, p)),
    decreases s.len(),
{
    if p.len() == 0 || s.len() == 0 {
    } else if p.len() <= s.len() && s.subrange(0, p.len() as int) == p {
        let t = s.subrange(p.len() as int, s.len() as int);
        assert forall|i: int| 0 <= i < t.len() implies !('A' <= #[trigger] t[i] <= 'Z') by {
            assert(t[i] == s[i + p.len()]);
        }
        lemma_remove_all_no_upper(t, p);
    } else {
        let t = s.subrange(1, s.len() as int);
        assert forall|i: int| 0 <= i < t.len() implies !('A' <= #[trigger] t[i] <= 'Z') by {
            assert(t[i] == s[i + 1]);
        }
        lemma_remove_all_no_upper(t, p);
        let r = seq![s[0]] + spec_remove_all(t, p);
        assert forall|i: int| 0 <= i < r.len() implies !('A' <= #[trigger] r[i] <= 'Z') by {
            if i > 0 {
                assert(r[i] == spec_remove_all(t, p)[i - 1]);
            } else {
                assert(r[0] == s[0]);
            }
        }
    }
}

/// `s` with every occurrence of `p` removed (what `str::replace(p, "")` returns).
pub fn remove_all(s: &str, p: &str) -> (r: String)
    ensures
        r@ == spec_remove_all(s@, p@),
{
    let n = s.unicode_len();
    let m = p.unicode_len();
    let mut r = String::new();
    if m == 0 {
        r.append(s);
        return r;
    }
    let mut i: usize = 0;
    proof {
        assert(s@.subrange(0, s@.len() as int) =~= s@);
    }
    while i < n
        invariant
            n == s@.len(),
            m == p@.len(),
            m > 0,
            i <= n,
            spec_remove_all(s@, p@) == r@ + spec_remove_all(s@.subrange(i as int, n as int), p@),
        decreases n - i,
    {
        let ghost rest = s@.subrange(i as int, n as int);
        if m <= n - i {
            let piece = s.substring_char(i, i + m);
            if str_eq(piece, p) {
                proof {
                    lemma_subrange_prefix(s@, i as int, m as int);
                }
                i = i + m;
                continue;
            }
            proof {
                lemma_subrange_prefix(s@, i as int, m as int);
            }
        }
        let c = s.substring_char(i, i + 1);
        proof {
            lemma_subrange_prefix(s@, i as int, 1);
            assert(rest[0] == s@[i as int]);
            assert(c@ =~= seq![rest[0]]);
        }
        let ghost before = r@;
        r.append(c);
        proof {
            assert(r@ + spec_remove_all(s@.subrange(i + 1, n as int), p@) =~= before + (seq![rest[0]] + spec_remove_all(rest.subrange(1, rest.len() as int), p@)));
        }
        i = i + 1;
    }
    proof {
        assert(s@.subrange(n as int, n as int) =~= Seq::<char>::empty());
        assert(r@ + Seq::<char>::empty() =~= r@);
    }
    r
}

/// Draws one character uniformly among the ASCII lowercase letters and digits.
fn random_lower_or_digit() -> (c: String)
    ensures
        c@.len() == 1,
        is_lower_or_digit(c@[0]),
{
    let charset = "abcdefghijklmnopqrstuvwxyz0123456789";
    proof {
        reveal_strlit("abcdefghijklmnopqrstuvwxyz0123456789");
    }
    let i = random_index(36);
    let c = charset.substring_char(i, i + 1);
    owned(c)
}

/// A random six character salt made of ASCII lowercase letters and digits, each drawn uniformly
/// among those 36 characters.
pub fn get_random_salt() -> (s: String)
    ensures
        s@.len() == 6,
        forall|i: int| 0 <= i < 6 ==> is_lower_or_digit(#[trigger] s@[i]),
{
    let mut s = String::new();
    let mut k: usize = 0;
    while k < 6
        invariant
            k <= 6,
            s@.len() == k,
            forall|i: int| 0 <= i < k ==> is_lower_or_digit(#[trigger] s@[i]),
        decreases 6 - k,
    {
        let c = random_lower_or_digit();
        let ghost before = s@;
        s.append(c.as_str());
        proof {
            assert forall|i: int| 0 <= i < k + 1 implies is_lower_or_digit(#[trigger] s@[i]) by {
                if i < k {
                    assert(s@[i] == before[i]);
                } else {
                    assert(s@[i] == c@[0]);
                }
            }
        }
        k = k + 1;
    }
    s
}

/// One word of `list`, picked uniformly at random.
pub fn get_random_word(list: &Vec<String>) -> (w: String)
    requires
        list.len() > 0,
    ensures
        exists|i: int| 0 <= i < list.len() && w@ == (#[trigger] list[i])@,
{
    let idx = random_index(list.len());
    list[idx].clone()
}

/// `name` is `prefix` followed by six ASCII lowercase letters or digits.
pub open spec fn is_salted(name: Seq<char>, prefix: Seq<char>) -> bool {
    &&& name.len() == prefix.len() + 6
    &&& name.subrange(0, prefix.len() as int) == prefix
    &&& forall|k: int| prefix.len() <= k < name.len() ==> is_lower_or_digit(#[trigger] name[k])
}

/// The shape of a random project name: `adjective-noun-salt`.
pub open spec fn is_random_name(
    name: Seq<char>,
    adjectives: Seq<String>,
    nouns: Seq<String>,
) -> bool {
    exists|i: int, j: int|
        0 <= i < adjectives.len() && 0 <= j < nouns.len() && is_salted(
            name,
            (#[trigger] adjectives[i])@ + "-"@ + (#[trigger] nouns[j])@ + "-"@,
        )
}

/// A random project name `adjective-noun-salt`, with the adjective and the noun drawn from the
/// given word lists and the salt from `get_random_salt`.
pub fn get_random_name(adjectives: &Vec<String>, nouns: &Vec<String>) -> (name: String)
    requires
        adjectives.len() > 0,
        nouns.len() > 0,
    ensures
        is_random_name(name@, adjectives@, nouns@),
{
    let salt = get_random_salt();
    let adjective = get_random_word(adjectives);
    let noun = get_random_word(nouns);
    let mut name = adjective.clone();
    name.append("-");
    name.append(noun.as_str());
    name.append("-");
    name.append(salt.as_str());
    proof {
        let i = choose|i: int| 0 <= i < adjectives.len() && adjective@ == (#[trigger] adjectives@[i])@;
        let j = choose|j: int| 0 <= j < nouns.len() && noun@ == (#[trigger] nouns@[j])@;
        let prefix = adjectives@[i]@ + "-"@ + nouns@[j]@ + "-"@;
        assert(name@ =~= prefix + salt@);
        assert(name@.subrange(0, prefix.len() as int) =~= prefix);
        assert forall|k: int| prefix.len() <= k < name@.len() implies is_lower_or_digit(#[trigger] name@[k]) by {
            assert(name@[k] == salt@[k - prefix.len()]);
        }
        assert(is_salted(name@, prefix));
    }
    name
}

/// The Kubernetes namespace that holds the resources of the project with namespace `namespace`.
pub fn cluster_namespace(namespace: &str) -> (r: String)
    ensures
        r@ == "prj-"@ + namespace@,
{
    concat("prj-", namespace)
}

} // verus!

verus! {

/// A lower-case hexadecimal digit.
pub open spec fn is_lower_hex(c: char) -> bool {
    ('0' <= c && c <= '9') || ('a' <= c && c <= 'f')
}

/// The text form of a random (version 4) UUID: 8-4-4-4-12 lower-case hexadecimal digits
/// separated by hyphens, with version digit `4` and an RFC 4122 variant digit (`8`, `9`, `a` or
/// `b`).
pub open spec fn is_uuid_v4_text(s: Seq<char>) -> bool {
    &&& s.len() == 36
    &&& forall|i: int|
        0 <= i < 36 ==> if i == 8 || i == 13 || i == 18 || i == 23 {
            #[trigger] s[i] == '-'
        } else {
            is_lower_hex(s[i])
        }
    &&& s[14] == '4'
    &&& (s[19] == '8' || s[19] == '9' || s[19] == 'a' || s[19] == 'b')
}

/// Calls `uuid::Uuid::new_v4().to_string()`. Claimed: the text form of a version 4 UUID
/// (`new_v4` sets the version nibble to 4 and the variant bits to `10`; `Display` writes the
/// lower-case hyphenated form); the other digits are random.
#[verifier::external_body]
fn uuid_v4() -> (s: String)
    ensures
        is_uuid_v4_text(s@),
{
    uuid::Uuid::new_v4().to_string()
}

/// Calls `chrono::Utc::now()` and reads its `timestamp()` and `timestamp_subsec_nanos()`: the
/// whole seconds since the Unix epoch and the nanoseconds past them. Claimed: no negative
/// seconds (`Utc::now` panics on a clock before the epoch) and fewer than a second of
/// nanoseconds (`Utc::now` builds the time from `SystemTime`, whose `subsec_nanos` is below
/// 10^9); which instant is the clock's.
#[verifier::external_body]
fn utc_now_parts() -> (t: (i64, u32))
    ensures
        t.0 >= 0,
        t.1 < 1_000_000_000,
{
    let now = chrono::Utc::now();
    (now.timestamp(), now.timestamp_subsec_nanos())
}

/// A fresh random identifier: a hyphenated UUID v4.
pub fn new_id() -> (s: String)
    ensures
        is_uuid_v4_text(s@),
{
    uuid_v4()
}

/// The current time, in nanoseconds since the Unix epoch: the clock's whole seconds and the
/// nanoseconds past them.
pub fn now() -> (t: i128)
    ensures
        t >= 0,
{
    let (secs, nanos) = utc_now_parts();
    secs as i128 * 1_000_000_000 + nanos as i128
}

} // verus!

//! Keys of the cache store.
//!
//! Every cached value lives under the key `"{type_key}:{key}"`, where the type
//! key names the kind of value and the key identifies the value among its kind.
use vstd::prelude::*;

verus! {

/// The decimal digit character for `d` (`0 <= d < 10`).
pub open spec fn digit_char(d: nat) -> char {
    if d == 0 {
        '0'
    } else if d == 1 {
        '1'
    } else if d == 2 {
        '2'
    } else if d == 3 {
        '3'
    } else if d == 4 {
        '4'
    } else if d == 5 {
        '5'
    } else if d == 6 {
        '6'
    } else if d == 7 {
        '7'
    } else if d == 8 {
        '8'
    } else {
        '9'
    }
}

/// Whether `c` is one of the ten decimal digit characters.
pub open spec fn is_digit(c: char) -> bool {
    '0' <= c && c <= '9'
}

/// The decimal representation of `n`, without sign or leading zeros.
pub open spec fn decimal(n: nat) -> Seq<char>
    decreases n,
{
    if n < 10 {
        seq![digit_char(n)]
    } else {
        decimal(n / 10).push(digit_char(n % 10))
    }
}

/// The cache key of a value whose kind is `type_key` and whose key reads `key`.
pub open spec fn cache_key(type_key: Seq<char>, key: Seq<char>) -> Seq<char> {
    type_key + seq![':'] + key
}

proof fn lemma_digit_char(d: nat)
    requires
        d < 10,
    ensures
        is_digit(digit_char(d)),
        forall|e: nat| e < 10 && digit_char(e) == digit_char(d) ==> e == d,
{
}

/// A decimal representation is never empty and holds digits only.
pub proof fn lemma_decimal_digits(n: nat)
    ensures
        decimal(n).len() >= 1,
        n >= 10 ==> decimal(n).len() >= 2,
        forall|i: int| 0 <= i < decimal(n).len() ==> is_digit(#[trigger] decimal(n)[i]),
    decreases n,
{
    lemma_digit_char(n % 10);
    if n >= 10 {
        lemma_decimal_digits(n / 10);
        assert forall|i: int| 0 <= i < decimal(n).len() implies is_digit(#[trigger] decimal(n)[i]) by {
            if i < decimal(n / 10).len() {
                assert(decimal(n)[i] == decimal(n / 10)[i]);
            }
        }
    } else {
        lemma_digit_char(n);
    }
}

/// Distinct numbers have distinct decimal representations.
pub proof fn lemma_decimal_injective(a: nat, b: nat)
    requires
        decimal(a) == decimal(b),
    ensures
        a == b,
    decreases a,
{
    lemma_decimal_digits(a);
    lemma_decimal_digits(b);
    lemma_digit_char(a % 10);
    lemma_digit_char(b % 10);
    if a < 10 && b < 10 {
        assert(decimal(a)[0] == digit_char(a));
        assert(decimal(b)[0] == digit_char(b));
        assert(digit_char(a) == digit_char(b));
    } else if a >= 10 && b >= 10 {
        let da = decimal(a);
        let db = decimal(b);
        assert(da.last() == digit_char(a % 10));
        assert(db.last() == digit_char(b % 10));
        assert(a % 10 == b % 10);
        assert(da.drop_last() =~= decimal(a / 10));
        assert(db.drop_last() =~= decimal(b / 10));
        lemma_decimal_injective(a / 10, b / 10);
        assert(a == 10 * (a / 10) + a % 10);
        assert(b == 10 * (b / 10) + b % 10);
    } else {
        assert(decimal(a).len() != decimal(b).len());
    }
}

/// The character of a single decimal digit, as a string literal.
fn digit_str(d: u32) -> (s: &'static str)
    requires
        d < 10,
    ensures
        s@ == seq![digit_char(d as nat)],
{
    if d == 0 {
        proof { reveal_strlit("0"); }
        "0"
    } else if d == 1 {
        proof { reveal_strlit("1"); }
        "1"
    } else if d == 2 {
        proof { reveal_strlit("2"); }
        "2"
    } else if d == 3 {
        proof { reveal_strlit("3"); }
        "3"
    } else if d == 4 {
        proof { reveal_strlit("4"); }
        "4"
    } else if d == 5 {
        proof { reveal_strlit("5"); }
        "5"
    } else if d == 6 {
        proof { reveal_strlit("6"); }
        "6"
    } else if d == 7 {
        proof { reveal_strlit("7"); }
        "7"
    } else if d == 8 {
        proof { reveal_strlit("8"); }
        "8"
    } else {
        proof { reveal_strlit("9"); }
        "9"
    }
}

/// Formats `n` in decimal, as `n.to_string()` does.
pub fn u32_to_decimal(n: u32) -> (s: String)
    ensures
        s@ == decimal(n as nat),
{
    let mut m: u32 = n;
    let mut acc = String::new();
    loop
        invariant_except_break
            m > 0 || n == 0,
            m <= n,
            decimal(n as nat) == decimal(m as nat) + acc@,
        ensures
            acc@ == decimal(n as nat),
        decreases m,
    {
        let d = m % 10;
        let mut next = String::from_str(digit_str(d));
        next.append(acc.as_str());
        proof {
            assert(decimal(m as nat) + acc@ =~= decimal((m / 10) as nat) + next@ || m < 10);
            if m < 10 {
                assert(decimal(m as nat) + acc@ =~= next@);
            }
        }
        acc = next;
        m = m / 10;
        if m == 0 {
            break;
        }
    }
    acc
}

/// Joins a type key and a key into the cache key `"{type_key}:{key}"`.
pub fn compose_cache_key(type_key: &str, key: &str) -> (s: String)
    ensures
        s@ == cache_key(type_key@, key@),
{
    let mut s = String::from_str(type_key);
    proof { reveal_strlit(":"); }
    s.append(":");
    s.append(key);
    s
}

/// A value that identifies a cached value among the values of its kind.
pub trait CacheKey {
    /// The text of the key, as it appears in the cache key.
    spec fn key_text(&self) -> Seq<char>;

    /// Renders the key as text.
    fn to_key_string(&self) -> (s: String)
        ensures
            s@ == self.key_text(),
    ;
}

impl CacheKey for u32 {
    open spec fn key_text(&self) -> Seq<char> {
        decimal(*self as nat)
    }

    fn to_key_string(&self) -> (s: String) {
        u32_to_decimal(*self)
    }
}

impl CacheKey for String {
    open spec fn key_text(&self) -> Seq<char> {
        self@
    }

    fn to_key_string(&self) -> (s: String) {
        self.clone()
    }
}

/// A value kept in the cache store.
///
/// `type_key` names the kind of the value and must be the same for all values
/// of one type; `key` identifies one value among the values of its kind.
pub trait Cacheable: Sized {
    type KeyType: CacheKey;

    /// The type key, as text.
    spec fn spec_type_key() -> Seq<char>;

    /// The key of this value.
    spec fn spec_key(&self) -> Self::KeyType;

    /// Returns a unique string for this type with which all entries in the store are prefixed.
    fn type_key() -> (r: &'static str)
        ensures
            r@ == Self::spec_type_key(),
    ;

    /// Returns a key that identifies the specific object among the entries in the store.
    fn key(&self) -> (r: Self::KeyType)
        ensures
            r.key_text() == self.spec_key().key_text(),
    ;

    /// Returns the key that the current object has in the store.
    fn full_key(&self) -> (r: String)
        ensures
            r@ == cache_key(Self::spec_type_key(), self.spec_key().key_text()),
    {
        let key = self.key();
        let text = key.to_key_string();
        compose_cache_key(Self::type_key(), text.as_str())
    }

    /// Returns the store key of an object with the given key.
    fn full_key_with(key: &Self::KeyType) -> (r: String)
        ensures
            r@ == cache_key(Self::spec_type_key(), key.key_text()),
    {
        let text = key.to_key_string();
        compose_cache_key(Self::type_key(), text.as_str())
    }
}

/// Whether `s` holds no `':'`, the separator of the cache key.
pub open spec fn has_no_separator(s: Seq<char>) -> bool {
    forall|i: int| 0 <= i < s.len() ==> s[i] != ':'
}

/// A value is stored under the key by which it is looked up: the full key of
/// `v` is the full key made from `v`'s key.
pub proof fn lemma_value_stored_under_lookup_key<V: Cacheable>(v: V, key: V::KeyType)
    requires
        key == v.spec_key(),
    ensures
        cache_key(V::spec_type_key(), v.spec_key().key_text()) == cache_key(
            V::spec_type_key(),
            key.key_text(),
        ),
{
}

/// Cache keys never collide across kinds or keys: when neither type key holds
/// the separator, equal cache keys have equal type keys and equal keys.
pub proof fn lemma_cache_key_injective(t1: Seq<char>, k1: Seq<char>, t2: Seq<char>, k2: Seq<char>)
    requires
        has_no_separator(t1),
        has_no_separator(t2),
        cache_key(t1, k1) == cache_key(t2, k2),
    ensures
        t1 == t2,
        k1 == k2,
{
    let s = cache_key(t1, k1);
    assert(s[t1.len() as int] == ':');
    assert(cache_key(t2, k2)[t2.len() as int] == ':');
    if t1.len() < t2.len() {
        assert(cache_key(t2, k2)[t1.len() as int] == t2[t1.len() as int]);
        assert(false);
    }
    if t2.len() < t1.len() {
        assert(s[t2.len() as int] == t1[t2.len() as int]);
        assert(false);
    }
    assert(t1 =~= s.subrange(0, t1.len() as int));
    assert(t2 =~= cache_key(t2, k2).subrange(0, t2.len() as int));
    assert(k1 =~= s.subrange(t1.len() as int + 1, s.len() as int));
    assert(k2 =~= cache_key(t2, k2).subrange(t2.len() as int + 1, s.len() as int));
}

/// Two values of one kind with distinct numeric keys are stored under distinct cache keys.
pub proof fn lemma_distinct_numeric_keys(type_key: Seq<char>, a: u32, b: u32)
    requires
        a != b,
    ensures
        cache_key(type_key, decimal(a as nat)) != cache_key(type_key, decimal(b as nat)),
{
    if cache_key(type_key, decimal(a as nat)) == cache_key(type_key, decimal(b as nat)) {
        let s = cache_key(type_key, decimal(a as nat));
        let n: int = type_key.len() as int + 1;
        assert(decimal(a as nat) =~= s.subrange(n, s.len() as int));
        assert(decimal(b as nat) =~= cache_key(type_key, decimal(b as nat)).subrange(n, s.len() as int));
        lemma_decimal_injective(a as nat, b as nat);
    }
}

} // verus!

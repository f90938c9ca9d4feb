use vstd::prelude::*;
use vstd::utf8::{encode_scalar, encode_utf8, char_is_scalar, has_width_1_encoding, has_width_2_encoding, has_width_3_encoding, has_width_4_encoding, is_scalar};

verus! {

/// The number of bytes of the UTF-8 encoding of `s`.
pub open spec fn utf8_len(s: Seq<char>) -> nat {
    encode_utf8(s).len()
}

/// Whether byte offset `b` of the UTF-8 encoding of `s` falls between two
/// characters (or at either end).
pub open spec fn is_boundary(s: Seq<char>, b: int) -> bool {
    exists|k: int| 0 <= k <= s.len() && utf8_len(s.take(k)) == b
}

/// The number of characters before byte offset `b`, which is a boundary.
pub open spec fn char_index(s: Seq<char>, b: int) -> int {
    choose|k: int| 0 <= k <= s.len() && utf8_len(s.take(k)) == b
}

/// The encoding of a concatenation is the concatenation of the encodings.
pub proof fn lemma_encode_concat(a: Seq<char>, b: Seq<char>)
    ensures
        encode_utf8(a + b) == encode_utf8(a) + encode_utf8(b),
    decreases a.len(),
{
    if a.len() == 0 {
        assert(a + b =~= b);
        assert(encode_utf8(a) =~= Seq::<u8>::empty());
        assert(encode_utf8(a) + encode_utf8(b) =~= encode_utf8(b));
    } else {
        lemma_encode_concat(a.drop_first(), b);
        assert((a + b).drop_first() =~= a.drop_first() + b);
        assert((a + b)[0] == a[0]);
        assert(encode_scalar(a[0] as u32) + (encode_utf8(a.drop_first()) + encode_utf8(b))
            =~= encode_scalar(a[0] as u32) + encode_utf8(a.drop_first()) + encode_utf8(b));
    }
}

/// Every character takes one to four bytes.
pub proof fn lemma_scalar_len(c: char)
    ensures
        1 <= encode_scalar(c as u32).len() <= 4,
        encode_utf8(seq![c]).len() == encode_scalar(c as u32).len(),
{
    broadcast use char_is_scalar;
    assert(is_scalar(c as u32));
    assert(seq![c].drop_first() =~= Seq::<char>::empty());
    assert(encode_utf8(Seq::<char>::empty()) =~= Seq::<u8>::empty());
    assert(encode_utf8(seq![c]) =~= encode_scalar(c as u32) + encode_utf8(Seq::<char>::empty()));
}

/// The byte length of a prefix grows with every character.
pub proof fn lemma_prefix_len_step(s: Seq<char>, k: int)
    requires
        0 <= k < s.len(),
    ensures
        utf8_len(s.take(k + 1)) == utf8_len(s.take(k)) + encode_scalar(s[k] as u32).len(),
{
    assert(s.take(k + 1) =~= s.take(k) + seq![s[k]]);
    lemma_encode_concat(s.take(k), seq![s[k]]);
    lemma_scalar_len(s[k]);
}

/// Longer prefixes have longer encodings.
pub proof fn lemma_prefix_len_strict(s: Seq<char>, k1: int, k2: int)
    requires
        0 <= k1 < k2 <= s.len(),
    ensures
        utf8_len(s.take(k1)) < utf8_len(s.take(k2)),
    decreases k2 - k1,
{
    lemma_prefix_len_step(s, k2 - 1);
    lemma_scalar_len(s[k2 - 1]);
    if k1 < k2 - 1 {
        lemma_prefix_len_strict(s, k1, k2 - 1);
    }
}

/// A boundary belongs to exactly one prefix.
pub proof fn lemma_char_index_unique(s: Seq<char>, k: int)
    requires
        0 <= k <= s.len(),
    ensures
        is_boundary(s, utf8_len(s.take(k)) as int),
        char_index(s, utf8_len(s.take(k)) as int) == k,
{
    let b = utf8_len(s.take(k)) as int;
    assert(is_boundary(s, b));
    let j = char_index(s, b);
    if j < k {
        lemma_prefix_len_strict(s, j, k);
    } else if j > k {
        lemma_prefix_len_strict(s, k, j);
    }
}

/// The whole text has the largest encoding of its prefixes.
pub proof fn lemma_prefix_len_bound(s: Seq<char>, k: int)
    requires
        0 <= k <= s.len(),
    ensures
        utf8_len(s.take(k)) <= utf8_len(s),
{
    assert(s.take(s.len() as int) =~= s);
    if k < s.len() {
        lemma_prefix_len_strict(s, k, s.len() as int);
    }
}

/// The number of bytes that `c` takes in UTF-8.
pub fn char_utf8_len(c: char) -> (res: usize)
    ensures
        res == encode_scalar(c as u32).len(),
        1 <= res <= 4,
{
    proof {
        broadcast use char_is_scalar;
        lemma_scalar_len(c);
    }
    let v = c as u32;
    if v < 0x80 {
        assert(has_width_1_encoding(v));
        1
    } else if v < 0x800 {
        assert(has_width_2_encoding(v));
        2
    } else if v < 0x10000 {
        assert(has_width_3_encoding(v));
        3
    } else {
        assert(has_width_4_encoding(v));
        4
    }
}

/// The number of characters before byte offset `b` of `chars`, which is a
/// boundary.
pub fn char_index_of(chars: &[char], b: usize) -> (res: usize)
    requires
        is_boundary(chars@, b as int),
    ensures
        res == char_index(chars@, b as int),
        res <= chars@.len(),
        utf8_len(chars@.take(res as int)) == b,
{
    let ghost k = char_index(chars@, b as int);
    proof {
        lemma_char_index_unique(chars@, k);
    }
    let n = chars.len();
    let mut i: usize = 0;
    let mut acc: usize = 0;
    assert(chars@.take(0) =~= Seq::<char>::empty());
    assert(encode_utf8(Seq::<char>::empty()) =~= Seq::<u8>::empty());
    while acc < b
        invariant
            n == chars@.len(),
            0 <= k <= n,
            utf8_len(chars@.take(k)) == b,
            i <= k,
            acc == utf8_len(chars@.take(i as int)),
        decreases k - i,
    {
        proof {
            if i == k {
                assert(false);
            }
            lemma_prefix_len_step(chars@, i as int);
            if i + 1 < k {
                lemma_prefix_len_strict(chars@, i + 1, k);
            }
        }
        acc = acc + char_utf8_len(chars[i]);
        i = i + 1;
    }
    proof {
        if i < k {
            lemma_prefix_len_strict(chars@, i as int, k);
        }
    }
    i
}

} // verus!

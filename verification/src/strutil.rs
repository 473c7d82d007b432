//! Verified string utilities, and the few trusted bridges to text
//! transformations whose full definitions live outside this crate.
use unicode_segmentation::UnicodeSegmentation;
use vstd::prelude::*;
use vstd::string::StrSliceExecFns;

verus! {

/// Character-wise equality of two string slices.
pub fn str_eq(a: &str, b: &str) -> (r: bool)
    ensures
        r == (a@ == b@),
{
    let alen = a.unicode_len();
    let blen = b.unicode_len();
    if alen != blen {
        return false;
    }
    let mut i: usize = 0;
    while i < alen
        invariant
            i <= alen,
            alen == a@.len(),
            alen == b@.len(),
            forall|k: int| 0 <= k < i ==> a@[k] == b@[k],
        decreases alen - i,
    {
        if a.get_char(i) != b.get_char(i) {
            return false;
        }
        i += 1;
    }
    proof {
        assert(a@ =~= b@);
    }
    true
}

/// `needle` occurs contiguously somewhere in `hay`.
pub open spec fn spec_contains(hay: Seq<char>, needle: Seq<char>) -> bool {
    exists|i: int|
        0 <= i && i + needle.len() <= hay.len() && #[trigger] hay.subrange(i, i + needle.len())
            == needle
}

/// Whether `needle` occurs at position `i` of `hay`.
fn match_at(hay: &str, needle: &str, i: usize, hlen: usize, nlen: usize) -> (r: bool)
    requires
        hlen == hay@.len(),
        nlen == needle@.len(),
        i + nlen <= hlen,
    ensures
        r == (hay@.subrange(i as int, i + needle@.len()) == needle@),
{
    let mut j: usize = 0;
    while j < nlen
        invariant
            j <= nlen,
            hlen == hay@.len(),
            nlen == needle@.len(),
            i + nlen <= hlen,
            forall|k: int| 0 <= k < j ==> hay@[i + k] == needle@[k],
        decreases nlen - j,
    {
        if hay.get_char(i + j) != needle.get_char(j) {
            assert(hay@.subrange(i as int, i + needle@.len())[j as int] != needle@[j as int]);
            return false;
        }
        j += 1;
    }
    proof {
        assert(hay@.subrange(i as int, i + needle@.len()) =~= needle@);
    }
    true
}

/// Substring search: true exactly when `needle` occurs in `hay`.
pub fn str_contains(hay: &str, needle: &str) -> (r: bool)
    ensures
        r == spec_contains(hay@, needle@),
{
    let hlen = hay.unicode_len();
    let nlen = needle.unicode_len();
    if nlen > hlen {
        return false;
    }
    if nlen == 0 {
        proof {
            assert(hay@.subrange(0, 0 + needle@.len() as int) =~= needle@);
            assert(spec_contains(hay@, needle@));
        }
        return true;
    }
    let mut i: usize = 0;
    while i <= hlen - nlen
        invariant
            1 <= nlen <= hlen,
            i <= hlen - nlen + 1,
            hlen == hay@.len(),
            nlen == needle@.len(),
            forall|k: int|
                0 <= k < i ==> #[trigger] hay@.subrange(k, k + needle@.len()) != needle@,
        decreases hlen - i,
    {
        if match_at(hay, needle, i, hlen, nlen) {
            return true;
        }
        i += 1;
    }
    false
}

/// Strict lexicographic order on character sequences, by code point — the
/// order in which string comparison ranks them.
pub open spec fn seq_lt(a: Seq<char>, b: Seq<char>) -> bool
    decreases a.len(),
{
    if b.len() == 0 {
        false
    } else if a.len() == 0 {
        true
    } else if a.first() == b.first() {
        seq_lt(a.drop_first(), b.drop_first())
    } else {
        (a.first() as u32) < (b.first() as u32)
    }
}

/// The order is irreflexive.
pub proof fn lemma_seq_lt_irrefl(a: Seq<char>)
    ensures
        !seq_lt(a, a),
    decreases a.len(),
{
    if a.len() > 0 {
        lemma_seq_lt_irrefl(a.drop_first());
    }
}

/// Distinct sequences are ordered one way or the other.
pub proof fn lemma_seq_lt_connected(a: Seq<char>, b: Seq<char>)
    requires
        a != b,
    ensures
        seq_lt(a, b) || seq_lt(b, a),
    decreases a.len(),
{
    if a.len() == 0 {
        if b.len() == 0 {
            assert(a =~= b);
        }
    } else if b.len() == 0 {
    } else if a.first() == b.first() {
        if a.drop_first() == b.drop_first() {
            assert(a.len() == b.len()) by {
                assert(a.drop_first().len() == b.drop_first().len());
            }
            assert forall|i: int| 0 <= i < a.len() implies a[i] == b[i] by {
                if i > 0 {
                    assert(a[i] == a.drop_first()[i - 1]);
                    assert(b[i] == b.drop_first()[i - 1]);
                }
            }
            assert(a =~= b);
        } else {
            lemma_seq_lt_connected(a.drop_first(), b.drop_first());
        }
    } else {
        if (a.first() as u32) == (b.first() as u32) {
            vstd::utf8::char_u32_cast(a.first(), a.first() as u32);
            vstd::utf8::char_u32_cast(b.first(), b.first() as u32);
        }
    }
}

/// The order is transitive.
pub proof fn lemma_seq_lt_trans(a: Seq<char>, b: Seq<char>, c: Seq<char>)
    requires
        seq_lt(a, b),
        seq_lt(b, c),
    ensures
        seq_lt(a, c),
    decreases a.len(),
{
    if a.len() == 0 {
    } else {
        if a.first() == b.first() {
            if b.first() == c.first() {
                lemma_seq_lt_trans(a.drop_first(), b.drop_first(), c.drop_first());
            } else {
                if (a.first() as u32) == (c.first() as u32) {
                    vstd::utf8::char_u32_cast(a.first(), a.first() as u32);
                    vstd::utf8::char_u32_cast(c.first(), c.first() as u32);
                }
            }
        } else {
            if b.first() == c.first() {
                if (a.first() as u32) == (c.first() as u32) {
                    vstd::utf8::char_u32_cast(a.first(), a.first() as u32);
                    vstd::utf8::char_u32_cast(c.first(), c.first() as u32);
                }
            } else {
                if (a.first() as u32) == (c.first() as u32) {
                    vstd::utf8::char_u32_cast(a.first(), a.first() as u32);
                    vstd::utf8::char_u32_cast(c.first(), c.first() as u32);
                }
            }
        }
    }
}

/// Ascending and duplicate-free: every earlier entry is strictly below
/// every later one.
pub open spec fn sorted_unique(names: Seq<Seq<char>>) -> bool {
    forall|j: int, k: int|
        0 <= j < k < names.len() ==> seq_lt(#[trigger] names[j], #[trigger] names[k])
}

/// Lexicographic comparison of two string slices.
pub fn str_lt(a: &str, b: &str) -> (r: bool)
    ensures
        r == seq_lt(a@, b@),
{
    let alen = a.unicode_len();
    let blen = b.unicode_len();
    let mut i: usize = 0;
    proof {
        assert(a@.skip(0) =~= a@);
        assert(b@.skip(0) =~= b@);
    }
    while i < alen && i < blen
        invariant
            i <= alen,
            i <= blen,
            alen == a@.len(),
            blen == b@.len(),
            seq_lt(a@, b@) == seq_lt(a@.skip(i as int), b@.skip(i as int)),
        decreases alen - i,
    {
        let ca = a.get_char(i);
        let cb = b.get_char(i);
        if ca != cb {
            proof {
                assert(a@.skip(i as int).first() == a@[i as int]);
                assert(b@.skip(i as int).first() == b@[i as int]);
            }
            return (ca as u32) < (cb as u32);
        }
        proof {
            assert(a@.skip(i as int).drop_first() =~= a@.skip(i as int + 1));
            assert(b@.skip(i as int).drop_first() =~= b@.skip(i as int + 1));
        }
        i += 1;
    }
    proof {
        assert(a@.skip(i as int).len() == alen - i);
        assert(b@.skip(i as int).len() == blen - i);
    }
    alen < blen
}

/// The concatenation of a sequence of character sequences.
pub open spec fn concat_seqs(parts: Seq<Seq<char>>) -> Seq<char>
    decreases parts.len(),
{
    if parts.len() == 0 {
        Seq::<char>::empty()
    } else {
        parts.first() + concat_seqs(parts.drop_first())
    }
}

/// Concatenation distributes over appending one more part.
pub proof fn lemma_concat_push(parts: Seq<Seq<char>>, last: Seq<char>)
    ensures
        concat_seqs(parts.push(last)) == concat_seqs(parts) + last,
    decreases parts.len(),
{
    if parts.len() == 0 {
        assert(parts.push(last).drop_first() =~= Seq::<Seq<char>>::empty());
        assert(parts.push(last).first() == last);
        assert(concat_seqs(parts.push(last)) == last + concat_seqs(Seq::<Seq<char>>::empty()));
        assert(concat_seqs(parts.push(last)) =~= concat_seqs(parts) + last);
    } else {
        let tail = parts.drop_first();
        assert(parts.push(last).drop_first() =~= tail.push(last));
        lemma_concat_push(tail, last);
        assert(concat_seqs(parts.push(last)) == parts.first() + concat_seqs(tail.push(last)));
        assert(parts.first() + (concat_seqs(tail) + last) =~= (parts.first() + concat_seqs(tail))
            + last);
    }
}

/// The decimal digits of `n`, as characters, most significant first.
pub open spec fn dec_chars(n: nat) -> Seq<char>
    decreases n,
{
    if n < 10 {
        seq![digit_char(n)]
    } else {
        dec_chars(n / 10).push(digit_char(n % 10))
    }
}

/// The character of one decimal digit.
pub open spec fn digit_char(d: nat) -> char {
    if d == 0 {
        '0'
    } else if d == 1 {
        '1'
    } else if d == 2 {
        '2'
    } else if d == 3 {
        '3'
    } else if d == 4 {
        '4'
    } else if d == 5 {
        '5'
    } else if d == 6 {
        '6'
    } else if d == 7 {
        '7'
    } else if d == 8 {
        '8'
    } else {
        '9'
    }
}

/// Appends the character of one decimal digit.
fn push_digit_char(s: &mut String, d: usize)
    requires
        d < 10,
    ensures
        final(s)@ == old(s)@.push(digit_char(d as nat)),
{
    if d == 0 {
        string_push(s, '0');
    } else if d == 1 {
        string_push(s, '1');
    } else if d == 2 {
        string_push(s, '2');
    } else if d == 3 {
        string_push(s, '3');
    } else if d == 4 {
        string_push(s, '4');
    } else if d == 5 {
        string_push(s, '5');
    } else if d == 6 {
        string_push(s, '6');
    } else if d == 7 {
        string_push(s, '7');
    } else if d == 8 {
        string_push(s, '8');
    } else {
        string_push(s, '9');
    }
}

/// Appends the decimal digits of `n`.
fn push_dec_chars(s: &mut String, n: usize)
    ensures
        final(s)@ == old(s)@ + dec_chars(n as nat),
    decreases n,
{
    if n < 10 {
        push_digit_char(s, n);
        assert(final(s)@ =~= old(s)@ + dec_chars(n as nat));
    } else {
        push_dec_chars(s, n / 10);
        push_digit_char(s, n % 10);
        assert(final(s)@ =~= old(s)@ + dec_chars(n as nat));
    }
}

/// A title made of a fixed prefix and a decimal number, such as the names
/// given to freshly opened editor and terminal tabs.
pub fn numbered_title(prefix: &str, n: usize) -> (r: String)
    ensures
        r@ == prefix@ + dec_chars(n as nat),
{
    let mut s = prefix.to_owned();
    push_dec_chars(&mut s, n);
    s
}

/// A copy of the string without its last character; the empty string stays
/// empty.
pub fn string_drop_last(s: &String) -> (r: String)
    ensures
        r@ == if s@.len() == 0 {
            s@
        } else {
            s@.drop_last()
        },
{
    let n = s.as_str().unicode_len();
    if n == 0 {
        s.clone()
    } else {
        let r = s.as_str().substring_char(0, n - 1).to_owned();
        proof {
            assert(s@.subrange(0, n - 1) =~= s@.drop_last());
        }
        r
    }
}

/// The Unicode lowercase mapping of a string, a function of its characters
/// alone.
pub uninterp spec fn lower_of(s: Seq<char>) -> Seq<char>;

/// Relies on str::to_lowercase: returns the lowercase equivalent of the
/// string, which depends on its characters alone; an empty string stays
/// empty.
#[verifier::external_body]
pub fn to_lowercase(s: &str) -> (r: String)
    ensures
        r@ == lower_of(s@),
        s@.len() == 0 ==> r@.len() == 0,
{
    s.to_lowercase()
}

/// The Unicode uppercase mapping of one character: one or more characters
/// that depend on the input alone.
pub uninterp spec fn upper_of(c: char) -> Seq<char>;

/// Relies on char::to_uppercase: yields the one or more characters of the
/// uppercase mapping of `c`, a function of `c` alone.
#[verifier::external_body]
pub fn char_uppercase(c: char) -> (r: String)
    ensures
        r@ == upper_of(c),
        r@.len() >= 1,
{
    c.to_uppercase().to_string()
}

/// The extended grapheme clusters of a string: a partition of its characters
/// into non-empty pieces.
pub uninterp spec fn graphemes_of(s: Seq<char>) -> Seq<Seq<char>>;

/// Relies on unicode_segmentation's UnicodeSegmentation::graphemes (extended
/// clusters): segmentation splits the string at grapheme boundaries, so the
/// pieces are non-empty and concatenate back to the input.
#[verifier::external_body]
pub fn split_graphemes(s: &str) -> (r: Vec<String>)
    ensures
        r.deep_view() == graphemes_of(s@),
        concat_seqs(r.deep_view()) == s@,
        forall|i: int| 0 <= i < r.deep_view().len() ==> r.deep_view()[i].len() > 0,
        s@.len() == 0 ==> r.deep_view().len() == 0,
{
    s.graphemes(true).map(|g| g.to_string()).collect()
}

/// Relies on String::push: appends one character to the string.
#[verifier::external_body]
pub fn string_push(s: &mut String, c: char)
    ensures
        final(s)@ == old(s)@.push(c),
{
    s.push(c);
}

} // verus!

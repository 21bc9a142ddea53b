//! String helpers stated over the character-sequence view of `&str`.

use vstd::prelude::*;
use vstd::string::*;

verus! {

/// Whether `c` carries the Unicode `White_Space` property.
pub open spec fn is_whitespace(c: char) -> bool {
    let n = c as u32;
    ||| 0x09 <= n <= 0x0D
    ||| n == 0x20
    ||| n == 0x85
    ||| n == 0xA0
    ||| n == 0x1680
    ||| 0x2000 <= n <= 0x200A
    ||| n == 0x2028
    ||| n == 0x2029
    ||| n == 0x202F
    ||| n == 0x205F
    ||| n == 0x3000
}

/// The length of the longest prefix of `s` that holds no whitespace.
pub open spec fn word_len(s: Seq<char>) -> nat
    decreases s.len(),
{
    if s.len() == 0 || is_whitespace(s[0]) {
        0
    } else {
        1 + word_len(s.drop_first())
    }
}

/// The maximal runs of non-whitespace characters of `s`, from left to right.
pub open spec fn words(s: Seq<char>) -> Seq<Seq<char>>
    decreases s.len(),
{
    if s.len() == 0 {
        Seq::empty()
    } else if is_whitespace(s[0]) {
        words(s.drop_first())
    } else {
        let n = word_len(s) as int;
        if 0 < n <= s.len() {
            seq![s.take(n)] + words(s.skip(n))
        } else {
            Seq::empty()
        }
    }
}

/// The character sequences of a vector of strings.
pub open spec fn views(v: Seq<String>) -> Seq<Seq<char>> {
    v.map_values(|t: String| t@)
}

/// A run of non-whitespace that ends at the end of `s` or at a whitespace
/// character is the word at the front of `s`.
pub proof fn lemma_word_len_is(s: Seq<char>, n: int)
    requires
        0 <= n <= s.len(),
        forall|j: int| 0 <= j < n ==> !is_whitespace(#[trigger] s[j]),
        n < s.len() ==> is_whitespace(s[n]),
    ensures
        word_len(s) == n,
    decreases s.len(),
{
    if s.len() == 0 || is_whitespace(s[0]) {
    } else {
        let t = s.drop_first();
        lemma_word_len_is(t, n - 1);
    }
}

/// A text without whitespace is one word, unless it is empty.
pub proof fn lemma_words_of_word(word: Seq<char>)
    requires
        word.len() > 0,
        forall|j: int| 0 <= j < word.len() ==> !is_whitespace(#[trigger] word[j]),
    ensures
        words(word) == seq![word],
{
    let n = word.len() as int;
    lemma_word_len_is(word, n);
    assert(word.take(n) =~= word);
    assert(words(word) =~= seq![word.take(n)] + words(word.skip(n)));
}

/// Two texts without whitespace, with one whitespace character between
/// them, are two words.
pub proof fn lemma_words_of_pair(first: Seq<char>, gap: char, second: Seq<char>)
    requires
        first.len() > 0,
        second.len() > 0,
        is_whitespace(gap),
        forall|j: int| 0 <= j < first.len() ==> !is_whitespace(#[trigger] first[j]),
        forall|j: int| 0 <= j < second.len() ==> !is_whitespace(#[trigger] second[j]),
    ensures
        words(first + seq![gap] + second) == seq![first, second],
{
    let whole = first + seq![gap] + second;
    let n = first.len() as int;
    lemma_word_len_is(whole, n);
    assert(whole.take(n) =~= first);
    let rest = whole.skip(n);
    assert(rest.drop_first() =~= second);
    lemma_words_of_word(second);
    assert(words(whole) =~= seq![whole.take(n)] + words(rest));
}

pub fn char_is_whitespace(c: char) -> (r: bool)
    ensures
        r == is_whitespace(c),
{
    let n: u32 = c as u32;
    (0x09 <= n && n <= 0x0D) || n == 0x20 || n == 0x85 || n == 0xA0 || n == 0x1680 || (0x2000 <= n
        && n <= 0x200A) || n == 0x2028 || n == 0x2029 || n == 0x202F || n == 0x205F || n == 0x3000
}

/// The characters of `s`, in order.
pub fn chars_of(s: &str) -> (v: Vec<char>)
    ensures
        v@ == s@,
{
    let mut v: Vec<char> = Vec::new();
    for c in it: s.chars()
        invariant
            it.seq() == s@,
            v@ == it.seq().take(it.index() as int),
    {
        v.push(c);
    }
    v
}

/// Whether two strings hold the same characters.
pub fn same_text(a: &str, b: &str) -> (r: bool)
    ensures
        r == (a@ == b@),
{
    let x = a.as_bytes();
    let y = b.as_bytes();
    proof {
        vstd::utf8::encode_utf8_decode_utf8(a@);
        vstd::utf8::encode_utf8_decode_utf8(b@);
    }
    if x.len() != y.len() {
        return false;
    }
    let mut i: usize = 0;
    while i < x.len()
        invariant
            i <= x.len(),
            x.len() == y.len(),
            x@ == a.spec_bytes(),
            y@ == b.spec_bytes(),
            forall|j: int| 0 <= j < i ==> x@[j] == y@[j],
        decreases x.len() - i,
    {
        if x[i] != y[i] {
            return false;
        }
        i += 1;
    }
    assert(x@ =~= y@);
    true
}

/// Splits `s` into its whitespace-separated words.
pub fn split_whitespace(s: &str) -> (r: Vec<String>)
    ensures
        views(r@) == words(s@),
{
    let chars = chars_of(s);
    let n = chars.len();
    let mut out: Vec<String> = Vec::new();
    let mut i: usize = 0;
    assert(s@.skip(0) =~= s@);
    while i < n
        invariant
            chars@ == s@,
            n == chars.len(),
            i <= n,
            words(s@) == views(out@) + words(s@.skip(i as int)),
        decreases n - i,
    {
        let ghost rest = s@.skip(i as int);
        if char_is_whitespace(chars[i]) {
            proof {
                assert(rest.drop_first() =~= s@.skip(i + 1));
            }
            i += 1;
        } else {
            let mut j: usize = i + 1;
            while j < n && !char_is_whitespace(chars[j])
                invariant
                    chars@ == s@,
                    n == chars.len(),
                    i < j <= n,
                    forall|k: int| i <= k < j ==> !is_whitespace(#[trigger] s@[k]),
                decreases n - j,
            {
                j += 1;
            }
            let word = s.substring_char(i, j).to_owned();
            proof {
                let len = j - i;
                lemma_word_len_is(rest, len);
                assert(rest.take(len) =~= s@.subrange(i as int, j as int));
                assert(rest.skip(len) =~= s@.skip(j as int));
            }
            out.push(word);
            i = j;
        }
    }
    out
}

} // verus!

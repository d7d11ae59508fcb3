//! Lines and tokens: what whitespace is, how a line splits into tokens, and
//! the executable functions that compare and split string slices.

use vstd::prelude::*;
use vstd::string::StringSliceAdditionalSpecFns;
use vstd::utf8::encode_utf8_decode_utf8;

verus! {

/// Whether `c` separates tokens: the code points that Unicode gives the
/// property White_Space.
pub open spec fn is_whitespace(c: char) -> bool {
    let u = c as u32;
    ||| 0x0009 <= u <= 0x000D
    ||| u == 0x0020
    ||| u == 0x0085
    ||| u == 0x00A0
    ||| u == 0x1680
    ||| 0x2000 <= u <= 0x200A
    ||| u == 0x2028
    ||| u == 0x2029
    ||| u == 0x202F
    ||| u == 0x205F
    ||| u == 0x3000
}

/// A token is a non-empty run of characters none of which is whitespace.
pub open spec fn is_token(s: Seq<char>) -> bool {
    &&& s.len() > 0
    &&& forall|i: int| 0 <= i < s.len() ==> !is_whitespace(#[trigger] s[i])
}

/// A blank line holds nothing but whitespace; the empty line is blank.
pub open spec fn is_blank(s: Seq<char>) -> bool {
    forall|i: int| 0 <= i < s.len() ==> is_whitespace(#[trigger] s[i])
}

/// The length of the longest prefix of `s` that holds no whitespace.
pub open spec fn word_len(s: Seq<char>) -> nat
    decreases s.len(),
{
    if s.len() > 0 && !is_whitespace(s[0]) {
        1 + word_len(s.drop_first())
    } else {
        0
    }
}

/// The tokens of a line, in order: whitespace is skipped, and each maximal
/// run of other characters is one token.
pub open spec fn tokens(s: Seq<char>) -> Seq<Seq<char>>
    decreases s.len(),
    via tokens_decreases
{
    if s.len() == 0 {
        Seq::empty()
    } else if is_whitespace(s[0]) {
        tokens(s.drop_first())
    } else {
        seq![s.take(word_len(s) as int)] + tokens(s.skip(word_len(s) as int))
    }
}

#[via_fn]
proof fn tokens_decreases(s: Seq<char>) {
    lemma_word_len_bounds(s);
}

/// The views of a sequence of string slices.
pub open spec fn texts(v: Seq<&str>) -> Seq<Seq<char>> {
    v.map_values(|t: &str| t@)
}

/// The words with one space between neighbours.
pub open spec fn unwords(words: Seq<Seq<char>>) -> Seq<char>
    decreases words.len(),
{
    if words.len() == 0 {
        Seq::empty()
    } else if words.len() == 1 {
        words[0]
    } else {
        words[0] + seq![' '] + unwords(words.drop_first())
    }
}

/// Whether `c` is whitespace.
pub fn char_is_whitespace(c: char) -> (b: bool)
    ensures
        b == is_whitespace(c),
{
    let u: u32 = c as u32;
    (0x0009 <= u && u <= 0x000D)
        || u == 0x0020
        || u == 0x0085
        || u == 0x00A0
        || u == 0x1680
        || (0x2000 <= u && u <= 0x200A)
        || u == 0x2028
        || u == 0x2029
        || u == 0x202F
        || u == 0x205F
        || u == 0x3000
}

/// Whether two string slices hold the same characters.
pub fn str_eq(a: &str, b: &str) -> (r: bool)
    ensures
        r == (a@ == b@),
{
    let x = a.as_bytes();
    let y = b.as_bytes();
    proof {
        encode_utf8_decode_utf8(a@);
        encode_utf8_decode_utf8(b@);
    }
    if x.len() != y.len() {
        return false;
    }
    let mut i: usize = 0;
    while i < x.len()
        invariant
            i <= x@.len(),
            x@.len() == y@.len(),
            x@ == a.spec_bytes(),
            y@ == b.spec_bytes(),
            x@.take(i as int) == y@.take(i as int),
        decreases x@.len() - i,
    {
        if x[i] != y[i] {
            return false;
        }
        i = i + 1;
    }
    assert(x@ == x@.take(i as int));
    assert(y@ == y@.take(i as int));
    true
}

/// Splits a line into its tokens.
pub fn tokenize<'a>(line: &'a str) -> (out: Vec<&'a str>)
    ensures
        texts(out@) == tokens(line@),
{
    let n = line.unicode_len();
    let mut out: Vec<&'a str> = Vec::new();
    let mut start: Option<usize> = None;
    let mut i: usize = 0;
    proof {
        assert(line@.skip(0) =~= line@);
    }
    for c in it: line.chars()
        invariant
            it.seq() == line@,
            n == line@.len(),
            i == it.index(),
            match start {
                Some(b) => {
                    &&& b < i
                    &&& forall|j: int| b <= j < i ==> !is_whitespace(#[trigger] line@[j])
                    &&& tokens(line@) == texts(out@) + tokens(line@.skip(b as int))
                },
                None => tokens(line@) == texts(out@) + tokens(line@.skip(i as int)),
            },
    {
        if char_is_whitespace(c) {
            if let Some(b) = start {
                let word = line.substring_char(b, i);
                proof {
                    lemma_tokens_word(line@, b as int, i as int);
                    lemma_tokens_skip_whitespace(line@, i as int);
                }
                out.push(word);
                start = None;
            } else {
                proof {
                    lemma_tokens_skip_whitespace(line@, i as int);
                }
            }
        } else if start.is_none() {
            start = Some(i);
        }
        i = i + 1;
    }
    if let Some(b) = start {
        let word = line.substring_char(b, n);
        proof {
            lemma_tokens_word(line@, b as int, n as int);
        }
        out.push(word);
    }
    out
}

/// A word is never longer than the text it starts, and is empty only where
/// the text is empty or starts with whitespace.
proof fn lemma_word_len_bounds(s: Seq<char>)
    ensures
        word_len(s) <= s.len(),
        word_len(s) == 0 <==> (s.len() == 0 || is_whitespace(s[0])),
    decreases s.len(),
{
    if s.len() > 0 && !is_whitespace(s[0]) {
        lemma_word_len_bounds(s.drop_first());
    }
}

/// Where the first `n` characters of `s` hold no whitespace and `s` ends
/// there or goes on with whitespace, the word that `s` starts has length `n`.
proof fn lemma_word_len_is(s: Seq<char>, n: int)
    requires
        0 <= n <= s.len(),
        forall|i: int| 0 <= i < n ==> !is_whitespace(#[trigger] s[i]),
        n == s.len() || is_whitespace(s[n]),
    ensures
        word_len(s) == n,
    decreases n,
{
    if n > 0 {
        let rest = s.drop_first();
        assert forall|i: int| 0 <= i < n - 1 implies !is_whitespace(#[trigger] rest[i]) by {
            assert(rest[i] == s[i + 1]);
        }
        lemma_word_len_is(rest, n - 1);
    }
}

/// The word that a text starts holds no whitespace.
proof fn lemma_word_is_token(s: Seq<char>)
    ensures
        forall|i: int| 0 <= i < word_len(s) ==> !is_whitespace(#[trigger] s[i]),
        word_len(s) > 0 ==> is_token(s.take(word_len(s) as int)),
    decreases s.len(),
{
    if s.len() > 0 && !is_whitespace(s[0]) {
        let rest = s.drop_first();
        lemma_word_is_token(rest);
        lemma_word_len_bounds(rest);
        assert forall|i: int| 0 <= i < word_len(s) implies !is_whitespace(#[trigger] s[i]) by {
            if i > 0 {
                assert(s[i] == rest[i - 1]);
            }
        }
    }
}

/// Whitespace at the head of a suffix of `s` adds no token.
proof fn lemma_tokens_skip_whitespace(s: Seq<char>, i: int)
    requires
        0 <= i < s.len(),
        is_whitespace(s[i]),
    ensures
        tokens(s.skip(i)) == tokens(s.skip(i + 1)),
{
    assert(s.skip(i).drop_first() =~= s.skip(i + 1));
}

/// A maximal run of other characters from `b` to `e` is the first token of
/// the suffix of `s` that starts at `b`, and the rest come from `e` on.
proof fn lemma_tokens_word(s: Seq<char>, b: int, e: int)
    requires
        0 <= b < e <= s.len(),
        forall|j: int| b <= j < e ==> !is_whitespace(#[trigger] s[j]),
        e == s.len() || is_whitespace(s[e]),
    ensures
        tokens(s.skip(b)) == seq![s.subrange(b, e)] + tokens(s.skip(e)),
{
    let x = s.skip(b);
    assert forall|j: int| 0 <= j < e - b implies !is_whitespace(#[trigger] x[j]) by {
        assert(x[j] == s[b + j]);
    }
    lemma_word_len_is(x, e - b);
    assert(x.take(e - b) =~= s.subrange(b, e));
    assert(x.skip(e - b) =~= s.skip(e));
}

/// A token at the head of a text, with the end or whitespace behind it, is
/// the first token of the text.
proof fn lemma_tokens_cons(word: Seq<char>, rest: Seq<char>)
    requires
        is_token(word),
        rest.len() == 0 || is_whitespace(rest[0]),
    ensures
        tokens(word + rest) == seq![word] + tokens(rest),
{
    let s = word + rest;
    let n = word.len() as int;
    assert forall|j: int| 0 <= j < n implies !is_whitespace(#[trigger] s[j]) by {
        assert(s[j] == word[j]);
    }
    lemma_tokens_word(s, 0, n);
    assert(s.skip(0) =~= s);
    assert(s.subrange(0, n) =~= word);
    assert(s.skip(n) =~= rest);
}

/// Every token that a text is split into is a token: it is not empty and
/// holds no whitespace.
pub proof fn lemma_tokens_are_tokens(s: Seq<char>)
    ensures
        forall|i: int| 0 <= i < tokens(s).len() ==> is_token(#[trigger] tokens(s)[i]),
    decreases s.len(),
{
    if s.len() == 0 {
    } else if is_whitespace(s[0]) {
        lemma_tokens_are_tokens(s.drop_first());
        assert(tokens(s) == tokens(s.drop_first()));
    } else {
        let n = word_len(s) as int;
        lemma_word_len_bounds(s);
        lemma_word_is_token(s);
        lemma_tokens_are_tokens(s.skip(n));
        assert forall|i: int| 0 <= i < tokens(s).len() implies is_token(
            #[trigger] tokens(s)[i],
        ) by {
            if i > 0 {
                assert(tokens(s)[i] == tokens(s.skip(n))[i - 1]);
            }
        }
    }
}

/// A text has no token exactly where it is blank.
pub proof fn lemma_tokens_blank(s: Seq<char>)
    ensures
        tokens(s).len() == 0 <==> is_blank(s),
    decreases s.len(),
{
    if s.len() == 0 {
    } else if is_whitespace(s[0]) {
        let rest = s.drop_first();
        lemma_tokens_blank(rest);
        if is_blank(rest) {
            assert forall|i: int| 0 <= i < s.len() implies is_whitespace(#[trigger] s[i]) by {
                if i > 0 {
                    assert(s[i] == rest[i - 1]);
                }
            }
        }
        if is_blank(s) {
            assert forall|i: int| 0 <= i < rest.len() implies is_whitespace(
                #[trigger] rest[i],
            ) by {
                assert(rest[i] == s[i + 1]);
            }
        }
    }
}

/// Splitting undoes joining: words that are tokens, written with one space
/// between neighbours, are the tokens of the line.
pub proof fn lemma_tokens_unwords(words: Seq<Seq<char>>)
    requires
        forall|i: int| 0 <= i < words.len() ==> is_token(#[trigger] words[i]),
    ensures
        tokens(unwords(words)) == words,
    decreases words.len(),
{
    if words.len() == 0 {
    } else if words.len() == 1 {
        lemma_tokens_cons(words[0], Seq::empty());
    } else {
        let later = words.drop_first();
        let tail = seq![' '] + unwords(later);
        assert forall|i: int| 0 <= i < later.len() implies is_token(#[trigger] later[i]) by {
            assert(later[i] == words[i + 1]);
        }
        lemma_tokens_unwords(later);
        lemma_tokens_cons(words[0], tail);
        assert(tail.drop_first() =~= unwords(later));
        assert(words[0] + tail =~= unwords(words));
    }
}

} // verus!

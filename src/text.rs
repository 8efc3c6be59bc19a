//! Word and string helpers.

use vstd::prelude::*;
use vstd::string::*;

verus! {

/// `w` is the first word of `s`: the longest prefix of `s` without a space.
pub open spec fn is_first_word(s: Seq<char>, w: Seq<char>) -> bool {
    &&& w.len() <= s.len()
    &&& w == s.take(w.len() as int)
    &&& forall|i: int| 0 <= i < w.len() ==> w[i] != ' '
    &&& (w.len() == s.len() || s[w.len() as int] == ' ')
}

/// The part of `s` before its first space; all of `s` if it has none.
pub fn first_word(s: &str) -> (r: &str)
    ensures
        is_first_word(s@, r@),
{
    let n = s.unicode_len();
    let mut i: usize = 0;
    while i < n && s.get_char(i) != ' '
        invariant
            n == s@.len(),
            i <= n,
            forall|j: int| 0 <= j < i ==> s@[j] != ' ',
        decreases n - i,
    {
        i = i + 1;
    }
    let r = s.substring_char(0, i);
    proof {
        assert(r@ == s@.take(i as int));
    }
    r
}

/// Of two strings, the one with more bytes; `y` when they tie.
pub fn longest<'a>(x: &'a str, y: &'a str) -> (r: &'a str)
    ensures
        r == (if x.len() > y.len() {
            x
        } else {
            y
        }),
{
    if x.len() > y.len() {
        x
    } else {
        y
    }
}

/// One of the vowels `a`, `i`, `u`, `e`, `o`.
pub open spec fn is_vowel(c: char) -> bool {
    c == 'a' || c == 'i' || c == 'u' || c == 'e' || c == 'o'
}

/// The characters of `s` other than `c`, in order.
pub open spec fn without(s: Seq<char>, c: char) -> Seq<char> {
    s.filter(|x: char| x != c)
}

proof fn lemma_without_push(s: Seq<char>, x: char, c: char)
    ensures
        without(s.push(x), c) == (if x != c {
            without(s, c).push(x)
        } else {
            without(s, c)
        }),
{
    reveal(Seq::filter);
    assert(s.push(x).drop_last() == s);
}

/// Pig Latin of a word: a word that starts with a vowel gets `-hay`; any
/// other word loses every copy of its first character, then gets a dash,
/// that character and `ay`. The dash is dropped too when the word starts
/// with one.
pub open spec fn pig_latin(t: Seq<char>) -> Seq<char>
    recommends
        t.len() > 0,
{
    let first = t[0];
    if is_vowel(first) {
        t + "-hay"@
    } else {
        without(t.push('-'), first).push(first) + "ay"@
    }
}

/// Turns a non-empty word into Pig Latin.
pub fn pig_latin_ascii(text: &str) -> (r: String)
    requires
        text@.len() > 0,
    ensures
        r@ == pig_latin(text@),
{
    let n = text.unicode_len();
    let first = text.get_char(0);
    if first == 'a' || first == 'i' || first == 'u' || first == 'e' || first == 'o' {
        let mut r = String::from_str(text);
        r.append("-hay");
        return r;
    }
    let mut r = String::new();
    let mut i: usize = 0;
    while i < n
        invariant
            n == text@.len(),
            i <= n,
            r@ == without(text@.take(i as int), first),
        decreases n - i,
    {
        proof {
            assert(text@.take(i as int + 1) == text@.take(i as int).push(text@[i as int]));
            lemma_without_push(text@.take(i as int), text@[i as int], first);
        }
        if text.get_char(i) != first {
            let c = text.substring_char(i, i + 1);
            proof {
                assert(c@ == seq![text@[i as int]]);
            }
            r.append(c);
        }
        i = i + 1;
    }
    proof {
        assert(text@.take(n as int) == text@);
        lemma_without_push(text@, '-', first);
        reveal_strlit("-");
    }
    if first != '-' {
        r.append("-");
    }
    let f = text.substring_char(0, 1);
    proof {
        assert(f@ == seq![first]);
    }
    r.append(f);
    r.append("ay");
    r
}

/// A freshly owned `hello`.
pub fn hoge() -> (r: String)
    ensures
        r@ == "hello"@,
{
    String::from_str("hello")
}

} // verus!

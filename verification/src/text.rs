//! Text helpers: greetings and a vowel-run check.

use vstd::prelude::*;

verus! {

/// Whether `c` is one of the five lower-case vowels.
pub open spec fn is_vowel(c: char) -> bool {
    c == 'a' || c == 'e' || c == 'i' || c == 'o' || c == 'u'
}

/// Whether the three characters of `s` starting at `i` are all vowels.
pub open spec fn three_vowels_at(s: Seq<char>, i: int) -> bool {
    is_vowel(s[i]) && is_vowel(s[i + 1]) && is_vowel(s[i + 2])
}

/// Whether `s` holds three consecutive vowels anywhere.
pub open spec fn has_three_consecutive_vowels(s: Seq<char>) -> bool {
    exists|i: int| 0 <= i && i + 3 <= s.len() && three_vowels_at(s, i)
}

/// Whether `c` is one of the five lower-case vowels.
fn vowel(c: char) -> (r: bool)
    ensures
        r == is_vowel(c),
{
    c == 'a' || c == 'e' || c == 'i' || c == 'o' || c == 'u'
}

/// Whether `s` holds three consecutive vowels anywhere.
pub fn three_consecutive_vowels(s: &str) -> (r: bool)
    ensures
        r == has_three_consecutive_vowels(s@),
{
    let n = s.unicode_len();
    let mut vowel_count: usize = 0;
    let mut i: usize = 0;
    while i < n
        invariant
            n == s@.len(),
            0 <= i <= n,
            vowel_count <= 2,
            vowel_count <= i,
            forall|j: int| 0 <= j && j + 3 <= i ==> !three_vowels_at(s@, j),
            forall|k: int| i - vowel_count <= k < i ==> is_vowel(s@[k]),
            i - vowel_count - 1 >= 0 ==> !is_vowel(s@[i - vowel_count - 1]),
        decreases n - i,
    {
        let c = s.get_char(i);
        if vowel(c) {
            vowel_count += 1;
            if vowel_count == 3 {
                assert(three_vowels_at(s@, i - 2));
                return true;
            }
            proof {
                assert forall|j: int| 0 <= j && j + 3 <= i + 1 implies !three_vowels_at(
                    s@,
                    j,
                ) by {
                    if j + 3 == i + 1 && three_vowels_at(s@, j) {
                        assert(is_vowel(s@[i - 1]) && is_vowel(s@[i - 2]));
                        assert(vowel_count >= 3);
                    }
                }
            }
        } else {
            vowel_count = 0;
        }
        i += 1;
    }
    false
}

/// A greeting for the given name: `"Hello, "` followed by the name.
pub fn say_hello(name: &str) -> (r: String)
    ensures
        r@ == "Hello, "@ + name@,
{
    String::from_str("Hello, ").concat(name)
}

/// A fixed greeting, assembled from its pieces once and for all.
pub fn say_hello_again() -> (r: &'static str)
    ensures
        r@ == "Hello, my name is Bob. Nice to meet you"@,
{
    "Hello, my name is Bob. Nice to meet you"
}

/// `"foo"` followed by the given text.
pub fn accept_either(thing: &str) -> (r: String)
    ensures
        r@ == "foo"@ + thing@,
{
    String::from_str("foo").concat(thing)
}

} // verus!

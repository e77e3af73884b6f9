//! Readable names of enum variants: the variant name taken out of its
//! debug text, with a space between words, in lower case or as a title.

use vstd::prelude::*;
use vstd::std_specs::iter::IteratorSpec;

verus! {

broadcast use vstd::string::axiom_spec_iter, vstd::string::next_postcondition;

/// The position of the first `c` in `s`, if any.
pub open spec fn first_index(s: Seq<char>, c: char) -> Option<int>
    decreases s.len(),
{
    if s.len() == 0 {
        None
    } else if s[0] == c {
        Some(0)
    } else {
        match first_index(s.drop_first(), c) {
            Some(i) => Some(i + 1),
            None => None,
        }
    }
}

/// A character that is cut off both ends of a variant name.
pub open spec fn is_trimmed(c: char) -> bool {
    c == '"' || c == ' '
}

/// `s` without the trimmed characters at its start.
pub open spec fn trim_start(s: Seq<char>) -> Seq<char>
    decreases s.len(),
{
    if s.len() > 0 && is_trimmed(s[0]) {
        trim_start(s.drop_first())
    } else {
        s
    }
}

/// `s` without the trimmed characters at its end.
pub open spec fn trim_end(s: Seq<char>) -> Seq<char>
    decreases s.len(),
{
    if s.len() > 0 && is_trimmed(s.last()) {
        trim_end(s.drop_last())
    } else {
        s
    }
}

/// The name of a variant in its debug text: what comes before the first
/// `(`, or else before the first `{`, or else all of it, without quotes
/// and spaces at either end.
pub open spec fn variant_name(text: Seq<char>) -> Seq<char> {
    let head = match first_index(text, '(') {
        Some(i) => text.take(i),
        None => match first_index(text, '{') {
            Some(i) => text.take(i),
            None => text,
        },
    };
    trim_end(trim_start(head))
}

/// An ASCII lower-case letter.
pub open spec fn is_lower(c: char) -> bool {
    'a' <= c <= 'z'
}

/// An ASCII upper-case letter.
pub open spec fn is_upper(c: char) -> bool {
    'A' <= c <= 'Z'
}

/// `s` with a space between every lower-case letter and an upper-case
/// letter that follows it.
pub open spec fn spaced_words(s: Seq<char>) -> Seq<char>
    decreases s.len(),
{
    if s.len() <= 1 {
        s
    } else if is_lower(s[0]) && is_upper(s[1]) {
        seq![s[0], ' '] + spaced_words(s.drop_first())
    } else {
        seq![s[0]] + spaced_words(s.drop_first())
    }
}

/// The lower-case form of `s` that `str::to_lowercase` gives.
pub uninterp spec fn lowercased(s: Seq<char>) -> Seq<char>;

/// Every character of `s` is an ASCII one.
pub open spec fn all_ascii(s: Seq<char>) -> bool {
    forall|i: int| 0 <= i < s.len() ==> (#[trigger] s[i] as u32) < 128
}

/// The ASCII lower-case form of a character.
pub open spec fn ascii_lower(c: char) -> char {
    if is_upper(c) { ((c as u32) + 32) as char } else { c }
}

/// `s` with every ASCII upper-case letter in lower case.
pub open spec fn lower_ascii(s: Seq<char>) -> Seq<char> {
    s.map_values(|c: char| ascii_lower(c))
}

/// The pattern of a lower-case letter followed by an upper-case one.
pub open spec fn word_break_pattern() -> Seq<char> {
    seq!['(', '[', 'a', '-', 'z', ']', ')', '(', '[', 'A', '-', 'Z', ']', ')']
}

/// The replacement that puts a space between the two letters.
pub open spec fn word_break_replacement() -> Seq<char> {
    seq!['$', '1', ' ', '$', '2']
}

/// Compiles `pattern` with `regex::Regex::new` and replaces, with
/// `regex::Regex::replace_all`, every match in `text` by `replacement`.
/// Believed without proof: for the pattern of a lower-case letter followed
/// by an upper-case one and the replacement `$1 $2`, the pattern compiles
/// and, matches being found left to right without overlapping, the result
/// is `text` with a space put between every such pair. For other patterns
/// nothing is said.
#[verifier::external_body]
fn regex_replace_all(pattern: &str, text: &str, replacement: &str) -> (res: Option<String>)
    ensures
        pattern@ == word_break_pattern() && replacement@ == word_break_replacement() ==> res is Some,
        pattern@ == word_break_pattern() && replacement@ == word_break_replacement() ==> res.unwrap()@
            == spaced_words(text@),
{
    regex::Regex::new(pattern).ok().map(|re| re.replace_all(text, replacement).into_owned())
}

/// Makes a `String` of the characters, with `String::from_iter`.
/// Believed without proof: the string holds these characters, in order.
#[verifier::external_body]
fn string_from_chars(chars: Vec<char>) -> (res: String)
    ensures
        res@ == chars@,
{
    String::from_iter(chars)
}

/// The lower-case form of `s`, with `str::to_lowercase`. Believed without
/// proof: the result is the named `lowercased(s)`, which for a string of
/// ASCII characters, as the documentation's definition by the Unicode
/// lower-case mapping gives, turns each upper-case letter into its
/// lower-case one and keeps every other character. What it gives for other
/// characters is left unsaid.
#[verifier::external_body]
fn to_lowercase(s: &str) -> (res: String)
    ensures
        res@ == lowercased(s@),
        all_ascii(s@) ==> res@ == lower_ascii(s@),
{
    s.to_lowercase()
}

fn chars_of(s: &str) -> (res: Vec<char>)
    ensures
        res@ == s@,
{
    let mut res: Vec<char> = Vec::new();
    let mut it = s.chars();
    assert(it.remaining() == s@);
    loop
        invariant
            res@ + it.remaining() == s@,
            it.obeys_prophetic_iter_laws(),
            it.decrease() is Some,
        ensures
            res@ == s@,
        decreases it.decrease()->0,
    {
        let ghost before = it;
        match it.next() {
            Some(c) => {
                assert(before.remaining().len() > 0);
                res.push(c);
                assert(res@ + it.remaining() == s@) by {
                    assert(before.remaining() == seq![c] + it.remaining());
                }
            },
            None => {
                assert(before.remaining().len() == 0);
                assert(res@ + before.remaining() == res@);
                break;
            },
        }
    }
    res
}

fn find_char(s: &Vec<char>, c: char) -> (res: Option<usize>)
    ensures
        match res {
            Some(i) => first_index(s@, c) == Some(i as int),
            None => first_index(s@, c) is None,
        },
{
    let mut i: usize = 0;
    assert(s@.skip(0) == s@);
    while i < s.len()
        invariant
            i <= s@.len(),
            first_index(s@, c) == (match first_index(s@.skip(i as int), c) {
                Some(j) => Some(j + i),
                None => None,
            }),
        decreases s@.len() - i,
    {
        assert(s@.skip(i as int).drop_first() == s@.skip(i + 1));
        if s[i] == c {
            return Some(i);
        }
        i = i + 1;
    }
    assert(s@.skip(i as int).len() == 0);
    None
}

/// The name of a variant in its debug text: what comes before the first
/// `(`, or else before the first `{`, or else all of it, without quotes
/// and spaces at either end.
pub fn extract_variant_name(text: String) -> (res: String)
    ensures
        res@ == variant_name(text@),
{
    let chars = chars_of(text.as_str());
    let end = match find_char(&chars, '(') {
        Some(i) => i,
        None => match find_char(&chars, '{') {
            Some(i) => i,
            None => chars.len(),
        },
    };
    proof {
        lemma_first_index_bound(chars@, '(');
        lemma_first_index_bound(chars@, '{');
        assert(chars@.take(chars@.len() as int) == chars@);
        assert(chars@.take(end as int) == (match first_index(text@, '(') {
            Some(i) => text@.take(i),
            None => match first_index(text@, '{') {
                Some(i) => text@.take(i),
                None => text@,
            },
        }));
    }
    let mut lo: usize = 0;
    while lo < end && (chars[lo] == '"' || chars[lo] == ' ')
        invariant
            lo <= end <= chars@.len(),
            trim_start(chars@.take(end as int)) == trim_start(chars@.subrange(lo as int, end as int)),
        decreases end - lo,
    {
        assert(chars@.subrange(lo as int, end as int).drop_first() == chars@.subrange(lo + 1, end as int));
        lo = lo + 1;
    }
    assert(chars@.take(end as int) == chars@.subrange(0, end as int));
    let mut hi: usize = end;
    while hi > lo && (chars[hi - 1] == '"' || chars[hi - 1] == ' ')
        invariant
            lo <= hi <= end <= chars@.len(),
            trim_start(chars@.subrange(lo as int, end as int)) == chars@.subrange(lo as int, end as int),
            trim_end(chars@.subrange(lo as int, end as int)) == trim_end(chars@.subrange(lo as int, hi as int)),
        decreases hi - lo,
    {
        assert(chars@.subrange(lo as int, hi as int).drop_last() == chars@.subrange(lo as int, hi - 1));
        hi = hi - 1;
    }
    assert(trim_end(trim_start(chars@.take(end as int))) == chars@.subrange(lo as int, hi as int)) by {
        lemma_trim_end_stops(chars@.subrange(lo as int, hi as int));
    }
    let mut out: Vec<char> = Vec::new();
    let mut k: usize = lo;
    while k < hi
        invariant
            lo <= k <= hi <= chars@.len(),
            out@ == chars@.subrange(lo as int, k as int),
        decreases hi - k,
    {
        out.push(chars[k]);
        k = k + 1;
        assert(out@ == chars@.subrange(lo as int, k as int));
    }
    string_from_chars(out)
}

proof fn lemma_trim_end_stops(s: Seq<char>)
    requires
        s.len() == 0 || !is_trimmed(s.last()),
    ensures
        trim_end(s) == s,
{
}

proof fn lemma_first_index_bound(s: Seq<char>, c: char)
    ensures
        first_index(s, c) matches Some(i) ==> 0 <= i < s.len(),
    decreases s.len(),
{
    if s.len() > 0 {
        lemma_first_index_bound(s.drop_first(), c);
    }
}

/// The readable name of a variant from its debug text: the variant name,
/// with a space between words.
pub fn to_name(debug_text: String) -> (res: String)
    ensures
        res@ == spaced_words(variant_name(debug_text@)),
{
    let name = extract_variant_name(debug_text);
    proof {
        reveal_strlit("([a-z])([A-Z])");
        reveal_strlit("$1 $2");
        assert("([a-z])([A-Z])"@ =~= word_break_pattern());
        assert("$1 $2"@ =~= word_break_replacement());
    }
    match regex_replace_all("([a-z])([A-Z])", name.as_str(), "$1 $2") {
        Some(r) => r,
        None => name,
    }
}

/// The readable name of a variant in lower case.
pub fn to_lowername(debug_text: String) -> (res: String)
    ensures
        res@ == lowercased(spaced_words(variant_name(debug_text@))),
        all_ascii(spaced_words(variant_name(debug_text@))) ==> res@ == lower_ascii(
            spaced_words(variant_name(debug_text@)),
        ),
{
    let name = to_name(debug_text);
    to_lowercase(name.as_str())
}

/// The ASCII upper-case form of a character.
pub open spec fn ascii_upper(c: char) -> char {
    if is_lower(c) { ((c as u32) - 32) as char } else { c }
}

/// The name with its first letter in upper case; the first character must
/// be an ASCII one.
pub fn capitalize(name: String) -> (res: String)
    requires
        name@.len() > 0,
        (name@[0] as u32) < 128,
    ensures
        res@ == seq![ascii_upper(name@[0])] + name@.drop_first(),
{
    let mut chars = chars_of(name.as_str());
    let c = chars[0];
    let up = if 'a' <= c && c <= 'z' {
        ((c as u32) - 32) as u8 as char
    } else {
        c
    };
    chars.set(0, up);
    assert(chars@ == seq![ascii_upper(name@[0])] + name@.drop_first());
    string_from_chars(chars)
}

/// The readable name of a variant in lower case with its first letter in
/// upper case, or `None` when that name is empty or does not start with an
/// ASCII character.
pub fn to_title(debug_text: String) -> (res: Option<String>)
    ensures
        ({
            let lower = lowercased(spaced_words(variant_name(debug_text@)));
            &&& res is Some <==> (lower.len() > 0 && (lower[0] as u32) < 128)
            &&& res matches Some(t) ==> t@ == seq![ascii_upper(lower[0])] + lower.drop_first()
        }),
        ({
            let words = spaced_words(variant_name(debug_text@));
            all_ascii(words) && words.len() > 0 ==> (res matches Some(t) && t@ == seq![
                ascii_upper(ascii_lower(words[0])),
            ] + lower_ascii(words).drop_first())
        }),
{
    let ghost words = spaced_words(variant_name(debug_text@));
    let lower = to_lowername(debug_text);
    proof {
        if all_ascii(words) && words.len() > 0 {
            assert(lower@[0] == ascii_lower(words[0]));
            assert((words[0] as u32) < 128);
        }
    }
    let chars = chars_of(lower.as_str());
    if chars.len() > 0 && (chars[0] as u32) < 128 {
        Some(capitalize(lower))
    } else {
        None
    }
}

/// Whether a lower-case letter is directly followed by an upper-case one
/// somewhere in `s`.
pub open spec fn has_word_break(s: Seq<char>) -> bool {
    exists|i: int| 0 <= i < s.len() - 1 && is_lower(#[trigger] s[i]) && is_upper(s[i + 1])
}

/// Spacing the words of a name separates every pair of a lower-case letter
/// followed by an upper-case one, so none is left; it keeps the first
/// character and only adds characters; and a name with no such pair is
/// left as it is.
pub proof fn words_are_spaced(s: Seq<char>)
    ensures
        !has_word_break(spaced_words(s)),
        s.len() > 0 ==> spaced_words(s).len() > 0 && spaced_words(s)[0] == s[0],
        spaced_words(s).len() >= s.len(),
        !has_word_break(s) ==> spaced_words(s) == s,
    decreases s.len(),
{
    if s.len() > 1 {
        let t = s.drop_first();
        words_are_spaced(t);
        let r = spaced_words(t);
        let w = spaced_words(s);
        if is_lower(s[0]) && is_upper(s[1]) {
            assert(w == seq![s[0], ' '] + r);
            assert(has_word_break(s)) by {
                let z: int = 0;
                assert(is_lower(s[z]) && is_upper(s[z + 1]));
            }
            if has_word_break(w) {
                let i = choose|i: int| 0 <= i < w.len() - 1 && is_lower(#[trigger] w[i]) && is_upper(w[i + 1]);
                if i >= 2 {
                    assert(w[i] == r[i - 2] && w[i + 1] == r[(i - 2) + 1]);
                    assert(has_word_break(r));
                }
            }
        } else {
            assert(w == seq![s[0]] + r);
            if has_word_break(w) {
                let i = choose|i: int| 0 <= i < w.len() - 1 && is_lower(#[trigger] w[i]) && is_upper(w[i + 1]);
                if i >= 1 {
                    assert(w[i] == r[i - 1] && w[i + 1] == r[(i - 1) + 1]);
                    assert(has_word_break(r));
                } else {
                    assert(w[1] == r[0] && r[0] == t[0] && t[0] == s[1]);
                }
            }
            if !has_word_break(s) {
                assert forall|i: int| 0 <= i < t.len() - 1 implies !(is_lower(#[trigger] t[i]) && is_upper(t[i + 1])) by {
                    assert(t[i] == s[i + 1] && t[i + 1] == s[(i + 1) + 1]);
                }
                assert(!has_word_break(t));
                assert(w =~= s);
            }
        }
    }
}

} // verus!

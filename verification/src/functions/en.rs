//! English grammar transforms: definite ("the") and indefinite ("a"/"an")
//! article insertion. A word that already starts with the article — as its
//! first whitespace-delimited token, compared without regard to letter
//! case — is left unchanged, so the transforms are idempotent.

use vstd::prelude::*;
use vstd::string::*;
use fluent::FluentArgs;
use fluent::FluentValue;

verus! {

/// A whitespace character for token splitting: the Unicode White_Space
/// set, the same set str::split_whitespace splits on.
pub open spec fn is_space(c: char) -> bool {
    ||| c == '\u{0009}' || c == '\u{000A}' || c == '\u{000B}' || c == '\u{000C}'
    ||| c == '\u{000D}' || c == ' ' || c == '\u{0085}' || c == '\u{00A0}'
    ||| c == '\u{1680}' || c == '\u{2000}' || c == '\u{2001}' || c == '\u{2002}'
    ||| c == '\u{2003}' || c == '\u{2004}' || c == '\u{2005}' || c == '\u{2006}'
    ||| c == '\u{2007}' || c == '\u{2008}' || c == '\u{2009}' || c == '\u{200A}'
    ||| c == '\u{2028}' || c == '\u{2029}' || c == '\u{202F}' || c == '\u{205F}'
    ||| c == '\u{3000}'
}

/// Index of the first non-whitespace character at or after `i` (the length
/// of `w` if every remaining character is whitespace).
pub open spec fn skip_spaces(w: Seq<char>, i: int) -> int
    decreases w.len() - i,
{
    if i >= w.len() {
        w.len() as int
    } else if is_space(w[i]) {
        skip_spaces(w, i + 1)
    } else {
        i
    }
}

/// Index of the first whitespace character at or after `i` (the length of
/// `w` if none follows).
pub open spec fn token_end(w: Seq<char>, i: int) -> int
    decreases w.len() - i,
{
    if i >= w.len() {
        w.len() as int
    } else if is_space(w[i]) {
        i
    } else {
        token_end(w, i + 1)
    }
}

/// The first whitespace-delimited token of `w`; empty when `w` holds no
/// non-whitespace character.
pub open spec fn first_token(w: Seq<char>) -> Seq<char> {
    w.subrange(skip_spaces(w, 0), token_end(w, skip_spaces(w, 0)))
}

pub proof fn lemma_skip_spaces_bounds(w: Seq<char>, i: int)
    requires
        0 <= i <= w.len(),
    ensures
        i <= skip_spaces(w, i) <= w.len(),
    decreases w.len() - i,
{
    if i < w.len() && is_space(w[i]) {
        lemma_skip_spaces_bounds(w, i + 1);
    }
}

pub proof fn lemma_token_end_bounds(w: Seq<char>, i: int)
    requires
        0 <= i <= w.len(),
    ensures
        i <= token_end(w, i) <= w.len(),
    decreases w.len() - i,
{
    if i < w.len() && !is_space(w[i]) {
        lemma_token_end_bounds(w, i + 1);
    }
}

/// The token reads "the" in any letter case.
pub open spec fn matches_the(t: Seq<char>) -> bool {
    &&& t.len() == 3
    &&& (t[0] == 't' || t[0] == 'T')
    &&& (t[1] == 'h' || t[1] == 'H')
    &&& (t[2] == 'e' || t[2] == 'E')
}

/// The token reads "a" in any letter case.
pub open spec fn matches_a(t: Seq<char>) -> bool {
    t.len() == 1 && (t[0] == 'a' || t[0] == 'A')
}

/// The token reads "an" in any letter case.
pub open spec fn matches_an(t: Seq<char>) -> bool {
    &&& t.len() == 2
    &&& (t[0] == 'a' || t[0] == 'A')
    &&& (t[1] == 'n' || t[1] == 'N')
}

/// A vowel letter, in either case. This is the deliberately simple spelling
/// heuristic for choosing "a" against "an": it is not phonetic.
pub open spec fn is_vowel(c: char) -> bool {
    ||| c == 'a' || c == 'e' || c == 'i' || c == 'o' || c == 'u'
    ||| c == 'A' || c == 'E' || c == 'I' || c == 'O' || c == 'U'
}

/// The definite-article transform: `w` unchanged when its first token already
/// reads "the" (or when it has no token at all); otherwise "the " — or
/// "The " when `upper` is set — prepended.
pub open spec fn spec_the(w: Seq<char>, upper: bool) -> Seq<char> {
    if matches_the(first_token(w)) || first_token(w).len() == 0 {
        w
    } else if upper {
        seq!['T', 'h', 'e', ' '] + w
    } else {
        seq!['t', 'h', 'e', ' '] + w
    }
}

/// The indefinite-article transform: `w` unchanged when its first token
/// already reads "a" or "an" (or when it has no token at all); otherwise an
/// article chosen by whether the first character of `w` is a vowel letter,
/// capitalized when `upper` is set.
pub open spec fn spec_a(w: Seq<char>, upper: bool) -> Seq<char> {
    let t = first_token(w);
    if matches_a(t) || matches_an(t) || t.len() == 0 {
        w
    } else if is_vowel(w[0]) {
        (if upper {
            seq!['A', 'n', ' ']
        } else {
            seq!['a', 'n', ' ']
        }) + w
    } else {
        (if upper {
            seq!['A', ' ']
        } else {
            seq!['a', ' ']
        }) + w
    }
}

fn space_char(c: char) -> (r: bool)
    ensures
        r == is_space(c),
{
    c == '\u{0009}' || c == '\u{000A}' || c == '\u{000B}' || c == '\u{000C}'
        || c == '\u{000D}' || c == ' ' || c == '\u{0085}' || c == '\u{00A0}'
        || c == '\u{1680}' || c == '\u{2000}' || c == '\u{2001}' || c == '\u{2002}'
        || c == '\u{2003}' || c == '\u{2004}' || c == '\u{2005}' || c == '\u{2006}'
        || c == '\u{2007}' || c == '\u{2008}' || c == '\u{2009}' || c == '\u{200A}'
        || c == '\u{2028}' || c == '\u{2029}' || c == '\u{202F}' || c == '\u{205F}'
        || c == '\u{3000}'
}

/// Bounds of the first whitespace-delimited token of `word`.
fn token_bounds(word: &str) -> (r: (usize, usize))
    ensures
        r.0 as int == skip_spaces(word@, 0),
        r.1 as int == token_end(word@, r.0 as int),
        r.0 <= r.1 <= word@.len(),
{
    proof {
        lemma_skip_spaces_bounds(word@, 0);
    }
    let n = word.unicode_len();
    let mut i: usize = 0;
    loop
        invariant
            0 <= i <= n,
            n == word@.len(),
            skip_spaces(word@, 0) == skip_spaces(word@, i as int),
        ensures
            0 <= i <= n,
            n == word@.len(),
            i as int == skip_spaces(word@, 0),
        decreases n - i,
    {
        if i == n {
            break ;
        }
        let c = word.get_char(i);
        if !space_char(c) {
            break ;
        }
        i = i + 1;
    }
    proof {
        lemma_token_end_bounds(word@, i as int);
    }
    let mut j: usize = i;
    loop
        invariant
            i <= j <= n,
            n == word@.len(),
            token_end(word@, i as int) == token_end(word@, j as int),
        ensures
            i <= j <= n,
            n == word@.len(),
            j as int == token_end(word@, i as int),
        decreases n - j,
    {
        if j == n {
            break ;
        }
        let c = word.get_char(j);
        if space_char(c) {
            break ;
        }
        j = j + 1;
    }
    (i, j)
}

/// Prepend the definite article to `word` unless its first token already
/// reads "the" in some letter case.
pub fn the_word(word: &str, upper: bool) -> (r: String)
    ensures
        r@ == spec_the(word@, upper),
{
    let (s, e) = token_bounds(word);
    let ghost t = first_token(word@);
    if s == e {
        return word.to_owned();
    }
    if e - s == 3 {
        let c0 = word.get_char(s);
        let c1 = word.get_char(s + 1);
        let c2 = word.get_char(s + 2);
        if (c0 == 't' || c0 == 'T') && (c1 == 'h' || c1 == 'H') && (c2 == 'e' || c2 == 'E') {
            assert(matches_the(t));
            return word.to_owned();
        }
    }
    assert(!matches_the(t) && t.len() > 0);
    let mut r = if upper {
        String::from_str("The ")
    } else {
        String::from_str("the ")
    };
    proof {
        reveal_strlit("The ");
        reveal_strlit("the ");
        if upper {
            assert(r@ =~= seq!['T', 'h', 'e', ' ']);
        } else {
            assert(r@ =~= seq!['t', 'h', 'e', ' ']);
        }
    }
    r.append(word);
    assert(r@ =~= spec_the(word@, upper));
    r
}

/// Prepend "a" or "an" to `word` unless its first token already reads "a"
/// or "an" in some letter case; the article is chosen by whether the first
/// character of `word` is a vowel letter.
pub fn a_word(word: &str, upper: bool) -> (r: String)
    ensures
        r@ == spec_a(word@, upper),
{
    let (s, e) = token_bounds(word);
    let ghost t = first_token(word@);
    if s == e {
        return word.to_owned();
    }
    if e - s == 1 {
        let c0 = word.get_char(s);
        if c0 == 'a' || c0 == 'A' {
            assert(matches_a(t));
            return word.to_owned();
        }
    }
    if e - s == 2 {
        let c0 = word.get_char(s);
        let c1 = word.get_char(s + 1);
        if (c0 == 'a' || c0 == 'A') && (c1 == 'n' || c1 == 'N') {
            assert(matches_an(t));
            return word.to_owned();
        }
    }
    assert(!matches_a(t) && !matches_an(t) && t.len() > 0);
    let first = word.get_char(0);
    let vowel = first == 'a' || first == 'e' || first == 'i' || first == 'o' || first == 'u'
        || first == 'A' || first == 'E' || first == 'I' || first == 'O' || first == 'U';
    let mut r = if upper {
        if vowel {
            String::from_str("An ")
        } else {
            String::from_str("A ")
        }
    } else {
        if vowel {
            String::from_str("an ")
        } else {
            String::from_str("a ")
        }
    };
    proof {
        reveal_strlit("An ");
        reveal_strlit("A ");
        reveal_strlit("an ");
        reveal_strlit("a ");
        if upper {
            if vowel {
                assert(r@ =~= seq!['A', 'n', ' ']);
            } else {
                assert(r@ =~= seq!['A', ' ']);
            }
        } else {
            if vowel {
                assert(r@ =~= seq!['a', 'n', ' ']);
            } else {
                assert(r@ =~= seq!['a', ' ']);
            }
        }
    }
    r.append(word);
    assert(r@ =~= spec_a(word@, upper));
    r
}

/// The optional `case` argument of an article transform asks for a
/// capitalized article exactly when it is the string "upper".
pub fn upper_requested(case_arg: &Option<String>) -> (r: bool)
    ensures
        r == (case_arg matches Some(s) && s@ == seq!['u', 'p', 'p', 'e', 'r']),
{
    match case_arg {
        None => false,
        Some(s) => {
            let u = String::from_str("upper");
            proof {
                reveal_strlit("upper");
                assert(u@ =~= seq!['u', 'p', 'p', 'e', 'r']);
            }
            s.eq(&u)
        },
    }
}

/// The THE grammar function as a pattern-invocable transform: definite-
/// article insertion on the first positional argument, with the optional
/// named `case` argument ("upper") asking for a capitalized article.
/// Relies on the fluent value types only to move the headword and the
/// result through; a missing or non-string headword yields the error
/// value, never an abort.
#[verifier::external_body]
pub fn the<'a>(positional: &[FluentValue<'a>], named: &FluentArgs) -> (r: FluentValue<'a>) {
    let word = match positional.first() {
        Some(FluentValue::String(s)) => s.to_string(),
        _ => return FluentValue::Error,
    };
    let case_arg = match named.get("case") {
        Some(FluentValue::String(s)) => Some(s.to_string()),
        _ => None,
    };
    FluentValue::String(the_word(&word, upper_requested(&case_arg)).into())
}

/// The A grammar function: indefinite-article insertion on the first
/// positional argument, with the optional named `case` argument ("upper")
/// asking for a capitalized article. Relies on the fluent value types only
/// to move the headword and the result through; a missing or non-string
/// headword yields the error value, never an abort.
#[verifier::external_body]
pub fn a<'a>(positional: &[FluentValue<'a>], named: &FluentArgs) -> (r: FluentValue<'a>) {
    let word = match positional.first() {
        Some(FluentValue::String(s)) => s.to_string(),
        _ => return FluentValue::Error,
    };
    let case_arg = match named.get("case") {
        Some(FluentValue::String(s)) => Some(s.to_string()),
        _ => None,
    };
    FluentValue::String(a_word(&word, upper_requested(&case_arg)).into())
}

/// Law: the definite-article transform is idempotent — applying it to its
/// own result, with any capitalization request, changes nothing further.
pub proof fn lemma_the_idempotent(w: Seq<char>, u1: bool, u2: bool)
    ensures
        spec_the(spec_the(w, u1), u2) == spec_the(w, u1),
{
    let t = first_token(w);
    if !(matches_the(t) || t.len() == 0) {
        let p = if u1 {
            seq!['T', 'h', 'e', ' ']
        } else {
            seq!['t', 'h', 'e', ' ']
        };
        let r = p + w;
        assert(spec_the(w, u1) == r);
        assert(!is_space(r[0]));
        assert(skip_spaces(r, 0) == 0);
        assert(token_end(r, 3) == 3);
        assert(token_end(r, 2) == 3);
        assert(token_end(r, 1) == 3);
        assert(token_end(r, 0) == 3);
        assert(first_token(r) =~= seq![p[0], 'h', 'e']);
        assert(matches_the(first_token(r)));
    }
}

/// Law: the indefinite-article transform is idempotent — applying it to its
/// own result, with any capitalization request, changes nothing further.
pub proof fn lemma_a_idempotent(w: Seq<char>, u1: bool, u2: bool)
    ensures
        spec_a(spec_a(w, u1), u2) == spec_a(w, u1),
{
    let t = first_token(w);
    if !(matches_a(t) || matches_an(t) || t.len() == 0) {
        if is_vowel(w[0]) {
            let p = if u1 {
                seq!['A', 'n', ' ']
            } else {
                seq!['a', 'n', ' ']
            };
            let r = p + w;
            assert(spec_a(w, u1) == r);
            assert(!is_space(r[0]));
            assert(skip_spaces(r, 0) == 0);
            assert(token_end(r, 2) == 2);
            assert(token_end(r, 1) == 2);
            assert(token_end(r, 0) == 2);
            assert(first_token(r) =~= seq![p[0], 'n']);
            assert(matches_an(first_token(r)));
        } else {
            let p = if u1 {
                seq!['A', ' ']
            } else {
                seq!['a', ' ']
            };
            let r = p + w;
            assert(spec_a(w, u1) == r);
            assert(!is_space(r[0]));
            assert(skip_spaces(r, 0) == 0);
            assert(token_end(r, 1) == 1);
            assert(token_end(r, 0) == 1);
            assert(first_token(r) =~= seq![p[0]]);
            assert(matches_a(first_token(r)));
        }
    }
}

} // verus!

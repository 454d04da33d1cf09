//! Rendering of a template: every `{{key}}` is replaced by the value of `key`.

use vstd::prelude::*;
use crate::text::to_chars;
use crate::vars::VariableSet;

verus! {

/// The text that stands for `key` in a template: `{{key}}`.
pub open spec fn placeholder(key: Seq<char>) -> Seq<char> {
    seq!['{', '{'] + key + seq!['}', '}']
}

/// Whether `pattern` occurs in `text` at position `i`.
pub open spec fn occurs_at(text: Seq<char>, pattern: Seq<char>, i: int) -> bool {
    &&& 0 <= i
    &&& i + pattern.len() <= text.len()
    &&& text.subrange(i, i + pattern.len()) == pattern
}

/// `text` with the occurrences of `pattern` replaced by `replacement`.
///
/// The text is read once from left to right. Where the pattern occurs, the
/// replacement is written and reading goes on behind the occurrence, so the
/// occurrences that count do not overlap and what was written is not read
/// again. An empty pattern occurs nowhere.
pub open spec fn replaced(text: Seq<char>, pattern: Seq<char>, replacement: Seq<char>) -> Seq<char>
    decreases text.len(),
{
    if text.len() == 0 {
        text
    } else if pattern.len() > 0 && occurs_at(text, pattern, 0) {
        replacement + replaced(text.skip(pattern.len() as int), pattern, replacement)
    } else {
        seq![text[0]] + replaced(text.skip(1), pattern, replacement)
    }
}

/// The template `text` rendered with `vars`: one pass of replacement for each
/// variable, in the order of `vars`, each pass reading the result of the one
/// before it.
pub open spec fn rendered(text: Seq<char>, vars: Seq<(Seq<char>, Seq<char>)>) -> Seq<char>
    decreases vars.len(),
{
    if vars.len() == 0 {
        text
    } else {
        rendered(replaced(text, placeholder(vars[0].0), vars[0].1), vars.drop_first())
    }
}

/// Tells whether `pattern` occurs in `text` at position `i`.
fn occurs_here(text: &Vec<char>, pattern: &Vec<char>, i: usize) -> (b: bool)
    requires
        i <= text.len(),
    ensures
        b == occurs_at(text@, pattern@, i as int),
{
    if pattern.len() > text.len() - i {
        return false;
    }
    let mut j: usize = 0;
    while j < pattern.len()
        invariant
            j <= pattern.len(),
            i + pattern.len() <= text.len(),
            forall|k: int| 0 <= k < j ==> text[i + k] == pattern[k],
        decreases pattern.len() - j,
    {
        if text[i + j] != pattern[j] {
            assert(text@.subrange(i as int, i + pattern.len())[j as int] != pattern@[j as int]);
            return false;
        }
        j = j + 1;
    }
    assert(text@.subrange(i as int, i + pattern.len()) =~= pattern@);
    true
}

/// Replaces the occurrences of `pattern` in `text` by `replacement`.
pub fn replace_all(text: &str, pattern: &str, replacement: &str) -> (out: String)
    ensures
        out@ == replaced(text@, pattern@, replacement@),
{
    let chars = to_chars(text);
    let pat = to_chars(pattern);
    let mut out = String::new();
    let mut i: usize = 0;
    proof {
        assert(text@.skip(0) =~= text@);
        assert(out@ + replaced(text@, pattern@, replacement@) =~= replaced(
            text@,
            pattern@,
            replacement@,
        ));
    }
    while i < chars.len()
        invariant
            i <= chars.len(),
            chars@ == text@,
            pat@ == pattern@,
            out@ + replaced(text@.skip(i as int), pattern@, replacement@) == replaced(
                text@,
                pattern@,
                replacement@,
            ),
        decreases chars.len() - i,
    {
        let ghost rest = text@.skip(i as int);
        let hit = pat.len() > 0 && occurs_here(&chars, &pat, i);
        proof {
            if i + pat.len() <= chars.len() {
                assert(rest.subrange(0, pat.len() as int) =~= text@.subrange(
                    i as int,
                    i + pat.len(),
                ));
            }
            assert(occurs_at(rest, pattern@, 0) == occurs_at(text@, pattern@, i as int));
        }
        if hit {
            out.append(replacement);
            proof {
                assert(rest.skip(pat.len() as int) =~= text@.skip(i + pat.len()));
                assert((out@ + replaced(text@.skip(i + pat.len()), pattern@, replacement@))
                    =~= replaced(text@, pattern@, replacement@));
            }
            i = i + pat.len();
        } else {
            out.push(chars[i]);
            proof {
                assert(rest.skip(1) =~= text@.skip(i + 1));
                assert(rest[0] == chars[i as int]);
                assert((out@ + replaced(text@.skip(i + 1), pattern@, replacement@)) =~= replaced(
                    text@,
                    pattern@,
                    replacement@,
                ));
            }
            i = i + 1;
        }
    }
    assert(text@.skip(i as int) =~= Seq::<char>::empty());
    assert(out@ =~= out@ + Seq::<char>::empty());
    out
}

/// The placeholder of `key`.
pub fn placeholder_of(key: &str) -> (out: String)
    ensures
        out@ == placeholder(key@),
{
    let mut out = String::from_str("{{");
    out.append(key);
    out.append("}}");
    proof {
        reveal_strlit("{{");
        reveal_strlit("}}");
        assert("{{"@ =~= seq!['{', '{']);
        assert("}}"@ =~= seq!['}', '}']);
    }
    out
}

/// Renders `template` with the variables of `vars`.
///
/// The variables are applied one after another in the order of the set, each
/// to the result of the one before. A placeholder whose key is not in the
/// set stays as it is, and with no variables the template comes back
/// unchanged.
pub fn render(template: &str, vars: &VariableSet) -> (out: String)
    ensures
        out@ == rendered(template@, vars@),
{
    let mut out = String::from_str(template);
    let mut i: usize = 0;
    assert(vars@.skip(0) =~= vars@);
    while i < vars.len()
        invariant
            i <= vars@.len(),
            rendered(out@, vars@.skip(i as int)) == rendered(template@, vars@),
        decreases vars@.len() - i,
    {
        let hole = placeholder_of(vars.key(i));
        proof {
            let rest = vars@.skip(i as int);
            assert(rest[0] == vars@[i as int]);
            assert(rest.drop_first() =~= vars@.skip(i + 1));
        }
        out = replace_all(out.as_str(), hole.as_str(), vars.value(i));
        i = i + 1;
    }
    out
}

} // verus!

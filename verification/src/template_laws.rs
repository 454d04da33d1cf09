//! What holds of rendering, for every template and every set of variables.

use vstd::prelude::*;
use crate::template::{occurs_at, placeholder, rendered, replaced};
use crate::vars::has_key;

verus! {

/// Whether `s` holds neither `{` nor `}`.
pub open spec fn brace_free(s: Seq<char>) -> bool {
    forall|i: int| 0 <= i < s.len() ==> #[trigger] s[i] != '{' && s[i] != '}'
}

/// Whether no key of `vars` holds a brace.
pub open spec fn keys_brace_free(vars: Seq<(Seq<char>, Seq<char>)>) -> bool {
    forall|i: int| 0 <= i < vars.len() ==> brace_free((#[trigger] vars[i]).0)
}

/// Whether no value of `vars` holds a brace.
pub open spec fn values_brace_free(vars: Seq<(Seq<char>, Seq<char>)>) -> bool {
    forall|i: int| 0 <= i < vars.len() ==> brace_free((#[trigger] vars[i]).1)
}

/// An occurrence in what is left after the first `k` characters is an
/// occurrence `k` places further on in the whole text.
pub proof fn lemma_occurs_shift(text: Seq<char>, pattern: Seq<char>, k: int, i: int)
    requires
        0 <= k <= text.len(),
        0 <= i,
    ensures
        occurs_at(text.skip(k), pattern, i) == occurs_at(text, pattern, i + k),
{
    if i + k + pattern.len() <= text.len() {
        assert(text.skip(k).subrange(i, i + pattern.len()) =~= text.subrange(
            i + k,
            i + k + pattern.len(),
        ));
    }
}

/// An occurrence in `a + b` that ends within `a` is an occurrence in `a`, and
/// one that begins behind `a` is an occurrence in `b`.
pub proof fn lemma_occurs_concat(a: Seq<char>, b: Seq<char>, pattern: Seq<char>, i: int)
    requires
        0 <= i,
    ensures
        i + pattern.len() <= a.len() ==> occurs_at(a + b, pattern, i) == occurs_at(a, pattern, i),
        a.len() <= i ==> occurs_at(a + b, pattern, i) == occurs_at(b, pattern, i - a.len()),
{
    if i + pattern.len() <= a.len() {
        assert((a + b).subrange(i, i + pattern.len()) =~= a.subrange(i, i + pattern.len()));
    }
    if a.len() <= i && i + pattern.len() <= (a + b).len() {
        assert((a + b).subrange(i, i + pattern.len()) =~= b.subrange(
            i - a.len(),
            i - a.len() + pattern.len(),
        ));
    }
}

/// Where the pattern occurs at none of the first `n` positions, these `n`
/// characters are copied and replacement goes on behind them.
pub proof fn lemma_replaced_skips(
    text: Seq<char>,
    pattern: Seq<char>,
    replacement: Seq<char>,
    n: int,
)
    requires
        0 <= n <= text.len(),
        forall|i: int| 0 <= i < n ==> !occurs_at(text, pattern, i),
    ensures
        replaced(text, pattern, replacement) == text.take(n) + replaced(
            text.skip(n),
            pattern,
            replacement,
        ),
    decreases n,
{
    if n == 0 {
        assert(text.skip(0) =~= text);
        assert(text.take(0) + replaced(text, pattern, replacement) =~= replaced(
            text,
            pattern,
            replacement,
        ));
    } else {
        let rest = text.skip(1);
        assert(!occurs_at(text, pattern, 0));
        assert forall|i: int| 0 <= i < n - 1 implies !occurs_at(rest, pattern, i) by {
            lemma_occurs_shift(text, pattern, 1, i);
        }
        lemma_replaced_skips(rest, pattern, replacement, n - 1);
        assert(rest.skip(n - 1) =~= text.skip(n));
        assert(seq![text[0]] + rest.take(n - 1) =~= text.take(n));
        assert(seq![text[0]] + (rest.take(n - 1) + replaced(text.skip(n), pattern, replacement))
            =~= text.take(n) + replaced(text.skip(n), pattern, replacement));
    }
}

/// A text in which the pattern does not occur is left as it is.
pub proof fn lemma_replaced_without_occurrence(
    text: Seq<char>,
    pattern: Seq<char>,
    replacement: Seq<char>,
)
    requires
        forall|i: int| 0 <= i < text.len() ==> !occurs_at(text, pattern, i),
    ensures
        replaced(text, pattern, replacement) == text,
{
    lemma_replaced_skips(text, pattern, replacement, text.len() as int);
    assert(text.skip(text.len() as int) =~= Seq::<char>::empty());
    assert(text.take(text.len() as int) + Seq::<char>::empty() =~= text);
}

/// Replacement goes through a concatenation part by part, provided that no
/// occurrence of the pattern lies across the joint.
pub proof fn lemma_replaced_concat(
    a: Seq<char>,
    b: Seq<char>,
    pattern: Seq<char>,
    replacement: Seq<char>,
)
    requires
        forall|i: int|
            occurs_at(a + b, pattern, i) ==> i + pattern.len() <= a.len() || a.len() <= i,
    ensures
        replaced(a + b, pattern, replacement) == replaced(a, pattern, replacement) + replaced(
            b,
            pattern,
            replacement,
        ),
    decreases a.len(),
{
    let m = pattern.len() as int;
    if a.len() == 0 {
        assert(a + b =~= b);
        assert(replaced(a, pattern, replacement) + replaced(b, pattern, replacement) =~= replaced(
            b,
            pattern,
            replacement,
        ));
    } else if m > 0 && occurs_at(a + b, pattern, 0) {
        lemma_occurs_concat(a, b, pattern, 0);
        let rest = a.skip(m);
        assert((a + b).skip(m) =~= rest + b);
        assert forall|i: int| occurs_at(rest + b, pattern, i) implies i + m <= rest.len()
            || rest.len() <= i by {
            lemma_occurs_shift(a + b, pattern, m, i);
        }
        lemma_replaced_concat(rest, b, pattern, replacement);
        assert(replacement + (replaced(rest, pattern, replacement) + replaced(
            b,
            pattern,
            replacement,
        )) =~= (replacement + replaced(rest, pattern, replacement)) + replaced(
            b,
            pattern,
            replacement,
        ));
    } else {
        lemma_occurs_concat(a, b, pattern, 0);
        let rest = a.skip(1);
        assert((a + b).skip(1) =~= rest + b);
        assert forall|i: int| occurs_at(rest + b, pattern, i) implies i + m <= rest.len()
            || rest.len() <= i by {
            lemma_occurs_shift(a + b, pattern, 1, i);
        }
        lemma_replaced_concat(rest, b, pattern, replacement);
        assert((a + b)[0] == a[0]);
        assert(seq![a[0]] + (replaced(rest, pattern, replacement) + replaced(
            b,
            pattern,
            replacement,
        )) =~= (seq![a[0]] + replaced(rest, pattern, replacement)) + replaced(
            b,
            pattern,
            replacement,
        ));
    }
}

/// The characters of a placeholder.
pub proof fn lemma_placeholder_chars(name: Seq<char>)
    ensures
        placeholder(name).len() == name.len() + 4,
        placeholder(name)[0] == '{',
        placeholder(name)[1] == '{',
        forall|j: int| 0 <= j < name.len() ==> #[trigger] placeholder(name)[j + 2] == name[j],
        placeholder(name)[name.len() as int + 2] == '}',
        placeholder(name)[name.len() as int + 3] == '}',
{
}

/// Two placeholders with brace-free names that occur in one text do not
/// overlap, unless they are one and the same occurrence.
pub proof fn lemma_placeholders_apart(
    text: Seq<char>,
    name: Seq<char>,
    p: int,
    key: Seq<char>,
    q: int,
)
    requires
        brace_free(name),
        brace_free(key),
        occurs_at(text, placeholder(name), p),
        occurs_at(text, placeholder(key), q),
    ensures
        q + placeholder(key).len() <= p || p + placeholder(name).len() <= q || (q == p && key
            == name),
{
    let a = placeholder(name);
    let b = placeholder(key);
    let nl = name.len() as int;
    let kl = key.len() as int;
    lemma_placeholder_chars(name);
    lemma_placeholder_chars(key);
    assert forall|j: int| 0 <= j < a.len() implies text[p + j] == a[j] by {
        assert(text.subrange(p, p + a.len())[j] == text[p + j]);
    }
    assert forall|j: int| 0 <= j < b.len() implies text[q + j] == b[j] by {
        assert(text.subrange(q, q + b.len())[j] == text[q + j]);
    }
    assert forall|j: int| 2 <= j < a.len() implies a[j] != '{' by {
        if j < name.len() + 2 {
            assert(a[(j - 2) + 2] == name[j - 2]);
        }
    }
    assert forall|j: int| 2 <= j < b.len() implies b[j] != '{' by {
        if j < key.len() + 2 {
            assert(b[(j - 2) + 2] == key[j - 2]);
        }
    }
    if q + b.len() <= p || p + a.len() <= q {
    } else if q == p {
        if key.len() < name.len() {
            assert(b[kl + 2] == '}');
            assert(text[p + (kl + 2)] == a[kl + 2]);
            assert(a[kl + 2] == name[kl]);
            assert(false);
        } else if name.len() < key.len() {
            assert(a[nl + 2] == '}');
            assert(text[q + (nl + 2)] == b[nl + 2]);
            assert(b[nl + 2] == key[nl]);
            assert(false);
        } else {
            assert forall|j: int| 0 <= j < key.len() implies key[j] == name[j] by {
                assert(text[p + (j + 2)] == a[j + 2]);
                assert(text[q + (j + 2)] == b[j + 2]);
            }
            assert(key =~= name);
        }
    } else if q > p {
        let d = q - p;
        assert(text[p + d] == a[d]);
        assert(text[q + 0] == b[0]);
        assert(d == 1);
        assert(text[p + 2] == a[2]);
        assert(text[q + 1] == b[1]);
        assert(false);
    } else {
        let d = p - q;
        assert(text[q + d] == b[d]);
        assert(text[p + 0] == a[0]);
        assert(d == 1);
        assert(text[q + 2] == b[2]);
        assert(text[p + 1] == a[1]);
        assert(false);
    }
}

/// One pass of replacement, seen from a placeholder with a brace-free name
/// that stands in the text: the pass works on what is before it and on what
/// is behind it separately, and the placeholder itself is replaced by the
/// value if the pass is for its name, and copied otherwise.
pub proof fn lemma_replaced_around_placeholder(
    before: Seq<char>,
    name: Seq<char>,
    after: Seq<char>,
    key: Seq<char>,
    value: Seq<char>,
)
    requires
        brace_free(name),
        brace_free(key),
    ensures
        replaced(before + placeholder(name) + after, placeholder(key), value) == replaced(
            before,
            placeholder(key),
            value,
        ) + (if key == name {
            value
        } else {
            placeholder(name)
        }) + replaced(after, placeholder(key), value),
{
    let hole = placeholder(name);
    let pattern = placeholder(key);
    let tail = hole + after;
    let text = before + tail;
    let n = before.len() as int;
    lemma_placeholder_chars(name);
    lemma_placeholder_chars(key);
    assert(before + hole + after =~= text);
    assert(text.subrange(n, n + hole.len()) =~= hole);
    assert(tail.subrange(0, hole.len() as int) =~= hole);
    assert(hole.subrange(0, hole.len() as int) =~= hole);
    assert forall|i: int| occurs_at(text, pattern, i) implies i + pattern.len() <= n || n
        <= i by {
        lemma_placeholders_apart(text, name, n, key, i);
    }
    lemma_replaced_concat(before, tail, pattern, value);
    let left = replaced(before, pattern, value);
    let right = replaced(after, pattern, value);
    if key == name {
        assert(occurs_at(tail, pattern, 0));
        assert(tail.skip(pattern.len() as int) =~= after);
        assert(left + (value + right) =~= left + value + right);
    } else {
        assert forall|i: int| occurs_at(tail, pattern, i) implies i + pattern.len() <= hole.len()
            || hole.len() <= i by {
            lemma_placeholders_apart(tail, name, 0, key, i);
        }
        lemma_replaced_concat(hole, after, pattern, value);
        assert forall|i: int| 0 <= i < hole.len() implies !occurs_at(hole, pattern, i) by {
            if occurs_at(hole, pattern, i) {
                lemma_placeholders_apart(hole, name, 0, key, i);
            }
        }
        lemma_replaced_without_occurrence(hole, pattern, value);
        assert(left + (hole + right) =~= left + hole + right);
    }
}

/// With no variables a template is rendered as it stands.
pub proof fn lemma_render_without_variables(template: Seq<char>)
    ensures
        rendered(template, Seq::empty()) == template,
{
}

/// A template in which no placeholder of a variable occurs is rendered as it
/// stands, whatever the values are.
pub proof fn lemma_render_without_occurrence(
    template: Seq<char>,
    vars: Seq<(Seq<char>, Seq<char>)>,
)
    requires
        forall|j: int, i: int|
            0 <= j < vars.len() && 0 <= i < template.len() ==> !#[trigger] occurs_at(
                template,
                placeholder(vars[j].0),
                i,
            ),
    ensures
        rendered(template, vars) == template,
    decreases vars.len(),
{
    if vars.len() > 0 {
        let rest = vars.drop_first();
        assert forall|i: int| 0 <= i < template.len() implies !occurs_at(
            template,
            placeholder(vars[0].0),
            i,
        ) by {}
        lemma_replaced_without_occurrence(template, placeholder(vars[0].0), vars[0].1);
        assert forall|j: int, i: int|
            0 <= j < rest.len() && 0 <= i < template.len() implies !#[trigger] occurs_at(
            template,
            placeholder(rest[j].0),
            i,
        ) by {
            assert(rest[j] == vars[j + 1]);
            assert(!occurs_at(template, placeholder(vars[j + 1].0), i));
        }
        lemma_render_without_occurrence(template, rest);
    }
}

/// Rendering leaves a placeholder alone whose name is not among the keys.
///
/// Let the names be brace-free. Where `{{name}}` stands in a template and
/// `name` is no key of `vars`, the rendered text is what is before it,
/// rendered, then `{{name}}` itself, then what is behind it, rendered.
pub proof fn lemma_render_keeps_other_placeholders(
    before: Seq<char>,
    name: Seq<char>,
    after: Seq<char>,
    vars: Seq<(Seq<char>, Seq<char>)>,
)
    requires
        brace_free(name),
        keys_brace_free(vars),
        !has_key(vars, name),
    ensures
        rendered(before + placeholder(name) + after, vars) == rendered(before, vars) + placeholder(
            name,
        ) + rendered(after, vars),
    decreases vars.len(),
{
    if vars.len() > 0 {
        let key = vars[0].0;
        let value = vars[0].1;
        let rest = vars.drop_first();
        assert(key != name);
        lemma_replaced_around_placeholder(before, name, after, key, value);
        assert forall|i: int| 0 <= i < rest.len() implies brace_free((#[trigger] rest[i]).0) by {
            assert(rest[i] == vars[i + 1]);
        }
        assert(!has_key(rest, name)) by {
            if has_key(rest, name) {
                let i = choose|i: int| 0 <= i < rest.len() && (#[trigger] rest[i]).0 == name;
                assert(vars[i + 1].0 == name);
            }
        }
        lemma_render_keeps_other_placeholders(
            replaced(before, placeholder(key), value),
            name,
            replaced(after, placeholder(key), value),
            rest,
        );
    }
}

/// Rendering replaces a placeholder of a variable by the variable's value.
///
/// Let the keys be brace-free, and let `{{key}}` stand in a template, `key`
/// being the key at position `j` of `vars` and at no earlier position. The
/// passes up to that of `key` work on what is before the placeholder and on
/// what is behind it separately and put the value in its place. The passes
/// of the later variables then read the text so joined; for the last
/// variable there are none, and the value stands in the rendered text as it
/// is.
pub proof fn lemma_render_replaces_placeholder(
    before: Seq<char>,
    after: Seq<char>,
    vars: Seq<(Seq<char>, Seq<char>)>,
    j: int,
)
    requires
        keys_brace_free(vars),
        0 <= j < vars.len(),
        forall|i: int| 0 <= i < j ==> (#[trigger] vars[i]).0 != vars[j].0,
    ensures
        rendered(before + placeholder(vars[j].0) + after, vars) == rendered(
            rendered(before, vars.take(j + 1)) + vars[j].1 + rendered(after, vars.take(j + 1)),
            vars.skip(j + 1),
        ),
        j == vars.len() - 1 ==> rendered(before + placeholder(vars[j].0) + after, vars)
            == rendered(before, vars) + vars[j].1 + rendered(after, vars),
    decreases j,
{
    let key = vars[j].0;
    let first = vars[0].0;
    let value = vars[0].1;
    let rest = vars.drop_first();
    let upto = vars.take(j + 1);
    let left = replaced(before, placeholder(first), value);
    let right = replaced(after, placeholder(first), value);
    assert(brace_free(vars[0].0));
    assert(brace_free(vars[j].0));
    lemma_replaced_around_placeholder(before, key, after, first, value);
    let text = before + placeholder(key) + after;
    assert(upto[0] == vars[0]);
    assert(upto.drop_first() =~= rest.take(j));
    assert(rest.skip(j) =~= vars.skip(j + 1));
    assert(rendered(before, upto) == rendered(left, rest.take(j)));
    assert(rendered(after, upto) == rendered(right, rest.take(j)));
    assert(rendered(text, vars) == rendered(replaced(text, placeholder(first), value), rest));
    if j == 0 {
        assert(rest.take(0) =~= Seq::<(Seq<char>, Seq<char>)>::empty());
        assert(rest.skip(0) =~= rest);
        assert(rendered(left, rest.take(0)) == left);
        assert(rendered(right, rest.take(0)) == right);
    } else {
        assert(first != key);
        assert(rest[j - 1] == vars[j]);
        assert forall|i: int| 0 <= i < rest.len() implies brace_free((#[trigger] rest[i]).0) by {
            assert(rest[i] == vars[i + 1]);
        }
        assert forall|i: int| 0 <= i < j - 1 implies (#[trigger] rest[i]).0 != rest[j - 1].0 by {
            assert(rest[i] == vars[i + 1]);
        }
        lemma_render_replaces_placeholder(left, right, rest, j - 1);
    }
    if j == vars.len() - 1 {
        assert(vars.take(j + 1) =~= vars);
        assert(vars.skip(j + 1) =~= Seq::<(Seq<char>, Seq<char>)>::empty());
        assert(rendered(
            rendered(before, vars) + vars[j].1 + rendered(after, vars),
            vars.skip(j + 1),
        ) == rendered(before, vars) + vars[j].1 + rendered(after, vars));
    }
}

} // verus!

//! The generated configuration: one import directive for each folder.

use vstd::prelude::*;
use crate::text::{string_of_range, to_chars};

verus! {

/// `entry` without the slashes at its end.
pub open spec fn trimmed(entry: Seq<char>) -> Seq<char>
    decreases entry.len(),
{
    if entry.len() > 0 && entry.last() == '/' {
        trimmed(entry.drop_last())
    } else {
        entry
    }
}

/// Whether `entry` holds a wildcard, `*` or `?`.
pub open spec fn is_glob(entry: Seq<char>) -> bool {
    entry.contains('*') || entry.contains('?')
}

/// What the directive for `entry` imports: a pattern as it stands, and for a
/// plain folder the files named `Caddyfile.dev` one level below it. Slashes
/// at the end of the entry are left out either way.
pub open spec fn import_target(entry: Seq<char>) -> Seq<char> {
    let clean = trimmed(entry);
    if is_glob(clean) {
        clean
    } else {
        clean + "/*/Caddyfile.dev"@
    }
}

/// The two lines that `entry` gives: a comment that quotes it, and its
/// import directive.
pub open spec fn entry_lines(entry: Seq<char>) -> Seq<char> {
    "# Pattern: "@ + entry + "\n"@ + "import "@ + import_target(entry) + "\n"@
}

/// The comment lines at the head of the generated configuration.
pub open spec fn header() -> Seq<char> {
    "# Auto-generated by caddy-dev init\n"@
        + "# Edit this file or run 'caddy-dev init' to reconfigure\n\n"@
        + "# Import Caddyfile.dev files from configured folders\n"@
}

/// The generated configuration for `folders`: the header, then the lines of
/// each folder in the order of the list.
pub open spec fn import_config(folders: Seq<Seq<char>>) -> Seq<char>
    decreases folders.len(),
{
    if folders.len() == 0 {
        header()
    } else {
        import_config(folders.drop_last()) + entry_lines(folders.last())
    }
}

/// What trimming does: the result is the entry up to some place, behind
/// which the entry holds slashes only, and the result does not end with a
/// slash.
pub proof fn lemma_trimmed(entry: Seq<char>)
    ensures
        trimmed(entry).len() <= entry.len(),
        trimmed(entry) == entry.take(trimmed(entry).len() as int),
        forall|i: int| trimmed(entry).len() <= i < entry.len() ==> entry[i] == '/',
        trimmed(entry).len() > 0 ==> trimmed(entry).last() != '/',
    decreases entry.len(),
{
    if entry.len() > 0 && entry.last() == '/' {
        let shorter = entry.drop_last();
        lemma_trimmed(shorter);
        assert(shorter.take(trimmed(shorter).len() as int) =~= entry.take(
            trimmed(shorter).len() as int,
        ));
        assert forall|i: int| trimmed(entry).len() <= i < entry.len() implies entry[i]
            == '/' by {
            if i < shorter.len() {
                assert(shorter[i] == entry[i]);
            }
        }
    } else {
        assert(entry.take(entry.len() as int) =~= entry);
    }
}

/// Removes the slashes at the end of `entry`.
pub fn trim_trailing_slashes(entry: &str) -> (out: String)
    ensures
        out@ == trimmed(entry@),
{
    let chars = to_chars(entry);
    let mut end: usize = chars.len();
    assert(entry@.take(end as int) =~= entry@);
    while end > 0 && chars[end - 1] == '/'
        invariant
            end <= chars.len(),
            chars@ == entry@,
            trimmed(entry@.take(end as int)) == trimmed(entry@),
        decreases end,
    {
        assert(entry@.take(end as int).drop_last() =~= entry@.take(end - 1));
        end = end - 1;
    }
    assert(entry@.subrange(0, end as int) =~= entry@.take(end as int));
    string_of_range(&chars, 0, end)
}

/// Tells whether `entry` holds a wildcard.
pub fn has_wildcard(entry: &str) -> (b: bool)
    ensures
        b == is_glob(entry@),
{
    let chars = to_chars(entry);
    let mut i: usize = 0;
    while i < chars.len()
        invariant
            i <= chars.len(),
            chars@ == entry@,
            forall|j: int| 0 <= j < i ==> entry@[j] != '*' && entry@[j] != '?',
        decreases chars.len() - i,
    {
        if chars[i] == '*' || chars[i] == '?' {
            return true;
        }
        i = i + 1;
    }
    false
}

/// The import target of `entry`.
pub fn import_target_of(entry: &str) -> (out: String)
    ensures
        out@ == import_target(entry@),
{
    let mut clean = trim_trailing_slashes(entry);
    if !has_wildcard(clean.as_str()) {
        clean.append("/*/Caddyfile.dev");
    }
    clean
}

/// Writes the configuration that imports from `folders`.
pub fn render_import_config(folders: &Vec<String>) -> (out: String)
    ensures
        out@ == import_config(folders.deep_view()),
{
    let mut out = String::from_str("# Auto-generated by caddy-dev init\n");
    out.append("# Edit this file or run 'caddy-dev init' to reconfigure\n\n");
    out.append("# Import Caddyfile.dev files from configured folders\n");
    let mut i: usize = 0;
    assert(folders.deep_view().take(0) =~= Seq::<Seq<char>>::empty());
    while i < folders.len()
        invariant
            i <= folders.len(),
            out@ == import_config(folders.deep_view().take(i as int)),
        decreases folders.len() - i,
    {
        let entry = folders[i].as_str();
        let target = import_target_of(entry);
        proof {
            let next = folders.deep_view().take(i + 1);
            assert(next.drop_last() =~= folders.deep_view().take(i as int));
            assert(next.last() == entry@);
        }
        let ghost start = out@;
        out.append("# Pattern: ");
        out.append(entry);
        out.append("\n");
        out.append("import ");
        out.append(target.as_str());
        out.append("\n");
        assert(out@ =~= start + entry_lines(entry@));
        i = i + 1;
    }
    assert(folders.deep_view().take(i as int) =~= folders.deep_view());
    out
}

} // verus!

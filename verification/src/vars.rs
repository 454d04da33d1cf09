//! Variables: parsing of `key=value` arguments and the set they form.

use vstd::prelude::*;
use crate::text::{str_equal, string_of_range, to_chars};

verus! {

/// Whether position `i` of `s` holds the first `=` of `s`.
pub open spec fn is_separator(s: Seq<char>, i: int) -> bool {
    &&& 0 <= i < s.len()
    &&& s[i] == '='
    &&& forall|j: int| 0 <= j < i ==> s[j] != '='
}

/// Whether `s` has the form `key=value` with a key that is not empty.
pub open spec fn is_key_value(s: Seq<char>) -> bool {
    exists|i: int| 0 < i && is_separator(s, i)
}

/// The message that reports the malformed argument `s`.
pub open spec fn invalid_variable_message(s: Seq<char>) -> Seq<char> {
    "Invalid variable format: '"@ + s + "'. Expected key=value"@
}

/// Splits `s` at its first `=` into a key and a value.
///
/// The key is what stands before the first `=` and must not be empty; the
/// value is everything after it and may itself hold further `=` signs.
/// Any other argument is rejected with a message that quotes it.
pub fn parse_key_val(s: &str) -> (r: Result<(String, String), String>)
    ensures
        r is Ok <==> is_key_value(s@),
        r matches Ok(pair) ==> forall|i: int|
            is_separator(s@, i) ==> pair.0@ == s@.take(i) && pair.1@ == s@.skip(i + 1),
        r matches Ok(pair) ==> pair.0@ == key_of(s@) && pair.1@ == value_of(s@),
        r matches Err(message) ==> message@ == invalid_variable_message(s@),
{
    let chars = to_chars(s);
    let mut i: usize = 0;
    while i < chars.len() && chars[i] != '='
        invariant
            i <= chars.len(),
            chars@ == s@,
            forall|j: int| 0 <= j < i ==> s@[j] != '=',
        decreases chars.len() - i,
    {
        i = i + 1;
    }
    if i == 0 || i == chars.len() {
        let mut message = String::from_str("Invalid variable format: '");
        message.append(s);
        message.append("'. Expected key=value");
        Err(message)
    } else {
        assert(is_separator(s@, i as int));
        assert(is_separator(s@, separator_of(s@)));
        let key = string_of_range(&chars, 0, i);
        let value = string_of_range(&chars, i + 1, chars.len());
        Ok((key, value))
    }
}

/// The position of the first `=` of `s`, where `s` has one.
pub open spec fn separator_of(s: Seq<char>) -> int {
    choose|i: int| is_separator(s, i)
}

/// The key of the argument `s`: what stands before its first `=`.
pub open spec fn key_of(s: Seq<char>) -> Seq<char> {
    s.take(separator_of(s))
}

/// The value of the argument `s`: what stands behind its first `=`.
pub open spec fn value_of(s: Seq<char>) -> Seq<char> {
    s.skip(separator_of(s) + 1)
}

/// The pairs of key and value that `args` give, in their order.
pub open spec fn pairs_of(args: Seq<Seq<char>>) -> Seq<(Seq<char>, Seq<char>)> {
    Seq::new(args.len(), |i: int| (key_of(args[i]), value_of(args[i])))
}

/// Whether `args[i]` is malformed and every argument before it is not.
pub open spec fn first_invalid(args: Seq<Seq<char>>, i: int) -> bool {
    &&& 0 <= i < args.len()
    &&& !is_key_value(args[i])
    &&& forall|j: int| 0 <= j < i ==> is_key_value(#[trigger] args[j])
}

/// What `args` give as a whole: the variables collected from them, or the
/// message for the first argument that is malformed.
pub open spec fn parsed_variables(args: Seq<Seq<char>>) -> Result<
    Seq<(Seq<char>, Seq<char>)>,
    Seq<char>,
> {
    if forall|i: int| 0 <= i < args.len() ==> is_key_value(#[trigger] args[i]) {
        Ok(collected(pairs_of(args)))
    } else {
        Err(invalid_variable_message(args[choose|i: int| first_invalid(args, i)]))
    }
}

/// Whether no two entries of `vars` have the same key.
pub open spec fn distinct_keys(vars: Seq<(Seq<char>, Seq<char>)>) -> bool {
    forall|i: int, j: int|
        0 <= i < j < vars.len() ==> (#[trigger] vars[i]).0 != (#[trigger] vars[j]).0
}

/// Whether some entry of `vars` has the key `key`.
pub open spec fn has_key(vars: Seq<(Seq<char>, Seq<char>)>, key: Seq<char>) -> bool {
    exists|i: int| 0 <= i < vars.len() && (#[trigger] vars[i]).0 == key
}

/// The value of the first entry of `vars` whose key is `key`.
pub open spec fn lookup(vars: Seq<(Seq<char>, Seq<char>)>, key: Seq<char>) -> Option<Seq<char>>
    decreases vars.len(),
{
    if vars.len() == 0 {
        None
    } else if vars[0].0 == key {
        Some(vars[0].1)
    } else {
        lookup(vars.drop_first(), key)
    }
}

/// `vars` after `key` has been given the value `value`: an entry with that
/// key keeps its place and takes the new value, a new key goes to the end.
pub open spec fn with_entry(
    vars: Seq<(Seq<char>, Seq<char>)>,
    key: Seq<char>,
    value: Seq<char>,
) -> Seq<(Seq<char>, Seq<char>)>
    decreases vars.len(),
{
    if vars.len() == 0 {
        seq![(key, value)]
    } else if vars[0].0 == key {
        seq![(key, value)] + vars.drop_first()
    } else {
        seq![vars[0]] + with_entry(vars.drop_first(), key, value)
    }
}

/// The variable set that results from giving the pairs of `pairs` one after
/// another, so that a later pair overrides an earlier one with the same key.
pub open spec fn collected(pairs: Seq<(Seq<char>, Seq<char>)>) -> Seq<(Seq<char>, Seq<char>)>
    decreases pairs.len(),
{
    if pairs.len() == 0 {
        Seq::empty()
    } else {
        with_entry(collected(pairs.drop_last()), pairs.last().0, pairs.last().1)
    }
}

/// Replacing the entry at the first position that holds `key`.
pub proof fn lemma_with_entry_found(
    vars: Seq<(Seq<char>, Seq<char>)>,
    key: Seq<char>,
    value: Seq<char>,
    i: int,
)
    requires
        0 <= i < vars.len(),
        vars[i].0 == key,
        forall|j: int| 0 <= j < i ==> vars[j].0 != key,
    ensures
        with_entry(vars, key, value) == vars.update(i, (key, value)),
    decreases vars.len(),
{
    if i == 0 {
        assert(seq![(key, value)] + vars.drop_first() =~= vars.update(0, (key, value)));
    } else {
        let rest = vars.drop_first();
        assert forall|j: int| 0 <= j < i - 1 implies rest[j].0 != key by {
            assert(rest[j] == vars[j + 1]);
        }
        lemma_with_entry_found(rest, key, value, i - 1);
        assert(seq![vars[0]] + rest.update(i - 1, (key, value)) =~= vars.update(i, (key, value)));
    }
}

/// Adding an entry for a key that `vars` does not hold.
pub proof fn lemma_with_entry_absent(
    vars: Seq<(Seq<char>, Seq<char>)>,
    key: Seq<char>,
    value: Seq<char>,
)
    requires
        !has_key(vars, key),
    ensures
        with_entry(vars, key, value) == vars.push((key, value)),
    decreases vars.len(),
{
    if vars.len() == 0 {
        assert(seq![(key, value)] =~= vars.push((key, value)));
    } else {
        let rest = vars.drop_first();
        assert(vars[0].0 != key);
        assert forall|j: int| 0 <= j < rest.len() implies (#[trigger] rest[j]).0 != key by {
            assert(rest[j] == vars[j + 1]);
        }
        lemma_with_entry_absent(rest, key, value);
        assert(seq![vars[0]] + rest.push((key, value)) =~= vars.push((key, value)));
    }
}

/// After a key has been given a value, looking it up gives that value, and
/// every other key has the value that it had.
pub proof fn lemma_lookup_with_entry(
    vars: Seq<(Seq<char>, Seq<char>)>,
    key: Seq<char>,
    value: Seq<char>,
    other: Seq<char>,
)
    ensures
        lookup(with_entry(vars, key, value), key) == Some(value),
        other != key ==> lookup(with_entry(vars, key, value), other) == lookup(vars, other),
    decreases vars.len(),
{
    let after = with_entry(vars, key, value);
    if vars.len() == 0 {
        assert(after.drop_first() =~= vars);
    } else if vars[0].0 == key {
        assert(after.drop_first() =~= vars.drop_first());
    } else {
        lemma_lookup_with_entry(vars.drop_first(), key, value, other);
        assert(after.drop_first() =~= with_entry(vars.drop_first(), key, value));
    }
}

/// Giving a key a value keeps the keys distinct.
pub proof fn lemma_with_entry_distinct(
    vars: Seq<(Seq<char>, Seq<char>)>,
    key: Seq<char>,
    value: Seq<char>,
)
    requires
        distinct_keys(vars),
    ensures
        distinct_keys(with_entry(vars, key, value)),
{
    if has_key(vars, key) {
        let i = choose|i: int| 0 <= i < vars.len() && (#[trigger] vars[i]).0 == key;
        assert forall|j: int| 0 <= j < i implies vars[j].0 != key by {}
        lemma_with_entry_found(vars, key, value, i);
    } else {
        lemma_with_entry_absent(vars, key, value);
    }
}

/// A set of variables: keys that are pairwise distinct, each with its value,
/// kept in the order in which the keys were first given.
#[derive(Debug, PartialEq, Eq)]
pub struct VariableSet {
    entries: Vec<(String, String)>,
}

impl View for VariableSet {
    type V = Seq<(Seq<char>, Seq<char>)>;

    closed spec fn view(&self) -> Seq<(Seq<char>, Seq<char>)> {
        self.entries.deep_view()
    }
}

impl VariableSet {
    /// The invariant of the type: no key occurs twice. `new` and
    /// `from_pairs` establish it and `insert` keeps it.
    pub open spec fn wf(&self) -> bool {
        distinct_keys(self@)
    }

    /// The empty set.
    pub fn new() -> (out: VariableSet)
        ensures
            out@ == Seq::<(Seq<char>, Seq<char>)>::empty(),
            out.wf(),
    {
        let out = VariableSet { entries: Vec::new() };
        assert(out.entries.deep_view() =~= Seq::<(Seq<char>, Seq<char>)>::empty());
        out
    }

    /// The number of variables.
    pub fn len(&self) -> (n: usize)
        ensures
            n == self@.len(),
    {
        self.entries.len()
    }

    /// Whether the set holds no variable.
    pub fn is_empty(&self) -> (b: bool)
        ensures
            b == (self@.len() == 0),
    {
        self.entries.len() == 0
    }

    /// The key at position `i`.
    pub(crate) fn key(&self, i: usize) -> (out: &str)
        requires
            i < self@.len(),
        ensures
            out@ == self@[i as int].0,
    {
        self.entries[i].0.as_str()
    }

    /// The value at position `i`.
    pub(crate) fn value(&self, i: usize) -> (out: &str)
        requires
            i < self@.len(),
        ensures
            out@ == self@[i as int].1,
    {
        self.entries[i].1.as_str()
    }

    /// The value of `key`, if the set holds the key.
    pub fn get(&self, key: &str) -> (out: Option<&str>)
        ensures
            out.deep_view() == lookup(self@, key@),
    {
        let mut i: usize = 0;
        assert(self@.skip(0) =~= self@);
        while i < self.entries.len()
            invariant
                i <= self.entries.len(),
                lookup(self@.skip(i as int), key@) == lookup(self@, key@),
            decreases self.entries.len() - i,
        {
            let ghost rest = self@.skip(i as int);
            assert(rest[0] == self@[i as int]);
            assert(rest.drop_first() =~= self@.skip(i + 1));
            if str_equal(self.entries[i].0.as_str(), key) {
                return Some(self.entries[i].1.as_str());
            }
            i = i + 1;
        }
        None
    }

    /// Gives `key` the value `value`, overriding the value it had.
    pub fn insert(&mut self, key: String, value: String)
        ensures
            final(self)@ == with_entry(old(self)@, key@, value@),
            old(self).wf() ==> final(self).wf(),
    {
        let ghost before = self@;
        let mut i: usize = 0;
        while i < self.entries.len()
            invariant
                i <= self.entries.len(),
                self@ == before,
                old(self)@ == before,
                self.entries.deep_view() == before,
                forall|j: int| 0 <= j < i ==> before[j].0 != key@,
            decreases self.entries.len() - i,
        {
            if self.entries[i].0 == key {
                proof {
                    lemma_with_entry_found(before, key@, value@, i as int);
                    if distinct_keys(before) {
                        lemma_with_entry_distinct(before, key@, value@);
                    }
                }
                let ghost k = key@;
                let ghost v = value@;
                self.entries.set(i, (key, value));
                assert(self.entries.deep_view() =~= before.update(i as int, (k, v)));
                return ;
            }
            i = i + 1;
        }
        proof {
            assert(!has_key(before, key@));
            lemma_with_entry_absent(before, key@, value@);
            if distinct_keys(before) {
                lemma_with_entry_distinct(before, key@, value@);
            }
        }
        let ghost k = key@;
        let ghost v = value@;
        self.entries.push((key, value));
        assert(self.entries.deep_view() =~= before.push((k, v)));
    }

    /// The set collected from `pairs`, a later pair overriding an earlier one
    /// that has the same key.
    pub fn from_pairs(pairs: Vec<(String, String)>) -> (out: VariableSet)
        ensures
            out@ == collected(pairs.deep_view()),
            out.wf(),
    {
        let mut out = VariableSet::new();
        let mut i: usize = 0;
        while i < pairs.len()
            invariant
                i <= pairs.len(),
                out@ == collected(pairs.deep_view().take(i as int)),
                out.wf(),
            decreases pairs.len() - i,
        {
            let key = pairs[i].0.clone();
            let value = pairs[i].1.clone();
            proof {
                let next = pairs.deep_view().take(i + 1);
                assert(next.drop_last() =~= pairs.deep_view().take(i as int));
                assert(next.last() == (key@, value@));
            }
            out.insert(key, value);
            i = i + 1;
        }
        assert(pairs.deep_view().take(i as int) =~= pairs.deep_view());
        out
    }

    /// The keys, in the order of the set.
    pub fn keys(&self) -> (out: Vec<String>)
        ensures
            out.deep_view() == self@.map_values(|e: (Seq<char>, Seq<char>)| e.0),
    {
        let mut out: Vec<String> = Vec::new();
        let mut i: usize = 0;
        while i < self.entries.len()
            invariant
                i <= self.entries.len(),
                out.len() == i,
                forall|j: int| 0 <= j < i ==> (#[trigger] out[j])@ == self.entries[j].0@,
            decreases self.entries.len() - i,
        {
            out.push(self.entries[i].0.clone());
            i = i + 1;
        }
        assert(out.deep_view() =~= self@.map_values(|e: (Seq<char>, Seq<char>)| e.0));
        out
    }
}

/// Parses every argument of `args` and collects the variables. The first
/// malformed argument, if there is one, is reported and nothing is
/// collected.
pub fn parse_variables(args: &Vec<String>) -> (r: Result<VariableSet, String>)
    ensures
        match r {
            Ok(vars) => parsed_variables(args.deep_view()) == Ok::<
                Seq<(Seq<char>, Seq<char>)>,
                Seq<char>,
            >(vars@) && vars.wf(),
            Err(message) => parsed_variables(args.deep_view()) == Err::<
                Seq<(Seq<char>, Seq<char>)>,
                Seq<char>,
            >(message@),
        },
{
    let ghost all = args.deep_view();
    let mut vars = VariableSet::new();
    let mut i: usize = 0;
    assert(pairs_of(all).take(0) =~= Seq::<(Seq<char>, Seq<char>)>::empty());
    while i < args.len()
        invariant
            i <= args.len(),
            all == args.deep_view(),
            forall|j: int| 0 <= j < i ==> is_key_value(#[trigger] all[j]),
            vars@ == collected(pairs_of(all).take(i as int)),
            vars.wf(),
        decreases args.len() - i,
    {
        assert(all[i as int] == args[i as int]@);
        match parse_key_val(args[i].as_str()) {
            Ok(pair) => {
                proof {
                    let s = all[i as int];
                    let at = choose|k: int| 0 < k && is_separator(s, k);
                    assert(is_separator(s, at));
                    assert(is_separator(s, separator_of(s)));
                    let next = pairs_of(all).take(i + 1);
                    assert(next.drop_last() =~= pairs_of(all).take(i as int));
                    assert(next.last() == (pair.0@, pair.1@));
                }
                vars.insert(pair.0, pair.1);
            },
            Err(message) => {
                proof {
                    assert(first_invalid(all, i as int));
                    let k = choose|k: int| first_invalid(all, k);
                    assert(first_invalid(all, k));
                    if k < i {
                        assert(is_key_value(all[k]));
                    }
                    if i < k {
                        assert(is_key_value(all[i as int]));
                    }
                    assert(k == i);
                }
                return Err(message);
            },
        }
        i = i + 1;
    }
    assert(pairs_of(all).take(i as int) =~= pairs_of(all));
    Ok(vars)
}

} // verus!

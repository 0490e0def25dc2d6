use indexmap::IndexMap;
use vstd::prelude::*;

use crate::error::BError;
use crate::text::{
    chars_of, joined, lower_of, lowercase, push_all, slice_chars, string_of, upper_of, uppercase,
};
use crate::vars::{
    lemma_index_of, lemma_put, lookup, map_entries, map_entry, map_get, map_insert, map_len,
    map_new, put, put_seq, unique_names, index_of, Entries,
};

verus! {

/// How many substitution passes `expand_str` makes at most.
pub const MAX_PASSES: usize = 10;

/// A character that may stand in a variable name: an ASCII letter or digit, or `_`.
/// Names are plain identifiers; no other form of reference is recognised.
pub open spec fn is_word(c: char) -> bool {
    ('a' <= c && c <= 'z') || ('A' <= c && c <= 'Z') || ('0' <= c && c <= '9') || c == '_'
}

/// The end of the run of name characters that starts at `i`.
pub open spec fn word_end(s: Seq<char>, i: int) -> int
    decreases s.len() - i,
{
    if 0 <= i < s.len() && is_word(s[i]) {
        word_end(s, i + 1)
    } else {
        i
    }
}

/// A template reference `$#[NAME]` starts at `i`.
pub open spec fn ref_at(s: Seq<char>, i: int) -> bool {
    &&& 0 <= i
    &&& i + 3 < s.len()
    &&& s[i] == '$'
    &&& s[i + 1] == '#'
    &&& s[i + 2] == '['
    &&& word_end(s, i + 3) > i + 3
    &&& word_end(s, i + 3) < s.len()
    &&& s[word_end(s, i + 3)] == ']'
}

/// The name of the reference that starts at `i`.
pub open spec fn ref_name(s: Seq<char>, i: int) -> Seq<char> {
    s.subrange(i + 3, word_end(s, i + 3))
}

/// The position just after the reference that starts at `i`.
pub open spec fn ref_end(s: Seq<char>, i: int) -> int {
    word_end(s, i + 3) + 1
}

/// The text holds a template reference somewhere.
pub open spec fn has_ref(s: Seq<char>) -> bool {
    exists|i: int| ref_at(s, i)
}

/// One left-to-right pass over `s[i..]`: the text it produces, the last name
/// that is not defined, and whether a name with an empty value was met.
/// A reference to an undefined or empty variable is kept as it stands.
pub open spec fn pass_from(e: Entries, s: Seq<char>, i: int) -> (Seq<char>, Option<Seq<char>>, bool)
    decreases s.len() - i,
{
    if i < 0 || i >= s.len() {
        (Seq::empty(), None, false)
    } else if ref_at(s, i) {
        let rest = pass_from(e, s, ref_end(s, i));
        let name = ref_name(s, i);
        match lookup(e, lower_of(name)) {
            None => (
                s.subrange(i, ref_end(s, i)) + rest.0,
                if rest.1 is Some {
                    rest.1
                } else {
                    Some(name)
                },
                rest.2,
            ),
            Some(v) => if v.len() == 0 {
                (s.subrange(i, ref_end(s, i)) + rest.0, rest.1, true)
            } else {
                (v + rest.0, rest.1, rest.2)
            },
        }
    } else {
        let rest = pass_from(e, s, i + 1);
        (seq![s[i]] + rest.0, rest.1, rest.2)
    }
}

/// Why an expansion fails.
pub enum ExpandFailure {
    /// A reference to this name, which is not defined.
    Unknown(Seq<char>),
    /// The passes ran out; the text as it stood then.
    Overflow(Seq<char>),
}

/// Expansion of `s` with `passes` passes left.
pub open spec fn expand_from(e: Entries, s: Seq<char>, passes: nat) -> Result<Seq<char>, ExpandFailure>
    decreases passes,
{
    if !has_ref(s) {
        Ok(s)
    } else if passes == 0 {
        Err(ExpandFailure::Overflow(s))
    } else {
        let p = pass_from(e, s, 0);
        if p.1 is Some {
            Err(ExpandFailure::Unknown(p.1.unwrap()))
        } else if p.2 {
            Ok(p.0)
        } else {
            expand_from(e, p.0, (passes - 1) as nat)
        }
    }
}

/// Expansion of `s` against the entries `e`.
pub open spec fn expansion(e: Entries, s: Seq<char>) -> Result<Seq<char>, ExpandFailure> {
    expand_from(e, s, MAX_PASSES as nat)
}

/// The message for a reference to an undefined variable.
pub open spec fn unknown_msg(name: Seq<char>) -> Seq<char> {
    "Failed to expand context: no such variable '$#["@ + upper_of(lower_of(name))
        + "]' in context"@
}

/// The message for an expansion that ran out of passes.
pub open spec fn overflow_msg(s: Seq<char>) -> Seq<char> {
    "Failed to expand context in string '"@ + s + "'"@
}

/// The message of a failed expansion.
pub open spec fn failure_msg(f: ExpandFailure) -> Seq<char> {
    match f {
        ExpandFailure::Unknown(n) => unknown_msg(n),
        ExpandFailure::Overflow(t) => overflow_msg(t),
    }
}

/// `r` is what `expand_str` owes for the expansion `x`.
pub open spec fn expand_matches(x: Result<Seq<char>, ExpandFailure>, r: Result<String, BError>) -> bool {
    match x {
        Ok(t) => r matches Ok(o) && o@ == t,
        Err(ExpandFailure::Unknown(n)) => r matches Err(BError::CtxKeyError(m)) && m@ == unknown_msg(n),
        Err(ExpandFailure::Overflow(t)) => r matches Err(BError::CtxKeyError(m)) && m@ == overflow_msg(t),
    }
}

/// The entries after setting each of `more`, in order, under its lower-case name.
pub open spec fn put_all(e: Entries, more: Entries) -> Entries
    decreases more.len(),
{
    if more.len() == 0 {
        e
    } else {
        put(put_all(e, more.drop_last()), lower_of(more.last().0), more.last().1)
    }
}

/// The value that bulk expansion gives `v`: its expansion, or empty where that fails.
pub open spec fn expanded_or_empty(e: Entries, v: Seq<char>) -> Seq<char> {
    match expansion(e, v) {
        Ok(t) => t,
        Err(_) => Seq::empty(),
    }
}

/// Every entry of `e` with its value expanded against `e`.
pub open spec fn expanded_entries(e: Entries) -> Entries {
    e.map_values(|p: (Seq<char>, Seq<char>)| (p.0, expanded_or_empty(e, p.1)))
}

pub open spec fn opt_chars(o: Option<Vec<char>>) -> Option<Seq<char>> {
    match o {
        Some(v) => Some(v@),
        None => None,
    }
}

pub fn is_word_char(c: char) -> (r: bool)
    ensures
        r == is_word(c),
{
    ('a' <= c && c <= 'z') || ('A' <= c && c <= 'Z') || ('0' <= c && c <= '9') || c == '_'
}

proof fn lemma_word_end_bounds(s: Seq<char>, i: int)
    requires
        0 <= i,
    ensures
        i <= word_end(s, i),
        i <= s.len() ==> word_end(s, i) <= s.len(),
    decreases s.len() - i,
{
    if 0 <= i < s.len() && is_word(s[i]) {
        lemma_word_end_bounds(s, i + 1);
    }
}

/// Whether a reference starts at `i`, and where it ends.
fn reference_at(v: &Vec<char>, i: usize) -> (r: (bool, usize))
    requires
        i < v@.len(),
    ensures
        r.0 == ref_at(v@, i as int),
        r.0 ==> r.1 == ref_end(v@, i as int),
{
    if !(v.len() - i > 3 && v[i] == '$' && v[i + 1] == '#' && v[i + 2] == '[') {
        return (false, 0);
    }
    let mut j: usize = i + 3;
    while j < v.len() && is_word_char(v[j])
        invariant
            i + 3 <= j <= v@.len(),
            word_end(v@, j as int) == word_end(v@, i + 3),
        decreases v@.len() - j,
    {
        j = j + 1;
    }
    if j > i + 3 && j < v.len() && v[j] == ']' {
        (true, j + 1)
    } else {
        (false, 0)
    }
}

/// Whether the text holds a reference anywhere.
fn holds_reference(v: &Vec<char>) -> (r: bool)
    ensures
        r == has_ref(v@),
{
    let mut i: usize = 0;
    while i < v.len()
        invariant
            i <= v@.len(),
            forall|j: int| 0 <= j < i ==> !ref_at(v@, j),
        decreases v@.len() - i,
    {
        let (found, _end) = reference_at(v, i);
        if found {
            return true;
        }
        i = i + 1;
    }
    assert forall|j: int| !ref_at(v@, j) by {
        if 0 <= j < i {
        }
    }
    false
}

/// The variable store and template expander.
pub struct Context {
    variables: IndexMap<String, String>,
}

impl Context {
    /// The entries, under their lower-case names, in insertion order.
    pub closed spec fn entries(&self) -> Entries {
        map_entries(self.variables)
    }

    pub open spec fn wf(&self) -> bool {
        unique_names(self.entries())
    }

    /// The value of a variable, by any spelling of its name.
    pub open spec fn spec_value(&self, key: Seq<char>) -> Option<Seq<char>> {
        lookup(self.entries(), lower_of(key))
    }

    /// A context holding the given variables under their lower-case names.
    pub fn new(variables: &IndexMap<String, String>) -> (r: Self)
        ensures
            r.wf(),
            r.entries() == put_all(Seq::empty(), map_entries(*variables)),
    {
        let mut ctx = Context { variables: map_new() };
        ctx.update(variables);
        ctx
    }

    /// Sets each of the given variables, in order, under its lower-case name;
    /// a later value replaces an earlier one.
    pub fn update(&mut self, variables: &IndexMap<String, String>)
        requires
            old(self).wf(),
        ensures
            final(self).wf(),
            final(self).entries() == put_all(old(self).entries(), map_entries(*variables)),
    {
        let ghost more = map_entries(*variables);
        let n = map_len(variables);
        let mut i: usize = 0;
        while i < n
            invariant
                n == more.len(),
                more == map_entries(*variables),
                i <= n,
                self.wf(),
                self.entries() == put_all(old(self).entries(), more.subrange(0, i as int)),
            decreases n - i,
        {
            if let Some((k, v)) = map_entry(variables, i) {
                let key = lowercase(k.as_str());
                proof {
                    lemma_put(self.entries(), key@, v@);
                }
                map_insert(&mut self.variables, key, v);
                assert(more.subrange(0, i + 1).drop_last() =~= more.subrange(0, i as int));
            }
            i = i + 1;
        }
        assert(more.subrange(0, n as int) =~= more);
    }

    /// Sets every variable of `context` here; its values win.
    pub fn merge(&mut self, context: &Context)
        requires
            old(self).wf(),
        ensures
            final(self).wf(),
            final(self).entries() == put_seq(old(self).entries(), context.entries()),
    {
        self.insert_entries(&context.variables);
    }

    /// Sets each entry of `variables`, in order, under its name as it stands.
    fn insert_entries(&mut self, variables: &IndexMap<String, String>)
        requires
            old(self).wf(),
        ensures
            final(self).wf(),
            final(self).entries() == put_seq(old(self).entries(), map_entries(*variables)),
    {
        let ghost more = map_entries(*variables);
        let n = map_len(variables);
        let mut i: usize = 0;
        while i < n
            invariant
                n == more.len(),
                more == map_entries(*variables),
                i <= n,
                self.wf(),
                self.entries() == put_seq(old(self).entries(), more.subrange(0, i as int)),
            decreases n - i,
        {
            if let Some((k, v)) = map_entry(variables, i) {
                proof {
                    lemma_put(self.entries(), k@, v@);
                }
                map_insert(&mut self.variables, k, v);
                assert(more.subrange(0, i + 1).drop_last() =~= more.subrange(0, i as int));
            }
            i = i + 1;
        }
        assert(more.subrange(0, n as int) =~= more);
    }

    /// The stored variables.
    pub fn variables(&self) -> (r: &IndexMap<String, String>)
        ensures
            map_entries(*r) == self.entries(),
    {
        &self.variables
    }

    /// The value of a variable, or an empty string where it is not defined.
    pub fn value(&self, key: &str) -> (r: String)
        ensures
            r@ == match self.spec_value(key@) {
                Some(v) => v,
                None => Seq::empty(),
            },
    {
        let k = lowercase(key);
        match map_get(&self.variables, k.as_str()) {
            Some(v) => v,
            None => String::new(),
        }
    }

    /// One pass over the text.
    fn expand_pass(&self, v: &Vec<char>) -> (r: (Vec<char>, Option<Vec<char>>, bool))
        ensures
            r.0@ == pass_from(self.entries(), v@, 0).0,
            opt_chars(r.1) == pass_from(self.entries(), v@, 0).1,
            r.2 == pass_from(self.entries(), v@, 0).2,
    {
        let ghost e = self.entries();
        let ghost s = v@;
        let ghost whole = pass_from(e, s, 0);
        let mut out: Vec<char> = Vec::new();
        let mut undefined: Option<Vec<char>> = None;
        let mut empty: bool = false;
        let mut i: usize = 0;
        while i < v.len()
            invariant
                e == self.entries(),
                s == v@,
                whole == pass_from(e, s, 0),
                i <= s.len(),
                out@ + pass_from(e, s, i as int).0 == whole.0,
                (if pass_from(e, s, i as int).1 is Some {
                    pass_from(e, s, i as int).1
                } else {
                    opt_chars(undefined)
                }) == whole.1,
                (empty || pass_from(e, s, i as int).2) == whole.2,
            decreases s.len() - i,
        {
            let ghost out0 = out@;
            let (found, end) = reference_at(v, i);
            if found {
                proof {
                    lemma_word_end_bounds(s, i + 3);
                }
                let name = slice_chars(v, i + 3, end - 1);
                let name_text = string_of(&name);
                let key = lowercase(name_text.as_str());
                let whole_ref = slice_chars(v, i, end);
                match map_get(&self.variables, key.as_str()) {
                    None => {
                        push_all(&mut out, &whole_ref);
                        undefined = Some(name);
                    },
                    Some(val) => {
                        let val_chars = chars_of(val.as_str());
                        if val_chars.len() == 0 {
                            push_all(&mut out, &whole_ref);
                            empty = true;
                        } else {
                            push_all(&mut out, &val_chars);
                        }
                    },
                }
                assert(out@ + pass_from(e, s, end as int).0 =~= out0 + pass_from(e, s, i as int).0);
                i = end;
            } else {
                out.push(v[i]);
                assert(out@ + pass_from(e, s, i + 1).0 =~= out0 + pass_from(e, s, i as int).0);
                i = i + 1;
            }
        }
        (out, undefined, empty)
    }

    /// Expands every template reference in `s`, pass by pass.
    pub fn expand_str(&self, s: &str) -> (r: Result<String, BError>)
        ensures
            expand_matches(expansion(self.entries(), s@), r),
    {
        let ghost e = self.entries();
        let mut cur = chars_of(s);
        let mut passes: usize = 0;
        loop
            invariant
                e == self.entries(),
                passes <= MAX_PASSES,
                expand_from(e, cur@, (MAX_PASSES - passes) as nat) == expansion(e, s@),
            decreases MAX_PASSES - passes,
        {
            if !holds_reference(&cur) {
                return Ok(string_of(&cur));
            }
            if passes == MAX_PASSES {
                let text = string_of(&cur);
                let m = joined("Failed to expand context in string '", text.as_str());
                return Err(BError::CtxKeyError(joined(m.as_str(), "'")));
            }
            let (out, undefined, empty) = self.expand_pass(&cur);
            if let Some(name) = undefined {
                let name_text = string_of(&name);
                let lower = lowercase(name_text.as_str());
                let upper = uppercase(lower.as_str());
                let m = joined("Failed to expand context: no such variable '$#[", upper.as_str());
                return Err(BError::CtxKeyError(joined(m.as_str(), "]' in context")));
            }
            if empty {
                return Ok(string_of(&out));
            }
            cur = out;
            passes = passes + 1;
        }
    }

    /// Re-expands every stored value against the store itself. A value whose
    /// expansion fails becomes empty; the call itself never fails.
    pub fn expand(&mut self) -> (r: Result<(), BError>)
        requires
            old(self).wf(),
        ensures
            r is Ok,
            final(self).wf(),
            final(self).entries() == put_seq(
                old(self).entries(),
                expanded_entries(old(self).entries()),
            ),
    {
        let ghost e = self.entries();
        let ghost target = expanded_entries(e);
        let mut expanded = map_new();
        let n = map_len(&self.variables);
        let mut i: usize = 0;
        while i < n
            invariant
                e == self.entries(),
                self.wf(),
                target == expanded_entries(e),
                n == e.len(),
                i <= n,
                map_entries(expanded) == target.subrange(0, i as int),
            decreases n - i,
        {
            if let Some((k, v)) = map_entry(&self.variables, i) {
                let value = match self.expand_str(v.as_str()) {
                    Ok(t) => t,
                    Err(_) => String::new(),
                };
                proof {
                    let cur = map_entries(expanded);
                    lemma_index_of(cur, k@);
                    if index_of(cur, k@) >= 0 {
                        let j = index_of(cur, k@);
                        assert(cur[j].0 == e[j].0);
                    }
                }
                map_insert(&mut expanded, k, value);
                assert(map_entries(expanded) =~= target.subrange(0, i + 1));
            }
            i = i + 1;
        }
        assert(target.subrange(0, n as int) =~= target);
        self.insert_entries(&expanded);
        Ok(())
    }

    /// `expand_str` on the text of a path.
    pub fn expand_path(&self, p: &str) -> (r: Result<String, BError>)
        ensures
            expand_matches(expansion(self.entries(), p@), r),
    {
        self.expand_str(p)
    }
}


/// The reference `$#[n]` as text.
pub open spec fn reference(n: Seq<char>) -> Seq<char> {
    seq!['$', '#', '['] + n + seq![']']
}

/// A non-empty run of name characters.
pub open spec fn is_name(n: Seq<char>) -> bool {
    n.len() > 0 && forall|i: int| 0 <= i < n.len() ==> is_word(#[trigger] n[i])
}

proof fn lemma_word_end_run(s: Seq<char>, i: int, j: int)
    requires
        0 <= i <= j <= s.len(),
        forall|x: int| i <= x < j ==> is_word(#[trigger] s[x]),
        j == s.len() || !is_word(s[j]),
    ensures
        word_end(s, i) == j,
    decreases j - i,
{
    if i < j {
        lemma_word_end_run(s, i + 1, j);
    }
}

proof fn lemma_word_end_words(s: Seq<char>, i: int, x: int)
    requires
        0 <= i <= x < word_end(s, i),
    ensures
        is_word(s[x]),
    decreases s.len() - i,
{
    if x > i {
        lemma_word_end_words(s, i + 1, x);
    }
}

/// The text `$#[n]` is one reference, and a single pass replaces it whole.
proof fn lemma_reference(e: Entries, n: Seq<char>)
    requires
        is_name(n),
    ensures
        ref_at(reference(n), 0),
        has_ref(reference(n)),
        ref_name(reference(n), 0) == n,
        ref_end(reference(n), 0) == reference(n).len(),
        pass_from(e, reference(n), 0) == (match lookup(e, lower_of(n)) {
            None => (reference(n), Some(n), false),
            Some(v) => if v.len() == 0 {
                (reference(n), None::<Seq<char>>, true)
            } else {
                (v, None::<Seq<char>>, false)
            },
        }),
{
    let s = reference(n);
    let end = n.len() as int + 3;
    assert forall|x: int| 3 <= x < end implies is_word(#[trigger] s[x]) by {
        assert(s[x] == n[x - 3]);
    }
    lemma_word_end_run(s, 3, end);
    assert(ref_at(s, 0));
    assert(s.subrange(3, end) =~= n);
    assert(s.subrange(0, end + 1) =~= s);
    let rest = pass_from(e, s, end + 1);
    assert(rest == (Seq::<char>::empty(), None::<Seq<char>>, false));
    assert(s + Seq::<char>::empty() =~= s);
    match lookup(e, lower_of(n)) {
        Some(v) => {
            assert(v + Seq::<char>::empty() =~= v);
        },
        None => {},
    }
}

/// A fully defined chain of names, each value but the last a reference to the next.
pub open spec fn is_chain(e: Entries, names: Seq<Seq<char>>, last: Seq<char>) -> bool {
    &&& names.len() > 0
    &&& forall|j: int| 0 <= j < names.len() ==> is_name(#[trigger] names[j])
    &&& forall|j: int|
        0 <= j < names.len() - 1 ==> lookup(e, lower_of(#[trigger] names[j])) == Some(
            reference(names[j + 1]),
        )
    &&& lookup(e, lower_of(names.last())) == Some(last)
    &&& last.len() > 0
    &&& !has_ref(last)
}

proof fn lemma_chain_from(e: Entries, names: Seq<Seq<char>>, last: Seq<char>, j: int, passes: nat)
    requires
        is_chain(e, names, last),
        0 <= j < names.len(),
        passes >= names.len() - j,
    ensures
        expand_from(e, reference(names[j]), passes) == Ok::<Seq<char>, ExpandFailure>(last),
    decreases names.len() - j,
{
    lemma_reference(e, names[j]);
    if j + 1 < names.len() {
        lemma_chain_from(e, names, last, j + 1, (passes - 1) as nat);
    } else {
        assert(names[j] == names.last());
        assert(expand_from(e, last, (passes - 1) as nat) == Ok::<Seq<char>, ExpandFailure>(last));
    }
}

/// A chain of at most `MAX_PASSES` defined, non-empty variables expands, from a
/// reference to its first name, to the value at its end.
pub proof fn lemma_chain_expands(e: Entries, names: Seq<Seq<char>>, last: Seq<char>)
    requires
        is_chain(e, names, last),
        names.len() <= MAX_PASSES,
    ensures
        expansion(e, reference(names[0])) == Ok::<Seq<char>, ExpandFailure>(last),
{
    lemma_chain_from(e, names, last, 0, MAX_PASSES as nat);
}

/// A reference at `j` is met by the pass that starts at or before it.
proof fn lemma_pass_meets(e: Entries, s: Seq<char>, k: int, j: int)
    requires
        0 <= k <= j,
        ref_at(s, j),
        lookup(e, lower_of(ref_name(s, j))) is None,
    ensures
        pass_from(e, s, k).1 is Some,
    decreases s.len() - k,
{
    if k == j {
    } else if ref_at(s, k) {
        let end = ref_end(s, k);
        lemma_word_end_bounds(s, k + 3);
        if j < end {
            if j < k + 3 {
            } else if j < end - 1 {
                lemma_word_end_words(s, k + 3, j);
            }
        }
        lemma_pass_meets(e, s, end, j);
    } else {
        lemma_pass_meets(e, s, k + 1, j);
    }
}

/// The name a pass reports is one that is not defined.
proof fn lemma_pass_reports_undefined(e: Entries, s: Seq<char>, k: int)
    requires
        0 <= k,
    ensures
        pass_from(e, s, k).1 matches Some(n) ==> lookup(e, lower_of(n)) is None,
    decreases s.len() - k,
{
    if k < s.len() {
        if ref_at(s, k) {
            lemma_word_end_bounds(s, k + 3);
            lemma_pass_reports_undefined(e, s, ref_end(s, k));
        } else {
            lemma_pass_reports_undefined(e, s, k + 1);
        }
    }
}

/// The name a pass reports is the name of a reference in the text.
proof fn lemma_pass_reports_reference(e: Entries, s: Seq<char>, k: int)
    requires
        0 <= k,
    ensures
        pass_from(e, s, k).1 matches Some(n) ==> exists|j: int|
            k <= j && ref_at(s, j) && lookup(e, lower_of(ref_name(s, j))) is None && ref_name(s, j) == n,
    decreases s.len() - k,
{
    if k < s.len() {
        if ref_at(s, k) {
            lemma_word_end_bounds(s, k + 3);
            lemma_pass_reports_reference(e, s, ref_end(s, k));
        } else {
            lemma_pass_reports_reference(e, s, k + 1);
        }
    }
}

/// Text that refers to an undefined variable `x` fails to expand, whatever else
/// it holds; the error names an undefined variable of the text, and names `x`
/// where every undefined reference in the text is to `x`.
pub proof fn lemma_undefined_fails(e: Entries, s: Seq<char>, i: int)
    requires
        ref_at(s, i),
        lookup(e, lower_of(ref_name(s, i))) is None,
    ensures
        expansion(e, s) matches Err(ExpandFailure::Unknown(n)) && lookup(e, lower_of(n)) is None,
        (forall|j: int|
            ref_at(s, j) && lookup(e, lower_of(ref_name(s, j))) is None ==> ref_name(s, j)
                == ref_name(s, i)) ==> expansion(e, s) == Err::<Seq<char>, ExpandFailure>(
            ExpandFailure::Unknown(ref_name(s, i)),
        ),
{
    lemma_pass_meets(e, s, 0, i);
    lemma_pass_reports_undefined(e, s, 0);
    lemma_pass_reports_reference(e, s, 0);
}

/// A pass that meets no undefined reference reports none.
proof fn lemma_pass_defined(e: Entries, s: Seq<char>, k: int)
    requires
        0 <= k,
        forall|j: int| ref_at(s, j) ==> lookup(e, lower_of(ref_name(s, j))) is Some,
    ensures
        pass_from(e, s, k).1 is None,
    decreases s.len() - k,
{
    if k < s.len() {
        if ref_at(s, k) {
            lemma_word_end_bounds(s, k + 3);
            lemma_pass_defined(e, s, ref_end(s, k));
        } else {
            lemma_pass_defined(e, s, k + 1);
        }
    }
}

/// Text whose references are all defined, one of them with an empty value,
/// expands in one pass and no further pass runs: the result is the text after
/// that pass, and it still holds template syntax, the empty one as written.
pub proof fn lemma_empty_stops(e: Entries, s: Seq<char>, i: int)
    requires
        ref_at(s, i),
        lookup(e, lower_of(ref_name(s, i))) == Some(Seq::<char>::empty()),
        forall|j: int| ref_at(s, j) ==> lookup(e, lower_of(ref_name(s, j))) is Some,
    ensures
        expansion(e, s) == Ok::<Seq<char>, ExpandFailure>(pass_from(e, s, 0).0),
        has_ref(pass_from(e, s, 0).0),
{
    lemma_pass_defined(e, s, 0);
    lemma_pass_meets_empty(e, s, 0, i);
    lemma_pass_keeps_reference(e, s, 0, i);
}

/// A reference stays one when the text around it changes: `t[p..]` as a
/// reference depends only on its own characters.
proof fn lemma_ref_moves(t: Seq<char>, p: int, u: Seq<char>, q: int)
    requires
        ref_at(t, p),
        0 <= q,
        q + ref_end(t, p) - p <= u.len(),
        u.subrange(q, q + ref_end(t, p) - p) == t.subrange(p, ref_end(t, p)),
    ensures
        ref_at(u, q),
        ref_end(u, q) - q == ref_end(t, p) - p,
{
    let we = word_end(t, p + 3);
    let len = ref_end(t, p) - p;
    lemma_word_end_bounds(t, p + 3);
    let us = u.subrange(q, q + len);
    let ts = t.subrange(p, ref_end(t, p));
    assert forall|x: int| q + 3 <= x < q + (we - p) implies is_word(#[trigger] u[x]) by {
        lemma_word_end_words(t, p + 3, p + (x - q));
        assert(us[x - q] == ts[x - q]);
    }
    assert(us[we - p] == ts[we - p]);
    lemma_word_end_run(u, q + 3, q + (we - p));
    assert(us[0] == ts[0]);
    assert(us[1] == ts[1]);
    assert(us[2] == ts[2]);
}

/// A pass that meets an empty-valued reference at `j` keeps a reference in its text.
proof fn lemma_pass_keeps_reference(e: Entries, s: Seq<char>, k: int, j: int)
    requires
        0 <= k <= j,
        ref_at(s, j),
        lookup(e, lower_of(ref_name(s, j))) == Some(Seq::<char>::empty()),
    ensures
        has_ref(pass_from(e, s, k).0),
    decreases s.len() - k,
{
    let out = pass_from(e, s, k).0;
    if k == j {
        lemma_word_end_bounds(s, k + 3);
        let len = ref_end(s, k) - k;
        assert(out.subrange(0, len) =~= s.subrange(k, ref_end(s, k)));
        lemma_ref_moves(s, k, out, 0);
    } else {
        let next = if ref_at(s, k) {
            ref_end(s, k)
        } else {
            k + 1
        };
        if ref_at(s, k) {
            let end = ref_end(s, k);
            lemma_word_end_bounds(s, k + 3);
            if j < end {
                if j < k + 3 {
                } else if j < end - 1 {
                    lemma_word_end_words(s, k + 3, j);
                }
            }
        }
        lemma_pass_keeps_reference(e, s, next, j);
        let rest = pass_from(e, s, next).0;
        let p = choose|p: int| ref_at(rest, p);
        let head = out.len() - rest.len();
        assert(out.subrange(head, out.len() as int) =~= rest);
        lemma_word_end_bounds(rest, p + 3);
        let len = ref_end(rest, p) - p;
        assert(out.subrange(head + p, head + p + len) =~= rest.subrange(p, ref_end(rest, p)));
        lemma_ref_moves(rest, p, out, head + p);
    }
}

/// An empty-valued reference at `j` is met by the pass that starts at or before it.
proof fn lemma_pass_meets_empty(e: Entries, s: Seq<char>, k: int, j: int)
    requires
        0 <= k <= j,
        ref_at(s, j),
        lookup(e, lower_of(ref_name(s, j))) == Some(Seq::<char>::empty()),
    ensures
        pass_from(e, s, k).2,
    decreases s.len() - k,
{
    if k == j {
    } else if ref_at(s, k) {
        let end = ref_end(s, k);
        lemma_word_end_bounds(s, k + 3);
        if j < end {
            if j < k + 3 {
            } else if j < end - 1 {
                lemma_word_end_words(s, k + 3, j);
            }
        }
        lemma_pass_meets_empty(e, s, end, j);
    } else {
        lemma_pass_meets_empty(e, s, k + 1, j);
    }
}

proof fn lemma_cycle_from(e: Entries, a: Seq<char>, b: Seq<char>, passes: nat)
    requires
        is_name(a),
        is_name(b),
        lookup(e, lower_of(a)) == Some(reference(b)),
        lookup(e, lower_of(b)) == Some(reference(a)),
    ensures
        expand_from(e, reference(a), passes) == Err::<Seq<char>, ExpandFailure>(
            ExpandFailure::Overflow(if passes % 2 == 0 { reference(a) } else { reference(b) }),
        ),
    decreases passes,
{
    lemma_reference(e, a);
    lemma_reference(e, b);
    if passes > 0 {
        lemma_cycle_from(e, b, a, (passes - 1) as nat);
    }
}

/// Two variables that refer to each other exhaust every pass: the expansion fails
/// with the overflow error, holding the text after the last pass.
pub proof fn lemma_cycle_overflows(e: Entries, a: Seq<char>, b: Seq<char>)
    requires
        is_name(a),
        is_name(b),
        lookup(e, lower_of(a)) == Some(reference(b)),
        lookup(e, lower_of(b)) == Some(reference(a)),
    ensures
        expansion(e, reference(a)) == Err::<Seq<char>, ExpandFailure>(
            ExpandFailure::Overflow(reference(a)),
        ),
{
    lemma_cycle_from(e, a, b, MAX_PASSES as nat);
}

/// The value that the last entry of `more` named `k` (in lower case) sets.
pub open spec fn last_set(more: Entries, k: Seq<char>) -> Option<Seq<char>>
    decreases more.len(),
{
    if more.len() == 0 {
        None
    } else if lower_of(more.last().0) == k {
        Some(more.last().1)
    } else {
        last_set(more.drop_last(), k)
    }
}

/// Updating is right-biased: after setting `more`, a name holds the value of the
/// last entry of `more` that sets it, and keeps its old value where none does.
pub proof fn lemma_update_right_biased(e: Entries, more: Entries, k: Seq<char>)
    requires
        unique_names(e),
    ensures
        unique_names(put_all(e, more)),
        lookup(put_all(e, more), k) == match last_set(more, k) {
            Some(v) => Some(v),
            None => lookup(e, k),
        },
    decreases more.len(),
{
    if more.len() > 0 {
        let d = more.drop_last();
        lemma_update_right_biased(e, d, k);
        lemma_put(put_all(e, d), lower_of(more.last().0), more.last().1);
    }
}


/// Merging is right-biased: after `a.merge(b)`, a name that `b` holds has
/// `b`'s value, and any other name keeps its value in `a`.
pub proof fn lemma_merge_right_biased(a: Context, b: Context, key: Seq<char>)
    requires
        a.wf(),
    ensures
        lookup(put_seq(a.entries(), b.entries()), lower_of(key)) == match b.spec_value(key) {
            Some(v) => Some(v),
            None => a.spec_value(key),
        },
{
    crate::vars::lemma_put_seq_right_biased(a.entries(), b.entries(), lower_of(key));
}

} // verus!

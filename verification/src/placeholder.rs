//! The placeholder grammar: `{{name}}`, where `name` is one or more word
//! characters, and the substitution of placeholders in a text.
use vstd::prelude::*;

verus! {

/// Whether `c` is a Unicode word character, as `regex_syntax` decides it.
pub uninterp spec fn word_char(c: char) -> bool;

/// Calls `regex_syntax::try_is_word_character`, which tells whether a
/// character is a Unicode word character (letters, marks, decimal digits,
/// connector punctuation and join controls). Its answer depends on the
/// character alone; `word_char` is the name of that answer.
#[verifier::external_body]
pub(crate) fn is_word_char(c: char) -> (b: bool)
    ensures
        b == word_char(c),
{
    matches!(regex_syntax::try_is_word_character(c), Ok(true))
}

/// Whether `c` is a brace.
pub open spec fn is_brace(c: char) -> bool {
    c == '{' || c == '}'
}

/// Whether `c` may stand in a placeholder's name: a word character. No
/// brace is one.
pub open spec fn name_char(c: char) -> bool {
    word_char(c) && !is_brace(c)
}

/// The number of name characters of `s` that follow one another from `i` on.
pub open spec fn word_run(s: Seq<char>, i: int) -> nat
    decreases s.len() - i,
{
    if 0 <= i < s.len() && name_char(s[i]) {
        1 + word_run(s, i + 1)
    } else {
        0
    }
}

/// Whether a placeholder begins at position `i` of `s`: two opening braces,
/// a name of at least one name character, two closing braces.
pub open spec fn placeholder_at(s: Seq<char>, i: int) -> bool {
    let n = word_run(s, i + 2);
    &&& 0 <= i
    &&& i + n + 4 <= s.len()
    &&& s[i] == '{'
    &&& s[i + 1] == '{'
    &&& n >= 1
    &&& s[i + 2 + n] == '}'
    &&& s[i + 3 + n] == '}'
}

/// The length of the placeholder that begins at `i`, braces included.
pub open spec fn placeholder_len(s: Seq<char>, i: int) -> int {
    word_run(s, i + 2) as int + 4
}

/// The name of the placeholder that begins at `i`.
pub open spec fn placeholder_name(s: Seq<char>, i: int) -> Seq<char> {
    s.subrange(i + 2, i + 2 + word_run(s, i + 2))
}

/// The text of `s` from `i` on, with every placeholder whose name is bound
/// in `vars` replaced by its value. Placeholders are found from left to
/// right and do not overlap; one whose name is not bound stays as it is.
pub open spec fn substitute_from(s: Seq<char>, i: int, vars: Map<Seq<char>, Seq<char>>) -> Seq<
    char,
>
    decreases s.len() - i,
{
    if i < 0 || i >= s.len() {
        Seq::empty()
    } else if placeholder_at(s, i) {
        let name = placeholder_name(s, i);
        let end = i + placeholder_len(s, i);
        let put = if vars.contains_key(name) {
            vars[name]
        } else {
            s.subrange(i, end)
        };
        put + substitute_from(s, end, vars)
    } else {
        seq![s[i]] + substitute_from(s, i + 1, vars)
    }
}

/// The text `s` with its placeholders substituted from `vars`.
pub open spec fn substitute(s: Seq<char>, vars: Map<Seq<char>, Seq<char>>) -> Seq<char> {
    substitute_from(s, 0, vars)
}

/// The run of name characters from `i` on ends inside the text, holds name
/// characters only and cannot be longer.
pub proof fn lemma_word_run_bound(s: Seq<char>, i: int)
    requires
        0 <= i <= s.len(),
    ensures
        i + word_run(s, i) <= s.len(),
        forall|j: int| i <= j < i + word_run(s, i) ==> name_char(#[trigger] s[j]),
        i + word_run(s, i) < s.len() ==> !name_char(s[i + word_run(s, i)]),
    decreases s.len() - i,
{
    if i < s.len() && name_char(s[i]) {
        lemma_word_run_bound(s, i + 1);
    }
}

/// Finds the end of the run of name characters that begins at `from`.
fn word_run_end(s: &Vec<char>, from: usize) -> (end: usize)
    requires
        from <= s.len(),
    ensures
        end == from + word_run(s@, from as int),
        end <= s.len(),
{
    let mut j: usize = from;
    while j < s.len() && s[j] != '{' && s[j] != '}' && is_word_char(s[j])
        invariant
            from <= j <= s.len(),
            word_run(s@, from as int) == (j - from) + word_run(s@, j as int),
        decreases s.len() - j,
    {
        j = j + 1;
    }
    j
}

/// Tells whether a placeholder begins at `i`, and if so where its name ends.
pub fn placeholder_name_end(s: &Vec<char>, i: usize) -> (r: Option<usize>)
    requires
        i < s.len(),
    ensures
        match r {
            Some(e) => placeholder_at(s@, i as int) && e == i + 2 + word_run(s@, i + 2) && e + 2
                <= s.len(),
            None => !placeholder_at(s@, i as int),
        },
{
    if s.len() - i < 5 {
        proof {
            if i + 2 <= s.len() {
                lemma_word_run_bound(s@, i + 2);
            }
        }
        return None;
    }
    if s[i] != '{' || s[i + 1] != '{' {
        return None;
    }
    let e = word_run_end(s, i + 2);
    if e == i + 2 {
        return None;
    }
    if s.len() - e < 2 {
        return None;
    }
    if s[e] != '}' || s[e + 1] != '}' {
        return None;
    }
    Some(e)
}

/// Appends the characters of `src` from `from` up to `to` to `out`.
pub fn append_range(out: &mut Vec<char>, src: &Vec<char>, from: usize, to: usize)
    requires
        from <= to <= src.len(),
    ensures
        final(out)@ == old(out)@ + src@.subrange(from as int, to as int),
{
    let mut k: usize = from;
    while k < to
        invariant
            from <= k <= to <= src.len(),
            out@ == old(out)@ + src@.subrange(from as int, k as int),
        decreases to - k,
    {
        out.push(src[k]);
        k = k + 1;
        assert(src@.subrange(from as int, k as int) == src@.subrange(from as int, k - 1).push(
            src@[k - 1],
        ));
    }
}

/// Whether, from `i` on, every brace of `s` belongs to a placeholder.
pub open spec fn braces_in_placeholders_from(s: Seq<char>, i: int) -> bool
    decreases s.len() - i,
{
    if i < 0 || i >= s.len() {
        true
    } else if placeholder_at(s, i) {
        braces_in_placeholders_from(s, i + placeholder_len(s, i))
    } else {
        !is_brace(s[i]) && braces_in_placeholders_from(s, i + 1)
    }
}

/// Whether every brace of `s` belongs to a placeholder.
pub open spec fn braces_in_placeholders(s: Seq<char>) -> bool {
    braces_in_placeholders_from(s, 0)
}

/// Whether `s` does not hold the character `c`.
pub open spec fn lacks(s: Seq<char>, c: char) -> bool {
    forall|j: int| 0 <= j < s.len() ==> #[trigger] s[j] != c
}

/// Whether `vars` binds the name of every placeholder of `s`.
pub open spec fn placeholders_bound(s: Seq<char>, vars: Map<Seq<char>, Seq<char>>) -> bool {
    forall|i: int| #[trigger] placeholder_at(s, i) ==> vars.contains_key(placeholder_name(s, i))
}

/// Whether `vars` binds the name of no placeholder of `s`.
pub open spec fn placeholders_unbound(s: Seq<char>, vars: Map<Seq<char>, Seq<char>>) -> bool {
    forall|i: int| #[trigger] placeholder_at(s, i) ==> !vars.contains_key(placeholder_name(s, i))
}

/// Whether none of the values that `vars` gives to the placeholders of `s`
/// holds the character `c`.
pub open spec fn bound_values_lack(s: Seq<char>, vars: Map<Seq<char>, Seq<char>>, c: char) -> bool {
    forall|i: int|
        #[trigger] placeholder_at(s, i) && vars.contains_key(placeholder_name(s, i)) ==> lacks(
            vars[placeholder_name(s, i)],
            c,
        )
}

proof fn lemma_unbound_from(s: Seq<char>, i: int, vars: Map<Seq<char>, Seq<char>>)
    requires
        0 <= i <= s.len(),
        placeholders_unbound(s, vars),
    ensures
        substitute_from(s, i, vars) == s.subrange(i, s.len() as int),
    decreases s.len() - i,
{
    if i < s.len() {
        if placeholder_at(s, i) {
            let end = i + placeholder_len(s, i);
            lemma_unbound_from(s, end, vars);
            assert(s.subrange(i, end) + s.subrange(end, s.len() as int) == s.subrange(
                i,
                s.len() as int,
            ));
        } else {
            lemma_unbound_from(s, i + 1, vars);
            assert(seq![s[i]] + s.subrange(i + 1, s.len() as int) == s.subrange(
                i,
                s.len() as int,
            ));
        }
    } else {
        assert(s.subrange(i, s.len() as int) == Seq::<char>::empty());
    }
}

/// A text none of whose placeholders is bound comes out as it went in:
/// each unresolved placeholder stays, braces included.
pub proof fn lemma_unbound_placeholders_stay(s: Seq<char>, vars: Map<Seq<char>, Seq<char>>)
    requires
        placeholders_unbound(s, vars),
    ensures
        substitute(s, vars) == s,
{
    lemma_unbound_from(s, 0, vars);
    assert(s.subrange(0, s.len() as int) == s);
}

proof fn lemma_brace_lacking_from(
    s: Seq<char>,
    i: int,
    vars: Map<Seq<char>, Seq<char>>,
    c: char,
)
    requires
        0 <= i <= s.len(),
        is_brace(c),
        braces_in_placeholders_from(s, i),
        placeholders_bound(s, vars),
        bound_values_lack(s, vars, c),
    ensures
        lacks(substitute_from(s, i, vars), c),
    decreases s.len() - i,
{
    if i < s.len() {
        if placeholder_at(s, i) {
            lemma_brace_lacking_from(s, i + placeholder_len(s, i), vars, c);
        } else {
            lemma_brace_lacking_from(s, i + 1, vars, c);
        }
    }
}

/// Where every brace of a text belongs to a placeholder and every
/// placeholder is bound, no placeholder is left in the outcome, unless the
/// values that are put in bring both an opening and a closing brace.
pub proof fn lemma_bound_placeholders_vanish(s: Seq<char>, vars: Map<Seq<char>, Seq<char>>)
    requires
        braces_in_placeholders(s),
        placeholders_bound(s, vars),
        bound_values_lack(s, vars, '{') || bound_values_lack(s, vars, '}'),
    ensures
        forall|j: int| !placeholder_at(substitute(s, vars), j),
{
    let out = substitute(s, vars);
    if bound_values_lack(s, vars, '{') {
        lemma_brace_lacking_from(s, 0, vars, '{');
        assert forall|j: int| !placeholder_at(out, j) by {
            if placeholder_at(out, j) {
                assert(out[j] == '{');
            }
        }
    } else {
        lemma_brace_lacking_from(s, 0, vars, '}');
        assert forall|j: int| !placeholder_at(out, j) by {
            if placeholder_at(out, j) {
                let n = word_run(out, j + 2);
                assert(out[j + 2 + n] == '}');
            }
        }
    }
}

/// The text of the placeholder for `name`.
pub open spec fn placeholder_text(name: Seq<char>) -> Seq<char> {
    seq!['{', '{'] + name + seq!['}', '}']
}

proof fn lemma_word_run_of_name(s: Seq<char>, i: int, end: int)
    requires
        0 <= i <= end <= s.len(),
        forall|j: int| i <= j < end ==> name_char(#[trigger] s[j]),
        end < s.len() ==> !name_char(s[end]),
    ensures
        word_run(s, i) == end - i,
    decreases end - i,
{
    if i < end {
        lemma_word_run_of_name(s, i + 1, end);
    }
}

/// A name between double braces is a placeholder: it gives way to the
/// value of a bound name, and stays as it is otherwise.
pub proof fn lemma_single_placeholder(name: Seq<char>, vars: Map<Seq<char>, Seq<char>>)
    requires
        name.len() >= 1,
        forall|j: int| 0 <= j < name.len() ==> name_char(#[trigger] name[j]),
    ensures
        placeholder_at(placeholder_text(name), 0),
        placeholder_name(placeholder_text(name), 0) == name,
        vars.contains_key(name) ==> substitute(placeholder_text(name), vars) == vars[name],
        !vars.contains_key(name) ==> substitute(placeholder_text(name), vars) == placeholder_text(
            name,
        ),
{
    let s = placeholder_text(name);
    let n = name.len() as int;
    assert(s.len() == n + 4);
    assert forall|j: int| 2 <= j < 2 + n implies name_char(#[trigger] s[j]) by {
        assert(s[j] == name[j - 2]);
    }
    assert(s[2 + n] == '}');
    lemma_word_run_of_name(s, 2, 2 + n);
    assert(placeholder_at(s, 0));
    assert(placeholder_name(s, 0) == name);
    assert(substitute_from(s, n + 4, vars) == Seq::<char>::empty());
    assert(s.subrange(0, n + 4) == s);
    if vars.contains_key(name) {
        assert(vars[name] + Seq::<char>::empty() == vars[name]);
    } else {
        assert(s + Seq::<char>::empty() == s);
    }
}

} // verus!

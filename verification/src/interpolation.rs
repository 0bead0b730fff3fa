//! The variable store and the interpolation of `{{name}}` placeholders.
use crate::placeholder::{
    append_range, placeholder_name, placeholder_name_end, substitute, substitute_from,
};
use crate::json::{json_parsed, json_text, parse, render};
use crate::models::{duplicate_optional_text, optional_text, Request, RequestBody};
use crate::string_map::{
    distinct_keys, lemma_absent_after_prefix, lemma_map_pair_values, map_pair_values, StringMap,
};
use crate::text::{
    find_char, first_position, part_views, split_chars, split_on, to_chars, to_text, trim_range,
    trimmed,
};
use vstd::prelude::*;

verus! {

/// What a body becomes under the bindings `vars`. A text has its
/// placeholders substituted. A JSON document is rendered, substituted and
/// parsed again; where the outcome is no valid JSON it stays a text.
pub open spec fn body_interpolated(before: RequestBody, after: RequestBody, vars: Map<
    Seq<char>,
    Seq<char>,
>) -> bool {
    match before {
        RequestBody::Text(t) => after matches RequestBody::Text(x) && x@ == substitute(t@, vars),
        RequestBody::Json(v) => {
            let text = substitute(json_text(v), vars);
            match json_parsed(text) {
                Some(doc) => after matches RequestBody::Json(p) && json_text(p) == doc,
                None => after matches RequestBody::Text(x) && x@ == text,
            }
        },
    }
}

/// Whether `after` is the request `before` with its placeholders
/// substituted from `vars`: in the URL, in every header and query value
/// and in the body. Name, method and notes are those of `before`, and so
/// are the keys of headers and query parameters and their order.
pub open spec fn request_interpolated(before: Request, after: Request, vars: Map<
    Seq<char>,
    Seq<char>,
>) -> bool {
    &&& after.name@ == before.name@
    &&& after.method == before.method
    &&& optional_text(after.notes) == optional_text(before.notes)
    &&& after.url@ == substitute(before.url@, vars)
    &&& after.headers@ == before.headers@.map_values(|v: Seq<char>| substitute(v, vars))
    &&& after.headers.pairs() == map_pair_values(
        before.headers.pairs(),
        |v: Seq<char>| substitute(v, vars),
    )
    &&& after.query@ == before.query@.map_values(|v: Seq<char>| substitute(v, vars))
    &&& after.query.pairs() == map_pair_values(
        before.query.pairs(),
        |v: Seq<char>| substitute(v, vars),
    )
    &&& match before.body {
        Some(b) => after.body matches Some(a) && body_interpolated(b, a, vars),
        None => after.body is None,
    }
}

/// The body that an interpolated JSON rendering gives: the parsed document
/// where there is one, the text itself otherwise.
pub fn body_from_interpolated(text: String, parsed: Option<serde_json::Value>) -> (b: RequestBody)
    ensures
        match parsed {
            Some(doc) => b == RequestBody::Json(doc),
            None => b == RequestBody::Text(text),
        },
{
    match parsed {
        Some(doc) => RequestBody::Json(doc),
        None => RequestBody::Text(text),
    }
}

/// The binding that a line of a variable file holds: none where the line
/// is blank or begins with `#` or holds no `=`; else the text before the
/// first `=` as the key and the text behind it as the value, each without
/// the white space around it.
pub open spec fn line_binding(line: Seq<char>) -> Option<(Seq<char>, Seq<char>)> {
    let t = trimmed(line);
    if t.len() == 0 || t[0] == '#' {
        None
    } else {
        match first_position(t, '=') {
            Some(i) => Some((trimmed(t.subrange(0, i)), trimmed(t.subrange(i + 1, t.len() as int)))),
            None => None,
        }
    }
}

/// The bindings `vars` after the bindings of `lines` were added in order;
/// a later binding of a key replaces an earlier one.
pub open spec fn with_lines(vars: Map<Seq<char>, Seq<char>>, lines: Seq<Seq<char>>) -> Map<
    Seq<char>,
    Seq<char>,
>
    decreases lines.len(),
{
    if lines.len() == 0 {
        vars
    } else {
        let before = with_lines(vars, lines.drop_last());
        match line_binding(lines.last()) {
            Some((key, value)) => before.insert(key, value),
            None => before,
        }
    }
}

/// The bindings `vars` after the text of a variable file was read: one
/// line after the other.
pub open spec fn with_env_text(vars: Map<Seq<char>, Seq<char>>, content: Seq<char>) -> Map<
    Seq<char>,
    Seq<char>,
> {
    with_lines(vars, split_on(content, '\n'))
}

/// Adding lines to bindings comes to laying the bindings of the lines
/// over them.
pub proof fn lemma_with_lines_overlay(vars: Map<Seq<char>, Seq<char>>, lines: Seq<Seq<char>>)
    ensures
        with_lines(vars, lines) == vars.union_prefer_right(
            with_lines(Map::<Seq<char>, Seq<char>>::empty(), lines),
        ),
    decreases lines.len(),
{
    let none = Map::<Seq<char>, Seq<char>>::empty();
    if lines.len() == 0 {
        assert(vars =~= vars.union_prefer_right(none));
    } else {
        lemma_with_lines_overlay(vars, lines.drop_last());
        let before = with_lines(none, lines.drop_last());
        match line_binding(lines.last()) {
            Some((key, value)) => {
                assert(vars.union_prefer_right(before).insert(key, value)
                    =~= vars.union_prefer_right(before.insert(key, value)));
            },
            None => {},
        }
    }
}

/// Reading a variable file a second time changes nothing.
pub proof fn lemma_load_env_idempotent(vars: Map<Seq<char>, Seq<char>>, content: Seq<char>)
    ensures
        with_env_text(with_env_text(vars, content), content) == with_env_text(vars, content),
{
    let lines = split_on(content, '\n');
    let read = with_lines(Map::<Seq<char>, Seq<char>>::empty(), lines);
    lemma_with_lines_overlay(vars, lines);
    lemma_with_lines_overlay(vars.union_prefer_right(read), lines);
    assert(vars.union_prefer_right(read).union_prefer_right(read) =~= vars.union_prefer_right(
        read,
    ));
}

/// Reads the binding that a line holds.
pub fn parse_env_line(line: &Vec<char>) -> (r: Option<(String, String)>)
    ensures
        match r {
            Some((key, value)) => line_binding(line@) == Some((key@, value@)),
            None => line_binding(line@) is None,
        },
{
    let t = trim_range(line, 0, line.len());
    assert(line@.subrange(0, line.len() as int) == line@);
    if t.len() == 0 || t[0] == '#' {
        return None;
    }
    match find_char(&t, '=') {
        Some(i) => {
            let key = trim_range(&t, 0, i);
            let value = trim_range(&t, i + 1, t.len());
            Some((to_text(&key), to_text(&value)))
        },
        None => None,
    }
}

/// A layered variable store. A name is looked up among the variables set
/// in memory first, then among those read from the variable file, then in
/// the process environment as it was handed in.
#[derive(Debug)]
pub struct VariableInterpolator {
    pub in_memory: StringMap,
    pub env_vars: StringMap,
    pub process_env: StringMap,
}

impl View for VariableInterpolator {
    type V = Map<Seq<char>, Seq<char>>;

    /// The bindings in force: each layer overrides those below it.
    open spec fn view(&self) -> Map<Seq<char>, Seq<char>> {
        self.process_env@.union_prefer_right(self.env_vars@).union_prefer_right(self.in_memory@)
    }
}

impl Clone for VariableInterpolator {
    fn clone(&self) -> (r: VariableInterpolator)
        ensures
            r.in_memory.pairs() == self.in_memory.pairs(),
            r.env_vars.pairs() == self.env_vars.pairs(),
            r.process_env.pairs() == self.process_env.pairs(),
            r@ == self@,
    {
        VariableInterpolator {
            in_memory: self.in_memory.clone(),
            env_vars: self.env_vars.clone(),
            process_env: self.process_env.clone(),
        }
    }
}

impl VariableInterpolator {
    /// The value that `name` resolves to, if any layer binds it.
    pub open spec fn resolve(self, name: Seq<char>) -> Option<Seq<char>> {
        if self.in_memory@.contains_key(name) {
            Some(self.in_memory@[name])
        } else if self.env_vars@.contains_key(name) {
            Some(self.env_vars@[name])
        } else if self.process_env@.contains_key(name) {
            Some(self.process_env@[name])
        } else {
            None
        }
    }

    /// A store without bindings.
    pub fn new() -> (r: VariableInterpolator)
        ensures
            r.in_memory@ == Map::<Seq<char>, Seq<char>>::empty(),
            r.env_vars@ == Map::<Seq<char>, Seq<char>>::empty(),
            r.process_env@ == Map::<Seq<char>, Seq<char>>::empty(),
            r@ == Map::<Seq<char>, Seq<char>>::empty(),
    {
        let r = VariableInterpolator {
            in_memory: StringMap::new(),
            env_vars: StringMap::new(),
            process_env: StringMap::new(),
        };
        assert(r@ =~= Map::<Seq<char>, Seq<char>>::empty());
        r
    }

    /// A store without variables of its own over the given process
    /// environment.
    pub fn with_process_env(process_env: StringMap) -> (r: VariableInterpolator)
        ensures
            r.in_memory@ == Map::<Seq<char>, Seq<char>>::empty(),
            r.env_vars@ == Map::<Seq<char>, Seq<char>>::empty(),
            r.process_env == process_env,
            r@ == process_env@,
    {
        let r = VariableInterpolator {
            in_memory: StringMap::new(),
            env_vars: StringMap::new(),
            process_env,
        };
        assert(r@ =~= process_env@);
        r
    }

    /// Takes in the text of a variable file: each line that holds a
    /// binding is added to the variables of the file layer.
    pub fn load_env_text(&mut self, content: &str)
        ensures
            final(self).env_vars@ == with_env_text(old(self).env_vars@, content@),
            final(self).in_memory == old(self).in_memory,
            final(self).process_env == old(self).process_env,
    {
        let chars = to_chars(content);
        let lines = split_chars(&chars, '\n');
        let ghost all = part_views(lines@);
        let mut i: usize = 0;
        assert(all.take(0) == Seq::<Seq<char>>::empty());
        while i < lines.len()
            invariant
                i <= lines.len(),
                all == part_views(lines@),
                self.env_vars@ == with_lines(old(self).env_vars@, all.take(i as int)),
                self.in_memory == old(self).in_memory,
                self.process_env == old(self).process_env,
            decreases lines.len() - i,
        {
            proof {
                assert(all.take(i + 1).drop_last() == all.take(i as int));
                assert(all.take(i + 1).last() == lines@[i as int]@);
            }
            match parse_env_line(&lines[i]) {
                Some((key, value)) => {
                    self.env_vars.insert(key, value);
                },
                None => {},
            }
            i = i + 1;
        }
        assert(all.take(lines.len() as int) == all);
    }

    /// Binds `key` to `value` in memory, over every other layer.
    pub fn set_variable(&mut self, key: String, value: String)
        ensures
            final(self).in_memory@ == old(self).in_memory@.insert(key@, value@),
            final(self).env_vars == old(self).env_vars,
            final(self).process_env == old(self).process_env,
            final(self)@ == old(self)@.insert(key@, value@),
            final(self).resolve(key@) == Some(value@),
    {
        self.in_memory.insert(key, value);
        assert(self@ =~= old(self)@.insert(key@, value@));
    }

    /// Looks `key` up through the layers.
    pub fn get_variable(&self, key: &str) -> (r: Option<String>)
        ensures
            match r {
                Some(v) => self.resolve(key@) == Some(v@),
                None => self.resolve(key@) is None,
            },
            match r {
                Some(v) => self@.contains_key(key@) && self@[key@] == v@,
                None => !self@.contains_key(key@),
            },
    {
        match self.in_memory.get(key) {
            Some(v) => Some(v.clone()),
            None => match self.env_vars.get(key) {
                Some(v) => Some(v.clone()),
                None => match self.process_env.get(key) {
                    Some(v) => Some(v.clone()),
                    None => None,
                },
            },
        }
    }

    /// Replaces every placeholder of `input` whose name resolves by its
    /// value, and leaves the others as they are.
    pub fn interpolate_string(&self, input: &str) -> (out: String)
        ensures
            out@ == substitute(input@, self@),
    {
        let s = to_chars(input);
        let mut out: Vec<char> = Vec::new();
        let mut i: usize = 0;
        while i < s.len()
            invariant
                i <= s.len(),
                out@ + substitute_from(s@, i as int, self@) == substitute_from(s@, 0, self@),
            decreases s.len() - i,
        {
            let ghost rest = substitute_from(s@, i as int, self@);
            match placeholder_name_end(&s, i) {
                Some(e) => {
                    let mut name: Vec<char> = Vec::new();
                    append_range(&mut name, &s, i + 2, e);
                    assert(name@ == placeholder_name(s@, i as int));
                    let key = to_text(&name);
                    let ghost before = out@;
                    match self.get_variable(key.as_str()) {
                        Some(v) => {
                            let value = to_chars(v.as_str());
                            append_range(&mut out, &value, 0, value.len());
                            assert(value@.subrange(0, value.len() as int) == value@);
                        },
                        None => {
                            append_range(&mut out, &s, i, e + 2);
                        },
                    }
                    assert(out@ + substitute_from(s@, e + 2, self@) == before + rest);
                    i = e + 2;
                },
                None => {
                    out.push(s[i]);
                    assert(out@ + substitute_from(s@, i + 1, self@) == (out@.drop_last() + rest));
                    i = i + 1;
                },
            }
        }
        assert(out@ + Seq::<char>::empty() == out@);
        to_text(&out)
    }
    /// The map `m` with the placeholders of every value substituted; the keys
    /// and their order stay.
    pub fn interpolate_map(&self, m: &StringMap) -> (out: StringMap)
        ensures
            out.pairs() == map_pair_values(m.pairs(), |v: Seq<char>| substitute(v, self@)),
            out@ == m@.map_values(|v: Seq<char>| substitute(v, self@)),
    {
        let ghost f = |v: Seq<char>| substitute(v, self@);
        let n = m.len();
        let ghost target = map_pair_values(m.pairs(), f);
        proof {
            lemma_map_pair_values(m.pairs(), f);
        }
        let mut out = StringMap::new();
        let mut i: usize = 0;
        while i < n
            invariant
                i <= n,
                n == m.pairs().len(),
                target == map_pair_values(m.pairs(), f),
                f == (|v: Seq<char>| substitute(v, self@)),
                distinct_keys(target),
                out.pairs() == target.subrange(0, i as int),
            decreases n - i,
        {
            let k = m.key_at(i).clone();
            let v = self.interpolate_string(m.value_at(i).as_str());
            proof {
                lemma_absent_after_prefix(target, i as int);
            }
            out.insert(k, v);
            assert(out.pairs() == target.subrange(0, i + 1));
            i = i + 1;
        }
        assert(target.subrange(0, n as int) == target);
        out
    }

    /// The request with the placeholders of its URL, of every header and
    /// query value and of its body substituted. Name, method and notes pass
    /// through as they are.
    pub fn interpolate_request(&self, request: &Request) -> (out: Request)
        ensures
            out.name@ == request.name@,
            out.method == request.method,
            request_interpolated(*request, out, self@),
    {
        let body = match &request.body {
            Some(RequestBody::Text(t)) => Some(
                RequestBody::Text(self.interpolate_string(t.as_str())),
            ),
            Some(RequestBody::Json(v)) => {
                let rendered = render(v);
                let text = self.interpolate_string(rendered.as_str());
                let parsed = parse(text.as_str());
                Some(body_from_interpolated(text, parsed))
            },
            None => None,
        };
        Request {
            name: request.name.clone(),
            method: request.method,
            url: self.interpolate_string(request.url.as_str()),
            headers: self.interpolate_map(&request.headers),
            query: self.interpolate_map(&request.query),
            body,
            notes: duplicate_optional_text(&request.notes),
        }
    }
}

impl Default for VariableInterpolator {
    fn default() -> (r: VariableInterpolator)
        ensures
            r@ == Map::<Seq<char>, Seq<char>>::empty(),
    {
        VariableInterpolator::new()
    }
}

} // verus!

//! A JSON document drawn as a tree of lines: objects and arrays can be
//! opened and closed, and each part of a line has its style.
use crate::components::JsonTreeComponent;
use crate::json::{
    array_length, element, json_element, json_keys, json_kind, json_length, json_member,
    json_string, json_text, kind_of, member, object_keys, render, string_content, text_views,
    JsonKind,
};
use crate::text::{decimal, push_decimal, push_text, to_text};
use vstd::prelude::*;

verus! {

/// How a part of a line is to be shown.
#[derive(Debug, Clone, Copy, PartialEq, Eq, Structural)]
pub enum SpanStyle {
    /// Indentation and punctuation.
    Plain,
    /// The mark that tells whether a node is open.
    Icon,
    /// The key of a member.
    Key,
    /// The index of an element.
    Index,
    /// A string.
    Text,
    /// A number.
    Number,
    /// A boolean.
    Boolean,
    /// The null value.
    Null,
}

/// A part of a line.
#[derive(Debug)]
pub struct TreeSpan {
    pub text: String,
    pub style: SpanStyle,
}

/// A line of the tree.
#[derive(Debug)]
pub struct TreeLine {
    pub spans: Vec<TreeSpan>,
}

impl View for TreeSpan {
    type V = (Seq<char>, SpanStyle);

    open spec fn view(&self) -> (Seq<char>, SpanStyle) {
        (self.text@, self.style)
    }
}

impl View for TreeLine {
    type V = Seq<(Seq<char>, SpanStyle)>;

    open spec fn view(&self) -> Seq<(Seq<char>, SpanStyle)> {
        self.spans@.map_values(|s: TreeSpan| s@)
    }
}

/// What a list of lines holds.
pub open spec fn line_views(lines: Seq<TreeLine>) -> Seq<Seq<(Seq<char>, SpanStyle)>> {
    lines.map_values(|l: TreeLine| l@)
}

/// The indentation at a depth: two spaces for each level.
pub open spec fn indent(depth: usize) -> Seq<char> {
    Seq::new(2 * depth as nat, |i: int| ' ')
}

/// The mark of a node: one for an open node, one for a closed one.
pub open spec fn icon(is_open: bool) -> Seq<char> {
    if is_open {
        "\u{25bc}"@
    } else {
        "\u{25b6}"@
    }
}

/// A text between double quotes.
pub open spec fn quoted(text: Seq<char>) -> Seq<char> {
    "\""@ + text + "\""@
}

/// An index between square brackets.
pub open spec fn bracketed(index: nat) -> Seq<char> {
    "["@ + decimal(index) + "]"@
}

/// The path of the member under `key` of the node at `path`.
pub open spec fn member_path(path: Seq<char>, key: Seq<char>) -> Seq<char> {
    if path.len() == 0 {
        key
    } else {
        path + "."@ + key
    }
}

/// The path of the element at `index` of the node at `path`.
pub open spec fn element_path(path: Seq<char>, index: nat) -> Seq<char> {
    if path.len() == 0 {
        decimal(index)
    } else {
        path + bracketed(index)
    }
}

/// The depth of the parts of a node at `depth`.
pub open spec fn child_depth(depth: usize) -> usize {
    if depth < usize::MAX {
        (depth + 1) as usize
    } else {
        depth
    }
}

/// The line of a value that has no parts.
pub open spec fn leaf_line(depth: usize, text: Seq<char>, style: SpanStyle) -> Seq<
    (Seq<char>, SpanStyle),
> {
    seq![(indent(depth), SpanStyle::Plain), (text, style)]
}

/// The first line of an object or an array.
pub open spec fn header_line(depth: usize, is_open: bool, tail: Seq<char>) -> Seq<
    (Seq<char>, SpanStyle),
> {
    seq![
        (indent(depth), SpanStyle::Plain),
        (icon(is_open), SpanStyle::Icon),
        (tail, SpanStyle::Plain),
    ]
}

/// The line that names a part of an open node.
pub open spec fn label_line(depth: usize, label: Seq<char>, style: SpanStyle) -> Seq<
    (Seq<char>, SpanStyle),
> {
    seq![(indent(depth) + "  "@, SpanStyle::Plain), (label, style), (": "@, SpanStyle::Plain)]
}

/// The last line of an open node.
pub open spec fn closing_line(depth: usize, bracket: Seq<char>) -> Seq<(Seq<char>, SpanStyle)> {
    seq![(indent(depth) + bracket, SpanStyle::Plain)]
}

/// What follows the opening bracket of an array's first line.
pub open spec fn items_text(length: nat) -> Seq<char> {
    " ["@ + decimal(length) + " items]"@
}

/// The lines of the document rendered as `doc`, which stands at `path` and
/// `depth`, where `open` holds the paths of the open nodes. A closed
/// object or array is one line. An open one is followed by its parts, each
/// under a line that names it, and by a closing line.
pub open spec fn tree_lines(open: Set<Seq<char>>, doc: Seq<char>, path: Seq<char>, depth: usize) -> Seq<
    Seq<(Seq<char>, SpanStyle)>,
>
    decreases doc.len(), 1nat, 0nat,
{
    match json_kind(doc) {
        JsonKind::Object => {
            let head = seq![header_line(depth, open.contains(path), " {"@)];
            if open.contains(path) {
                head + member_lines(open, doc, path, depth, json_keys(doc).len())
                    + seq![closing_line(depth, "}"@)]
            } else {
                head
            }
        },
        JsonKind::Array => {
            let head = seq![
                header_line(depth, open.contains(path), items_text(json_length(doc))),
            ];
            if open.contains(path) {
                head + element_lines(open, doc, path, depth, json_length(doc))
                    + seq![closing_line(depth, "]"@)]
            } else {
                head
            }
        },
        JsonKind::Text => seq![
            leaf_line(
                depth,
                quoted(
                    match json_string(doc) {
                        Some(s) => s,
                        None => Seq::empty(),
                    },
                ),
                SpanStyle::Text,
            ),
        ],
        JsonKind::Number => seq![leaf_line(depth, doc, SpanStyle::Number)],
        JsonKind::Bool => seq![leaf_line(depth, doc, SpanStyle::Boolean)],
        JsonKind::Null => seq![leaf_line(depth, "null"@, SpanStyle::Null)],
    }
}

/// The lines of the first `n` members of an open object.
pub open spec fn member_lines(
    open: Set<Seq<char>>,
    doc: Seq<char>,
    path: Seq<char>,
    depth: usize,
    n: nat,
) -> Seq<Seq<(Seq<char>, SpanStyle)>>
    decreases doc.len(), 0nat, n,
{
    if n == 0 {
        Seq::empty()
    } else {
        let key = json_keys(doc)[n - 1];
        member_lines(open, doc, path, depth, (n - 1) as nat) + seq![
            label_line(depth, quoted(key), SpanStyle::Key),
        ] + match json_member(doc, key) {
            Some(part) => if part.len() < doc.len() {
                tree_lines(open, part, member_path(path, key), child_depth(depth))
            } else {
                Seq::empty()
            },
            None => Seq::empty(),
        }
    }
}

/// The lines of the first `n` elements of an open array.
pub open spec fn element_lines(
    open: Set<Seq<char>>,
    doc: Seq<char>,
    path: Seq<char>,
    depth: usize,
    n: nat,
) -> Seq<Seq<(Seq<char>, SpanStyle)>>
    decreases doc.len(), 0nat, n,
{
    if n == 0 {
        Seq::empty()
    } else {
        let index = (n - 1) as nat;
        element_lines(open, doc, path, depth, index) + seq![
            label_line(depth, bracketed(index), SpanStyle::Index),
        ] + match json_element(doc, index) {
            Some(part) => if part.len() < doc.len() {
                tree_lines(open, part, element_path(path, index), child_depth(depth))
            } else {
                Seq::empty()
            },
            None => Seq::empty(),
        }
    }
}

/// Appends the indentation at `depth` to `out`.
fn push_indent(out: &mut Vec<char>, depth: usize)
    ensures
        final(out)@ == old(out)@ + indent(depth),
{
    let mut i: usize = 0;
    while i < depth
        invariant
            i <= depth,
            out@ == old(out)@ + indent(i),
        decreases depth - i,
    {
        out.push(' ');
        out.push(' ');
        i = i + 1;
        assert(out@ =~= old(out)@ + indent(i));
    }
    assert(out@ =~= old(out)@ + indent(depth));
}

/// A span with the given text and style.
fn span(text: String, style: SpanStyle) -> (s: TreeSpan)
    ensures
        s@ == (text@, style),
{
    TreeSpan { text, style }
}

/// The indentation at `depth`, followed by `tail`.
fn indented(depth: usize, tail: &str) -> (s: String)
    ensures
        s@ == indent(depth) + tail@,
{
    let mut out: Vec<char> = Vec::new();
    push_indent(&mut out, depth);
    push_text(&mut out, tail);
    assert(out@ =~= indent(depth) + tail@);
    to_text(&out)
}

/// The line of a value that has no parts.
fn make_leaf_line(depth: usize, text: String, style: SpanStyle) -> (line: TreeLine)
    ensures
        line@ == leaf_line(depth, text@, style),
{
    let mut spans: Vec<TreeSpan> = Vec::new();
    spans.push(span(indented(depth, ""), SpanStyle::Plain));
    spans.push(span(text, style));
    let line = TreeLine { spans };
    assert(indent(depth) + ""@ =~= indent(depth)) by {
        reveal_strlit("");
    }
    assert(line@ =~= leaf_line(depth, text@, style));
    line
}

/// The first line of an object or an array.
fn make_header_line(depth: usize, is_open: bool, tail: String) -> (line: TreeLine)
    ensures
        line@ == header_line(depth, is_open, tail@),
{
    let mark = if is_open {
        "\u{25bc}"
    } else {
        "\u{25b6}"
    };
    let mut spans: Vec<TreeSpan> = Vec::new();
    spans.push(span(indented(depth, ""), SpanStyle::Plain));
    spans.push(span(String::from_str(mark), SpanStyle::Icon));
    spans.push(span(tail, SpanStyle::Plain));
    let line = TreeLine { spans };
    assert(indent(depth) + ""@ =~= indent(depth)) by {
        reveal_strlit("");
    }
    assert(line@ =~= header_line(depth, is_open, tail@));
    line
}

/// The line that names a part of an open node.
fn make_label_line(depth: usize, label: String, style: SpanStyle) -> (line: TreeLine)
    ensures
        line@ == label_line(depth, label@, style),
{
    let mut spans: Vec<TreeSpan> = Vec::new();
    spans.push(span(indented(depth, "  "), SpanStyle::Plain));
    spans.push(span(label, style));
    spans.push(span(String::from_str(": "), SpanStyle::Plain));
    let line = TreeLine { spans };
    assert(line@ =~= label_line(depth, label@, style));
    line
}

/// The last line of an open node.
fn make_closing_line(depth: usize, bracket: &str) -> (line: TreeLine)
    ensures
        line@ == closing_line(depth, bracket@),
{
    let mut spans: Vec<TreeSpan> = Vec::new();
    spans.push(span(indented(depth, bracket), SpanStyle::Plain));
    let line = TreeLine { spans };
    assert(line@ =~= closing_line(depth, bracket@));
    line
}

/// A text between double quotes.
fn quote(text: &str) -> (s: String)
    ensures
        s@ == quoted(text@),
{
    let mut out: Vec<char> = Vec::new();
    push_text(&mut out, "\"");
    push_text(&mut out, text);
    push_text(&mut out, "\"");
    to_text(&out)
}

/// The path of the member under `key` of the node at `path`.
fn make_member_path(path: &str, key: &str) -> (s: String)
    ensures
        s@ == member_path(path@, key@),
{
    if path.unicode_len() == 0 {
        String::from_str(key)
    } else {
        let mut out: Vec<char> = Vec::new();
        push_text(&mut out, path);
        push_text(&mut out, ".");
        push_text(&mut out, key);
        to_text(&out)
    }
}

/// An index between square brackets.
fn bracket(index: usize) -> (s: String)
    ensures
        s@ == bracketed(index as nat),
{
    let mut out: Vec<char> = Vec::new();
    push_text(&mut out, "[");
    push_decimal(&mut out, index as u64);
    push_text(&mut out, "]");
    to_text(&out)
}

/// The path of the element at `index` of the node at `path`.
fn make_element_path(path: &str, index: usize) -> (s: String)
    ensures
        s@ == element_path(path@, index as nat),
{
    let mut out: Vec<char> = Vec::new();
    if path.unicode_len() == 0 {
        push_decimal(&mut out, index as u64);
    } else {
        push_text(&mut out, path);
        push_text(&mut out, "[");
        push_decimal(&mut out, index as u64);
        push_text(&mut out, "]");
        assert(out@ =~= path@ + bracketed(index as nat));
    }
    to_text(&out)
}

/// What follows the opening bracket of an array's first line.
fn make_items_text(length: usize) -> (s: String)
    ensures
        s@ == items_text(length as nat),
{
    let mut out: Vec<char> = Vec::new();
    push_text(&mut out, " [");
    push_decimal(&mut out, length as u64);
    push_text(&mut out, " items]");
    to_text(&out)
}

impl JsonTreeComponent {
    /// The lines of `json`, which stands at `path` and `depth`.
    pub fn render_json_tree(&self, json: &serde_json::Value, path: &str, depth: usize) -> (lines:
        Vec<TreeLine>)
        ensures
            line_views(lines@) == tree_lines(
                self.expanded_paths@,
                json_text(*json),
                path@,
                depth,
            ),
        decreases json_text(*json).len(),
    {
        let ghost open = self.expanded_paths@;
        let ghost doc = json_text(*json);
        let deeper: usize = if depth < usize::MAX {
            depth + 1
        } else {
            depth
        };
        let mut lines: Vec<TreeLine> = Vec::new();
        match kind_of(json) {
            JsonKind::Object => {
                let is_open = self.expanded_paths.contains(path);
                lines.push(make_header_line(depth, is_open, String::from_str(" {")));
                let ghost head = line_views(lines@);
                assert(head =~= seq![header_line(depth, is_open, " {"@)]);
                if is_open {
                    let keys = object_keys(json);
                    let mut k: usize = 0;
                    assert(head + member_lines(open, doc, path@, depth, 0) =~= head);
                    while k < keys.len()
                        invariant
                            k <= keys.len(),
                            open == self.expanded_paths@,
                            doc == json_text(*json),
                            text_views(keys@) == json_keys(doc),
                            deeper == child_depth(depth),
                            line_views(lines@) == head + member_lines(
                                open,
                                doc,
                                path@,
                                depth,
                                k as nat,
                            ),
                        decreases keys.len() - k,
                    {
                        let ghost before = line_views(lines@);
                        let key = keys[k].as_str();
                        assert(json_keys(doc)[k as int] == key@) by {
                            assert(text_views(keys@)[k as int] == keys@[k as int]@);
                        }
                        lines.push(make_label_line(depth, quote(key), SpanStyle::Key));
                        let ghost labelled = line_views(lines@);
                        assert(labelled =~= before + seq![
                            label_line(depth, quoted(key@), SpanStyle::Key),
                        ]);
                        match member(json, key) {
                            Some(part) => {
                                let part_path = make_member_path(path, key);
                                let mut sub = self.render_json_tree(
                                    part,
                                    part_path.as_str(),
                                    deeper,
                                );
                                let ghost sub_views = line_views(sub@);
                                lines.append(&mut sub);
                                assert(line_views(lines@) =~= labelled + sub_views);
                            },
                            None => {
                                assert(line_views(lines@) =~= labelled + Seq::<
                                    Seq<(Seq<char>, SpanStyle)>,
                                >::empty());
                            },
                        }
                        k = k + 1;
                        assert(line_views(lines@) =~= head + member_lines(
                            open,
                            doc,
                            path@,
                            depth,
                            k as nat,
                        ));
                    }
                    let ghost body = line_views(lines@);
                    lines.push(make_closing_line(depth, "}"));
                    assert(line_views(lines@) =~= body + seq![closing_line(depth, "}"@)]);
                    assert(keys@.len() == json_keys(doc).len()) by {
                        assert(text_views(keys@).len() == keys@.len());
                    }
                }
            },
            JsonKind::Array => {
                let is_open = self.expanded_paths.contains(path);
                let length = array_length(json);
                lines.push(make_header_line(depth, is_open, make_items_text(length)));
                let ghost head = line_views(lines@);
                assert(head =~= seq![header_line(depth, is_open, items_text(length as nat))]);
                if is_open {
                    let mut k: usize = 0;
                    assert(head + element_lines(open, doc, path@, depth, 0) =~= head);
                    while k < length
                        invariant
                            k <= length,
                            open == self.expanded_paths@,
                            doc == json_text(*json),
                            length == json_length(doc),
                            deeper == child_depth(depth),
                            line_views(lines@) == head + element_lines(
                                open,
                                doc,
                                path@,
                                depth,
                                k as nat,
                            ),
                        decreases length - k,
                    {
                        let ghost before = line_views(lines@);
                        lines.push(make_label_line(depth, bracket(k), SpanStyle::Index));
                        let ghost labelled = line_views(lines@);
                        assert(labelled =~= before + seq![
                            label_line(depth, bracketed(k as nat), SpanStyle::Index),
                        ]);
                        match element(json, k) {
                            Some(part) => {
                                let part_path = make_element_path(path, k);
                                let mut sub = self.render_json_tree(
                                    part,
                                    part_path.as_str(),
                                    deeper,
                                );
                                let ghost sub_views = line_views(sub@);
                                lines.append(&mut sub);
                                assert(line_views(lines@) =~= labelled + sub_views);
                            },
                            None => {
                                assert(line_views(lines@) =~= labelled + Seq::<
                                    Seq<(Seq<char>, SpanStyle)>,
                                >::empty());
                            },
                        }
                        k = k + 1;
                        assert(line_views(lines@) =~= head + element_lines(
                            open,
                            doc,
                            path@,
                            depth,
                            k as nat,
                        ));
                    }
                    let ghost body = line_views(lines@);
                    lines.push(make_closing_line(depth, "]"));
                    assert(line_views(lines@) =~= body + seq![closing_line(depth, "]"@)]);
                }
            },
            JsonKind::Text => {
                let content = match string_content(json) {
                    Some(s) => s,
                    None => String::new(),
                };
                lines.push(make_leaf_line(depth, quote(content.as_str()), SpanStyle::Text));
                assert(line_views(lines@) =~= tree_lines(open, doc, path@, depth));
            },
            JsonKind::Number => {
                lines.push(make_leaf_line(depth, render(json), SpanStyle::Number));
                assert(line_views(lines@) =~= tree_lines(open, doc, path@, depth));
            },
            JsonKind::Bool => {
                lines.push(make_leaf_line(depth, render(json), SpanStyle::Boolean));
                assert(line_views(lines@) =~= tree_lines(open, doc, path@, depth));
            },
            JsonKind::Null => {
                lines.push(make_leaf_line(depth, String::from_str("null"), SpanStyle::Null));
                assert(line_views(lines@) =~= tree_lines(open, doc, path@, depth));
            },
        }
        lines
    }
}

} // verus!

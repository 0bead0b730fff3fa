//! What the display says: titles, hints and the words for a state. How it
//! is drawn is left to the caller.
use crate::models::HttpMethod;
use crate::state::{AppMode, ResponseTab};
use crate::text::{decimal, push_decimal, push_text, to_text};
use vstd::prelude::*;

verus! {

/// The hint on the keys that work in a mode.
pub open spec fn hint_text(mode: AppMode, is_executing: bool) -> Seq<char> {
    match mode {
        AppMode::Normal => if is_executing {
            "Executing... Press q to quit"@
        } else {
            "Enter: run | e: edit | v: variables | h: history | /: filter | q: quit"@
        },
        AppMode::Filter => "Type to filter, Enter: apply, Esc: cancel"@,
        AppMode::Variables => "Esc: back to main"@,
        AppMode::History => "\u{2191}\u{2193}: navigate, Enter: select, Esc: back"@,
        AppMode::Command => "e: edit request, Esc: cancel"@,
    }
}

/// The hint on the keys that work in `mode`.
pub fn keybindings(mode: AppMode, is_executing: bool) -> (hint: &'static str)
    ensures
        hint@ == hint_text(mode, is_executing),
{
    match mode {
        AppMode::Normal => {
            if is_executing {
                "Executing... Press q to quit"
            } else {
                "Enter: run | e: edit | v: variables | h: history | /: filter | q: quit"
            }
        },
        AppMode::Filter => "Type to filter, Enter: apply, Esc: cancel",
        AppMode::Variables => "Esc: back to main",
        AppMode::History => "\u{2191}\u{2193}: navigate, Enter: select, Esc: back",
        AppMode::Command => "e: edit request, Esc: cancel",
    }
}

/// The title of the list of requests: how many of how many are listed,
/// and the filter where there is one.
pub open spec fn list_title_text(listed: usize, total: usize, filter: Seq<char>) -> Seq<char> {
    let counts = "Requests ("@ + decimal(listed as nat) + "/"@ + decimal(total as nat) + ")"@;
    if filter.len() == 0 {
        counts
    } else {
        counts + " - Filter: '"@ + filter + "'"@
    }
}

/// The title of the list of requests.
pub fn request_list_title(listed: usize, total: usize, filter: &str) -> (title: String)
    ensures
        title@ == list_title_text(listed, total, filter@),
{
    let mut out: Vec<char> = Vec::new();
    push_text(&mut out, "Requests (");
    push_decimal(&mut out, listed as u64);
    push_text(&mut out, "/");
    push_decimal(&mut out, total as u64);
    push_text(&mut out, ")");
    if filter.unicode_len() > 0 {
        push_text(&mut out, " - Filter: '");
        push_text(&mut out, filter);
        push_text(&mut out, "'");
    }
    to_text(&out)
}

/// The colours in which the display marks things.
#[derive(Debug, Clone, Copy, PartialEq, Eq, Structural)]
pub enum Tint {
    Green,
    Yellow,
    Blue,
    Magenta,
    Red,
    White,
}

/// The colour of a method in the list of requests.
pub fn method_tint(method: HttpMethod) -> (t: Tint)
    ensures
        t == match method {
            HttpMethod::Get => Tint::Green,
            HttpMethod::Post => Tint::Yellow,
            HttpMethod::Put => Tint::Blue,
            HttpMethod::Patch => Tint::Magenta,
            HttpMethod::Delete => Tint::Red,
            HttpMethod::Head => Tint::White,
            HttpMethod::Options => Tint::White,
        },
{
    match method {
        HttpMethod::Get => Tint::Green,
        HttpMethod::Post => Tint::Yellow,
        HttpMethod::Put => Tint::Blue,
        HttpMethod::Patch => Tint::Magenta,
        HttpMethod::Delete => Tint::Red,
        _ => Tint::White,
    }
}

/// The colour of a status in the history: green from 200 up to 299, red
/// for every other.
pub fn status_tint(status: u16) -> (t: Tint)
    ensures
        t == if 200 <= status < 300 {
            Tint::Green
        } else {
            Tint::Red
        },
{
    if status >= 200 && status < 300 {
        Tint::Green
    } else {
        Tint::Red
    }
}

/// The position of a tab among the four.
pub fn tab_index(tab: ResponseTab) -> (i: usize)
    ensures
        i < 4,
        i == match tab {
            ResponseTab::Pretty => 0usize,
            ResponseTab::Raw => 1usize,
            ResponseTab::Headers => 2usize,
            ResponseTab::Timeline => 3usize,
        },
{
    match tab {
        ResponseTab::Pretty => 0,
        ResponseTab::Raw => 1,
        ResponseTab::Headers => 2,
        ResponseTab::Timeline => 3,
    }
}

/// The title of a tab.
pub fn tab_title(tab: ResponseTab) -> (title: &'static str)
    ensures
        title@ == match tab {
            ResponseTab::Pretty => "Pretty"@,
            ResponseTab::Raw => "Raw"@,
            ResponseTab::Headers => "Headers"@,
            ResponseTab::Timeline => "Timeline"@,
        },
{
    match tab {
        ResponseTab::Pretty => "Pretty",
        ResponseTab::Raw => "Raw",
        ResponseTab::Headers => "Headers",
        ResponseTab::Timeline => "Timeline",
    }
}

/// What stands in place of a response while there is none.
pub fn response_placeholder(is_executing: bool) -> (text: &'static str)
    ensures
        text@ == if is_executing {
            "Executing request..."@
        } else {
            "No response yet"@
        },
{
    if is_executing {
        "Executing request..."
    } else {
        "No response yet"
    }
}

/// The line of the timeline that tells the total time.
pub fn total_time_line(total_ms: u64) -> (line: String)
    ensures
        line@ == "Total Time: "@ + decimal(total_ms as nat) + "ms"@,
{
    let mut out: Vec<char> = Vec::new();
    push_text(&mut out, "Total Time: ");
    push_decimal(&mut out, total_ms);
    push_text(&mut out, "ms");
    to_text(&out)
}

/// A key and its value as one line.
pub fn pair_line(key: &str, value: &str, indented: bool) -> (line: String)
    ensures
        line@ == (if indented {
            "  "@
        } else {
            Seq::<char>::empty()
        }) + key@ + ": "@ + value@,
{
    let mut out: Vec<char> = Vec::new();
    if indented {
        push_text(&mut out, "  ");
    }
    push_text(&mut out, key);
    push_text(&mut out, ": ");
    push_text(&mut out, value);
    to_text(&out)
}

/// The frames of the mark that turns while a request is under way.
pub open spec fn spinner_frames() -> Seq<char> {
    seq![
        '\u{280b}',
        '\u{2819}',
        '\u{2839}',
        '\u{2838}',
        '\u{283c}',
        '\u{2834}',
        '\u{2826}',
        '\u{2827}',
        '\u{2807}',
        '\u{280f}',
    ]
}

/// The frame to show at a time given in milliseconds: the mark moves on
/// every tenth of a second and comes round after ten frames.
pub fn spinner_frame(millis: u128) -> (frame: char)
    ensures
        frame == spinner_frames()[((millis / 100) % 10) as int],
{
    let i = (millis / 100) % 10;
    if i == 0 {
        '\u{280b}'
    } else if i == 1 {
        '\u{2819}'
    } else if i == 2 {
        '\u{2839}'
    } else if i == 3 {
        '\u{2838}'
    } else if i == 4 {
        '\u{283c}'
    } else if i == 5 {
        '\u{2834}'
    } else if i == 6 {
        '\u{2826}'
    } else if i == 7 {
        '\u{2827}'
    } else if i == 8 {
        '\u{2807}'
    } else {
        '\u{280f}'
    }
}

} // verus!

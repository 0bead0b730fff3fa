//! Small pieces for the display: which nodes of a JSON tree are open, and
//! how sizes and long texts are written out.
use crate::text::{decimal, push_decimal, push_text, to_text};
use vstd::hash_set::StringHashSet;
use vstd::prelude::*;
use vstd::utf8::{decode_utf8, is_char_boundary};

verus! {

/// The nodes of a JSON tree that are open, each named by its path.
pub struct JsonTreeComponent {
    pub expanded_paths: StringHashSet,
}

impl JsonTreeComponent {
    /// A tree with every node closed.
    pub fn new() -> (t: JsonTreeComponent)
        ensures
            t.expanded_paths@ == Set::<Seq<char>>::empty(),
    {
        JsonTreeComponent { expanded_paths: StringHashSet::new() }
    }

    /// Opens the node at `path` if it is closed, and closes it if it is
    /// open.
    pub fn toggle_path(&mut self, path: &str)
        ensures
            final(self).expanded_paths@ == if old(self).expanded_paths@.contains(path@) {
                old(self).expanded_paths@.remove(path@)
            } else {
                old(self).expanded_paths@.insert(path@)
            },
    {
        if self.expanded_paths.contains(path) {
            self.expanded_paths.remove(path);
        } else {
            self.expanded_paths.insert(String::from_str(path));
        }
    }

    /// Whether the node at `path` is open.
    pub fn is_expanded(&self, path: &str) -> (b: bool)
        ensures
            b == self.expanded_paths@.contains(path@),
    {
        self.expanded_paths.contains(path)
    }
}

/// Where a text that is too long for `max_len` bytes is cut: three bytes
/// short of it, to leave room for the dots.
pub open spec fn cut_point(max_len: usize) -> int {
    if max_len >= 3 {
        max_len - 3
    } else {
        0
    }
}

/// Whether `text` can be shortened to `max_len` bytes: it fits, or the
/// cut falls between two characters.
pub open spec fn can_truncate(text: Seq<char>, max_len: usize) -> bool {
    let bytes = vstd::utf8::encode_utf8(text);
    bytes.len() <= max_len || is_char_boundary(bytes, cut_point(max_len))
}

/// A text of at most `max_len` bytes as it is; a longer one cut at the
/// cut point, with three dots behind.
pub open spec fn truncated(text: Seq<char>, max_len: usize) -> Seq<char> {
    let bytes = vstd::utf8::encode_utf8(text);
    if bytes.len() <= max_len {
        text
    } else {
        decode_utf8(bytes.subrange(0, cut_point(max_len))) + "..."@
    }
}

/// Shortens `text` to `max_len` bytes: a longer text is cut three bytes
/// short of the limit and gets three dots.
pub fn truncate_text(text: &str, max_len: usize) -> (r: String)
    requires
        can_truncate(text@, max_len),
    ensures
        r@ == truncated(text@, max_len),
{
    if text.as_bytes().len() <= max_len {
        String::from_str(text)
    } else {
        let cut: usize = if max_len >= 3 {
            max_len - 3
        } else {
            0
        };
        let (head, _) = text.split_at(cut);
        proof {
            vstd::utf8::encode_utf8_decode_utf8(head@);
        }
        let mut r = String::from_str(head);
        r.append("...");
        r
    }
}

/// Shortens `text` to `max_len` bytes where that can be done, and tells
/// with `None` where the cut would fall inside a character.
pub fn try_truncate_text(text: &str, max_len: usize) -> (r: Option<String>)
    ensures
        match r {
            Some(s) => can_truncate(text@, max_len) && s@ == truncated(text@, max_len),
            None => !can_truncate(text@, max_len),
        },
{
    let cut: usize = if max_len >= 3 {
        max_len - 3
    } else {
        0
    };
    if text.as_bytes().len() <= max_len || text.is_char_boundary(cut) {
        Some(truncate_text(text, max_len))
    } else {
        None
    }
}

/// `num / den` rounded to the nearest whole number; a tie goes to the even
/// neighbour.
pub open spec fn round_half_even(num: nat, den: nat) -> nat {
    let q = num / den;
    let r = num % den;
    if 2 * r > den || (2 * r == den && q % 2 == 1) {
        q + 1
    } else {
        q
    }
}

/// The distance between neighbouring doubles at `n`: 1 below 2^53, and
/// twice as much each time `n` doubles from there.
pub open spec fn double_step(n: nat) -> nat
    decreases n,
{
    if n < 0x20_0000_0000_0000 {
        1
    } else {
        2 * double_step(n / 2)
    }
}

/// The whole number that a double holds for `n`: `n` itself where it has
/// no more than 53 bits, else the nearest multiple of the step, a tie
/// going to the even one.
pub open spec fn nearest_double(n: nat) -> nat {
    round_half_even(n, double_step(n)) * double_step(n)
}

/// The unit in which a size is written: 0 for bytes, 1 for KB, 2 for MB,
/// 3 for GB and beyond.
pub open spec fn size_unit(v: nat) -> nat {
    if v < 1024 {
        0
    } else if v < 1024 * 1024 {
        1
    } else if v < 1024 * 1024 * 1024 {
        2
    } else {
        3
    }
}

/// The number of bytes in one unit.
pub open spec fn unit_size(unit: nat) -> nat {
    if unit == 0 {
        1
    } else if unit == 1 {
        1024
    } else if unit == 2 {
        1024 * 1024
    } else {
        1024 * 1024 * 1024
    }
}

/// The name of a unit.
pub open spec fn unit_name(unit: nat) -> Seq<char> {
    if unit == 0 {
        "B"@
    } else if unit == 1 {
        "KB"@
    } else if unit == 2 {
        "MB"@
    } else {
        "GB"@
    }
}

/// A number of tenths written with one decimal.
pub open spec fn one_decimal(tenths: nat) -> Seq<char> {
    decimal(tenths / 10) + "."@ + decimal(tenths % 10)
}

/// A size in bytes as it is shown: below 1024 the number of bytes; from
/// there on the size in the largest fitting unit up to GB, with one
/// decimal. The size is taken as the double nearest to it, and the decimal
/// is rounded to the nearest tenth, a tie going to the even one.
pub open spec fn file_size_text(bytes: nat) -> Seq<char> {
    let v = nearest_double(bytes);
    let unit = size_unit(v);
    if unit == 0 {
        decimal(bytes) + " B"@
    } else {
        one_decimal(round_half_even(v * 10, unit_size(unit))) + " "@ + unit_name(unit)
    }
}

/// Computes the step between doubles at `n`.
fn step_of(n: u128) -> (s: u128)
    requires
        n <= 0xffff_ffff_ffff_ffff,
    ensures
        s == double_step(n as nat),
        1 <= s <= 4096,
        n >= 0x20_0000_0000_0000 ==> s * 0x10_0000_0000_0000 <= n,
    decreases n,
{
    if n < 0x20_0000_0000_0000 {
        1
    } else {
        let half = step_of(n / 2);
        2 * half
    }
}

/// Computes `num / den` rounded to the nearest whole number, ties to even.
fn rounded_quotient(num: u128, den: u128) -> (q: u128)
    requires
        den >= 1,
        num <= 0xffff_ffff_ffff_ffff_ffff,
    ensures
        q == round_half_even(num as nat, den as nat),
        q <= num + 1,
        q * den <= num + den,
{
    let q = num / den;
    let r = num % den;
    assert(q * den <= num) by (nonlinear_arith)
        requires
            q == num / den,
            den >= 1,
    ;
    assert(q <= num) by (nonlinear_arith)
        requires
            q * den <= num,
            den >= 1,
    ;
    if r > den - r || (r == den - r && q % 2 == 1) {
        assert((q + 1) * den == q * den + den) by (nonlinear_arith);
        q + 1
    } else {
        q
    }
}

/// A size in bytes as it is shown, such as `500 B` or `1.5 KB`.
pub fn format_file_size(bytes: usize) -> (r: String)
    ensures
        r@ == file_size_text(bytes as nat),
{
    let n: u128 = bytes as u128;
    let step = step_of(n);
    let q = rounded_quotient(n, step);
    assert(q * step <= 0xffff_ffff_ffff_ffff + 4096) by (nonlinear_arith)
        requires
            q * step <= n + step,
            n <= 0xffff_ffff_ffff_ffff,
            step <= 4096,
    ;
    let v: u128 = q * step;
    let mut out: Vec<char> = Vec::new();
    if v < 1024 {
        push_decimal(&mut out, bytes as u64);
        push_text(&mut out, " B");
        return to_text(&out);
    }
    let unit: u128 = if v < 1024 * 1024 {
        1024
    } else if v < 1024 * 1024 * 1024 {
        1024 * 1024
    } else {
        1024 * 1024 * 1024
    };
    let tenths = rounded_quotient(v * 10, unit);
    assert(tenths <= 0xffff_ffff_ffff_ffff) by (nonlinear_arith)
        requires
            tenths * unit <= v * 10 + unit,
            v <= 0xffff_ffff_ffff_ffff + 4096,
            unit >= 1024,
    ;
    push_decimal(&mut out, (tenths / 10) as u64);
    push_text(&mut out, ".");
    push_decimal(&mut out, (tenths % 10) as u64);
    push_text(&mut out, " ");
    if v < 1024 * 1024 {
        push_text(&mut out, "KB");
    } else if v < 1024 * 1024 * 1024 {
        push_text(&mut out, "MB");
    } else {
        push_text(&mut out, "GB");
    }
    to_text(&out)
}

/// How far `x` is below 1000 times 2^52.
pub open spec fn short_of_scale(x: nat) -> nat {
    if x >= 4_503_599_627_370_496_000 {
        0
    } else {
        (4_503_599_627_370_496_000 - x) as nat
    }
}

/// `x` doubled until it is no less than 1000 times 2^52: the scale at
/// which the quotient by 1000 fills the 53 bits of a double.
pub open spec fn scaled(x: nat) -> nat
    decreases short_of_scale(x),
{
    if x == 0 || x >= 4_503_599_627_370_496_000 {
        x
    } else {
        scaled(2 * x)
    }
}

/// Whether the double nearest to `millis / 1000` lies above it.
pub open spec fn double_lies_above(millis: nat) -> bool {
    2 * (scaled(millis) % 1000) > 1000
}

/// The tenths of a second that show for `millis` milliseconds: the
/// double nearest to the number of seconds, rounded to the nearest tenth.
/// Half a tenth goes the way the double lies; where the double is exact,
/// it goes to the even tenth.
pub open spec fn seconds_tenths(millis: nat) -> nat {
    let q = millis / 100;
    let r = millis % 100;
    if r < 50 {
        q
    } else if r > 50 {
        q + 1
    } else if millis % 250 == 0 {
        if q % 2 == 1 {
            q + 1
        } else {
            q
        }
    } else if double_lies_above(millis) {
        q + 1
    } else {
        q
    }
}

/// A time in milliseconds as it is shown: below a second in
/// milliseconds, below a minute in seconds with one decimal, from there
/// on in minutes and seconds with one decimal.
pub open spec fn duration_text(millis: nat) -> Seq<char> {
    if millis < 1000 {
        decimal(millis) + "ms"@
    } else if millis < 60000 {
        one_decimal(seconds_tenths(millis)) + "s"@
    } else {
        decimal(millis / 60000) + "m "@ + one_decimal(seconds_tenths(millis % 60000)) + "s"@
    }
}

/// Computes the tenths of a second that show for `millis` milliseconds.
fn tenths_of_seconds(millis: u64) -> (t: u64)
    requires
        millis < 60000,
    ensures
        t == seconds_tenths(millis as nat),
        t <= 600,
{
    let q = millis / 100;
    let r = millis % 100;
    if r < 50 {
        q
    } else if r > 50 {
        q + 1
    } else if millis % 250 == 0 {
        if q % 2 == 1 {
            q + 1
        } else {
            q
        }
    } else {
        let mut x: u64 = millis;
        while x < 4_503_599_627_370_496_000
            invariant
                0 < x < 9_007_199_254_740_992_000,
                scaled(x as nat) == scaled(millis as nat),
            decreases short_of_scale(x as nat),
        {
            x = 2 * x;
        }
        if 2 * (x % 1000) > 1000 {
            q + 1
        } else {
            q
        }
    }
}

/// A time in milliseconds as it is shown, such as `500ms`, `1.5s` or
/// `1m 5.0s`.
pub fn format_duration(millis: u64) -> (r: String)
    ensures
        r@ == duration_text(millis as nat),
{
    let mut out: Vec<char> = Vec::new();
    if millis < 1000 {
        push_decimal(&mut out, millis);
        push_text(&mut out, "ms");
    } else if millis < 60000 {
        let t = tenths_of_seconds(millis);
        push_decimal(&mut out, t / 10);
        push_text(&mut out, ".");
        push_decimal(&mut out, t % 10);
        push_text(&mut out, "s");
    } else {
        let t = tenths_of_seconds(millis % 60000);
        push_decimal(&mut out, millis / 60000);
        push_text(&mut out, "m ");
        push_decimal(&mut out, t / 10);
        push_text(&mut out, ".");
        push_decimal(&mut out, t % 10);
        push_text(&mut out, "s");
    }
    to_text(&out)
}

impl Default for JsonTreeComponent {
    fn default() -> (t: JsonTreeComponent)
        ensures
            t.expanded_paths@ == Set::<Seq<char>>::empty(),
    {
        JsonTreeComponent::new()
    }
}

} // verus!

use vstd::arithmetic::div_mod::lemma_div_is_ordered;
use vstd::arithmetic::mul::lemma_mul_inequality;
use vstd::prelude::*;

use crate::distribution::Distribution;
use vstd::string::StringExecFns;

use crate::external::{byte_label, format_byte_label, push_char};

verus! {

/// Glyph between the extremes and the quartiles.
pub const LIGHT_SHADE: char = '\u{2591}';

/// Glyph between the quartiles and the median.
pub const MEDIUM_SHADE: char = '\u{2592}';

/// Glyph of the median's column.
pub const DARK_SHADE: char = '\u{2593}';

/// `count` copies of `c`.
pub open spec fn run(c: char, count: nat) -> Seq<char> {
    Seq::new(count, |i: int| c)
}

/// The column of a value, given as twice its value, on a canvas of `width`
/// columns where `max_value` maps to the full width: `v / max_value * width`
/// rounded half up, and at most `width`. With `max_value == 0` every value
/// sits at column 0.
pub open spec fn column(twice_value: int, max_value: int, width: int) -> int {
    if max_value == 0 {
        0
    } else {
        let c = (twice_value * width + max_value) / (2 * max_value);
        if c < width {
            c
        } else {
            width
        }
    }
}

/// The glyph of column `c` of a bar whose five values sit at columns
/// `p0` (smallest) to `p4` (largest): the median's column is dark and
/// overrides the others; the columns before the smallest value and from the
/// largest on are blank; those before the lower quartile and from the upper
/// quartile on are light; those between the quartiles are medium.
pub open spec fn glyph_at(c: int, p0: int, p1: int, p2: int, p3: int, p4: int) -> char {
    if c == p2 {
        DARK_SHADE
    } else if c < p0 || c >= p4 {
        ' '
    } else if c < p1 || c >= p3 {
        LIGHT_SHADE
    } else {
        MEDIUM_SHADE
    }
}

/// Length of a bar on a canvas `width` wide whose median sits at column
/// `p2`: the canvas, or up to the median's column when that is further.
pub open spec fn bar_len(p2: int, width: int) -> int {
    if p2 < width {
        width
    } else {
        p2 + 1
    }
}

/// The bar for the five columns `p0` to `p4` on a canvas `width` wide.
pub open spec fn bar_of_columns(p0: int, p1: int, p2: int, p3: int, p4: int, width: int) -> Seq<
    char,
> {
    Seq::new(bar_len(p2, width) as nat, |c: int| glyph_at(c, p0, p1, p2, p3, p4))
}

/// The box-plot bar of `d`, scaled so that `max_value` fills `width`
/// columns.
pub open spec fn box_bar(d: Distribution, max_value: int, width: int) -> Seq<char> {
    bar_of_columns(
        column(2 * d.min, max_value, width),
        column(d.twice_lower_quartile as int, max_value, width),
        column(d.twice_median as int, max_value, width),
        column(d.twice_upper_quartile as int, max_value, width),
        column(2 * d.max, max_value, width),
        width,
    )
}

/// The column of a value given as twice its value.
pub fn value_column(twice_value: u128, max_value: u64, width: u16) -> (r: u16)
    requires
        twice_value <= 2 * (u64::MAX as int),
    ensures
        r == column(twice_value as int, max_value as int, width as int),
{
    if max_value == 0 {
        return 0;
    }
    let den: u128 = 2 * (max_value as u128);
    assert(twice_value * (width as u128) <= 2 * (u64::MAX as int) * 65535) by (nonlinear_arith)
        requires
            twice_value <= 2 * (u64::MAX as int),
            width <= 65535,
    ;
    let c: u128 = (twice_value * (width as u128) + (max_value as u128)) / den;
    if c < width as u128 {
        c as u16
    } else {
        width
    }
}

/// The glyph of column `c`, given the five columns of the bar.
fn glyph(c: u32, p0: u16, p1: u16, p2: u16, p3: u16, p4: u16) -> (r: char)
    ensures
        r == glyph_at(c as int, p0 as int, p1 as int, p2 as int, p3 as int, p4 as int),
{
    if c == p2 as u32 {
        DARK_SHADE
    } else if c < p0 as u32 || c >= p4 as u32 {
        ' '
    } else if c < p1 as u32 || c >= p3 as u32 {
        LIGHT_SHADE
    } else {
        MEDIUM_SHADE
    }
}

/// The box-plot bar of `d` on a canvas of `width` columns, where
/// `max_value` maps to the right edge of the canvas.
pub fn render_bar(d: &Distribution, max_value: u64, width: u16) -> (r: String)
    requires
        d.wf(),
    ensures
        r@ == box_bar(*d, max_value as int, width as int),
{
    let p0 = value_column(2 * (d.min as u128), max_value, width);
    let p1 = value_column(d.twice_lower_quartile, max_value, width);
    let p2 = value_column(d.twice_median, max_value, width);
    let p3 = value_column(d.twice_upper_quartile, max_value, width);
    let p4 = value_column(2 * (d.max as u128), max_value, width);
    let ghost bar = box_bar(*d, max_value as int, width as int);
    let len: u32 = if (p2 as u32) < (width as u32) {
        width as u32
    } else {
        p2 as u32 + 1
    };
    let mut s = String::new();
    let mut c: u32 = 0;
    while c < len
        invariant
            c <= len,
            len == bar.len(),
            bar == bar_of_columns(p0 as int, p1 as int, p2 as int, p3 as int, p4 as int, width as int),
            s@ == bar.subrange(0, c as int),
        decreases len - c,
    {
        push_char(&mut s, glyph(c, p0, p1, p2, p3, p4));
        proof {
            assert(bar.subrange(0, c + 1) =~= bar.subrange(0, c as int).push(bar[c as int]));
        }
        c = c + 1;
    }
    proof {
        assert(bar.subrange(0, c as int) =~= bar);
    }
    s
}

/// Columns kept beside the bar for its two labels.
pub const LABEL_MARGIN: u16 = 40;

/// Terminal width assumed when none can be detected.
pub const DEFAULT_TERMINAL_WIDTH: u16 = 80;

/// The canvas left of a terminal `width` columns wide once the labels'
/// margin is taken off; a terminal no wider than the margin still gets one
/// column, a degraded rendering rather than a fault.
pub open spec fn canvas_columns(width: int) -> int {
    if width > LABEL_MARGIN {
        width - LABEL_MARGIN
    } else {
        1
    }
}

/// The width of the terminal: the detected one, or the default.
pub fn terminal_columns(detected: Option<u16>) -> (r: u16)
    ensures
        r == match detected {
            Some(w) => w,
            None => DEFAULT_TERMINAL_WIDTH,
        },
{
    match detected {
        Some(w) => w,
        None => DEFAULT_TERMINAL_WIDTH,
    }
}

/// The bar's canvas on a terminal `width` columns wide.
pub fn canvas_width(width: u16) -> (r: u16)
    ensures
        r == canvas_columns(width as int),
{
    if width > LABEL_MARGIN {
        width - LABEL_MARGIN
    } else {
        1
    }
}

/// The plot line made of the smallest size's label, the bar and the
/// largest size's label.
pub open spec fn box_line_text(min_label: Seq<char>, bar: Seq<char>, max_label: Seq<char>) -> Seq<
    char,
> {
    "Smallest: "@ + min_label + " "@ + bar + " Largest: "@ + max_label
}

/// Lays out the plot line from its labels and bar.
pub fn box_line(min_label: &str, bar: &str, max_label: &str) -> (r: String)
    ensures
        r@ == box_line_text(min_label@, bar@, max_label@),
{
    let mut s = String::new();
    s.append("Smallest: ");
    s.append(min_label);
    s.append(" ");
    s.append(bar);
    s.append(" Largest: ");
    s.append(max_label);
    proof {
        assert(s@ =~= box_line_text(min_label@, bar@, max_label@));
    }
    s
}

/// The plot line of `d` for a terminal `width` columns wide, with
/// `max_value` at the right end of the bar.
pub fn plot_box_diagram(d: &Distribution, max_value: u64, width: u16) -> (r: String)
    requires
        d.wf(),
    ensures
        r@ == box_line_text(
            byte_label(d.min),
            box_bar(*d, max_value as int, canvas_columns(width as int)),
            byte_label(d.max),
        ),
{
    let bar = render_bar(d, max_value, canvas_width(width));
    let min_label = format_byte_label(d.min);
    let max_label = format_byte_label(d.max);
    box_line(min_label.as_str(), bar.as_str(), max_label.as_str())
}


/// With a scale of zero every value sits at column 0: the bar is the
/// median's glyph in column 0 followed by blanks to the canvas' end.
pub proof fn lemma_zero_scale_bar(d: Distribution, width: u16)
    ensures
        box_bar(d, 0, width as int) == seq![DARK_SHADE] + run(
            ' ',
            (bar_len(0, width as int) - 1) as nat,
        ),
{
    assert(box_bar(d, 0, width as int) =~= seq![DARK_SHADE] + run(
        ' ',
        (bar_len(0, width as int) - 1) as nat,
    ));
}

/// A larger value never sits left of a smaller one.
proof fn lemma_column_monotone(a: int, b: int, max_value: int, width: int)
    requires
        0 <= a <= b,
        max_value >= 0,
        width >= 0,
    ensures
        column(a, max_value, width) <= column(b, max_value, width),
        0 <= column(a, max_value, width) <= width,
{
    if max_value > 0 {
        lemma_mul_inequality(a, b, width);
        lemma_div_is_ordered(a * width + max_value, b * width + max_value, 2 * max_value);
        lemma_div_is_ordered(0, a * width + max_value, 2 * max_value);
    }
}

/// For an ordered summary the five columns are ordered and on the canvas,
/// so no range of the bar is reversed, and the bar is as wide as the
/// canvas, or one column wider when the median sits at its right edge.
pub proof fn lemma_bar_columns(d: Distribution, max_value: u64, width: u16)
    requires
        d.wf(),
    ensures
        ({
            let m = max_value as int;
            let w = width as int;
            let p0 = column(2 * d.min, m, w);
            let p1 = column(d.twice_lower_quartile as int, m, w);
            let p2 = column(d.twice_median as int, m, w);
            let p3 = column(d.twice_upper_quartile as int, m, w);
            let p4 = column(2 * d.max, m, w);
            &&& 0 <= p0 <= p1 <= p2 <= p3 <= p4 <= w
            &&& box_bar(d, m, w).len() == if w > p2 { w } else { p2 + 1 }
        }),
{
    let m = max_value as int;
    let w = width as int;
    lemma_column_monotone(2 * d.min, d.twice_lower_quartile as int, m, w);
    lemma_column_monotone(d.twice_lower_quartile as int, d.twice_median as int, m, w);
    lemma_column_monotone(d.twice_median as int, d.twice_upper_quartile as int, m, w);
    lemma_column_monotone(d.twice_upper_quartile as int, 2 * d.max, m, w);
    lemma_column_monotone(2 * d.max, 2 * d.max, m, w);
}

} // verus!

//! The redraw protocol: the exact character sequence each mode writes per
//! loop iteration, anchored at the cursor position recorded when the menu
//! was invoked.
//!
//! Every function returns the frame as a string for the caller to write
//! and flush; the contracts pin the frame down character for character.

use vstd::prelude::*;
use vstd::string::{StrSliceExecFns, StringExecFns};
use crate::editor::InputBuffer;
use crate::keys::Key;
use crate::style::{faint, faint_of, green, green_of, highlight, highlight_of, magenta, magenta_of};
use crate::term::{
    clear_after, clear_after_of, clear_line, clear_line_of, cursor_down, cursor_down_of,
    cursor_goto, cursor_goto_of, cursor_right, cursor_right_of, cursor_up, cursor_up_of,
};
use crate::text::{chars_to_string, dec_of, dec_string};

verus! {

/// The views of a list of labels.
pub open spec fn views_of(items: Seq<String>) -> Seq<Seq<char>> {
    items.map_values(|s: String| s@)
}

/// One list row: the highlighted row carries the per-row prompt and is
/// shown black on white, every other row is dimmed.
pub open spec fn row_of(item: Seq<char>, prompt: Seq<char>, selected: bool) -> Seq<char> {
    if selected {
        prompt + " "@ + highlight_of(item) + "\r\n"@
    } else {
        faint_of(item) + "\r\n"@
    }
}

/// The rows of `items` from position `i` on, with row `idx` highlighted.
pub open spec fn rows_from(items: Seq<Seq<char>>, prompt: Seq<char>, idx: int, i: int) -> Seq<char>
    decreases items.len() - i,
{
    if i < 0 || i >= items.len() {
        Seq::<char>::empty()
    } else {
        row_of(items[i], prompt, idx == i) + rows_from(items, prompt, idx, i + 1)
    }
}

/// The whole list, row `idx` highlighted.
pub open spec fn rows_of(items: Seq<Seq<char>>, prompt: Seq<char>, idx: int) -> Seq<char> {
    rows_from(items, prompt, idx, 0)
}

/// Renders every item on its own row, row `idx` highlighted (an `idx` at
/// or past the list length highlights nothing).
pub fn list_rows(items: &Vec<String>, prompt: &str, idx: usize) -> (r: String)
    ensures
        r@ == rows_of(views_of(items@), prompt@, idx as int),
{
    let ghost vs = views_of(items@);
    let mut out = String::new();
    let mut i: usize = 0;
    while i < items.len()
        invariant
            0 <= i <= items@.len(),
            vs == views_of(items@),
            out@ + rows_from(vs, prompt@, idx as int, i as int) == rows_of(vs, prompt@, idx as int),
        decreases items@.len() - i,
    {
        let ghost out0 = out@;
        if i == idx {
            out.append(prompt);
            out.append(" ");
            let h = highlight(items[i].as_str());
            out.append(h.as_str());
            out.append("\r\n");
        } else {
            let f = faint(items[i].as_str());
            out.append(f.as_str());
            out.append("\r\n");
        }
        proof {
            assert(out@ =~= out0 + row_of(vs[i as int], prompt@, idx == i));
            assert(out@ + rows_from(vs, prompt@, idx as int, i + 1) =~= out0 + rows_from(
                vs,
                prompt@,
                idx as int,
                i as int,
            ));
        }
        i = i + 1;
    }
    out
}

/// The title line written once when a plain or numbered menu starts.
pub fn title_line(title: &str) -> (r: String)
    ensures
        r@ == title@ + "\r\n"@,
{
    let mut out = title.to_owned();
    out.append("\r\n");
    out
}

/// The carriage return, jump back to the anchor `(ax, ay)`, and
/// clear-to-end that reclaims the previous frame after each keystroke of
/// the plain and numbered modes.
pub fn reset_frame(ax: u16, ay: u16) -> (r: String)
    requires
        !(ax == 0 && ay == 0),
    ensures
        r@ == "\r"@ + cursor_goto_of(ax, ay) + clear_after_of(),
{
    let mut out = "\r".to_owned();
    let g = cursor_goto(ax, ay);
    out.append(g.as_str());
    let c = clear_after();
    out.append(c.as_str());
    out
}

/// The clear that the filterable mode leaves in the output buffer right
/// after each flush, so the next frame starts over a reclaimed region.
pub fn frame_tail() -> (r: String)
    ensures
        r@ == "\r"@ + clear_after_of(),
{
    let mut out = "\r".to_owned();
    let c = clear_after();
    out.append(c.as_str());
    out
}

/// The final clear of a plain menu: one row up, clear that line.
pub fn plain_exit_frame() -> (r: String)
    ensures
        r@ == cursor_up_of(1) + clear_line_of(),
{
    let mut out = cursor_up(1);
    let c = clear_line();
    out.append(c.as_str());
    out
}

/// The final clear of a filterable menu: back to column 0 one row up,
/// clear to the end, and leave the cursor on the next row.
pub fn filter_exit_frame() -> (r: String)
    ensures
        r@ == "\r"@ + cursor_up_of(1) + clear_after_of() + "\r\n"@,
{
    let mut out = "\r".to_owned();
    let u = cursor_up(1);
    out.append(u.as_str());
    let c = clear_after();
    out.append(c.as_str());
    out.append("\r\n");
    out
}

/// A transient one-line notice (such as the ASCII-only advisory): written
/// one row above the cursor, which returns to column 0 of its own row.
pub fn notice_frame(msg: &str) -> (r: String)
    ensures
        r@ == cursor_up_of(1) + clear_line_of() + msg@ + cursor_down_of(1) + "\r"@,
{
    let mut out = cursor_up(1);
    let c = clear_line();
    out.append(c.as_str());
    out.append(msg);
    let d = cursor_down(1);
    out.append(d.as_str());
    out.append("\r");
    out
}

/// The two-line navigation hint shown by the filterable mode whenever the
/// filtered list is non-empty.
pub open spec fn hint_of() -> Seq<char> {
    "\r\n\n\u{2191} and \u{2193} to navigate"@ + "\n\rENTER to select\r\n"@
}

/// One full pre-flush frame of the filterable mode: clear from the anchor,
/// the magenta input prompt and the typed text, the navigation hint and a
/// jump back to the anchor `(ax, ay)` when the list is non-empty, the list
/// rows, and finally the cursor moved right to sit after the caret.
pub open spec fn filter_frame_of(
    input_prompt: Seq<char>,
    text: Seq<char>,
    caret: int,
    items: Seq<Seq<char>>,
    prompt: Seq<char>,
    idx: int,
    ax: u16,
    ay: u16,
) -> Seq<char> {
    "\r"@ + clear_after_of() + magenta_of(input_prompt) + text + (if items.len() > 0 {
        hint_of()
    } else {
        Seq::<char>::empty()
    }) + rows_of(items, prompt, idx) + (if items.len() > 0 {
        cursor_goto_of(ax, ay)
    } else {
        Seq::<char>::empty()
    }) + "\r"@ + cursor_right_of((input_prompt.len() + caret) as u16)
}

/// Renders one frame of the filterable mode. The anchor `(ax, ay)` is the
/// cursor position recorded when the menu was invoked; `idx` must already
/// be clamped to the list length.
pub fn filter_frame(
    input_prompt: &str,
    buffer: &InputBuffer,
    items: &Vec<String>,
    prompt: &str,
    idx: usize,
    ax: u16,
    ay: u16,
) -> (r: String)
    requires
        buffer.wf(),
        input_prompt@.len() + buffer.model().caret <= u16::MAX,
        1 <= ax,
        1 <= ay,
    ensures
        r@ == filter_frame_of(
            input_prompt@,
            buffer.model().text,
            buffer.model().caret,
            views_of(items@),
            prompt@,
            idx as int,
            ax,
            ay,
        ),
{
    let mut out = "\r".to_owned();
    let c = clear_after();
    out.append(c.as_str());
    let p = magenta(input_prompt);
    out.append(p.as_str());
    let t = chars_to_string(buffer.chars());
    out.append(t.as_str());
    if items.len() > 0 {
        out.append("\r\n\n\u{2191} and \u{2193} to navigate");
        out.append("\n\rENTER to select\r\n");
    }
    let rows = list_rows(items, prompt, idx);
    out.append(rows.as_str());
    if items.len() > 0 {
        let g = cursor_goto(ax, ay);
        out.append(g.as_str());
    }
    out.append("\r");
    let offset: u16 = (input_prompt.unicode_len() as u16) + (buffer.caret() as u16);
    let rt = cursor_right(offset);
    out.append(rt.as_str());
    proof {
        assert(out@ =~= filter_frame_of(
            input_prompt@,
            buffer.model().text,
            buffer.model().caret,
            views_of(items@),
            prompt@,
            idx as int,
            ax,
            ay,
        ));
    }
    out
}

/// One row of the numbered mode: the green 1-based ordinal, a dot, the
/// item, and a line break.
pub open spec fn num_row_of(item: Seq<char>, ordinal: nat) -> Seq<char> {
    green_of(dec_of(ordinal)) + ". "@ + item + "\r\n"@
}

/// The numbered rows of `items` from position `i` on.
pub open spec fn num_rows_from(items: Seq<Seq<char>>, i: int) -> Seq<char>
    decreases items.len() - i,
{
    if i < 0 || i >= items.len() {
        Seq::<char>::empty()
    } else {
        num_row_of(items[i], (i + 1) as nat) + num_rows_from(items, i + 1)
    }
}

/// The label of the synthetic Quit row: the quit key's character, or `q`
/// for a quit key that is not a character key.
pub open spec fn spec_key_label(k: Key) -> char {
    if k matches Key::Char(c) {
        k->Char_0
    } else {
        'q'
    }
}

/// The whole numbered-mode frame: the title, each item with its green
/// ordinal, and the synthetic Quit row labelled with the quit key.
pub open spec fn numbered_frame_of(title: Seq<char>, items: Seq<Seq<char>>, quit: Key) -> Seq<
    char,
> {
    "\r"@ + title + "\r\n"@ + num_rows_from(items, 0) + green_of(
        seq![spec_key_label(quit)],
    ) + ". Quit\r\n"@
}

/// Renders the one frame of the numbered mode.
pub fn numbered_frame(title: &str, items: &Vec<String>, quit: Key) -> (r: String)
    ensures
        r@ == numbered_frame_of(title@, views_of(items@), quit),
{
    let ghost vs = views_of(items@);
    let mut out = "\r".to_owned();
    out.append(title);
    out.append("\r\n");
    let mut i: usize = 0;
    while i < items.len()
        invariant
            0 <= i <= items@.len(),
            vs == views_of(items@),
            out@ + num_rows_from(vs, i as int) == "\r"@ + title@ + "\r\n"@ + num_rows_from(vs, 0),
        decreases items@.len() - i,
    {
        let ghost out0 = out@;
        let ord = dec_string(i + 1);
        let g = green(ord.as_str());
        out.append(g.as_str());
        out.append(". ");
        out.append(items[i].as_str());
        out.append("\r\n");
        proof {
            assert(out@ =~= out0 + num_row_of(vs[i as int], (i + 1) as nat));
            assert(out@ + num_rows_from(vs, i + 1) =~= out0 + num_rows_from(vs, i as int));
        }
        i = i + 1;
    }
    let label: char = match quit {
        Key::Char(c) => c,
        _ => 'q',
    };
    let lv: Vec<char> = vec![label];
    let ls = chars_to_string(&lv);
    let gl = green(ls.as_str());
    out.append(gl.as_str());
    out.append(". Quit\r\n");
    proof {
        assert(out@ =~= numbered_frame_of(title@, vs, quit));
    }
    out
}

} // verus!

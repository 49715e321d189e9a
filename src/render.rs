//! Drawing as data: a tick describes what it wants put on the screen as a
//! list of commands, which the caller plays on a real display. Also the text
//! of the frame drawn around the playing field.

use vstd::prelude::*;

use crate::geometry::{Point, ScreenExtent};

verus! {

/// One thing to do to the display.
#[derive(Debug, PartialEq, Eq)]
pub enum DrawCommand {
    /// Blank the whole display and put the cursor at the origin.
    Clear,
    /// Write the text starting at the cell.
    Draw(Point, String),
    /// Push pending output to the device.
    Update,
}

/// What a `DrawCommand` asks for, with its text as characters.
pub enum Drawing {
    Clear,
    Draw(Point, Seq<char>),
    Update,
}

impl View for DrawCommand {
    type V = Drawing;

    open spec fn view(&self) -> Drawing {
        match self {
            DrawCommand::Clear => Drawing::Clear,
            DrawCommand::Draw(pos, text) => Drawing::Draw(*pos, text@),
            DrawCommand::Update => Drawing::Update,
        }
    }
}

/// What each command of `cmds` asks for, in order.
pub open spec fn drawings(cmds: Seq<DrawCommand>) -> Seq<Drawing> {
    cmds.map_values(|c: DrawCommand| c@)
}

/// `unit` written `n` times in a row.
pub open spec fn repeat_spec(unit: Seq<char>, n: nat) -> Seq<char>
    decreases n,
{
    if n == 0 {
        Seq::empty()
    } else {
        repeat_spec(unit, (n - 1) as nat) + unit
    }
}

/// The end of a line of the frame: a new line, then back to its first column.
pub open spec fn line_end() -> Seq<char> {
    seq!['\n', '\r']
}

/// The top line of a frame `width` cells wide.
pub open spec fn top_line(width: nat) -> Seq<char> {
    seq!['\u{250C}'] + repeat_spec(seq!['\u{2500}'], (width - 2) as nat) + seq!['\u{2510}']
        + line_end()
}

/// A line of the frame between the top and the bottom: wall, blanks, wall.
pub open spec fn inner_line(width: nat) -> Seq<char> {
    seq!['\u{2502}'] + repeat_spec(seq![' '], (width - 2) as nat) + seq!['\u{2502}'] + line_end()
}

/// The bottom line of a frame `width` cells wide.
pub open spec fn bottom_line(width: nat) -> Seq<char> {
    seq!['\u{2514}'] + repeat_spec(seq!['\u{2500}'], (width - 2) as nat) + seq!['\u{2518}']
}

/// The whole frame of a field `width` by `height` cells, drawn from its top
/// left corner.
pub open spec fn border_spec(width: nat, height: nat) -> Seq<char> {
    top_line(width) + repeat_spec(inner_line(width), (height - 2) as nat) + bottom_line(width)
}

/// Appends `unit` to `text` `n` times.
fn append_repeated(text: &mut String, unit: &str, n: usize)
    ensures
        final(text)@ == old(text)@ + repeat_spec(unit@, n as nat),
{
    let ghost start = text@;
    let mut i: usize = 0;
    while i < n
        invariant
            i <= n,
            text@ == start + repeat_spec(unit@, i as nat),
        decreases n - i,
    {
        text.append(unit);
        i = i + 1;
        assert(text@ =~= start + repeat_spec(unit@, i as nat));
    }
}

/// The text of the frame around `extent`: box-drawing corners and edges
/// around a blank inside, one line of text per row.
pub fn border_text(extent: &ScreenExtent) -> (r: String)
    requires
        extent.wf(),
    ensures
        r@ == border_spec(extent.width as nat, extent.height as nat),
{
    let inner_width = extent.width as usize - 2;
    let inner_height = extent.height as usize - 2;
    proof {
        reveal_strlit("\u{250C}");
        reveal_strlit("\u{2510}");
        reveal_strlit("\u{2514}");
        reveal_strlit("\u{2518}");
        reveal_strlit("\u{2500}");
        reveal_strlit("\u{2502}");
        reveal_strlit(" ");
        reveal_strlit("\n\r");
        assert(" "@ =~= seq![' ']);
        assert("\u{2502}"@ =~= seq!['\u{2502}']);
        assert("\n\r"@ =~= line_end());
        assert("\u{2500}"@ =~= seq!['\u{2500}']);
        assert("\u{250C}"@ =~= seq!['\u{250C}']);
        assert("\u{2510}"@ =~= seq!['\u{2510}']);
        assert("\u{2514}"@ =~= seq!['\u{2514}']);
        assert("\u{2518}"@ =~= seq!['\u{2518}']);
    }
    let mut inner = String::from_str("\u{2502}");
    append_repeated(&mut inner, " ", inner_width);
    inner.append("\u{2502}");
    inner.append("\n\r");
    assert(inner@ =~= inner_line(extent.width as nat));

    let mut border = String::from_str("\u{250C}");
    append_repeated(&mut border, "\u{2500}", inner_width);
    border.append("\u{2510}");
    border.append("\n\r");
    assert(border@ =~= top_line(extent.width as nat));
    append_repeated(&mut border, inner.as_str(), inner_height);
    border.append("\u{2514}");
    append_repeated(&mut border, "\u{2500}", inner_width);
    border.append("\u{2518}");
    assert(border@ =~= border_spec(extent.width as nat, extent.height as nat));
    border
}

/// Draws the frame around `extent` from its top left corner, then pushes the
/// output.
pub fn draw_border(out: &mut Vec<DrawCommand>, extent: &ScreenExtent)
    requires
        extent.wf(),
    ensures
        drawings(final(out)@) == drawings(old(out)@) + seq![
            Drawing::Draw(extent.top_left, border_spec(extent.width as nat, extent.height as nat)),
            Drawing::Update,
        ],
{
    let ghost start = out@;
    let border = border_text(extent);
    out.push(DrawCommand::Draw(extent.top_left, border));
    out.push(DrawCommand::Update);
    assert(drawings(out@) =~= drawings(start) + seq![
        Drawing::Draw(extent.top_left, border_spec(extent.width as nat, extent.height as nat)),
        Drawing::Update,
    ]);
}

} // verus!

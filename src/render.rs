use vstd::prelude::*;
use vstd::string::*;
use crate::prompt::{CommandPrompt, CommandPromptMode, PromptView};

verus! {

/// The decimal digit for `d`, which is below ten.
pub open spec fn digit(d: nat) -> char {
    seq!['0', '1', '2', '3', '4', '5', '6', '7', '8', '9'][d as int]
}

/// The decimal form of `n`, without leading zeros.
pub open spec fn decimal(n: nat) -> Seq<char>
    decreases n,
{
    if n < 10 {
        seq![digit(n)]
    } else {
        decimal(n / 10).push(digit(n % 10))
    }
}

/// The control sequence that puts the terminal cursor at a one-based column
/// and row: `ESC [ row ; col H`.
pub open spec fn goto_seq(col: u16, row: u16) -> Seq<char> {
    seq!['\x1b', '['] + decimal(row as nat) + seq![';'] + decimal(col as nat) + seq!['H']
}

/// The control sequence that clears the line the cursor is on: `ESC [ 2 K`.
pub open spec fn clear_line_seq() -> Seq<char> {
    seq!['\x1b', '[', '2', 'K']
}

/// The label shown before the separator: none for commands, `find` for searches.
pub open spec fn indicator(mode: CommandPromptMode) -> Seq<char> {
    match mode {
        CommandPromptMode::Command => Seq::empty(),
        CommandPromptMode::Find => seq!['f', 'i', 'n', 'd'],
    }
}

/// The screen column of the cursor: the label and the separator come first,
/// and columns count from one. Columns beyond the largest a terminal can be
/// addressed with are held at that largest.
pub open spec fn cursor_column_of(v: PromptView) -> u16 {
    let c = v.cursor + 2 + indicator(v.mode).len();
    if c <= u16::MAX {
        c as u16
    } else {
        u16::MAX
    }
}

/// The rendered line: go to the start of the row, clear it, write the label,
/// the separator and the buffer, and put the cursor in its column.
pub open spec fn rendered_line(v: PromptView, row: u16) -> Seq<char> {
    goto_seq(1, row) + clear_line_seq() + indicator(v.mode) + seq![':'] + v.buffer + goto_seq(
        cursor_column_of(v),
        row,
    )
}

/// Relies on termion's `From<Goto> for String`: `ESC [`, the row and the
/// column in decimal with `;` between, then `H`.
#[verifier::external_body]
fn goto(col: u16, row: u16) -> (r: String)
    ensures
        r@ == goto_seq(col, row),
{
    String::from(termion::cursor::Goto(col, row))
}

/// Relies on termion's `AsRef<str>` for `clear::CurrentLine`: `ESC [ 2 K`.
#[verifier::external_body]
fn clear_line() -> (r: String)
    ensures
        r@ == clear_line_seq(),
{
    let s: &str = termion::clear::CurrentLine.as_ref();
    s.to_string()
}

impl CommandPrompt {
    /// The screen column at which the cursor is drawn.
    pub fn cursor_column(&self) -> (r: u16)
        ensures
            r == cursor_column_of(self@),
    {
        let width: usize = match self.mode() {
            CommandPromptMode::Command => 0,
            CommandPromptMode::Find => 4,
        };
        let dex = self.cursor();
        if dex <= 65535 - 2 - width {
            (dex + 2 + width) as u16
        } else {
            65535
        }
    }

    /// The text that draws the prompt on the given one-based row.
    pub fn render(&self, row: u16) -> (r: String)
        ensures
            r@ == rendered_line(self@, row),
    {
        let mut out = goto(1, row);
        let clear = clear_line();
        out.append(clear.as_str());
        match self.mode() {
            CommandPromptMode::Command => {},
            CommandPromptMode::Find => {
                proof {
                    reveal_strlit("find");
                }
                out.append("find");
            },
        }
        proof {
            reveal_strlit(":");
        }
        out.append(":");
        let text = self.text();
        out.append(text.as_str());
        let to = goto(self.cursor_column(), row);
        out.append(to.as_str());
        assert(out@ =~= rendered_line(self@, row));
        out
    }
}

} // verus!

use vstd::prelude::*;
use vstd::string::*;

verus! {

/// How the prompt interprets its text when it is finalized.
#[derive(Debug, Copy, Clone, PartialEq, Eq, Structural)]
pub enum CommandPromptMode {
    /// The text is parsed into a command.
    Command,
    /// The text is used verbatim as a search query.
    Find,
}

/// A key event, as the prompt distinguishes them.
#[derive(Debug, Copy, Clone, PartialEq, Eq, Structural)]
pub enum PromptKey {
    /// A character key; `'\n'` is the accept key.
    Char(char),
    /// A character pressed with the control modifier; `Ctrl('h')` erases backwards.
    Ctrl(char),
    Backspace,
    Delete,
    Left,
    Right,
    /// Any other event, which the prompt ignores.
    Other,
}

/// What a prompt hands back to its host.
#[derive(Debug)]
pub enum PromptOutput<C> {
    /// The prompt was abandoned by erasing past an empty buffer.
    Cancel,
    /// A search query: the whole buffer.
    Find(String),
    /// A command, as the host's parser produced it.
    Command(C),
}

/// Why finalizing failed.
#[derive(Debug)]
pub enum PromptError<E> {
    /// The named command needs a non-empty argument.
    ExpectedArgument { cmd: String },
    /// The host's parser rejected the buffer.
    Parse(E),
}

/// The state of a prompt: its mode, its buffer and its insertion point.
pub struct PromptView {
    pub mode: CommandPromptMode,
    pub buffer: Seq<char>,
    pub cursor: nat,
}

impl PromptView {
    /// The insertion point lies within the buffer.
    pub open spec fn wf(self) -> bool {
        self.cursor <= self.buffer.len()
    }
}

/// Typing a character: it goes in at the cursor, and the cursor moves past it.
pub open spec fn insert_spec(v: PromptView, c: char) -> PromptView {
    PromptView { buffer: v.buffer.insert(v.cursor as int, c), cursor: v.cursor + 1, ..v }
}

/// Moving left, unless already at the start.
pub open spec fn left_spec(v: PromptView) -> PromptView {
    if v.cursor > 0 {
        PromptView { cursor: (v.cursor - 1) as nat, ..v }
    } else {
        v
    }
}

/// Moving right, unless already at the end.
pub open spec fn right_spec(v: PromptView) -> PromptView {
    if v.cursor < v.buffer.len() {
        PromptView { cursor: v.cursor + 1, ..v }
    } else {
        v
    }
}

/// Deleting the character under the cursor, unless at the end.
pub open spec fn delete_spec(v: PromptView) -> PromptView {
    if v.cursor < v.buffer.len() {
        PromptView { buffer: v.buffer.remove(v.cursor as int), ..v }
    } else {
        v
    }
}

/// Erasing the character before the cursor, unless at the start.
pub open spec fn back_spec(v: PromptView) -> PromptView {
    if v.cursor > 0 {
        PromptView {
            buffer: v.buffer.remove(v.cursor - 1),
            cursor: (v.cursor - 1) as nat,
            ..v
        }
    } else {
        v
    }
}

/// What one key does to the state. The accept key leaves it as it is.
pub open spec fn step(v: PromptView, key: PromptKey) -> PromptView {
    match key {
        PromptKey::Char(c) => if c == '\n' { v } else { insert_spec(v, c) },
        PromptKey::Ctrl(c) => if c == 'h' { back_spec(v) } else { v },
        PromptKey::Backspace => back_spec(v),
        PromptKey::Delete => delete_spec(v),
        PromptKey::Left => left_spec(v),
        PromptKey::Right => right_spec(v),
        PromptKey::Other => v,
    }
}

/// The state after a sequence of keys, taken in order.
pub open spec fn apply_keys(v: PromptView, keys: Seq<PromptKey>) -> PromptView
    decreases keys.len(),
{
    if keys.len() == 0 {
        v
    } else {
        apply_keys(step(v, keys[0]), keys.drop_first())
    }
}

/// The state after typing the characters of `cs`, one at a time.
pub open spec fn typed(v: PromptView, cs: Seq<char>) -> PromptView
    decreases cs.len(),
{
    if cs.len() == 0 {
        v
    } else {
        typed(insert_spec(v, cs[0]), cs.drop_first())
    }
}

/// Every sequence of key events keeps the cursor within the buffer.
pub proof fn lemma_edits_keep_cursor_in_bounds(v: PromptView, keys: Seq<PromptKey>)
    requires
        v.wf(),
    ensures
        apply_keys(v, keys).wf(),
    decreases keys.len(),
{
    if keys.len() > 0 {
        lemma_edits_keep_cursor_in_bounds(step(v, keys[0]), keys.drop_first());
    }
}

/// Typing a character, moving left and deleting forward gives back the
/// state that was there before; from an empty buffer, an empty buffer with
/// the cursor at the start.
pub proof fn lemma_insert_left_delete_restores(v: PromptView, c: char)
    requires
        v.wf(),
    ensures
        delete_spec(left_spec(insert_spec(v, c))) == v,
{
    let w = delete_spec(left_spec(insert_spec(v, c)));
    assert(w.buffer =~= v.buffer);
}

/// Typing `cs` one character at a time into an empty buffer yields exactly
/// `cs`, with the cursor at its end.
pub proof fn lemma_typing_builds_text(mode: CommandPromptMode, cs: Seq<char>)
    ensures
        typed(PromptView { mode, buffer: Seq::empty(), cursor: 0 }, cs).buffer == cs,
        typed(PromptView { mode, buffer: Seq::empty(), cursor: 0 }, cs).cursor == cs.len(),
{
    lemma_typing_appends(PromptView { mode, buffer: Seq::empty(), cursor: 0 }, cs);
    assert(Seq::<char>::empty() + cs =~= cs);
}

/// Typing at the end of the buffer appends.
proof fn lemma_typing_appends(v: PromptView, cs: Seq<char>)
    requires
        v.cursor == v.buffer.len(),
    ensures
        typed(v, cs).buffer == v.buffer + cs,
        typed(v, cs).cursor == v.buffer.len() + cs.len(),
        typed(v, cs).mode == v.mode,
    decreases cs.len(),
{
    if cs.len() > 0 {
        let w = insert_spec(v, cs[0]);
        assert(w.buffer =~= v.buffer.push(cs[0]));
        lemma_typing_appends(w, cs.drop_first());
        assert(w.buffer + cs.drop_first() =~= v.buffer + cs);
    }
}

/// The command prompt widget.
pub struct CommandPrompt {
    mode: CommandPromptMode,
    dex: usize,
    chars: Vec<char>,
}

/// Relies on String::push: the character is appended at the end.
#[verifier::external_body]
fn push_char(s: &mut String, c: char)
    ensures
        final(s)@ == old(s)@.push(c),
{
    s.push(c);
}

impl View for CommandPrompt {
    type V = PromptView;

    closed spec fn view(&self) -> PromptView {
        PromptView { mode: self.mode, buffer: self.chars@, cursor: self.dex as nat }
    }
}

impl CommandPrompt {
    /// An empty prompt in the given mode.
    pub fn new(mode: CommandPromptMode) -> (r: CommandPrompt)
        ensures
            r@ == (PromptView { mode, buffer: Seq::empty(), cursor: 0 }),
    {
        let r = CommandPrompt { mode, dex: 0, chars: Vec::new() };
        assert(r@.buffer =~= Seq::<char>::empty());
        r
    }

    pub fn mode(&self) -> (r: CommandPromptMode)
        ensures
            r == self@.mode,
    {
        self.mode
    }

    /// The insertion point, counted in characters.
    pub fn cursor(&self) -> (r: usize)
        ensures
            r == self@.cursor,
    {
        self.dex
    }

    pub fn len(&self) -> (r: usize)
        ensures
            r == self@.buffer.len(),
    {
        self.chars.len()
    }

    /// The text typed so far.
    pub fn text(&self) -> (r: String)
        ensures
            r@ == self@.buffer,
    {
        let mut s = String::new();
        let mut i: usize = 0;
        while i < self.chars.len()
            invariant
                i <= self.chars@.len(),
                s@ == self.chars@.subrange(0, i as int),
            decreases self.chars@.len() - i,
        {
            push_char(&mut s, self.chars[i]);
            i = i + 1;
            assert(s@ =~= self.chars@.subrange(0, i as int));
        }
        assert(self.chars@.subrange(0, i as int) =~= self.chars@);
        s
    }

    /// Moves the cursor one character left; nothing happens at the start.
    pub fn left(&mut self)
        requires
            old(self)@.wf(),
        ensures
            final(self)@ == left_spec(old(self)@),
            final(self)@.wf(),
    {
        if self.dex > 0 {
            self.dex -= 1;
        }
    }

    /// Moves the cursor one character right; nothing happens at the end.
    pub fn right(&mut self)
        requires
            old(self)@.wf(),
        ensures
            final(self)@ == right_spec(old(self)@),
            final(self)@.wf(),
    {
        if self.dex < self.chars.len() {
            self.dex += 1;
        }
    }

    /// Removes the character under the cursor; nothing happens at the end.
    pub fn delete(&mut self)
        requires
            old(self)@.wf(),
        ensures
            final(self)@ == delete_spec(old(self)@),
            final(self)@.wf(),
    {
        if self.dex < self.chars.len() {
            self.chars.remove(self.dex);
        }
    }

    /// Erases the character before the cursor. On an empty buffer the
    /// prompt is abandoned instead.
    pub fn back<C>(&mut self) -> (r: Option<PromptOutput<C>>)
        requires
            old(self)@.wf(),
        ensures
            final(self)@ == back_spec(old(self)@),
            final(self)@.wf(),
            r is Some <==> old(self)@.buffer.len() == 0,
            r is Some ==> r->0 is Cancel,
    {
        if self.dex > 0 {
            self.dex -= 1;
            self.chars.remove(self.dex);
            None
        } else if self.chars.len() == 0 {
            Some(PromptOutput::Cancel)
        } else {
            None
        }
    }

    /// Inserts a character at the cursor and moves the cursor past it.
    pub fn new_key(&mut self, chr: char)
        requires
            old(self)@.wf(),
            old(self)@.buffer.len() < usize::MAX,
        ensures
            final(self)@ == insert_spec(old(self)@, chr),
            final(self)@.wf(),
    {
        self.chars.insert(self.dex, chr);
        self.dex += 1;
    }
}

/// The result of finalizing a prompt whose text the parser turned into `pr`.
pub open spec fn parsed_outcome<C, E>(pr: Result<C, E>) -> Result<Option<PromptOutput<C>>, PromptError<E>> {
    match pr {
        Ok(c) => Ok(Some(PromptOutput::Command(c))),
        Err(e) => Err(PromptError::Parse(e)),
    }
}

/// The name of the command whose argument a find prompt collects.
pub open spec fn find_name() -> Seq<char> {
    seq!['f', 'i', 'n', 'd']
}

impl CommandPrompt {
    /// Turns the buffer into the prompt's final value. A find prompt hands
    /// back its text as a query, and fails on an empty buffer; a command
    /// prompt hands its text to `parse` and surfaces what it returns.
    pub fn finalize<C, E, F: Fn(String) -> Result<C, E>>(&self, parse: F) -> (r: Result<
        Option<PromptOutput<C>>,
        PromptError<E>,
    >)
        requires
            forall|s: String| parse.requires((s,)),
        ensures
            self@.mode == CommandPromptMode::Find ==> {
                &&& (r is Err <==> self@.buffer.len() == 0)
                &&& r is Err ==> r->Err_0 is ExpectedArgument
                    && r->Err_0->ExpectedArgument_cmd@ == find_name()
                &&& r is Ok ==> r->Ok_0 is Some && r->Ok_0->0 is Find
                    && r->Ok_0->0->Find_0@ == self@.buffer
            },
            self@.mode == CommandPromptMode::Command ==> exists|s: String, pr: Result<C, E>|
                s@ == self@.buffer && #[trigger] parse.ensures((s,), pr) && r == parsed_outcome(pr),
    {
        match self.mode {
            CommandPromptMode::Find => {
                if self.chars.len() == 0 {
                    proof {
                        reveal_strlit("find");
                    }
                    Err(PromptError::ExpectedArgument { cmd: String::from_str("find") })
                } else {
                    Ok(Some(PromptOutput::Find(self.text())))
                }
            },
            CommandPromptMode::Command => {
                let s = self.text();
                let ghost gs = s;
                let pr = parse(s);
                assert(parse.ensures((gs,), pr));
                match pr {
                    Ok(c) => Ok(Some(PromptOutput::Command(c))),
                    Err(e) => Err(PromptError::Parse(e)),
                }
            },
        }
    }

    /// Processes one key event. The accept key finalizes the prompt (see
    /// `finalize`); every other key edits it as `step` says, and only an
    /// erase on an empty buffer hands back a value, the cancellation.
    pub fn handle_input<C, E, F: Fn(String) -> Result<C, E>>(
        &mut self,
        input: &PromptKey,
        parse: F,
    ) -> (r: Result<Option<PromptOutput<C>>, PromptError<E>>)
        requires
            old(self)@.wf(),
            old(self)@.buffer.len() < usize::MAX,
            forall|s: String| parse.requires((s,)),
        ensures
            final(self)@ == step(old(self)@, *input),
            final(self)@.wf(),
            *input == PromptKey::Char('\n') ==> {
                &&& old(self)@.mode == CommandPromptMode::Find ==> {
                    &&& (r is Err <==> old(self)@.buffer.len() == 0)
                    &&& r is Err ==> r->Err_0 is ExpectedArgument
                        && r->Err_0->ExpectedArgument_cmd@ == find_name()
                    &&& r is Ok ==> r->Ok_0 is Some && r->Ok_0->0 is Find
                        && r->Ok_0->0->Find_0@ == old(self)@.buffer
                }
                &&& old(self)@.mode == CommandPromptMode::Command ==> exists|
                    s: String,
                    pr: Result<C, E>,
                | s@ == old(self)@.buffer && #[trigger] parse.ensures((s,), pr) && r
                    == parsed_outcome(pr)
            },
            (*input == PromptKey::Backspace || *input == PromptKey::Ctrl('h')) ==> {
                &&& r is Ok
                &&& (r->Ok_0 is Some <==> old(self)@.buffer.len() == 0)
                &&& r->Ok_0 is Some ==> r->Ok_0->0 is Cancel
            },
            (*input != PromptKey::Char('\n') && *input != PromptKey::Backspace && *input
                != PromptKey::Ctrl('h')) ==> r matches Ok(None),
    {
        match input {
            PromptKey::Char(c) => {
                if *c == '\n' {
                    self.finalize(parse)
                } else {
                    self.new_key(*c);
                    Ok(None)
                }
            },
            PromptKey::Ctrl(c) => {
                if *c == 'h' {
                    Ok(self.back())
                } else {
                    Ok(None)
                }
            },
            PromptKey::Backspace => Ok(self.back()),
            PromptKey::Delete => {
                self.delete();
                Ok(None)
            },
            PromptKey::Left => {
                self.left();
                Ok(None)
            },
            PromptKey::Right => {
                self.right();
                Ok(None)
            },
            PromptKey::Other => Ok(None),
        }
    }
}

} // verus!

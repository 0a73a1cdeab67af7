//! A single-line, cursor-addressable command prompt for a terminal editor.
//!
//! The prompt holds a buffer of characters and an insertion point. Key
//! events edit the buffer; the accept key finalizes it, either as a search
//! query or through a command parser handed in by the host. The renderer
//! turns the prompt into the bytes of one terminal line.

mod prompt;
mod render;

pub use prompt::{
    apply_keys, back_spec, delete_spec, find_name, insert_spec, left_spec,
    lemma_edits_keep_cursor_in_bounds, lemma_insert_left_delete_restores, lemma_typing_builds_text,
    parsed_outcome, right_spec, step, typed, CommandPrompt, CommandPromptMode, PromptError,
    PromptKey, PromptOutput, PromptView,
};
pub use render::{
    clear_line_seq, cursor_column_of, decimal, digit, goto_seq, indicator, rendered_line,
};

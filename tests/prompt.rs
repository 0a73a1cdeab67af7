use command_prompt::{CommandPrompt, CommandPromptMode, PromptError, PromptKey, PromptOutput};

fn no_parse(s: String) -> Result<String, String> {
    Ok(s)
}

fn typed(mode: CommandPromptMode, text: &str) -> CommandPrompt {
    let mut p = CommandPrompt::new(mode);
    for c in text.chars() {
        p.new_key(c);
    }
    p
}

#[test]
fn new_prompt_is_empty() {
    let p = CommandPrompt::new(CommandPromptMode::Find);
    assert_eq!(p.mode(), CommandPromptMode::Find);
    assert_eq!(p.cursor(), 0);
    assert_eq!(p.len(), 0);
    assert_eq!(p.text(), "");
}

#[test]
fn insert_left_delete_empties_buffer() {
    let mut p = CommandPrompt::new(CommandPromptMode::Command);
    p.new_key('x');
    p.left();
    p.delete();
    assert_eq!(p.text(), "");
    assert_eq!(p.cursor(), 0);
}

#[test]
fn backspace_on_empty_cancels_repeatedly() {
    let mut p = CommandPrompt::new(CommandPromptMode::Command);
    for _ in 0..3 {
        let r = p.handle_input(&PromptKey::Backspace, no_parse);
        assert!(matches!(r, Ok(Some(PromptOutput::Cancel))));
        assert_eq!(p.text(), "");
        assert_eq!(p.cursor(), 0);
    }
    let r = p.handle_input(&PromptKey::Ctrl('h'), no_parse);
    assert!(matches!(r, Ok(Some(PromptOutput::Cancel))));
}

#[test]
fn backspace_erases_before_cursor() {
    let mut p = typed(CommandPromptMode::Command, "abc");
    p.left();
    let r = p.handle_input(&PromptKey::Backspace, no_parse);
    assert!(matches!(r, Ok(None)));
    assert_eq!(p.text(), "ac");
    assert_eq!(p.cursor(), 1);
}

#[test]
fn backspace_at_start_of_nonempty_buffer_does_nothing() {
    let mut p = typed(CommandPromptMode::Command, "ab");
    p.left();
    p.left();
    let r = p.back::<()>();
    assert!(r.is_none());
    assert_eq!(p.text(), "ab");
    assert_eq!(p.cursor(), 0);
}

#[test]
fn find_on_empty_buffer_expects_argument() {
    let mut p = CommandPrompt::new(CommandPromptMode::Find);
    let r = p.handle_input(&PromptKey::Char('\n'), no_parse);
    match r {
        Err(PromptError::ExpectedArgument { cmd }) => assert_eq!(cmd, "find"),
        _ => panic!("expected ExpectedArgument"),
    }
}

#[test]
fn find_on_text_yields_query() {
    let mut p = typed(CommandPromptMode::Find, "abc");
    p.left();
    let r = p.handle_input(&PromptKey::Char('\n'), no_parse);
    match r {
        Ok(Some(PromptOutput::Find(q))) => assert_eq!(q, "abc"),
        _ => panic!("expected a query"),
    }
}

#[test]
fn command_mode_hands_text_to_parser() {
    let mut p = typed(CommandPromptMode::Command, "quit");
    let r = p.handle_input(&PromptKey::Char('\n'), |s: String| -> Result<usize, String> {
        Ok(s.len())
    });
    assert!(matches!(r, Ok(Some(PromptOutput::Command(4)))));
}

#[test]
fn command_mode_surfaces_parse_failure() {
    let mut p = typed(CommandPromptMode::Command, "bogus");
    let r = p.handle_input(&PromptKey::Char('\n'), |s: String| -> Result<(), String> {
        Err(format!("unknown command {}", s))
    });
    match r {
        Err(PromptError::Parse(e)) => assert_eq!(e, "unknown command bogus"),
        _ => panic!("expected a parse failure"),
    }
}

#[test]
fn moves_stop_at_the_ends() {
    let mut p = typed(CommandPromptMode::Command, "ab");
    p.right();
    assert_eq!(p.cursor(), 2);
    p.left();
    p.left();
    assert_eq!(p.cursor(), 0);
    p.left();
    assert_eq!(p.cursor(), 0);
    assert_eq!(p.text(), "ab");
}

#[test]
fn delete_at_end_does_nothing() {
    let mut p = typed(CommandPromptMode::Command, "ab");
    p.delete();
    assert_eq!(p.text(), "ab");
    p.left();
    p.left();
    p.delete();
    assert_eq!(p.text(), "b");
    assert_eq!(p.cursor(), 0);
}

#[test]
fn other_keys_are_ignored() {
    let mut p = typed(CommandPromptMode::Command, "ab");
    for k in [PromptKey::Other, PromptKey::Ctrl('a')] {
        let r = p.handle_input(&k, no_parse);
        assert!(matches!(r, Ok(None)));
    }
    assert_eq!(p.text(), "ab");
    assert_eq!(p.cursor(), 2);
}

#[test]
fn typing_builds_text() {
    let mut p = CommandPrompt::new(CommandPromptMode::Command);
    for c in "héllo wörld".chars() {
        let r = p.handle_input(&PromptKey::Char(c), no_parse);
        assert!(matches!(r, Ok(None)));
    }
    assert_eq!(p.text(), "héllo wörld");
    assert_eq!(p.cursor(), 11);
}

#[test]
fn insert_in_the_middle() {
    let mut p = typed(CommandPromptMode::Command, "ac");
    p.handle_input(&PromptKey::Left, no_parse).unwrap();
    p.handle_input(&PromptKey::Char('b'), no_parse).unwrap();
    assert_eq!(p.text(), "abc");
    assert_eq!(p.cursor(), 2);
    p.handle_input(&PromptKey::Right, no_parse).unwrap();
    p.handle_input(&PromptKey::Left, no_parse).unwrap();
    p.handle_input(&PromptKey::Delete, no_parse).unwrap();
    assert_eq!(p.text(), "ab");
}

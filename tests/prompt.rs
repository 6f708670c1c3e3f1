use psqlx::prompt::{
    classify_answer, classify_trimmed, confirm_key, AdditionalInstructions, InstructionPrompt, Key,
    Modifier, PromptStep,
};

fn type_text(p: &mut InstructionPrompt, s: &str) {
    for c in s.chars() {
        assert_eq!(p.on_key(Key::Char(c, Modifier::Plain)), PromptStep::Echo(c));
    }
}

#[test]
fn confirm_keys() {
    assert_eq!(confirm_key(Key::Enter), Some(true));
    assert_eq!(confirm_key(Key::Esc), Some(false));
    assert_eq!(confirm_key(Key::Char('c', Modifier::Control)), Some(false));
    assert_eq!(confirm_key(Key::Char('c', Modifier::Meta)), Some(false));
    assert_eq!(confirm_key(Key::Char('c', Modifier::Plain)), None);
    assert_eq!(confirm_key(Key::Char('y', Modifier::Plain)), None);
    assert_eq!(confirm_key(Key::Other), None);
}

#[test]
fn typed_instructions_are_trimmed() {
    let mut p = InstructionPrompt::new();
    type_text(&mut p, "  count users ");
    assert_eq!(
        p.on_key(Key::Enter),
        PromptStep::Finish(AdditionalInstructions::Text("count users".to_string()))
    );
}

#[test]
fn blank_answer_accepts() {
    let mut p = InstructionPrompt::new();
    type_text(&mut p, "   ");
    assert_eq!(p.on_key(Key::Enter), PromptStep::Finish(AdditionalInstructions::Flag(true)));
}

#[test]
fn cancel_words_in_any_case() {
    for w in ["quit", " QUIT ", "n", "N", "\\q", "Exit", "\\EXIT"] {
        assert_eq!(classify_answer(w), AdditionalInstructions::Flag(false), "{}", w);
    }
    assert_eq!(classify_answer("no"), AdditionalInstructions::Text("no".to_string()));
}

#[test]
fn classify_from_given_forms() {
    assert_eq!(
        classify_trimmed(String::new(), &String::new()),
        AdditionalInstructions::Flag(true)
    );
    assert_eq!(
        classify_trimmed("Quit".to_string(), &"quit".to_string()),
        AdditionalInstructions::Flag(false)
    );
    assert_eq!(
        classify_trimmed("Join t".to_string(), &"join t".to_string()),
        AdditionalInstructions::Text("Join t".to_string())
    );
}

#[test]
fn backspace_and_interrupts() {
    let mut p = InstructionPrompt::new();
    assert_eq!(p.on_key(Key::Backspace), PromptStep::Continue);
    type_text(&mut p, "ab");
    assert_eq!(p.on_key(Key::Backspace), PromptStep::Erase);
    assert_eq!(p.on_key(Key::Other), PromptStep::Continue);
    type_text(&mut p, "c");
    assert_eq!(
        p.on_key(Key::Enter),
        PromptStep::Finish(AdditionalInstructions::Text("ac".to_string()))
    );
    let mut q = InstructionPrompt::new();
    assert_eq!(
        q.on_key(Key::Char('c', Modifier::Control)),
        PromptStep::Finish(AdditionalInstructions::Flag(false))
    );
    assert_eq!(q.on_key(Key::Esc), PromptStep::Finish(AdditionalInstructions::Flag(false)));
}

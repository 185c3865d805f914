use llm_router::input::{read_input, InputKind};

#[test]
fn blank_line_is_empty() {
    assert_eq!(read_input("   \n"), (InputKind::Empty, ""));
    assert_eq!(read_input(""), (InputKind::Empty, ""));
}

#[test]
fn exit_and_quit_in_any_case_end_the_session() {
    assert_eq!(read_input("exit\n"), (InputKind::Exit, "exit"));
    assert_eq!(read_input("  QuIt "), (InputKind::Exit, "QuIt"));
    assert_eq!(read_input("EXIT"), (InputKind::Exit, "EXIT"));
}

#[test]
fn anything_else_is_a_prompt() {
    assert_eq!(read_input("  exit now\n"), (InputKind::Prompt, "exit now"));
    assert_eq!(read_input("quitting"), (InputKind::Prompt, "quitting"));
    assert_eq!(read_input("\thello world \r\n"), (InputKind::Prompt, "hello world"));
}

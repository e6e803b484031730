use graph_editor::cmd_editor::CommandLineEditor;
use graph_editor::cmd_editor::Note;
use graph_editor::cmd_editor::executer::Command;
use graph_editor::cmd_editor::lexer::Token;
use graph_editor::strutil::{str_eq, trim_str, usize_to_string};

fn tokens_of(line: &str) -> Vec<Token> {
    CommandLineEditor::new().tokenize_command(line.to_string())
}

fn texts(tokens: &[Token]) -> Vec<String> {
    tokens.iter().map(|t| t.to_string()).collect()
}

#[test]
fn str_eq_decides_equality() {
    assert!(str_eq("abc", "abc"));
    assert!(!str_eq("abc", "abd"));
    assert!(!str_eq("abc", "ab"));
    assert!(str_eq("", ""));
}

#[test]
fn trim_strips_surrounding_whitespace() {
    assert_eq!(trim_str("  hello \t\n"), "hello");
    assert_eq!(trim_str("hello"), "hello");
    assert_eq!(trim_str(" \t "), "");
    assert_eq!(trim_str("a b"), "a b");
}

#[test]
fn counter_renders_in_decimal() {
    assert_eq!(usize_to_string(0), "0");
    assert_eq!(usize_to_string(7), "7");
    assert_eq!(usize_to_string(10), "10");
    assert_eq!(usize_to_string(12345), "12345");
}

#[test]
fn tokenizer_reverses_words() {
    let toks = tokens_of("edge A B e1");
    assert_eq!(texts(&toks), vec!["e1", "B", "A", "edge"]);
    assert!(toks.iter().all(|t| matches!(t, Token::Alphanumeric(_))));
}

#[test]
fn tokenizer_classifies_addresses() {
    let toks = tokens_of("node @p1");
    assert_eq!(toks.len(), 2);
    assert!(matches!(&toks[0], Token::Adress(s) if s == "p1"));
    assert!(matches!(&toks[1], Token::Alphanumeric(s) if s == "node"));
}

#[test]
fn tokenizer_drops_extra_whitespace() {
    assert_eq!(texts(&tokens_of("  a \t b  ")), vec!["b", "a"]);
    assert!(tokens_of("").is_empty());
    assert!(tokens_of(" \t \n").is_empty());
}

#[test]
fn tokenizer_splits_on_unicode_whitespace() {
    assert_eq!(texts(&tokens_of("a\u{b}b\u{c}c")), vec!["c", "b", "a"]);
    assert_eq!(texts(&tokens_of("x\u{a0}y\u{2003}z")), vec!["z", "y", "x"]);
    assert!(tokens_of("\u{2028}\u{3000}\u{85}").is_empty());
    assert_eq!(trim_str("\u{2009}pad\u{202f}"), "pad");
}

#[test]
fn token_text_and_trim() {
    let t = Token::Adress("p1".to_string());
    assert_eq!(t.to_string(), "p1");
    let t2 = Token::Alphanumeric(" x ".to_string());
    assert_eq!(t2.trim(), "x");
    let d = Token::default();
    assert!(matches!(&d, Token::Alphanumeric(s) if s.is_empty()));
}

#[test]
fn parse_create_node_literal() {
    let mut ed = CommandLineEditor::new();
    let mut toks = tokens_of("node A");
    let (cmds, notes) = ed.parse_command(&mut toks);
    assert_eq!(cmds.len(), 1);
    assert!(matches!(&cmds[0], Command::CreateNode(n) if n == "A"));
    assert!(notes.is_empty());
    assert!(toks.is_empty());
}

#[test]
fn parse_auto_names_missing_node_argument() {
    let mut ed = CommandLineEditor::new();
    let mut toks = tokens_of("node");
    let (cmds, _) = ed.parse_command(&mut toks);
    assert!(matches!(&cmds[0], Command::CreateNode(n) if n == "node1"));
    let mut toks2 = tokens_of("cn");
    let (cmds2, _) = ed.parse_command(&mut toks2);
    assert!(matches!(&cmds2[0], Command::CreateNode(n) if n == "node2"));
}

#[test]
fn parse_edge_command() {
    let mut ed = CommandLineEditor::new();
    let mut toks = tokens_of("edge A B e1");
    let (cmds, notes) = ed.parse_command(&mut toks);
    assert!(matches!(
        &cmds[0],
        Command::CreateEdge(a, b, e) if a == "A" && b == "B" && e == "e1"
    ));
    assert!(notes.is_empty());
}

#[test]
fn parse_edge_missing_name_is_reported_no_op() {
    let mut ed = CommandLineEditor::new();
    let mut toks = tokens_of("edge A B");
    let (cmds, notes) = ed.parse_command(&mut toks);
    assert!(matches!(&cmds[0], Command::Nop));
    assert!(notes.iter().any(|n| matches!(n, Note::MissingArgument(k) if k == "edge")));
}

#[test]
fn parse_unknown_command_is_reported_no_op() {
    let mut ed = CommandLineEditor::new();
    let mut toks = tokens_of("frobnicate");
    let (cmds, notes) = ed.parse_command(&mut toks);
    assert!(matches!(&cmds[0], Command::Nop));
    assert!(notes.iter().any(|n| matches!(n, Note::UnknownCommand(k) if k == "frobnicate")));
}

#[test]
fn parse_address_in_command_position_is_unsupported_input() {
    let mut ed = CommandLineEditor::new();
    let mut toks = tokens_of("@p1 A");
    let (cmds, notes) = ed.parse_command(&mut toks);
    assert!(matches!(&cmds[0], Command::Nop));
    assert!(notes.iter().any(|n| matches!(n, Note::AddressCommand(k) if k == "p1")));
}

#[test]
fn parse_empty_line_is_a_silent_no_op() {
    let mut ed = CommandLineEditor::new();
    let mut toks = tokens_of("");
    let (cmds, notes) = ed.parse_command(&mut toks);
    assert!(matches!(&cmds[0], Command::Nop));
    assert!(notes.is_empty());
}

#[test]
fn parse_remove_node_defaults_to_empty_name() {
    let mut ed = CommandLineEditor::new();
    let mut toks = tokens_of("removenode");
    let (cmds, _) = ed.parse_command(&mut toks);
    assert!(matches!(&cmds[0], Command::RemoveNode(n) if n.is_empty()));
}

#[test]
fn parse_resolves_address_through_pin() {
    let mut ed = CommandLineEditor::new();
    let _ = ed.submit_line("node X".to_string());
    let _ = ed.submit_line("pin p1 X".to_string());
    let mut toks = tokens_of("removenode @p1");
    let (cmds, _) = ed.parse_command(&mut toks);
    // removenode takes its argument raw: the address text itself, unresolved
    assert!(matches!(&cmds[0], Command::RemoveNode(n) if n == "p1"));
    let mut toks2 = tokens_of("node @p1");
    let (cmds2, notes2) = ed.parse_command(&mut toks2);
    assert!(matches!(&cmds2[0], Command::CreateNode(n) if n == "X"));
    assert!(notes2.is_empty());
}

#[test]
fn parse_unresolvable_address_substitutes_pin_name() {
    let mut ed = CommandLineEditor::new();
    let mut toks = tokens_of("node @ghost");
    let (cmds, notes) = ed.parse_command(&mut toks);
    assert!(matches!(&cmds[0], Command::CreateNode(n) if n == "ghost"));
    assert!(notes.iter().any(|n| matches!(n, Note::PinUnresolved(k) if k == "ghost")));
}

#[test]
fn parse_listall_lists_at_parse_time() {
    let mut ed = CommandLineEditor::new();
    let _ = ed.submit_line("node A".to_string());
    let _ = ed.submit_line("node B".to_string());
    let mut toks = tokens_of("listall");
    let (cmds, notes) = ed.parse_command(&mut toks);
    assert!(matches!(&cmds[0], Command::Nop));
    let names: Vec<&str> = notes
        .iter()
        .filter_map(|n| match n {
            Note::NodeLine(s) => Some(s.as_str()),
            _ => None,
        })
        .collect();
    assert_eq!(names, vec!["A", "B"]);
}

#[test]
fn parse_listvisitors_lists_pins() {
    let mut ed = CommandLineEditor::new();
    let _ = ed.submit_line("node A".to_string());
    let _ = ed.submit_line("pin p1 A".to_string());
    let mut toks = tokens_of("lv");
    let (_, notes) = ed.parse_command(&mut toks);
    assert!(
        notes
            .iter()
            .any(|n| matches!(n, Note::PinLine(p, Some(c)) if p == "p1" && c == "A"))
    );
}

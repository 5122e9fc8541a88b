use spydecy::debugger::{parse_command, Breakpoint, Command, TranspilationPhase, TranspilationState};

#[test]
fn test_parse_step() {
    assert_eq!(parse_command("step").unwrap(), Command::Step);
    assert_eq!(parse_command("s").unwrap(), Command::Step);
    assert_eq!(parse_command("").unwrap(), Command::Step);
}

#[test]
fn test_parse_quit() {
    assert_eq!(parse_command("quit").unwrap(), Command::Quit);
    assert_eq!(parse_command("q").unwrap(), Command::Quit);
}

#[test]
fn test_parse_inspect() {
    assert_eq!(
        parse_command("inspect python_hir").unwrap(),
        Command::Inspect("python_hir".to_owned())
    );
}

#[test]
fn test_parse_breakpoint() {
    assert_eq!(
        parse_command("break boundary").unwrap(),
        Command::Break(Breakpoint::BoundaryElimination)
    );
}

#[test]
fn words_are_split_on_any_white_space() {
    assert_eq!(
        parse_command("  inspect \t unified   hir \n").unwrap(),
        Command::Inspect("unified hir".to_owned())
    );
    assert_eq!(parse_command("   ").unwrap(), Command::Step);
    assert_eq!(
        parse_command("b phase Unified  HIR").unwrap(),
        Command::Break(Breakpoint::Phase("Unified HIR".to_owned()))
    );
    assert_eq!(
        parse_command("break fn list_length extra").unwrap(),
        Command::Break(Breakpoint::Function("list_length".to_owned()))
    );
}

#[test]
fn other_commands() {
    assert_eq!(parse_command("c").unwrap(), Command::Continue);
    assert_eq!(parse_command("visualize").unwrap(), Command::Visualize);
    assert_eq!(parse_command("l").unwrap(), Command::ListBreakpoints);
    assert_eq!(parse_command("?").unwrap(), Command::Help);
    assert_eq!(parse_command("exit").unwrap(), Command::Quit);
    assert_eq!(parse_command("clear 3").unwrap(), Command::ClearBreakpoint(3));
    assert_eq!(parse_command("clear +12").unwrap(), Command::ClearBreakpoint(12));
    assert_eq!(
        parse_command("clear 18446744073709551615").unwrap(),
        Command::ClearBreakpoint(18446744073709551615)
    );
}

#[test]
fn command_errors() {
    assert_eq!(parse_command("inspect").unwrap_err(), "inspect requires a target");
    assert_eq!(parse_command("break").unwrap_err(), "break requires a breakpoint type");
    assert_eq!(parse_command("clear").unwrap_err(), "clear requires breakpoint number");
    assert_eq!(parse_command("clear x1").unwrap_err(), "Invalid breakpoint number");
    assert_eq!(parse_command("clear -1").unwrap_err(), "Invalid breakpoint number");
    assert_eq!(parse_command("clear +").unwrap_err(), "Invalid breakpoint number");
    assert_eq!(
        parse_command("clear 18446744073709551616").unwrap_err(),
        "Invalid breakpoint number"
    );
    assert_eq!(parse_command("break phase").unwrap_err(), "break phase requires phase name");
    assert_eq!(
        parse_command("break function").unwrap_err(),
        "break function requires function name"
    );
    assert_eq!(parse_command("break loop").unwrap_err(), "Unknown breakpoint type: 'loop'");
    assert_eq!(
        parse_command("jump 3").unwrap_err(),
        "Unknown command: 'jump'. Type 'help' for commands."
    );
}

#[test]
fn breakpoint_display() {
    assert_eq!(Breakpoint::BoundaryElimination.to_string(), "Boundary Elimination");
    assert_eq!(Breakpoint::Phase("Optimized".to_owned()).to_string(), "Phase: Optimized");
    assert_eq!(Breakpoint::Function("f".to_owned()).to_string(), "Function: f");
}

#[test]
fn phases_run_in_order_to_completion() {
    let mut state = TranspilationState::new("a.py".to_owned(), "a.c".to_owned());
    assert_eq!(state.phase.name(), "Start");
    let mut names = vec![];
    while let Ok(p) = state.advance() {
        names.push(p.name());
    }
    assert_eq!(
        names,
        vec![
            "Python Parsed",
            "Python HIR",
            "C Parsed",
            "C HIR",
            "Unified HIR",
            "Optimized",
            "Rust Generated",
            "Complete"
        ]
    );
    assert!(state.is_complete());
    assert_eq!(state.step_count, 8);
    assert_eq!(TranspilationPhase::Complete.next(), None);
    assert!(state.advance().is_err());
    assert_eq!(state.step_count, 8);
}

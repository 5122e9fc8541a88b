//! The step-through debugger's command language and its transpilation
//! phases. Reading lines and printing stay outside the library.

use vstd::prelude::*;

use crate::c::CHIR;
use crate::python::PythonHIR;
use crate::text::str_eq;
use crate::unified::UnifiedHIR;

verus! {

/// A debugger command.
#[derive(Debug, PartialEq, Eq)]
pub enum Command {
    /// Go to the next phase.
    Step,
    /// Run until a breakpoint or the end.
    Continue,
    /// Show the current state.
    Visualize,
    /// Show one part of the state.
    Inspect(String),
    /// Add a breakpoint.
    Break(Breakpoint),
    /// List the breakpoints.
    ListBreakpoints,
    /// Remove the breakpoint with this number.
    ClearBreakpoint(usize),
    /// Show help.
    Help,
    /// Leave the debugger.
    Quit,
}

/// Where the debugger stops.
#[derive(Debug, PartialEq, Eq)]
pub enum Breakpoint {
    /// When the optimiser eliminates a boundary.
    BoundaryElimination,
    /// When a phase is entered.
    Phase(String),
    /// When a function is processed.
    Function(String),
}

/// A breakpoint as a value of the specification.
pub enum BreakpointModel {
    BoundaryElimination,
    Phase(Seq<char>),
    Function(Seq<char>),
}

/// A command as a value of the specification.
pub enum CommandModel {
    Step,
    Continue,
    Visualize,
    Inspect(Seq<char>),
    Break(BreakpointModel),
    ListBreakpoints,
    ClearBreakpoint(usize),
    Help,
    Quit,
}

impl View for Breakpoint {
    type V = BreakpointModel;

    open spec fn view(&self) -> BreakpointModel {
        match self {
            Breakpoint::BoundaryElimination => BreakpointModel::BoundaryElimination,
            Breakpoint::Phase(p) => BreakpointModel::Phase(p@),
            Breakpoint::Function(f) => BreakpointModel::Function(f@),
        }
    }
}

impl View for Command {
    type V = CommandModel;

    open spec fn view(&self) -> CommandModel {
        match self {
            Command::Step => CommandModel::Step,
            Command::Continue => CommandModel::Continue,
            Command::Visualize => CommandModel::Visualize,
            Command::Inspect(t) => CommandModel::Inspect(t@),
            Command::Break(b) => CommandModel::Break(b@),
            Command::ListBreakpoints => CommandModel::ListBreakpoints,
            Command::ClearBreakpoint(n) => CommandModel::ClearBreakpoint(*n),
            Command::Help => CommandModel::Help,
            Command::Quit => CommandModel::Quit,
        }
    }
}

/// White space as Unicode's `White_Space` property defines it.
pub open spec fn is_space(c: char) -> bool {
    c == '\t' || c == '\n' || c == '\x0B' || c == '\x0C' || c == '\r' || c == ' ' || c == '\u{85}'
        || c == '\u{A0}' || c == '\u{1680}' || ('\u{2000}' <= c && c <= '\u{200A}') || c
        == '\u{2028}' || c == '\u{2029}' || c == '\u{202F}' || c == '\u{205F}' || c == '\u{3000}'
}

fn space(c: char) -> (r: bool)
    ensures
        r == is_space(c),
{
    c == '\t' || c == '\n' || c == '\x0B' || c == '\x0C' || c == '\r' || c == ' ' || c == '\u{85}'
        || c == '\u{A0}' || c == '\u{1680}' || ('\u{2000}' <= c && c <= '\u{200A}') || c
        == '\u{2028}' || c == '\u{2029}' || c == '\u{202F}' || c == '\u{205F}' || c == '\u{3000}'
}

/// The words found in a prefix so far, and the word being read.
pub open spec fn scan(s: Seq<char>) -> (Seq<Seq<char>>, Seq<char>)
    decreases s.len(),
{
    if s.len() == 0 {
        (Seq::empty(), Seq::empty())
    } else {
        let (done, cur) = scan(s.subrange(0, s.len() - 1));
        let c = s[s.len() - 1];
        if is_space(c) {
            if cur.len() > 0 {
                (done.push(cur), Seq::empty())
            } else {
                (done, Seq::empty())
            }
        } else {
            (done, cur.push(c))
        }
    }
}

/// The maximal runs of non-space characters of `s`, in order.
pub open spec fn words(s: Seq<char>) -> Seq<Seq<char>> {
    let (done, cur) = scan(s);
    if cur.len() > 0 {
        done.push(cur)
    } else {
        done
    }
}

/// Words joined with single spaces.
pub open spec fn join_words(w: Seq<Seq<char>>) -> Seq<char>
    decreases w.len(),
{
    if w.len() == 0 {
        Seq::empty()
    } else if w.len() == 1 {
        w[0]
    } else {
        join_words(w.subrange(0, w.len() - 1)) + " "@ + w[w.len() - 1]
    }
}

/// The value of a decimal digit character.
pub open spec fn digit_value(c: char) -> int {
    c as int - '0' as int
}

/// A decimal digit character.
pub open spec fn is_digit(c: char) -> bool {
    '0' <= c && c <= '9'
}

/// The value of a run of decimal digits.
pub open spec fn digits_value(d: Seq<char>) -> int
    decreases d.len(),
{
    if d.len() == 0 {
        0
    } else {
        digits_value(d.subrange(0, d.len() - 1)) * 10 + digit_value(d[d.len() - 1])
    }
}

/// What reading a run of characters as decimal digits gives: at least one
/// digit, only digits, and a value that fits.
pub open spec fn parse_digits(d: Seq<char>) -> Option<usize> {
    if d.len() > 0 && (forall|i: int| 0 <= i < d.len() ==> is_digit(#[trigger] d[i]))
        && digits_value(d) <= usize::MAX {
        Some(digits_value(d) as usize)
    } else {
        None
    }
}

/// The digits of `s`, without the sign `+` it may begin with.
pub open spec fn unsigned_digits(s: Seq<char>) -> Seq<char> {
    if s.len() > 0 && s[0] == '+' {
        s.subrange(1, s.len() as int)
    } else {
        s
    }
}

/// What reading `s` as an unsigned machine-sized integer gives: an optional
/// `+` then at least one decimal digit, with a value that fits.
pub open spec fn parse_usize(s: Seq<char>) -> Option<usize> {
    parse_digits(unsigned_digits(s))
}

/// What a breakpoint command's words after `break` give.
pub open spec fn breakpoint_model(parts: Seq<Seq<char>>) -> Result<CommandModel, Seq<char>> {
    let w = parts[0];
    if w == "boundary"@ {
        Ok(CommandModel::Break(BreakpointModel::BoundaryElimination))
    } else if w == "phase"@ {
        if parts.len() < 2 {
            Err("break phase requires phase name"@)
        } else {
            Ok(
                CommandModel::Break(
                    BreakpointModel::Phase(join_words(parts.subrange(1, parts.len() as int))),
                ),
            )
        }
    } else if w == "function"@ || w == "fn"@ {
        if parts.len() < 2 {
            Err("break function requires function name"@)
        } else {
            Ok(CommandModel::Break(BreakpointModel::Function(parts[1])))
        }
    } else {
        Err("Unknown breakpoint type: '"@ + w + "'"@)
    }
}

/// What a line of input means: an empty line steps; otherwise its first
/// word names the command and the rest are its arguments.
pub open spec fn command_model(input: Seq<char>) -> Result<CommandModel, Seq<char>> {
    let parts = words(input);
    if parts.len() == 0 {
        Ok(CommandModel::Step)
    } else {
        let w = parts[0];
        if w == "step"@ || w == "s"@ {
            Ok(CommandModel::Step)
        } else if w == "continue"@ || w == "c"@ {
            Ok(CommandModel::Continue)
        } else if w == "visualize"@ || w == "v"@ {
            Ok(CommandModel::Visualize)
        } else if w == "inspect"@ || w == "i"@ {
            if parts.len() < 2 {
                Err("inspect requires a target"@)
            } else {
                Ok(CommandModel::Inspect(join_words(parts.subrange(1, parts.len() as int))))
            }
        } else if w == "break"@ || w == "b"@ {
            if parts.len() < 2 {
                Err("break requires a breakpoint type"@)
            } else {
                breakpoint_model(parts.subrange(1, parts.len() as int))
            }
        } else if w == "list"@ || w == "l"@ {
            Ok(CommandModel::ListBreakpoints)
        } else if w == "clear"@ {
            if parts.len() < 2 {
                Err("clear requires breakpoint number"@)
            } else {
                match parse_usize(parts[1]) {
                    Some(n) => Ok(CommandModel::ClearBreakpoint(n)),
                    None => Err("Invalid breakpoint number"@),
                }
            }
        } else if w == "help"@ || w == "h"@ || w == "?"@ {
            Ok(CommandModel::Help)
        } else if w == "quit"@ || w == "q"@ || w == "exit"@ {
            Ok(CommandModel::Quit)
        } else {
            Err("Unknown command: '"@ + w + "'. Type 'help' for commands."@)
        }
    }
}

/// Splits a line into its words.
pub fn split_words(input: &str) -> (r: Vec<String>)
    ensures
        r@.len() == words(input@).len(),
        forall|i: int| 0 <= i < r@.len() ==> #[trigger] r@[i]@ == words(input@)[i],
{
    let n = input.unicode_len();
    let mut done: Vec<String> = Vec::new();
    let mut start: usize = 0;
    let mut i: usize = 0;
    while i < n
        invariant
            n == input@.len(),
            start <= i <= n,
            done@.len() == scan(input@.subrange(0, i as int)).0.len(),
            forall|j: int|
                0 <= j < done@.len() ==> #[trigger] done@[j]@ == scan(
                    input@.subrange(0, i as int),
                ).0[j],
            input@.subrange(start as int, i as int) == scan(input@.subrange(0, i as int)).1,
        decreases n - i,
    {
        let c = input.get_char(i);
        let ghost s = input@.subrange(0, i + 1);
        let ghost prev = scan(input@.subrange(0, i as int));
        proof {
            assert(s.subrange(0, s.len() - 1) =~= input@.subrange(0, i as int));
            assert(s[s.len() - 1] == c);
        }
        if space(c) {
            if start < i {
                let w = String::from_str(input.substring_char(start, i));
                done.push(w);
                proof {
                    assert(done@[done@.len() - 1]@ == prev.1);
                    assert forall|j: int| 0 <= j < done@.len() implies #[trigger] done@[j]@
                        == scan(s).0[j] by {
                        if j < done@.len() - 1 {
                            assert(done@[j]@ == prev.0[j]);
                        }
                    }
                }
            }
            start = i + 1;
        } else {
            proof {
                assert(input@.subrange(start as int, i + 1) =~= prev.1.push(c));
            }
        }
        i += 1;
        proof {
            assert(input@.subrange(start as int, i as int) =~= scan(s).1);
        }
    }
    assert(input@.subrange(0, n as int) =~= input@);
    if start < n {
        let w = String::from_str(input.substring_char(start, n));
        done.push(w);
        proof {
            assert forall|j: int| 0 <= j < done@.len() implies #[trigger] done@[j]@ == words(
                input@,
            )[j] by {
                if j < done@.len() - 1 {
                    assert(done@[j]@ == scan(input@).0[j]);
                }
            }
        }
    }
    done
}

/// The character views of a list of strings.
pub open spec fn views(v: Seq<String>) -> Seq<Seq<char>> {
    v.map_values(|s: String| s@)
}

/// A run of digits is worth at least any of its prefixes.
proof fn lemma_digits_value_monotone(d: Seq<char>, k: int)
    requires
        0 <= k <= d.len(),
        forall|i: int| 0 <= i < d.len() ==> is_digit(#[trigger] d[i]),
    ensures
        digits_value(d.subrange(0, k)) <= digits_value(d),
        digits_value(d) >= 0,
    decreases d.len(),
{
    if d.len() > 0 {
        let p = d.subrange(0, d.len() - 1);
        assert forall|i: int| 0 <= i < p.len() implies is_digit(#[trigger] p[i]) by {
            assert(p[i] == d[i]);
        }
        if k < d.len() {
            assert(p.subrange(0, k) =~= d.subrange(0, k));
            lemma_digits_value_monotone(p, k);
        } else {
            assert(d.subrange(0, k) =~= d);
            lemma_digits_value_monotone(p, 0);
        }
        assert(is_digit(d[d.len() - 1]));
    } else {
        assert(d.subrange(0, k) =~= d);
    }
}

/// Reads an unsigned machine-sized integer: an optional `+` then decimal
/// digits, with a value that fits.
pub fn parse_usize_str(s: &str) -> (r: Option<usize>)
    ensures
        r == parse_usize(s@),
{
    let n = s.unicode_len();
    let first: usize = if n > 0 && s.get_char(0) == '+' {
        1
    } else {
        0
    };
    let ghost d = unsigned_digits(s@);
    proof {
        if first == 0 {
            assert(d =~= s@.subrange(0, n as int));
        }
    }
    if first == n {
        return None;
    }
    let mut acc: usize = 0;
    let mut i: usize = first;
    while i < n
        invariant
            n == s@.len(),
            first <= i <= n,
            first < n,
            d == s@.subrange(first as int, n as int),
            d == unsigned_digits(s@),
            forall|j: int| 0 <= j < i - first ==> is_digit(#[trigger] d[j]),
            acc == digits_value(d.subrange(0, i - first)),
        decreases n - i,
    {
        let c = s.get_char(i);
        assert(c == d[i - first]);
        if !('0' <= c && c <= '9') {
            assert(!is_digit(d[i - first]));
            return None;
        }
        let dv: usize = (c as u32 - '0' as u32) as usize;
        assert(d.subrange(0, i + 1 - first).subrange(0, i - first) =~= d.subrange(0, i - first));
        let ghost next = d.subrange(0, i + 1 - first);
        assert(digits_value(next) == acc * 10 + dv);
        if acc > (usize::MAX - dv) / 10 {
            proof {
                assert(acc * 10 + dv > usize::MAX) by (nonlinear_arith)
                    requires
                        acc > (usize::MAX - dv) / 10,
                        dv <= 9,
                ;
                if forall|j: int| 0 <= j < d.len() ==> is_digit(#[trigger] d[j]) {
                    lemma_digits_value_monotone(d, i + 1 - first);
                    assert(digits_value(d) > usize::MAX);
                }
                assert(parse_usize(s@) is None);
            }
            return None;
        }
        proof {
            assert(acc * 10 + dv <= usize::MAX) by (nonlinear_arith)
                requires
                    acc <= (usize::MAX - dv) / 10,
                    dv <= 9,
            ;
        }
        acc = acc * 10 + dv;
        i += 1;
    }
    assert(d.subrange(0, n - first) =~= d);
    Some(acc)
}

/// The words of `parts` from position `from` on, joined with single spaces.
fn join_from(parts: &Vec<String>, from: usize) -> (r: String)
    requires
        from < parts@.len(),
    ensures
        r@ == join_words(views(parts@).subrange(from as int, parts@.len() as int)),
{
    let mut out = String::new();
    let mut i: usize = from;
    while i < parts.len()
        invariant
            from <= i <= parts@.len(),
            from < parts@.len(),
            out@ == join_words(views(parts@).subrange(from as int, i as int)),
        decreases parts@.len() - i,
    {
        let ghost w = views(parts@).subrange(from as int, i + 1);
        proof {
            assert(w.subrange(0, w.len() - 1) =~= views(parts@).subrange(from as int, i as int));
            assert(w[w.len() - 1] == parts@[i as int]@);
        }
        if i > from {
            out.append(" ");
        }
        out.append(parts[i].as_str());
        i += 1;
        proof {
            if i == from + 1 {
                assert(out@ =~= parts@[from as int]@);
            }
            assert(out@ =~= join_words(w));
        }
    }
    out
}

/// Reads a breakpoint from the words of a `break` command, which begin at
/// position 1.
fn parse_breakpoint(parts: &Vec<String>) -> (r: Result<Command, String>)
    requires
        parts@.len() >= 2,
    ensures
        match r {
            Ok(c) => breakpoint_model(views(parts@).subrange(1, parts@.len() as int)) == Ok::<
                CommandModel,
                Seq<char>,
            >(c@),
            Err(e) => breakpoint_model(views(parts@).subrange(1, parts@.len() as int)) == Err::<
                CommandModel,
                Seq<char>,
            >(e@),
        },
{
    let ghost rest = views(parts@).subrange(1, parts@.len() as int);
    assert(rest[0] == parts@[1]@);
    let w = parts[1].as_str();
    if str_eq(w, "boundary") {
        Ok(Command::Break(Breakpoint::BoundaryElimination))
    } else if str_eq(w, "phase") {
        if parts.len() < 3 {
            Err(String::from_str("break phase requires phase name"))
        } else {
            let j = join_from(parts, 2);
            assert(rest.subrange(1, rest.len() as int) =~= views(parts@).subrange(
                2,
                parts@.len() as int,
            ));
            Ok(Command::Break(Breakpoint::Phase(j)))
        }
    } else if str_eq(w, "function") || str_eq(w, "fn") {
        if parts.len() < 3 {
            Err(String::from_str("break function requires function name"))
        } else {
            assert(rest[1] == parts@[2]@);
            Ok(Command::Break(Breakpoint::Function(parts[2].clone())))
        }
    } else {
        let mut msg = String::from_str("Unknown breakpoint type: '");
        msg.append(w);
        msg.append("'");
        Err(msg)
    }
}

/// Reads a debugger command from a line of input. An empty line steps.
pub fn parse_command(input: &str) -> (r: Result<Command, String>)
    ensures
        match r {
            Ok(c) => command_model(input@) == Ok::<CommandModel, Seq<char>>(c@),
            Err(e) => command_model(input@) == Err::<CommandModel, Seq<char>>(e@),
        },
{
    let parts = split_words(input);
    proof {
        assert(views(parts@) =~= words(input@));
    }
    if parts.len() == 0 {
        return Ok(Command::Step);
    }
    let w = parts[0].as_str();
    if str_eq(w, "step") || str_eq(w, "s") {
        Ok(Command::Step)
    } else if str_eq(w, "continue") || str_eq(w, "c") {
        Ok(Command::Continue)
    } else if str_eq(w, "visualize") || str_eq(w, "v") {
        Ok(Command::Visualize)
    } else if str_eq(w, "inspect") || str_eq(w, "i") {
        if parts.len() < 2 {
            Err(String::from_str("inspect requires a target"))
        } else {
            Ok(Command::Inspect(join_from(&parts, 1)))
        }
    } else if str_eq(w, "break") || str_eq(w, "b") {
        if parts.len() < 2 {
            Err(String::from_str("break requires a breakpoint type"))
        } else {
            parse_breakpoint(&parts)
        }
    } else if str_eq(w, "list") || str_eq(w, "l") {
        Ok(Command::ListBreakpoints)
    } else if str_eq(w, "clear") {
        if parts.len() < 2 {
            Err(String::from_str("clear requires breakpoint number"))
        } else {
            match parse_usize_str(parts[1].as_str()) {
                Some(n) => Ok(Command::ClearBreakpoint(n)),
                None => Err(String::from_str("Invalid breakpoint number")),
            }
        }
    } else if str_eq(w, "help") || str_eq(w, "h") || str_eq(w, "?") {
        Ok(Command::Help)
    } else if str_eq(w, "quit") || str_eq(w, "q") || str_eq(w, "exit") {
        Ok(Command::Quit)
    } else {
        let mut msg = String::from_str("Unknown command: '");
        msg.append(w);
        msg.append("'. Type 'help' for commands.");
        Err(msg)
    }
}

/// How a breakpoint is shown.
pub open spec fn breakpoint_text(b: BreakpointModel) -> Seq<char> {
    match b {
        BreakpointModel::BoundaryElimination => "Boundary Elimination"@,
        BreakpointModel::Phase(p) => "Phase: "@ + p,
        BreakpointModel::Function(f) => "Function: "@ + f,
    }
}

impl Breakpoint {
    /// How the breakpoint is shown.
    pub fn to_string(&self) -> (r: String)
        ensures
            r@ == breakpoint_text(self@),
    {
        match self {
            Breakpoint::BoundaryElimination => String::from_str("Boundary Elimination"),
            Breakpoint::Phase(p) => {
                let mut s = String::from_str("Phase: ");
                s.append(p.as_str());
                s
            },
            Breakpoint::Function(f) => {
                let mut s = String::from_str("Function: ");
                s.append(f.as_str());
                s
            },
        }
    }
}

/// The phases of a transpilation, in order.
#[derive(Debug, Clone, Copy, PartialEq, Eq, Structural)]
pub enum TranspilationPhase {
    /// Nothing done yet.
    Start,
    /// The front-end source is parsed.
    PythonParsed,
    /// The front-end representation is built.
    PythonHIR,
    /// The native source is parsed.
    CParsed,
    /// The native representation is built.
    CHIR,
    /// The two are unified.
    UnifiedHIR,
    /// The unified tree is optimised.
    Optimized,
    /// Code of the emitted language is generated.
    RustGenerated,
    /// Done.
    Complete,
}

/// The name of a phase.
pub open spec fn phase_text(p: TranspilationPhase) -> Seq<char> {
    match p {
        TranspilationPhase::Start => "Start"@,
        TranspilationPhase::PythonParsed => "Python Parsed"@,
        TranspilationPhase::PythonHIR => "Python HIR"@,
        TranspilationPhase::CParsed => "C Parsed"@,
        TranspilationPhase::CHIR => "C HIR"@,
        TranspilationPhase::UnifiedHIR => "Unified HIR"@,
        TranspilationPhase::Optimized => "Optimized"@,
        TranspilationPhase::RustGenerated => "Rust Generated"@,
        TranspilationPhase::Complete => "Complete"@,
    }
}

/// The phase after `p`; the last has none.
pub open spec fn next_phase(p: TranspilationPhase) -> Option<TranspilationPhase> {
    match p {
        TranspilationPhase::Start => Some(TranspilationPhase::PythonParsed),
        TranspilationPhase::PythonParsed => Some(TranspilationPhase::PythonHIR),
        TranspilationPhase::PythonHIR => Some(TranspilationPhase::CParsed),
        TranspilationPhase::CParsed => Some(TranspilationPhase::CHIR),
        TranspilationPhase::CHIR => Some(TranspilationPhase::UnifiedHIR),
        TranspilationPhase::UnifiedHIR => Some(TranspilationPhase::Optimized),
        TranspilationPhase::Optimized => Some(TranspilationPhase::RustGenerated),
        TranspilationPhase::RustGenerated => Some(TranspilationPhase::Complete),
        TranspilationPhase::Complete => None,
    }
}

impl TranspilationPhase {
    /// The name of the phase.
    pub fn name(self) -> (r: &'static str)
        ensures
            r@ == phase_text(self),
    {
        match self {
            TranspilationPhase::Start => "Start",
            TranspilationPhase::PythonParsed => "Python Parsed",
            TranspilationPhase::PythonHIR => "Python HIR",
            TranspilationPhase::CParsed => "C Parsed",
            TranspilationPhase::CHIR => "C HIR",
            TranspilationPhase::UnifiedHIR => "Unified HIR",
            TranspilationPhase::Optimized => "Optimized",
            TranspilationPhase::RustGenerated => "Rust Generated",
            TranspilationPhase::Complete => "Complete",
        }
    }

    /// The phase after this one; the last has none.
    pub fn next(self) -> (r: Option<TranspilationPhase>)
        ensures
            r == next_phase(self),
    {
        match self {
            TranspilationPhase::Start => Some(TranspilationPhase::PythonParsed),
            TranspilationPhase::PythonParsed => Some(TranspilationPhase::PythonHIR),
            TranspilationPhase::PythonHIR => Some(TranspilationPhase::CParsed),
            TranspilationPhase::CParsed => Some(TranspilationPhase::CHIR),
            TranspilationPhase::CHIR => Some(TranspilationPhase::UnifiedHIR),
            TranspilationPhase::UnifiedHIR => Some(TranspilationPhase::Optimized),
            TranspilationPhase::Optimized => Some(TranspilationPhase::RustGenerated),
            TranspilationPhase::RustGenerated => Some(TranspilationPhase::Complete),
            TranspilationPhase::Complete => None,
        }
    }
}

/// A snapshot of a transpilation, for the step-through debugger.
#[derive(Debug)]
pub struct TranspilationState {
    /// The current phase.
    pub phase: TranspilationPhase,
    /// How many steps were taken.
    pub step_count: usize,
    /// Path of the front-end source file.
    pub python_file: Option<String>,
    /// Path of the native source file.
    pub c_file: Option<String>,
    /// The front-end source.
    pub python_source: Option<String>,
    /// The native source.
    pub c_source: Option<String>,
    /// The front-end representation.
    pub python_hir: Option<PythonHIR>,
    /// The native representation.
    pub c_hir: Option<CHIR>,
    /// The unified tree.
    pub unified_hir: Option<UnifiedHIR>,
    /// The optimised tree.
    pub optimized_hir: Option<UnifiedHIR>,
    /// The generated code.
    pub rust_code: Option<String>,
}

impl TranspilationState {
    /// The state before anything is done, for the two source files.
    pub fn new(python_file: String, c_file: String) -> (r: Self)
        ensures
            r.phase == TranspilationPhase::Start,
            r.step_count == 0,
            r.python_file == Some(python_file),
            r.c_file == Some(c_file),
            r.python_source is None,
            r.c_source is None,
            r.python_hir is None,
            r.c_hir is None,
            r.unified_hir is None,
            r.optimized_hir is None,
            r.rust_code is None,
    {
        TranspilationState {
            phase: TranspilationPhase::Start,
            step_count: 0,
            python_file: Some(python_file),
            c_file: Some(c_file),
            python_source: None,
            c_source: None,
            python_hir: None,
            c_hir: None,
            unified_hir: None,
            optimized_hir: None,
            rust_code: None,
        }
    }

    /// Moves to the next phase and counts the step; at the last phase it
    /// fails and changes nothing.
    pub fn advance(&mut self) -> (r: Result<TranspilationPhase, String>)
        requires
            old(self).step_count < usize::MAX,
        ensures
            match next_phase(old(self).phase) {
                Some(p) => r == Ok::<TranspilationPhase, String>(p) && final(self).phase == p
                    && final(self).step_count == old(self).step_count + 1,
                None => r is Err && final(self).phase == old(self).phase
                    && final(self).step_count == old(self).step_count,
            },
            final(self).python_file == old(self).python_file,
            final(self).c_file == old(self).c_file,
            final(self).python_source == old(self).python_source,
            final(self).c_source == old(self).c_source,
            final(self).python_hir == old(self).python_hir,
            final(self).c_hir == old(self).c_hir,
            final(self).unified_hir == old(self).unified_hir,
            final(self).optimized_hir == old(self).optimized_hir,
            final(self).rust_code == old(self).rust_code,
    {
        match self.phase.next() {
            Some(p) => {
                self.phase = p;
                self.step_count = self.step_count + 1;
                Ok(p)
            },
            None => Err(String::from_str("Already at final phase")),
        }
    }

    /// Whether the transpilation is complete.
    pub fn is_complete(&self) -> (r: bool)
        ensures
            r == (self.phase == TranspilationPhase::Complete),
    {
        self.phase == TranspilationPhase::Complete
    }
}

} // verus!

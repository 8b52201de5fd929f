//! The session: the buffer of accepted lines and the evaluation protocol.
//!
//! The protocol for one line is: recognize a meta command by exact text
//! equality, or else build the candidate program (buffer joined with the new
//! line), wrap it as the body of the synthetic entry routine, submit it to the
//! engine, and grow the buffer only if the line both compiled and executed to
//! completion. A rejected or failing line leaves the buffer untouched, so the
//! buffer always describes a program that compiled and ran.

use vstd::prelude::*;
use vstd::string::*;
use crate::engine::{compiles, Engine, Verdict};

verus! {

// ---------------------------------------------------------------------------
// The specification model of the protocol.
// ---------------------------------------------------------------------------
/// The accumulation rule for the buffer: two pieces of source are joined by a
/// newline, except that joining onto an empty buffer yields the new piece
/// alone, so the buffer is exactly the accepted lines newline-joined in
/// submission order.
pub open spec fn joined(buffer: Seq<char>, line: Seq<char>) -> Seq<char> {
    if buffer.len() == 0 {
        line
    } else {
        buffer + "\n"@ + line
    }
}

/// The exact text of the meta command that empties the buffer.
pub open spec fn clear_command() -> Seq<char> {
    ".clear"@
}

/// The exact text of the meta command that emits the buffer.
pub open spec fn show_command() -> Seq<char> {
    ".show"@
}

/// The exact text of the meta command that emits the usage text.
pub open spec fn help_command() -> Seq<char> {
    ".help"@
}

/// A line is a meta command exactly when it equals one of the three command
/// texts; no trimming takes place, so a line with trailing whitespace falls
/// through to compilation.
pub open spec fn is_meta(line: Seq<char>) -> bool {
    ||| line == clear_command()
    ||| line == show_command()
    ||| line == help_command()
}

/// A candidate program wrapped as the sole body of the synthetic entry
/// routine, which makes a growing sequence of statements look to the engine
/// like one complete program.
pub open spec fn wrapped(source: Seq<char>) -> Seq<char> {
    "pub fn repl_main__() {\n"@ + source + "\n}"@
}

/// The buffer after one non-meta submission: it grows by the line exactly
/// when the engine accepted the line and ran it to completion, and is
/// otherwise unchanged.
pub open spec fn buffer_after(buffer: Seq<char>, line: Seq<char>, accepted: bool) -> Seq<char> {
    if accepted {
        joined(buffer, line)
    } else {
        buffer
    }
}

/// The usage text that the `.help` command emits.
pub open spec fn usage_text() -> Seq<char> {
    "runepl - A REPL for Rune.\n\nAvailable commands:\n .show  -- Show the current full code buffer.\n .clear -- Clear the current full code buffer.\n .help  -- Show this help.\n\nEverything else is appended as code into the buffer and executed.\n"@
}

// ---------------------------------------------------------------------------
// Outcomes and steps.
// ---------------------------------------------------------------------------
/// The observable result of evaluating one line.
#[derive(Debug)]
pub enum Outcome {
    /// `.clear` ran: the buffer is now empty. No value, no diagnostic.
    Cleared,
    /// `.show` ran: `text` is the buffer contents, verbatim.
    Shown { text: String },
    /// `.help` ran: `text` is the static usage text.
    Usage { text: String },
    /// The line compiled and executed to completion; the buffer has grown by
    /// the line. Any compiler warnings come rendered alongside the value.
    Value { value: rune::Value, warnings: Option<String> },
    /// The compiler rejected the candidate program; the buffer is unchanged.
    CompileFailure { diagnostic: String },
    /// The line compiled but failed during execution; the buffer is unchanged,
    /// so the buffer only ever holds lines that also ran to completion.
    RuntimeFailure { diagnostic: String },
}

/// What one line asks the session to do, decided before the engine is ever
/// involved. Only a [`Step::Submit`] carries a program to the engine: the
/// three meta commands never reach it.
#[derive(Debug)]
pub enum Step {
    /// The line is exactly `.clear`.
    Clear,
    /// The line is exactly `.show`.
    Show,
    /// The line is exactly `.help`.
    Help,
    /// The line is script source: `candidate` is the buffer joined with the
    /// line, and `program` is the candidate wrapped as a complete program.
    Submit { candidate: String, program: String },
}

// ---------------------------------------------------------------------------
// String helpers.
// ---------------------------------------------------------------------------
/// Exact text equality of two string slices.
pub fn str_eq(a: &str, b: &str) -> (r: bool)
    ensures
        r == (a@ == b@),
{
    let sa = String::from_str(a);
    let sb = String::from_str(b);
    sa == sb
}

/// Joins a new line onto a buffer: newline-separated, except that the first
/// accepted line becomes the buffer alone.
pub fn join_line(buffer: &String, line: &str) -> (r: String)
    ensures
        r@ == joined(buffer@, line@),
{
    if buffer.as_str().is_empty() {
        String::from_str(line)
    } else {
        let mut r = buffer.clone();
        r.append("\n");
        r.append(line);
        r
    }
}

/// Wraps accumulated source as the sole body of the synthetic entry routine
/// `repl_main__`, the one routine the session ever asks the engine to call.
pub fn format_code(source: &str) -> (r: String)
    ensures
        r@ == wrapped(source@),
{
    let mut text = String::from_str("pub fn repl_main__() {\n");
    text.append(source);
    text.append("\n}");
    text
}

/// The usage text, as a value.
pub fn usage_message() -> (r: String)
    ensures
        r@ == usage_text(),
{
    String::from_str(
        "runepl - A REPL for Rune.\n\nAvailable commands:\n .show  -- Show the current full code buffer.\n .clear -- Clear the current full code buffer.\n .help  -- Show this help.\n\nEverything else is appended as code into the buffer and executed.\n",
    )
}

// ---------------------------------------------------------------------------
// The session.
// ---------------------------------------------------------------------------
/// One interactive session: the accumulated buffer of accepted lines and the
/// engine handle it submits candidate programs to.
pub struct Session {
    engine: Engine,
    buffer: String,
}

impl View for Session {
    type V = Seq<char>;

    /// A session's abstract state is its buffer text.
    closed spec fn view(&self) -> Seq<char> {
        self.buffer@
    }
}

impl Session {
    /// A fresh session: empty buffer, ready to evaluate lines.
    pub fn new(engine: Engine) -> (s: Session)
        ensures
            s@ == Seq::<char>::empty(),
    {
        Session { engine, buffer: String::new() }
    }

    /// The current buffer contents, verbatim.
    pub fn buffer(&self) -> (r: &str)
        ensures
            r@ == self@,
    {
        self.buffer.as_str()
    }

    /// Decides what one line asks for, without touching the engine or the
    /// buffer: each meta command is recognized by exact text equality, and
    /// every other line becomes a candidate program to submit.
    pub fn prepare(&self, line: &str) -> (step: Step)
        ensures
            (step is Clear <==> line@ == clear_command()),
            (step is Show <==> line@ == show_command()),
            (step is Help <==> line@ == help_command()),
            (step is Submit <==> !is_meta(line@)),
            step matches Step::Submit { candidate, program } ==> candidate@ == joined(
                self@,
                line@,
            ) && program@ == wrapped(joined(self@, line@)),
    {
        proof {
            reveal_strlit(".clear");
            reveal_strlit(".show");
            reveal_strlit(".help");
            // The three command texts are pairwise distinct: `.clear` by its
            // length, `.show` and `.help` by their second character.
            assert(clear_command().len() == 6);
            assert(show_command().len() == 5);
            assert(help_command().len() == 5);
            assert(show_command()[1] == 's');
            assert(help_command()[1] == 'h');
        }
        if str_eq(line, ".clear") {
            return Step::Clear;
        }
        if str_eq(line, ".show") {
            return Step::Show;
        }
        if str_eq(line, ".help") {
            return Step::Help;
        }
        let candidate = join_line(&self.buffer, line);
        let program = format_code(candidate.as_str());
        Step::Submit { candidate, program }
    }

    /// Applies the engine's verdict on one candidate program: the buffer
    /// becomes the candidate exactly when the line compiled and executed to
    /// completion, and stays untouched on either kind of failure.
    pub fn commit(&mut self, candidate: String, verdict: Verdict) -> (r: Outcome)
        ensures
            verdict matches Verdict::Rejected { diagnostic } ==> final(self)@ == old(self)@ && (
            r matches Outcome::CompileFailure { diagnostic: d } && d == diagnostic),
            verdict matches Verdict::Completed { value, warnings } ==> final(self)@ == candidate@
                && (r matches Outcome::Value { value: v, warnings: w } && v == value && w
                == warnings),
            verdict matches Verdict::Faulted { diagnostic } ==> final(self)@ == old(self)@ && (
            r matches Outcome::RuntimeFailure { diagnostic: d } && d == diagnostic),
    {
        match verdict {
            Verdict::Rejected { diagnostic } => Outcome::CompileFailure { diagnostic },
            Verdict::Completed { value, warnings } => {
                self.buffer = candidate;
                Outcome::Value { value, warnings }
            },
            Verdict::Faulted { diagnostic } => Outcome::RuntimeFailure { diagnostic },
        }
    }

    /// Evaluates one raw line of input.
    ///
    /// Meta commands short-circuit: `.clear` empties the buffer, `.show` and
    /// `.help` change nothing and carry their output in the outcome. Every
    /// other line is joined to the buffer, wrapped, and submitted to the
    /// engine as one complete program; the buffer grows by the line exactly
    /// when the outcome carries a value, and is untouched on a compile or
    /// runtime failure, so an invalid line can never poison later attempts.
    ///
    /// In particular, a line whose wrapped candidate the engine's compiler
    /// does not accept never returns a value and never grows the buffer.
    pub fn evaluate(&mut self, line: &str) -> (r: Outcome)
        ensures
            line@ == clear_command() ==> final(self)@ == Seq::<char>::empty() && r is Cleared,
            line@ == show_command() ==> final(self)@ == old(self)@ && (
            r matches Outcome::Shown { text } && text@ == old(self)@),
            line@ == help_command() ==> final(self)@ == old(self)@ && (
            r matches Outcome::Usage { text } && text@ == usage_text()),
            !is_meta(line@) ==> {
                &&& (r is Value || r is CompileFailure || r is RuntimeFailure)
                &&& final(self)@ == buffer_after(old(self)@, line@, r is Value)
                &&& (r is CompileFailure ==> final(self)@ == old(self)@)
                &&& (r is RuntimeFailure ==> final(self)@ == old(self)@)
                &&& (r is Value ==> final(self)@ == joined(old(self)@, line@))
                &&& (r is Value ==> compiles(seq![wrapped(joined(old(self)@, line@))]))
                &&& (!compiles(seq![wrapped(joined(old(self)@, line@))]) ==> !(r is Value)
                    && final(self)@ == old(self)@)
            },
    {
        match self.prepare(line) {
            Step::Clear => {
                self.buffer = String::new();
                Outcome::Cleared
            },
            Step::Show => Outcome::Shown { text: self.buffer.clone() },
            Step::Help => Outcome::Usage { text: usage_message() },
            Step::Submit { candidate, program } => {
                let verdict = self.engine.submit(program.as_str(), "repl_main__");
                self.commit(candidate, verdict)
            },
        }
    }
}

// ---------------------------------------------------------------------------
// Laws of the protocol.
// ---------------------------------------------------------------------------
/// Law: rejection is idempotent on the session's state. A rejected submission
/// leaves the buffer exactly as it was, so resubmitting the same line builds
/// the identical candidate program, and the engine is asked the identical
/// question both times.
pub proof fn lemma_rejection_idempotent(buffer: Seq<char>, line: Seq<char>)
    ensures
        buffer_after(buffer, line, false) == buffer,
        wrapped(joined(buffer_after(buffer, line, false), line)) == wrapped(joined(buffer, line)),
{
}

/// Law: a rejected line is fully absent from the buffer. Starting from an
/// empty buffer, accepting one line, having the next rejected, and accepting
/// a third leaves the buffer equal to the first and third lines joined, with
/// no trace of the rejected one.
pub proof fn lemma_rejected_line_absent(first: Seq<char>, rejected: Seq<char>, last: Seq<char>)
    ensures
        ({
            let b1 = buffer_after(Seq::<char>::empty(), first, true);
            let b2 = buffer_after(b1, rejected, false);
            let b3 = buffer_after(b2, last, true);
            b3 == joined(first, last)
        }),
{
}

/// Law: a line equal to the literal text `.help` is a meta command, and a
/// meta command never yields a [`Step::Submit`] (see [`Session::prepare`]),
/// so no candidate program is ever built for it and nothing of it reaches
/// the engine.
pub proof fn lemma_help_bypasses_engine(line: Seq<char>)
    requires
        line == help_command(),
    ensures
        is_meta(line),
{
}

/// Law: meta commands are matched exactly, so a command with trailing
/// whitespace is not a meta command and falls through to compilation.
pub proof fn lemma_meta_exact_match()
    ensures
        !is_meta(".clear "@),
{
    reveal_strlit(".clear ");
    reveal_strlit(".clear");
    reveal_strlit(".show");
    reveal_strlit(".help");
    assert(".clear "@.len() == 7);
    assert(clear_command().len() == 6);
    assert(show_command().len() == 5);
    assert(help_command().len() == 5);
}

} // verus!


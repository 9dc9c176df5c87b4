use vstd::prelude::*;

verus! {

/// The textual forms of a wrapped failure.
///
/// A system I/O error or a type-erased error value is opaque to the verifier,
/// so the library keeps of such a payload exactly what its renderings read:
/// the payload's display text and its native debug text. The caller that
/// holds the concrete error value renders both once, at construction.
pub struct Cause {
    /// The payload's human-readable rendering.
    pub display_text: String,
    /// The payload's structural, diagnostics-oriented rendering.
    pub debug_text: String,
}

/// One hexadecimal digit, lower case.
pub open spec fn hex_digit(d: int) -> char {
    if d == 0 {
        '0'
    } else if d == 1 {
        '1'
    } else if d == 2 {
        '2'
    } else if d == 3 {
        '3'
    } else if d == 4 {
        '4'
    } else if d == 5 {
        '5'
    } else if d == 6 {
        '6'
    } else if d == 7 {
        '7'
    } else if d == 8 {
        '8'
    } else if d == 9 {
        '9'
    } else if d == 10 {
        'a'
    } else if d == 11 {
        'b'
    } else if d == 12 {
        'c'
    } else if d == 13 {
        'd'
    } else if d == 14 {
        'e'
    } else {
        'f'
    }
}

/// The lower-case hexadecimal digits of a control character's code, without
/// leading zeros: one digit below 16, two digits otherwise (codes stay below
/// 128, so two always suffice).
pub open spec fn hex_code(n: int) -> Seq<char> {
    if n < 16 {
        seq![hex_digit(n)]
    } else {
        seq![hex_digit(n / 16), hex_digit(n % 16)]
    }
}

/// How one character of a `Context` payload appears inside the quoted debug
/// field: the double quote, the backslash and the common control characters
/// get their two-character escapes, any other control character (and delete)
/// its `\u{..}` escape, and every remaining character stands as itself.
pub open spec fn escaped_char(c: char) -> Seq<char> {
    if c == '"' {
        seq!['\\', '"']
    } else if c == '\\' {
        seq!['\\', '\\']
    } else if c == '\n' {
        seq!['\\', 'n']
    } else if c == '\r' {
        seq!['\\', 'r']
    } else if c == '\t' {
        seq!['\\', 't']
    } else if c == '\0' {
        seq!['\\', '0']
    } else if (c as u32) < 0x20 || c as u32 == 0x7f {
        seq!['\\', 'u', '{'] + hex_code(c as u32 as int) + seq!['}']
    } else {
        seq![c]
    }
}

/// The quoted debug field's body: each character escaped in turn.
pub open spec fn escaped(s: Seq<char>) -> Seq<char>
    decreases s.len(),
{
    if s.len() == 0 {
        Seq::empty()
    } else {
        escaped(s.drop_last()) + escaped_char(s.last())
    }
}

/// Relies on `String::push`: appends the given character to the end of the
/// string.
#[verifier::external_body]
fn push_char(s: &mut String, c: char)
    ensures
        final(s)@ == old(s)@ + seq![c],
{
    s.push(c);
}

/// Appends the lower-case hexadecimal digit for `d`.
fn push_hex_digit(s: &mut String, d: u32)
    requires
        d < 16,
    ensures
        final(s)@ == old(s)@ + seq![hex_digit(d as int)],
{
    let c: char = if d == 0 {
        '0'
    } else if d == 1 {
        '1'
    } else if d == 2 {
        '2'
    } else if d == 3 {
        '3'
    } else if d == 4 {
        '4'
    } else if d == 5 {
        '5'
    } else if d == 6 {
        '6'
    } else if d == 7 {
        '7'
    } else if d == 8 {
        '8'
    } else if d == 9 {
        '9'
    } else if d == 10 {
        'a'
    } else if d == 11 {
        'b'
    } else if d == 12 {
        'c'
    } else if d == 13 {
        'd'
    } else if d == 14 {
        'e'
    } else {
        'f'
    };
    push_char(s, c);
}

/// Appends the escape of one payload character, as `escaped_char` states.
fn push_escaped(s: &mut String, c: char)
    ensures
        final(s)@ == old(s)@ + escaped_char(c),
{
    if c == '"' {
        s.append("\\\"");
        proof {
            reveal_strlit("\\\"");
            assert(s@ =~= old(s)@ + escaped_char(c));
        }
    } else if c == '\\' {
        s.append("\\\\");
        proof {
            reveal_strlit("\\\\");
            assert(s@ =~= old(s)@ + escaped_char(c));
        }
    } else if c == '\n' {
        s.append("\\n");
        proof {
            reveal_strlit("\\n");
            assert(s@ =~= old(s)@ + escaped_char(c));
        }
    } else if c == '\r' {
        s.append("\\r");
        proof {
            reveal_strlit("\\r");
            assert(s@ =~= old(s)@ + escaped_char(c));
        }
    } else if c == '\t' {
        s.append("\\t");
        proof {
            reveal_strlit("\\t");
            assert(s@ =~= old(s)@ + escaped_char(c));
        }
    } else if c == '\0' {
        s.append("\\0");
        proof {
            reveal_strlit("\\0");
            assert(s@ =~= old(s)@ + escaped_char(c));
        }
    } else {
        let code = c as u32;
        if code < 0x20 || code == 0x7f {
            s.append("\\u{");
            proof {
                reveal_strlit("\\u{");
            }
            if code >= 16 {
                push_hex_digit(s, code / 16);
            }
            push_hex_digit(s, code % 16);
            s.append("}");
            proof {
                reveal_strlit("}");
                assert(s@ =~= old(s)@ + escaped_char(c));
            }
        } else {
            push_char(s, c);
        }
    }
}

/// A failure from one of three sources, exactly one active per instance.
pub enum Error {
    /// A named piece of context (for example an argument key) was missing
    /// when required. The payload is the reason's display text: only the
    /// ability to be formatted for display is retained.
    Context(String),
    /// The underlying mechanism for launching or running a worker thread
    /// failed at the I/O level.
    Thread(Cause),
    /// Any other failure, its concrete type erased, typically from
    /// launching a worker.
    Other(Cause),
}

impl Error {
    /// Wraps a displayable reason as the `Context` variant. Total: never
    /// fails, stores the reason verbatim.
    pub fn context(reason: String) -> (e: Error)
        ensures
            e == Error::Context(reason),
    {
        Error::Context(reason)
    }

    /// Wraps a system I/O error's textual forms as the `Thread` variant.
    /// Total: never fails, stores the payload verbatim.
    pub fn thread(err: Cause) -> (e: Error)
        ensures
            e == Error::Thread(err),
    {
        Error::Thread(err)
    }

    /// Wraps any other error's textual forms as the `Other` variant.
    /// Total: never fails, stores the payload verbatim.
    pub fn other(err: Cause) -> (e: Error)
        ensures
            e == Error::Other(err),
    {
        Error::Other(err)
    }

    /// The structured rendering for logs: the variant's name around its
    /// payload. A `Context` payload appears as a quoted, escaped field of its
    /// display text; the other two payloads appear in their native debug form.
    pub open spec fn debug_spec(self) -> Seq<char> {
        match self {
            Error::Context(reason) => "Context(\""@ + escaped(reason@) + "\")"@,
            Error::Thread(cause) => "Thread("@ + cause.debug_text@ + ")"@,
            Error::Other(cause) => "Other("@ + cause.debug_text@ + ")"@,
        }
    }

    /// Renders the error for logs, exactly as `debug_spec` states.
    pub fn debug_text(&self) -> (s: String)
        ensures
            s@ == self.debug_spec(),
    {
        match self {
            Error::Context(reason) => {
                let r = reason.as_str();
                let n = r.unicode_len();
                let mut s = String::from_str("Context(\"");
                let mut i: usize = 0;
                while i < n
                    invariant
                        i <= n,
                        n == r@.len(),
                        r@ == reason@,
                        s@ == "Context(\""@ + escaped(r@.subrange(0, i as int)),
                    decreases n - i,
                {
                    let c = r.get_char(i);
                    proof {
                        let pre = r@.subrange(0, i as int);
                        let post = r@.subrange(0, i as int + 1);
                        assert(post.drop_last() =~= pre);
                    }
                    push_escaped(&mut s, c);
                    i = i + 1;
                }
                proof {
                    assert(r@.subrange(0, n as int) =~= r@);
                }
                s.append("\")");
                proof {
                    assert(s@ =~= self.debug_spec());
                }
                s
            },
            Error::Thread(cause) => {
                let mut s = String::from_str("Thread(");
                s.append(cause.debug_text.as_str());
                s.append(")");
                proof {
                    assert(s@ =~= self.debug_spec());
                }
                s
            },
            Error::Other(cause) => {
                let mut s = String::from_str("Other(");
                s.append(cause.debug_text.as_str());
                s.append(")");
                proof {
                    assert(s@ =~= self.debug_spec());
                }
                s
            },
        }
    }

    /// The human-readable rendering: one sentence per variant, the payload's
    /// display text inline.
    pub open spec fn display_spec(self) -> Seq<char> {
        match self {
            Error::Context(reason) => "Missing argument "@ + reason@ + " in context"@,
            Error::Thread(cause) => "Failed to run worker thread: "@ + cause.display_text@,
            Error::Other(cause) => "Failed launch worker: "@ + cause.display_text@,
        }
    }

    /// Renders the error for end users, exactly as `display_spec` states.
    pub fn display_text(&self) -> (s: String)
        ensures
            s@ == self.display_spec(),
    {
        match self {
            Error::Context(reason) => {
                let mut s = String::from_str("Missing argument ");
                s.append(reason.as_str());
                s.append(" in context");
                s
            },
            Error::Thread(cause) => {
                let mut s = String::from_str("Failed to run worker thread: ");
                s.append(cause.display_text.as_str());
                s
            },
            Error::Other(cause) => {
                let mut s = String::from_str("Failed launch worker: ");
                s.append(cause.display_text.as_str());
                s
            },
        }
    }
}

/// Whether two errors report the same source of failure with payloads that
/// render equally for display.
pub open spec fn same_source_and_text(e1: Error, e2: Error) -> bool {
    match (e1, e2) {
        (Error::Context(r1), Error::Context(r2)) => r1@ == r2@,
        (Error::Thread(c1), Error::Thread(c2)) => c1.display_text@ == c2.display_text@,
        (Error::Other(c1), Error::Other(c2)) => c1.display_text@ == c2.display_text@,
        _ => false,
    }
}

/// Law: every context error displays exactly as
/// `Missing argument {reason} in context`, with the reason's display text
/// inline.
pub proof fn lemma_context_display(reason: String)
    ensures
        Error::Context(reason).display_spec() == "Missing argument "@ + reason@ + " in context"@,
{
}

/// Law: every worker-thread launch error displays exactly as
/// `Failed to run worker thread: {err}`, with the I/O error's display text
/// inline.
pub proof fn lemma_thread_display(err: Cause)
    ensures
        Error::Thread(err).display_spec() == "Failed to run worker thread: "@
            + err.display_text@,
{
}

/// Law: every other erased error displays exactly as
/// `Failed launch worker: {err}`, with the error's display text inline.
pub proof fn lemma_other_display(err: Cause)
    ensures
        Error::Other(err).display_spec() == "Failed launch worker: "@ + err.display_text@,
{
}

/// Law: the debug form of a context error is always the variant name around
/// one quoted, escaped field holding the payload's display text, never a
/// structural dump of the payload.
pub proof fn lemma_context_debug(reason: String)
    ensures
        Error::Context(reason).debug_spec() == "Context(\""@ + escaped(reason@) + "\")"@,
{
}

/// Law: the debug form of a worker-thread launch error is always the variant
/// name around the payload's native debug form.
pub proof fn lemma_thread_debug(err: Cause)
    ensures
        Error::Thread(err).debug_spec() == "Thread("@ + err.debug_text@ + ")"@,
{
}

/// Law: the debug form of an other erased error is always the variant name
/// around the payload's native debug form.
pub proof fn lemma_other_debug(err: Cause)
    ensures
        Error::Other(err).debug_spec() == "Other("@ + err.debug_text@ + ")"@,
{
}

/// Law: construction is deterministic. Two errors of the same variant whose
/// payloads render equally for display have textually identical display
/// renderings, so repeated construction from equal input yields identical
/// display output.
pub proof fn lemma_equal_input_equal_display(e1: Error, e2: Error)
    requires
        same_source_and_text(e1, e2),
    ensures
        e1.display_spec() == e2.display_spec(),
{
}

} // verus!

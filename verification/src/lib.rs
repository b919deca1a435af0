//! A minimal string-carrying error type for command-line programs that want
//! to stop with a human-readable message instead of defining an error
//! taxonomy of their own.

use vstd::prelude::*;
use vstd::std_specs::convert::FromSpec;
use vstd::string::StrSliceExecFns;
use vstd::string::StringExecFns;

verus! {

/// The single error value: an owned, human-readable failure message.
///
/// A `Failure` is immutable after construction and carries nothing but its
/// message. It is meant to be built at the point where a fallible operation
/// gives up, then turned into an error result and propagated.
pub struct Failure(pub String);

impl View for Failure {
    type V = Seq<char>;

    open spec fn view(&self) -> Seq<char> {
        self.0@
    }
}

/// Whether the debug rendering replaces `c` by an escape sequence.
pub open spec fn needs_escape(c: char) -> bool {
    c == '"' || c == '\\' || c == '\n' || c == '\r' || c == '\t'
}

/// The characters that the debug rendering emits for one message character:
/// a two-character escape sequence where `needs_escape` holds, the character
/// itself everywhere else.
pub open spec fn escaped_char(c: char) -> Seq<char> {
    if c == '"' {
        seq!['\\', '"']
    } else if c == '\\' {
        seq!['\\', '\\']
    } else if c == '\n' {
        seq!['\\', 'n']
    } else if c == '\r' {
        seq!['\\', 'r']
    } else if c == '\t' {
        seq!['\\', 't']
    } else {
        seq![c]
    }
}

/// The escaped form of a whole message: each character replaced by its
/// `escaped_char` rendering, in order.
pub open spec fn escape_chars(m: Seq<char>) -> Seq<char>
    decreases m.len(),
{
    if m.len() == 0 {
        Seq::<char>::empty()
    } else {
        escaped_char(m[0]) + escape_chars(m.drop_first())
    }
}

/// The debug rendering of a message: the escaped message between two
/// quotation marks.
pub open spec fn debug_text_of(m: Seq<char>) -> Seq<char> {
    seq!['"'] + escape_chars(m) + seq!['"']
}

/// An opaque, heap-owned error handle: the type-erased form of a `Failure`.
///
/// Code that deals only in generic error handles can carry one of these
/// without knowing where it came from; the only capability it exposes is a
/// human-readable description, which equals the message of the `Failure`
/// it was made from.
pub struct BoxedError {
    message: String,
}

impl View for BoxedError {
    type V = Seq<char>;

    closed spec fn view(&self) -> Seq<char> {
        self.message@
    }
}

impl BoxedError {
    /// Returns the handle's description: the raw message of the `Failure`
    /// the handle was made from.
    pub fn to_display_text(&self) -> (r: String)
        ensures
            r@ == self@,
    {
        self.message.clone()
    }
}

/// The handle that `Failure::boxed` produces for a given `Failure`.
pub closed spec fn boxed_of(f: Failure) -> BoxedError {
    BoxedError { message: f.0 }
}

impl Failure {
    /// Returns the message exactly as it was given: the end-user rendering
    /// of a `Failure` adds no prefix, suffix or quoting.
    pub fn to_display_text(&self) -> (r: String)
        ensures
            r@ == self@,
    {
        self.0.clone()
    }

    /// Returns the message rendered in quoted, escaped literal form: the
    /// whole message between two quotation marks, with quotation marks,
    /// backslashes, newlines, carriage returns and tabs inside it replaced
    /// by two-character escape sequences. This is the diagnostic rendering
    /// of a `Failure`, distinct from its display text.
    pub fn to_debug_text(&self) -> (r: String)
        ensures
            r@ == debug_text_of(self@),
    {
        let s: &str = self.0.as_str();
        let n: usize = s.unicode_len();
        let mut out = String::new();
        out.append("\"");
        proof {
            reveal_strlit("\"");
            assert(out@ =~= seq!['"'] + escape_chars(s@.take(0)));
        }
        let mut i: usize = 0;
        while i < n
            invariant
                n == s@.len(),
                i <= n,
                out@ == seq!['"'] + escape_chars(s@.take(i as int)),
            decreases n - i,
        {
            let c = s.get_char(i);
            if c == '"' {
                out.append("\\\"");
                proof {
                    reveal_strlit("\\\"");
                    assert("\\\""@ =~= escaped_char(c));
                }
            } else if c == '\\' {
                out.append("\\\\");
                proof {
                    reveal_strlit("\\\\");
                    assert("\\\\"@ =~= escaped_char(c));
                }
            } else if c == '\n' {
                out.append("\\n");
                proof {
                    reveal_strlit("\\n");
                    assert("\\n"@ =~= escaped_char(c));
                }
            } else if c == '\r' {
                out.append("\\r");
                proof {
                    reveal_strlit("\\r");
                    assert("\\r"@ =~= escaped_char(c));
                }
            } else if c == '\t' {
                out.append("\\t");
                proof {
                    reveal_strlit("\\t");
                    assert("\\t"@ =~= escaped_char(c));
                }
            } else {
                let piece = s.substring_char(i, i + 1);
                proof {
                    assert(piece@ =~= escaped_char(c));
                }
                out.append(piece);
            }
            proof {
                lemma_escape_chars_push(s@.take(i as int), c);
                assert(s@.take(i as int + 1) =~= s@.take(i as int).push(c));
                assert(out@ =~= seq!['"'] + escape_chars(s@.take(i as int + 1)));
            }
            i = i + 1;
        }
        out.append("\"");
        proof {
            reveal_strlit("\"");
            assert(s@.take(n as int) =~= s@);
            assert(out@ =~= debug_text_of(self@));
        }
        out
    }

    /// Transforms the `Failure` into an opaque, heap-owned error handle
    /// whose description is the `Failure`'s message.
    pub fn boxed(self) -> (r: BoxedError)
        ensures
            r == boxed_of(self),
            r@ == self@,
    {
        BoxedError { message: self.0 }
    }

    /// Transforms the `Failure` into a `Result::Err(E)` when `E` can be
    /// constructed from a boxed error handle. The handle handed to `E::from`
    /// is exactly the one `boxed` would produce, so the message reaches the
    /// error holder losslessly.
    pub fn err_boxed<T, E: From<BoxedError>>(self) -> (r: Result<T, E>)
        ensures
            r is Err,
            <E as FromSpec<BoxedError>>::obeys_from_spec() ==> r == Result::<T, E>::Err(
                <E as FromSpec<BoxedError>>::from_spec(boxed_of(self)),
            ),
    {
        Err(E::from(self.boxed()))
    }

    /// Transforms the `Failure` into a `Result::Err(Failure)`.
    pub fn err<T>(self) -> (r: Result<T, Failure>)
        ensures
            r == Result::<T, Failure>::Err(self),
    {
        Err(self)
    }
}

/// Constructs a `Failure` from an already-formatted message.
///
/// Callers interpolate their arguments into the message before the call;
/// this function never alters the text it is given.
pub fn failure_raw(message: String) -> (r: Failure)
    ensures
        r == (Failure(message)),
{
    Failure(message)
}

/// Constructs a `Failure` from an already-formatted message and converts it
/// into a failed result holding a boxed error handle, in one step.
///
/// To fail fast from inside a function, write `return failure(message);`:
/// the early return itself must stand at the call site.
pub fn failure<T, E: From<BoxedError>>(message: String) -> (r: Result<T, E>)
    ensures
        r is Err,
        <E as FromSpec<BoxedError>>::obeys_from_spec() ==> r == Result::<T, E>::Err(
            <E as FromSpec<BoxedError>>::from_spec(boxed_of(Failure(message))),
        ),
{
    Failure(message).err_boxed()
}

proof fn lemma_escape_chars_push(m: Seq<char>, c: char)
    ensures
        escape_chars(m.push(c)) == escape_chars(m) + escaped_char(c),
    decreases m.len(),
{
    let mp = m.push(c);
    if m.len() == 0 {
        assert(mp[0] == c);
        assert(mp.drop_first() =~= Seq::<char>::empty());
        assert(escape_chars(mp) == escaped_char(c) + escape_chars(Seq::<char>::empty()));
        assert(escaped_char(c) + Seq::<char>::empty() =~= escaped_char(c));
        assert(escape_chars(m) + escaped_char(c) =~= escaped_char(c));
    } else {
        assert(mp[0] == m[0]);
        assert(mp.drop_first() =~= m.drop_first().push(c));
        lemma_escape_chars_push(m.drop_first(), c);
        assert(escaped_char(m[0]) + (escape_chars(m.drop_first()) + escaped_char(c)) =~= (
        escaped_char(m[0]) + escape_chars(m.drop_first())) + escaped_char(c));
    }
}

proof fn lemma_escape_chars_identity(m: Seq<char>)
    requires
        forall|i: int| 0 <= i < m.len() ==> !needs_escape(m[i]),
    ensures
        escape_chars(m) == m,
    decreases m.len(),
{
    if m.len() == 0 {
        assert(escape_chars(m) =~= m);
    } else {
        assert(!needs_escape(m[0]));
        assert forall|i: int| 0 <= i < m.drop_first().len() implies !needs_escape(
            m.drop_first()[i],
        ) by {
            assert(m.drop_first()[i] == m[i + 1]);
        }
        lemma_escape_chars_identity(m.drop_first());
        assert(escaped_char(m[0]) =~= seq![m[0]]);
        assert(seq![m[0]] + m.drop_first() =~= m);
    }
}

proof fn lemma_escape_chars_len(m: Seq<char>)
    ensures
        escape_chars(m).len() >= m.len(),
    decreases m.len(),
{
    if m.len() > 0 {
        lemma_escape_chars_len(m.drop_first());
    }
}

/// Constructing a `Failure` from a message and reading its display text
/// returns exactly that message: construction stores the message unchanged,
/// and `to_display_text` returns the stored message with no added characters.
pub proof fn lemma_display_text_is_message(m: String)
    ensures
        (Failure(m))@ == m@,
{
}

/// In the common case — a message in which no character needs escaping —
/// the debug text is exactly the message between two quotation marks.
pub proof fn lemma_debug_text_plain(m: Seq<char>)
    requires
        forall|i: int| 0 <= i < m.len() ==> !needs_escape(m[i]),
    ensures
        debug_text_of(m) == seq!['"'] + m + seq!['"'],
{
    lemma_escape_chars_identity(m);
}

/// The debug text never equals the display text: the quotation marks alone
/// make it longer than the message. In particular the two renderings differ
/// whenever the message holds characters that need escaping.
pub proof fn lemma_debug_text_differs_from_display(m: Seq<char>)
    ensures
        debug_text_of(m) != m,
{
    lemma_escape_chars_len(m);
    assert(debug_text_of(m).len() >= m.len() + 2);
}

/// Round-trip through type erasure preserves the message: the description
/// carried by the boxed handle of a `Failure` is exactly its message.
pub proof fn lemma_boxed_preserves_message(f: Failure)
    ensures
        boxed_of(f)@ == f@,
{
}

/// A `Failure` never changes after construction: its display text is a
/// function of the value alone, so any two reads of the display text of the
/// same instance return identical text.
pub proof fn lemma_display_text_immutable(f: &Failure, r1: Seq<char>, r2: Seq<char>)
    requires
        r1 == f@,
        r2 == f@,
    ensures
        r1 == r2,
{
}

} // verus!

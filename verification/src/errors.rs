//! Errors, each with a message and the source ranges it points at.

use vstd::prelude::*;
use crate::source::SourceRange;

verus! {

/// What every error carries.
#[derive(Debug, Clone, PartialEq)]
pub struct KclErrorDetails {
    /// The spans of program text that the error points at; the first is the
    /// primary one.
    pub source_ranges: Vec<SourceRange>,
    /// What went wrong.
    pub message: String,
}

/// An error of the language core.
#[derive(Debug, Clone, PartialEq)]
pub enum KclError {
    /// The program text is malformed.
    Syntax(KclErrorDetails),
    /// An unknown name, a wrong calling form, a misplaced `show`, a misused
    /// pipe placeholder.
    Semantic(KclErrorDetails),
    /// Arguments of the wrong shape, count or variant.
    Type(KclErrorDetails),
    /// A name was read that has no value.
    UndefinedValue(KclErrorDetails),
    /// A name was given a value twice.
    ValueAlreadyDefined(KclErrorDetails),
    /// The geometry engine or its transport refused.
    Engine(KclErrorDetails),
}

/// The kinds of error.
#[derive(Debug, Clone, Copy, PartialEq, Eq, Structural)]
pub enum ErrorKind {
    Syntax,
    Semantic,
    Type,
    UndefinedValue,
    ValueAlreadyDefined,
    Engine,
}

/// What an error says: its kind, its message and its source ranges.
pub ghost struct KclErrorView {
    pub kind: ErrorKind,
    pub message: Seq<char>,
    pub source_ranges: Seq<SourceRange>,
}

impl KclError {
    /// The kind of this error.
    pub open spec fn spec_kind(&self) -> ErrorKind {
        match self {
            KclError::Syntax(_) => ErrorKind::Syntax,
            KclError::Semantic(_) => ErrorKind::Semantic,
            KclError::Type(_) => ErrorKind::Type,
            KclError::UndefinedValue(_) => ErrorKind::UndefinedValue,
            KclError::ValueAlreadyDefined(_) => ErrorKind::ValueAlreadyDefined,
            KclError::Engine(_) => ErrorKind::Engine,
        }
    }

    /// The message and source ranges of this error.
    pub open spec fn spec_details(&self) -> KclErrorDetails {
        match self {
            KclError::Syntax(d) => *d,
            KclError::Semantic(d) => *d,
            KclError::Type(d) => *d,
            KclError::UndefinedValue(d) => *d,
            KclError::ValueAlreadyDefined(d) => *d,
            KclError::Engine(d) => *d,
        }
    }

    /// The kind of this error.
    #[verifier::when_used_as_spec(spec_kind)]
    pub fn kind(&self) -> (r: ErrorKind)
        ensures
            r == self.spec_kind(),
    {
        match self {
            KclError::Syntax(_) => ErrorKind::Syntax,
            KclError::Semantic(_) => ErrorKind::Semantic,
            KclError::Type(_) => ErrorKind::Type,
            KclError::UndefinedValue(_) => ErrorKind::UndefinedValue,
            KclError::ValueAlreadyDefined(_) => ErrorKind::ValueAlreadyDefined,
            KclError::Engine(_) => ErrorKind::Engine,
        }
    }

    /// The message and source ranges of this error.
    pub fn details(&self) -> (r: &KclErrorDetails)
        ensures
            *r == self.spec_details(),
    {
        match self {
            KclError::Syntax(d) => d,
            KclError::Semantic(d) => d,
            KclError::Type(d) => d,
            KclError::UndefinedValue(d) => d,
            KclError::ValueAlreadyDefined(d) => d,
            KclError::Engine(d) => d,
        }
    }

    /// An error of the given kind.
    pub fn new(kind: ErrorKind, details: KclErrorDetails) -> (r: KclError)
        ensures
            r.spec_kind() == kind,
            r.spec_details() == details,
    {
        match kind {
            ErrorKind::Syntax => KclError::Syntax(details),
            ErrorKind::Semantic => KclError::Semantic(details),
            ErrorKind::Type => KclError::Type(details),
            ErrorKind::UndefinedValue => KclError::UndefinedValue(details),
            ErrorKind::ValueAlreadyDefined => KclError::ValueAlreadyDefined(details),
            ErrorKind::Engine => KclError::Engine(details),
        }
    }

    /// An error of the given kind that points at one source range.
    pub fn at(kind: ErrorKind, message: String, source_range: SourceRange) -> (r: KclError)
        ensures
            r@ == (KclErrorView { kind, message: message@, source_ranges: seq![source_range] }),
    {
        let mut source_ranges: Vec<SourceRange> = Vec::new();
        source_ranges.push(source_range);
        assert(source_ranges@ =~= seq![source_range]);
        KclError::new(kind, KclErrorDetails { source_ranges, message })
    }

    /// This error as the caller of a function reports it: the source range
    /// of the call comes first, and the source ranges of the error follow.
    pub fn in_call(self, call_site: SourceRange) -> (r: KclError)
        ensures
            r@ == (KclErrorView {
                source_ranges: seq![call_site] + self@.source_ranges,
                ..self@
            }),
    {
        let kind = self.kind();
        let message = self.message();
        let inner = self.source_ranges();
        let mut source_ranges: Vec<SourceRange> = Vec::new();
        source_ranges.push(call_site);
        let mut i: usize = 0;
        while i < inner.len()
            invariant
                i <= inner.len(),
                source_ranges@ == seq![call_site] + inner@.take(i as int),
            decreases inner.len() - i,
        {
            source_ranges.push(inner[i]);
            i = i + 1;
            assert(source_ranges@ =~= seq![call_site] + inner@.take(i as int));
        }
        assert(inner@.take(i as int) =~= inner@);
        KclError::new(kind, KclErrorDetails { source_ranges, message })
    }

    /// The message of this error.
    pub fn message(&self) -> (r: String)
        ensures
            r@ == self@.message,
    {
        self.details().message.clone()
    }

    /// The source ranges of this error.
    pub fn source_ranges(&self) -> (r: Vec<SourceRange>)
        ensures
            r@ == self@.source_ranges,
    {
        let ranges = &self.details().source_ranges;
        let mut out: Vec<SourceRange> = Vec::new();
        let mut i: usize = 0;
        while i < ranges.len()
            invariant
                i <= ranges.len(),
                out@ == ranges@.take(i as int),
            decreases ranges.len() - i,
        {
            out.push(ranges[i]);
            i = i + 1;
            assert(out@ =~= ranges@.take(i as int));
        }
        assert(out@ =~= ranges@);
        out
    }
}

/// A `Semantic` error at `source_range` with the message `message`.
pub open spec fn semantic_error(message: Seq<char>, source_range: SourceRange) -> KclErrorView {
    KclErrorView { kind: ErrorKind::Semantic, message, source_ranges: seq![source_range] }
}

/// A `Type` error at `source_range` with the message `message`.
pub open spec fn type_error(message: Seq<char>, source_range: SourceRange) -> KclErrorView {
    KclErrorView { kind: ErrorKind::Type, message, source_ranges: seq![source_range] }
}

/// The text `before`, then `subject`, then `after`.
pub fn message_about(before: &str, subject: &str, after: &str) -> (r: String)
    ensures
        r@ == before@ + subject@ + after@,
{
    let mut message = String::from_str(before);
    message.append(subject);
    message.append(after);
    message
}

/// The decimal digit `d`, written out.
pub open spec fn digit_text(d: nat) -> Seq<char> {
    if d == 0 {
        "0"@
    } else if d == 1 {
        "1"@
    } else if d == 2 {
        "2"@
    } else if d == 3 {
        "3"@
    } else if d == 4 {
        "4"@
    } else if d == 5 {
        "5"@
    } else if d == 6 {
        "6"@
    } else if d == 7 {
        "7"@
    } else if d == 8 {
        "8"@
    } else {
        "9"@
    }
}

/// The number `n`, written in decimal digits without leading zeros.
pub open spec fn decimal_text(n: nat) -> Seq<char>
    decreases n,
{
    if n < 10 {
        digit_text(n)
    } else {
        decimal_text(n / 10) + digit_text(n % 10)
    }
}

fn digit(d: usize) -> (r: &'static str)
    requires
        d < 10,
    ensures
        r@ == digit_text(d as nat),
{
    if d == 0 {
        "0"
    } else if d == 1 {
        "1"
    } else if d == 2 {
        "2"
    } else if d == 3 {
        "3"
    } else if d == 4 {
        "4"
    } else if d == 5 {
        "5"
    } else if d == 6 {
        "6"
    } else if d == 7 {
        "7"
    } else if d == 8 {
        "8"
    } else {
        "9"
    }
}

/// The number `n`, written in decimal digits without leading zeros.
pub fn decimal(n: usize) -> (r: String)
    ensures
        r@ == decimal_text(n as nat),
    decreases n,
{
    if n < 10 {
        String::from_str(digit(n))
    } else {
        let mut text = decimal(n / 10);
        text.append(digit(n % 10));
        text
    }
}

impl View for KclError {
    type V = KclErrorView;

    open spec fn view(&self) -> KclErrorView {
        KclErrorView {
            kind: self.spec_kind(),
            message: self.spec_details().message@,
            source_ranges: self.spec_details().source_ranges@,
        }
    }
}

} // verus!

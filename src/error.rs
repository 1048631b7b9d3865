//! Error type of the library.
use vstd::prelude::*;

verus! {

/// The error categories of the harness. Each carries a human-readable message.
#[derive(Debug, Clone)]
pub enum AppError {
    /// The hosting scheduler could not be created.
    RuntimeCreate(String),
    /// The key distribution could not be built.
    ZipfCreate(String),
    /// A cache adapter call failed.
    CacheOperation(String),
    /// An I/O failure.
    Io(String),
    /// An invalid configuration parameter.
    Config(String),
}

/// Results of the harness.
pub type Result<T> = std::result::Result<T, AppError>;

/// Separator between a prefix and a message.
pub open spec fn separator() -> Seq<char> {
    seq![':', ' ']
}

/// The two strings joined by `": "`.
fn join_with_separator(head: &str, tail: &str) -> (r: String)
    ensures
        r@ == head@ + separator() + tail@,
{
    proof {
        reveal_strlit(": ");
    }
    let mut r = String::from_str(head);
    r.append(": ");
    r.append(tail);
    r
}

impl AppError {
    /// The message an error carries.
    pub open spec fn message(&self) -> Seq<char> {
        match self {
            AppError::RuntimeCreate(m) => m@,
            AppError::ZipfCreate(m) => m@,
            AppError::CacheOperation(m) => m@,
            AppError::Io(m) => m@,
            AppError::Config(m) => m@,
        }
    }

    /// Both errors are of the same category.
    pub open spec fn same_kind(&self, other: &AppError) -> bool {
        match (self, other) {
            (AppError::RuntimeCreate(_), AppError::RuntimeCreate(_)) => true,
            (AppError::ZipfCreate(_), AppError::ZipfCreate(_)) => true,
            (AppError::CacheOperation(_), AppError::CacheOperation(_)) => true,
            (AppError::Io(_), AppError::Io(_)) => true,
            (AppError::Config(_), AppError::Config(_)) => true,
            _ => false,
        }
    }

    /// The label that names an error's category in reports.
    pub open spec fn label(&self) -> Seq<char> {
        match self {
            AppError::RuntimeCreate(_) => "Runtime create error"@,
            AppError::ZipfCreate(_) => "Zipf distribution create error"@,
            AppError::CacheOperation(_) => "Cache operation error"@,
            AppError::Io(_) => "IO error"@,
            AppError::Config(_) => "Configuration error"@,
        }
    }

    /// The report line of an error: its category's label, `": "`, and its
    /// message.
    pub fn describe(&self) -> (s: String)
        ensures
            s@ == self.label() + separator() + self.message(),
    {
        match self {
            AppError::RuntimeCreate(m) => join_with_separator("Runtime create error", m.as_str()),
            AppError::ZipfCreate(m) => join_with_separator("Zipf distribution create error", m.as_str()),
            AppError::CacheOperation(m) => join_with_separator("Cache operation error", m.as_str()),
            AppError::Io(m) => join_with_separator("IO error", m.as_str()),
            AppError::Config(m) => join_with_separator("Configuration error", m.as_str()),
        }
    }
}

/// `out` is `r` with `context` added: a success passes through unchanged; an
/// error keeps its category and its message gains the prefix `context` and
/// `": "`.
pub open spec fn context_added<T>(r: Result<T>, context: Seq<char>, out: Result<T>) -> bool {
    match r {
        Ok(v) => out == Ok::<T, AppError>(v),
        Err(e) => out matches Err(e2) && e2.same_kind(&e) && e2.message() == context + separator()
            + e.message(),
    }
}

/// Prefixes the message of an error with `context` and `": "`, keeping its
/// category; a success passes through unchanged.
pub fn add_context<T>(r: Result<T>, context: &str) -> (out: Result<T>)
    ensures
        context_added(r, context@, out),
{
    match r {
        Ok(v) => Ok(v),
        Err(AppError::RuntimeCreate(m)) => Err(AppError::RuntimeCreate(join_with_separator(context, m.as_str()))),
        Err(AppError::ZipfCreate(m)) => Err(AppError::ZipfCreate(join_with_separator(context, m.as_str()))),
        Err(AppError::CacheOperation(m)) => Err(AppError::CacheOperation(join_with_separator(context, m.as_str()))),
        Err(AppError::Io(m)) => Err(AppError::Io(join_with_separator(context, m.as_str()))),
        Err(AppError::Config(m)) => Err(AppError::Config(join_with_separator(context, m.as_str()))),
    }
}

/// Adds context to the error of a result.
pub trait ErrorContext<T>: Sized {
    /// `out` is `self` with `context` added.
    spec fn adds_context(self, context: Seq<char>, out: Result<T>) -> bool;

    fn with_context(self, context: &str) -> (out: Result<T>)
        ensures
            self.adds_context(context@, out),
    ;
}

impl<T> ErrorContext<T> for Result<T> {
    open spec fn adds_context(self, context: Seq<char>, out: Result<T>) -> bool {
        context_added(self, context, out)
    }

    fn with_context(self, context: &str) -> (out: Result<T>) {
        add_context(self, context)
    }
}

} // verus!

//! Severity of a line, read from its literal prefix.

use vstd::prelude::*;

verus! {

/// How severe a line is. Lines without a recognised prefix are `Info`.
#[derive(Clone, Copy, Debug, PartialEq, Eq, Structural)]
pub enum Severity {
    Error,
    Warn,
    Info,
}

pub open spec fn error_prefix() -> Seq<char> {
    seq!['[', 'E', 'R', 'R', ']', ' ']
}

pub open spec fn warn_prefix() -> Seq<char> {
    seq!['[', 'W', 'A', 'R', 'N', ']', ' ']
}

/// The severity of `line` and what follows its severity prefix:
/// `[ERR] ` is tried first, then `[WARN] `; otherwise the line is `Info` and kept whole.
pub open spec fn split_level_spec(line: Seq<char>) -> (Severity, Seq<char>) {
    if line.len() >= 6 && line.subrange(0, 6) == error_prefix() {
        (Severity::Error, line.skip(6))
    } else if line.len() >= 7 && line.subrange(0, 7) == warn_prefix() {
        (Severity::Warn, line.skip(7))
    } else {
        (Severity::Info, line)
    }
}

pub open spec fn severity_label(s: Severity) -> Seq<char> {
    match s {
        Severity::Error => seq!['E', 'R', 'R', 'O'],
        Severity::Warn => seq!['W', 'A', 'R', 'N'],
        Severity::Info => seq!['I', 'N', 'F', 'O'],
    }
}

impl Severity {
    /// The four-letter label of the severity in an emitted record.
    pub fn label(&self) -> (r: &'static str)
        ensures
            r@ == severity_label(*self),
    {
        match self {
            Severity::Error => {
                proof {
                    reveal_strlit("ERRO");
                }
                "ERRO"
            },
            Severity::Warn => {
                proof {
                    reveal_strlit("WARN");
                }
                "WARN"
            },
            Severity::Info => {
                proof {
                    reveal_strlit("INFO");
                }
                "INFO"
            },
        }
    }
}

} // verus!

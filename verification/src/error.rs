//! Error values surfaced by forcing a library aggregate or linking a lazy
//! cell.  Errors are values: the first failure of a one-shot slot is final
//! and is handed back unchanged to every later caller.

use vstd::prelude::*;
use vstd::string::StringExecFns;

verus! {

/// The kind of failure, without its payload.
#[derive(Clone, Copy, PartialEq, Eq, Structural, Debug)]
pub enum ErrorKind {
    /// The single candidate of an aggregate failed to open.
    LibraryNotFound,
    /// Every candidate of a multi-candidate aggregate failed to open.
    ListNotFound,
    /// The library opened, but the symbol was not resolvable in it.
    SymbolNotFound,
    /// The platform loader reported an error of its own.
    LoaderError,
}

/// A failure from forcing an aggregate or linking a lazy cell, carrying the
/// name that triggered it.
#[derive(Debug)]
pub enum DylinkError {
    /// The one candidate of an aggregate failed to open; carries its name.
    LibraryNotFound { name: String },
    /// A multi-candidate aggregate exhausted its list; carries the list.
    ListNotFound { names: Vec<String> },
    /// The library opened but the symbol was missing; carries the symbol.
    SymbolNotFound { symbol: String },
    /// The platform loader raised an error; carries its message.
    LoaderError { message: String },
}

/// The mathematical value of a [`DylinkError`]: the candidate list is a
/// sequence, everything else is carried as it stands.
pub ghost enum ErrorValue {
    LibraryNotFound { name: String },
    ListNotFound { names: Seq<String> },
    SymbolNotFound { symbol: String },
    LoaderError { message: String },
}

impl View for DylinkError {
    type V = ErrorValue;

    open spec fn view(&self) -> ErrorValue {
        match self {
            DylinkError::LibraryNotFound { name } => ErrorValue::LibraryNotFound {
                name: *name,
            },
            DylinkError::ListNotFound { names } => ErrorValue::ListNotFound { names: names@ },
            DylinkError::SymbolNotFound { symbol } => ErrorValue::SymbolNotFound {
                symbol: *symbol,
            },
            DylinkError::LoaderError { message } => ErrorValue::LoaderError {
                message: *message,
            },
        }
    }
}

impl ErrorValue {
    /// The kind of an error value.
    pub open spec fn kind_spec(self) -> ErrorKind {
        match self {
            ErrorValue::LibraryNotFound { .. } => ErrorKind::LibraryNotFound,
            ErrorValue::ListNotFound { .. } => ErrorKind::ListNotFound,
            ErrorValue::SymbolNotFound { .. } => ErrorKind::SymbolNotFound,
            ErrorValue::LoaderError { .. } => ErrorKind::LoaderError,
        }
    }
}

impl DylinkError {
    /// Which kind of failure this is.
    pub fn kind(&self) -> (k: ErrorKind)
        ensures
            k == self@.kind_spec(),
    {
        match self {
            DylinkError::LibraryNotFound { .. } => ErrorKind::LibraryNotFound,
            DylinkError::ListNotFound { .. } => ErrorKind::ListNotFound,
            DylinkError::SymbolNotFound { .. } => ErrorKind::SymbolNotFound,
            DylinkError::LoaderError { .. } => ErrorKind::LoaderError,
        }
    }

    /// An equal copy of this error, handed out where the stored failure of a
    /// one-shot slot must be returned by value.
    pub fn dup(&self) -> (r: DylinkError)
        ensures
            r@ == self@,
    {
        match self {
            DylinkError::LibraryNotFound { name } => DylinkError::LibraryNotFound {
                name: name.clone(),
            },
            DylinkError::ListNotFound { names } => DylinkError::ListNotFound {
                names: clone_names(names),
            },
            DylinkError::SymbolNotFound { symbol } => DylinkError::SymbolNotFound {
                symbol: symbol.clone(),
            },
            DylinkError::LoaderError { message } => DylinkError::LoaderError {
                message: message.clone(),
            },
        }
    }
}

/// A candidate list, written out with `", "` between the names.
pub open spec fn joined(names: Seq<String>) -> Seq<char>
    decreases names.len(),
{
    if names.len() == 0 {
        Seq::empty()
    } else if names.len() == 1 {
        names[0]@
    } else {
        names[0]@ + ", "@ + joined(names.drop_first())
    }
}

/// Writing out one more name appends a separator and the name.
pub proof fn lemma_joined_snoc(names: Seq<String>, x: String)
    ensures
        joined(names.push(x)) == if names.len() == 0 {
            x@
        } else {
            joined(names) + ", "@ + x@
        },
    decreases names.len(),
{
    reveal_with_fuel(joined, 3);
    if names.len() == 0 {
        assert(names.push(x)[0] == x);
    } else if names.len() == 1 {
        assert(names.push(x)[0] == names[0]);
        assert(names.push(x).drop_first() =~= Seq::<String>::empty().push(x));
        assert(Seq::<String>::empty().push(x)[0] == x);
        assert(joined(names.push(x)) =~= joined(names) + ", "@ + x@);
    } else {
        assert(names.push(x)[0] == names[0]);
        assert(names.push(x).drop_first() =~= names.drop_first().push(x));
        lemma_joined_snoc(names.drop_first(), x);
        assert(joined(names.push(x)) =~= joined(names) + ", "@ + x@);
    }
}

/// The diagnostic wording of an error value, formatted with the symbol or
/// library name that triggered the failure.
pub open spec fn message_spec(e: ErrorValue) -> Seq<char> {
    match e {
        ErrorValue::LibraryNotFound { name } => "library not found: "@ + name@,
        ErrorValue::ListNotFound { names } => "no library in the list could be opened: "@
            + joined(names),
        ErrorValue::SymbolNotFound { symbol } => "symbol not found: "@ + symbol@,
        ErrorValue::LoaderError { message } => "loader error: "@ + message@,
    }
}

impl DylinkError {
    /// The diagnostic, formatted with the name that triggered the failure;
    /// a missing symbol after a successful open reads differently from a
    /// library that did not open.
    pub fn message(&self) -> (m: String)
        ensures
            m@ == message_spec(self@),
    {
        match self {
            DylinkError::LibraryNotFound { name } => {
                let mut m = String::new();
                m.append("library not found: ");
                m.append(name.as_str());
                proof {
                    assert(m@ =~= message_spec(self@));
                }
                m
            },
            DylinkError::ListNotFound { names } => {
                let mut m = String::new();
                m.append("no library in the list could be opened: ");
                let n = names.len();
                let mut j: usize = 0;
                proof {
                    assert(names@.subrange(0, 0) =~= Seq::<String>::empty());
                    assert(m@ =~= "no library in the list could be opened: "@ + joined(
                        names@.subrange(0, 0),
                    ));
                }
                while j < n
                    invariant
                        j <= n,
                        n == names@.len(),
                        m@ == "no library in the list could be opened: "@ + joined(
                            names@.subrange(0, j as int),
                        ),
                    decreases n - j,
                {
                    if j > 0 {
                        m.append(", ");
                    }
                    m.append(names[j].as_str());
                    proof {
                        lemma_joined_snoc(names@.subrange(0, j as int), names@[j as int]);
                        assert(names@.subrange(0, j as int).push(names@[j as int])
                            =~= names@.subrange(0, j as int + 1));
                        assert(m@ =~= "no library in the list could be opened: "@ + joined(
                            names@.subrange(0, j as int + 1),
                        ));
                    }
                    j = j + 1;
                }
                proof {
                    assert(names@.subrange(0, n as int) =~= names@);
                }
                m
            },
            DylinkError::SymbolNotFound { symbol } => {
                let mut m = String::new();
                m.append("symbol not found: ");
                m.append(symbol.as_str());
                proof {
                    assert(m@ =~= message_spec(self@));
                }
                m
            },
            DylinkError::LoaderError { message } => {
                let mut m = String::new();
                m.append("loader error: ");
                m.append(message.as_str());
                proof {
                    assert(m@ =~= message_spec(self@));
                }
                m
            },
        }
    }
}

/// The mathematical value of a resolution result.
pub open spec fn result_view(r: Result<usize, DylinkError>) -> Result<usize, ErrorValue> {
    match r {
        Ok(a) => Ok(a),
        Err(e) => Err(e@),
    }
}

/// A copy of a list of names whose elements equal the originals.
pub fn clone_names(names: &Vec<String>) -> (r: Vec<String>)
    ensures
        r@ == names@,
{
    let mut out: Vec<String> = Vec::new();
    let mut i: usize = 0;
    while i < names.len()
        invariant
            i <= names@.len(),
            out@ =~= names@.subrange(0, i as int),
        decreases names@.len() - i,
    {
        out.push(names[i].clone());
        i = i + 1;
    }
    proof {
        assert(out@ =~= names@);
    }
    out
}

} // verus!

//! Resolving a dependency during validation: the element that a hash names
//! and the app entry it holds, or the validation result that explains why
//! they cannot be had.
use vstd::prelude::*;
use vstd::string::*;

verus! {

/// Errors of the helpers.
#[derive(Debug, Clone, Copy, PartialEq, Eq, Structural)]
pub enum Error {
    EntryMissing,
}

/// The message of an error.
pub open spec fn error_message(e: Error) -> Seq<char> {
    match e {
        Error::EntryMissing => "Element missing its Entry"@,
    }
}

impl Error {
    /// The message of the error, as its `Display` form prints it.
    pub fn to_string(&self) -> (s: String)
        ensures
            s@ == error_message(*self),
            *self == Error::EntryMissing ==> s@ == "Element missing its Entry"@,
    {
        match self {
            Error::EntryMissing => String::from_str("Element missing its Entry"),
        }
    }
}

/// The verdict of a validation callback; hashes are held as their raw
/// bytes.
#[derive(Debug, Clone)]
pub enum ValidateCallbackResult {
    Valid,
    Invalid(String),
    UnresolvedDependencies(Vec<Vec<u8>>),
}

/// The result rejects, with the given message.
pub open spec fn is_invalid_with(r: ValidateCallbackResult, message: Seq<char>) -> bool {
    r matches ValidateCallbackResult::Invalid(m) && m@ == message
}

impl From<Error> for ValidateCallbackResult {
    fn from(e: Error) -> (r: ValidateCallbackResult)
        ensures
            r matches ValidateCallbackResult::Invalid(m) && m@ == error_message(e),
    {
        ValidateCallbackResult::Invalid(e.to_string())
    }
}

impl vstd::std_specs::convert::FromSpecImpl<Error> for ValidateCallbackResult {
    open spec fn obeys_from_spec() -> bool {
        false
    }

    open spec fn from_spec(e: Error) -> ValidateCallbackResult {
        choose|r: ValidateCallbackResult| #[trigger] is_invalid_with(r, error_message(e))
    }
}

/// A dependency that was found: the element and the app entry it holds.
pub struct ResolvedDependency<E, D>(pub E, pub D);

/// The outcome of resolving the dependency named by `hash`, given what the
/// DHT returned for it: the element and the result of reading its app
/// entry (the read error as its message). No element: the dependency is
/// unresolved, with `hash` the one missing dependency. An element without
/// an app entry: invalid, `EntryMissing`. An entry that did not read:
/// invalid, with the read error's message.
pub fn resolve_dependency<E, O>(hash: Vec<u8>, fetched: Option<(E, Result<Option<O>, String>)>) -> (r:
    Result<ResolvedDependency<E, O>, ValidateCallbackResult>)
    ensures
        match fetched {
            None => r matches Err(ValidateCallbackResult::UnresolvedDependencies(missing))
                && missing@.len() == 1 && missing@[0]@ == hash@,
            Some((element, Ok(Some(output)))) => r matches Ok(ResolvedDependency(e, o)) && e
                == element && o == output,
            Some((_, Ok(None))) => r matches Err(ValidateCallbackResult::Invalid(m)) && m@
                == error_message(Error::EntryMissing) && m@ == "Element missing its Entry"@,
            Some((_, Err(read_error))) => r matches Err(ValidateCallbackResult::Invalid(m)) && m@
                == read_error@,
        },
{
    let (element, read) = match fetched {
        Some(found) => found,
        None => {
            let mut missing: Vec<Vec<u8>> = Vec::new();
            missing.push(hash);
            return Err(ValidateCallbackResult::UnresolvedDependencies(missing));
        },
    };
    let output: O = match read {
        Ok(Some(output)) => output,
        Ok(None) => return Err(Error::EntryMissing.into()),
        Err(e) => return Err(ValidateCallbackResult::Invalid(e)),
    };
    Ok(ResolvedDependency(element, output))
}

} // verus!

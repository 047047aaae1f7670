use vstd::prelude::*;
use vstd::string::StringExecFns;

verus! {

/// The datum exchanged with plugin functions: one numeric field, carried as
/// the 64 bits of its encoding.
#[derive(Clone, Copy, Debug, PartialEq, Eq, Structural)]
pub struct Value(pub u64);

/// Why an invocation did not produce values.
#[derive(Debug, PartialEq, Eq)]
pub enum InvocationError {
    /// No function is registered under the name.
    NotFound(String),
    /// The function itself reported a failure; the text is its own.
    Failed(String),
}

impl InvocationError {
    /// The text of the error: for an unregistered name the name between
    /// double quotes, followed by ` not found`; for a failure of the
    /// function, the function's own words.
    pub open spec fn spec_message(&self) -> Seq<char> {
        match self {
            InvocationError::NotFound(name) => "\""@ + name@ + "\" not found"@,
            InvocationError::Failed(message) => message@,
        }
    }

    /// The error as text, for diagnostics.
    pub fn message(&self) -> (text: String)
        ensures
            text@ == self.spec_message(),
    {
        match self {
            InvocationError::NotFound(name) => {
                let mut text = String::from_str("\"");
                text.append(name.as_str());
                text.append("\" not found");
                text
            },
            InvocationError::Failed(message) => message.clone(),
        }
    }
}

/// Why a plugin was not loaded.
#[derive(Debug, PartialEq, Eq)]
pub enum LoadError {
    /// No module at the given path.
    NotFound,
    /// The file is no loadable module.
    InvalidFormat,
    /// The platform refused to map the module; the text is its own.
    OsFailure(String),
    /// The module does not export the declaration.
    SymbolNotFound,
    /// The module was built against another version of the protocol.
    AbiMismatch,
}

} // verus!

use vstd::prelude::*;

verus! {

/// An error from reading a typed argument out of a `SlashMap`.
#[derive(Debug)]
pub enum Error {
    /// The field was present but holds a value of another type than requested.
    WrongType { expected: String, found: String, name: String },
    /// The field was absent from the table, or present without an inner value.
    MissingValue { name: String },
}

/// The text that `Error::message` renders for each error.
pub open spec fn spec_message(e: Error) -> Seq<char> {
    match e {
        Error::WrongType { expected, found, name } => "Wrong type in field `"@ + name@
            + "` (expected `"@ + expected@ + "`, got `"@ + found@ + "`)"@,
        Error::MissingValue { name } => "Missing value in field `"@ + name@ + "`"@,
    }
}

impl Error {
    /// Renders the error as a human-readable diagnostic line.
    pub fn message(&self) -> (r: String)
        ensures
            r@ == spec_message(*self),
    {
        match self {
            Error::WrongType { expected, found, name } => {
                let mut out = String::from_str("Wrong type in field `");
                out.append(name.as_str());
                out.append("` (expected `");
                out.append(expected.as_str());
                out.append("`, got `");
                out.append(found.as_str());
                out.append("`)");
                proof {
                    assert(out@ =~= spec_message(*self));
                }
                out
            },
            Error::MissingValue { name } => {
                let mut out = String::from_str("Missing value in field `");
                out.append(name.as_str());
                out.append("`");
                proof {
                    assert(out@ =~= spec_message(*self));
                }
                out
            },
        }
    }
}

} // verus!

use vstd::prelude::*;
use vstd::string::StringExecFns;

verus! {

/// The failure of a reader: a normalized description of why a file could
/// not be read.
#[derive(Debug, Clone)]
pub struct Error {
    msg: String,
}

impl Error {
    /// The description carried by this error.
    pub closed spec fn message(&self) -> Seq<char> {
        self.msg@
    }

    pub fn new(msg: String) -> (r: Error)
        ensures
            r.message() == msg@,
    {
        Error { msg }
    }

    pub fn msg(&self) -> (r: &String)
        ensures
            r@ == self.message(),
    {
        &self.msg
    }

    /// The text shown for this error: `Error: ` followed by the description.
    pub fn to_string(&self) -> (r: String)
        ensures
            r@ == "Error: "@ + self.message(),
    {
        let mut r = String::from_str("Error: ");
        r.append(self.msg.as_str());
        r
    }

    /// Whether two errors have the same description.
    pub fn same_description(&self, other: &Error) -> (r: bool)
        ensures
            r == (self.message() == other.message()),
    {
        self.msg == other.msg
    }
}

} // verus!

use vstd::prelude::*;

verus! {

/// Why a response could not be turned into price bars.
#[derive(Clone, Copy, Debug, PartialEq, Eq, Structural)]
pub enum Error {
    /// The body is not a JSON document, or the data array is not where it is expected.
    MalformedResponse,
    /// A date, time or numeric field of a bar is absent or cannot be read from its text.
    FieldParse,
}

} // verus!

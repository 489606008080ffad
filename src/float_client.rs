use vstd::prelude::*;

verus! {

/// Client for the time-logging service that the log action calls.
pub struct FloatClient {
    pub id: String,
}

impl FloatClient {
    /// A client carrying the fixed session identifier.
    pub fn new() -> (r: FloatClient)
        ensures
            r.id@ == "randomid_123"@,
    {
        FloatClient { id: String::from_str("randomid_123") }
    }

    /// The address that the log action requests.
    pub fn authenticate_url(&self) -> (r: String)
        ensures
            r@ == "https://dog.ceo/api/breeds/image/random"@,
    {
        String::from_str("https://dog.ceo/api/breeds/image/random")
    }
}

} // verus!

use vstd::prelude::*;

verus! {

/// A header of a JSON request.
#[derive(Debug)]
pub struct Headers {
    pub name: &'static str,
    pub value: &'static str,
}

/// Body of a JSON check request.
#[derive(Debug)]
pub struct Body {
    pub mac: String,
    pub version_name: String,
    pub version_min_id: u32,
    pub version_number: u32,
}

} // verus!

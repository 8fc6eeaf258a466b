//! The shared fact about JSON parsing that the response readers build on.
//!
//! Each reader (device action, backend start, identity search) has its
//! own trusted extraction wrapper over `serde_json`; they all agree on
//! when a body parses at all, which this name records.

use vstd::prelude::*;

verus! {

/// Whether `serde_json::from_str::<Value>` accepts `text`: a fixed
/// function of the text alone.
pub uninterp spec fn spec_json_parse_ok(text: Seq<char>) -> bool;

} // verus!

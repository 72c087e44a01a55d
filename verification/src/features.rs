//! The features that the renderer announces to the host.

use vstd::prelude::*;

verus! {

/// The names of the features: the renderer itself, and capturing where it
/// is built in.
pub open spec fn feature_names(capture: bool) -> Seq<Seq<char>> {
    if capture {
        seq!["wr"@, "wr-capture"@]
    } else {
        seq!["wr"@]
    }
}

/// The features to provide to the host when the renderer is set up, in
/// order.
pub fn syms_of_webrender(capture: bool) -> (features: Vec<&'static str>)
    ensures
        features@.len() == feature_names(capture).len(),
        forall|i: int|
            0 <= i < features@.len() ==> (#[trigger] features@[i])@ == feature_names(capture)[i],
{
    let mut features: Vec<&'static str> = Vec::new();
    features.push("wr");
    if capture {
        features.push("wr-capture");
    }
    features
}

} // verus!

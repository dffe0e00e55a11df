//! The attention heatmap's wire vocabulary: which surface a dwell episode
//! was observed on. Only the look and grid surfaces credit dwell; anything
//! else is refused rather than miscredited.
use vstd::prelude::*;
use crate::os::CmdError;
use crate::text::{concat2, str_eq};

verus! {

/// The surface a focus episode was observed on.
#[derive(Debug, Clone, Copy, PartialEq, Eq, Structural)]
pub enum DwellSource {
    Look,
    Grid,
}

/// The surface a wire `source` names.
pub fn parse_source(source: &str) -> (r: Result<DwellSource, CmdError>)
    ensures
        source@ == "look"@ ==> r == Ok::<DwellSource, CmdError>(DwellSource::Look),
        source@ == "grid"@ ==> r == Ok::<DwellSource, CmdError>(DwellSource::Grid),
        !(source@ == "look"@ || source@ == "grid"@) ==> (r matches Err(CmdError::Invalid(m)) && m@
            == "bad dwell source: "@ + source@),
{
    proof {
        reveal_strlit("look");
        reveal_strlit("grid");
        assert("look"@[0] != "grid"@[0]);
    }
    if str_eq(source, "look") {
        Ok(DwellSource::Look)
    } else if str_eq(source, "grid") {
        Ok(DwellSource::Grid)
    } else {
        Err(CmdError::Invalid(concat2("bad dwell source: ", source)))
    }
}

} // verus!

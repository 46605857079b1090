//! Where the models of the detector are taken from.
use vstd::prelude::*;

verus! {

/// Where the two models, of the face and of the landmarks, come from.
#[derive(Debug, Clone, Copy, PartialEq, Eq, Structural)]
pub enum ModelSource {
    /// Both lie beside the program.
    Local,
    /// Both lie in the data directory, once those named were fetched.
    Downloaded { fetch_face: bool, fetch_landmark: bool },
}

/// The source of the models, given which of them lie beside the program and
/// which in the data directory: beside the program if both lie there; else
/// the data directory, after fetching what is missing there.
pub open spec fn model_source(local: (bool, bool), downloaded: (bool, bool)) -> ModelSource {
    let (local_face, local_landmark) = local;
    let (face, landmark) = downloaded;
    if local_face && local_landmark {
        ModelSource::Local
    } else {
        ModelSource::Downloaded { fetch_face: !face, fetch_landmark: !landmark }
    }
}

/// The source of the models.
pub fn choose_models(local: (bool, bool), downloaded: (bool, bool)) -> (r: ModelSource)
    ensures
        r == model_source(local, downloaded),
{
    let (local_face, local_landmark) = local;
    let (face, landmark) = downloaded;
    if local_face && local_landmark {
        ModelSource::Local
    } else {
        ModelSource::Downloaded { fetch_face: !face, fetch_landmark: !landmark }
    }
}

} // verus!

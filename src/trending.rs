//! The trending list.

use vstd::prelude::*;
use crate::aggregate::{batch_of, batch_view, video_field, video_outcomes};
use crate::record::{failure, Field, QueryError, RawVideo};
use crate::search::VideoResult;

verus! {

/// What the source reports of the trending list.
#[derive(Debug, PartialEq, Eq)]
pub struct Trending {
    pub videos: Field<Vec<RawVideo>>,
}

impl Trending {
    pub fn videos(&self) -> (r: Result<Vec<VideoResult>, QueryError>)
        ensures
            match self.videos {
                Ok(v) => batch_of(video_outcomes(v@), batch_view(r)),
                Err(e) => r == Err::<Vec<VideoResult>, QueryError>(failure(e)),
            },
    {
        video_field(&self.videos)
    }
}

} // verus!

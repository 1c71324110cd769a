use vstd::prelude::*;

verus! {

/// A song of the play queue, as the playback logic sees it: the file it plays from,
/// if it has one.
pub struct Song {
    pub file: Option<String>,
}

impl Clone for Song {
    fn clone(&self) -> (copy: Self)
        ensures
            copy == *self,
    {
        let file = match &self.file {
            Some(f) => Some(f.clone()),
            None => None,
        };
        Song { file }
    }
}

} // verus!

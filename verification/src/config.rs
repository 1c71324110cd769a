use vstd::prelude::*;

verus! {

/// The music directory used until a configuration names another one.
pub const MUSIC_DIR: &'static str = "~/Music";

/// The user configuration, as far as the player's logic reads it.
pub struct Termusic {
    /// Directory the library tree is built from; may start with `~`.
    pub music_dir: String,
}

impl Clone for Termusic {
    fn clone(&self) -> (copy: Self)
        ensures
            copy == *self,
    {
        Termusic { music_dir: self.music_dir.clone() }
    }
}

impl Default for Termusic {
    fn default() -> (config: Self)
        ensures
            config.music_dir@ == MUSIC_DIR@,
    {
        Termusic { music_dir: MUSIC_DIR.to_string() }
    }
}

} // verus!

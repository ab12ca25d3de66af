use vstd::prelude::*;

verus! {

/// A beatmap known to the song database.
#[derive(Debug, Clone)]
pub struct BeatmapEntry {
    pub id: u64,
    pub beatmap_id: i64,
    pub beatmapset_id: i64,
    pub title: String,
    pub artist: String,
    pub creator: String,
    pub version: String,
    /// Path of the `.osu` file.
    pub path: String,
}

} // verus!

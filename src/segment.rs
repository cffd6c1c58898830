use crate::config::SegmentId;
use vstd::prelude::*;

verus! {

/// The session context a segment is collected from, as the shell hands it
/// over.
#[derive(Clone, Debug)]
pub struct InputData {
    pub model: String,
    pub current_dir: String,
    pub transcript_path: String,
}

/// What a segment shows: a main text, a secondary text, and named raw
/// values for the renderer.
#[derive(Clone, Debug)]
pub struct SegmentData {
    pub primary: String,
    pub secondary: String,
    /// Named values, each name at most once; their order carries no meaning.
    pub metadata: Vec<(String, String)>,
}

impl SegmentData {
    pub open spec fn metadata_view(&self) -> Seq<(Seq<char>, Seq<char>)> {
        self.metadata@.map_values(|e: (String, String)| (e.0@, e.1@))
    }
}

/// A source of one piece of the status line. `collect` returns `None` when
/// the segment does not apply, which is distinct from data that reports a
/// degraded state.
pub trait Segment {
    fn collect(&self, input: &InputData) -> Option<SegmentData>;

    fn id(&self) -> SegmentId;
}

} // verus!

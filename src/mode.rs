use vstd::prelude::*;

verus! {

/// The verb of a sound action.
#[derive(Clone, Copy, Debug, PartialEq, Eq, Structural)]
pub enum SoundActionMode {
    Queue,
    Overwrite,
    Passive,
    Skip,
    Play,
    Pause,
}

impl SoundActionMode {
    /// Whether this mode acts on a named asset (and ignores everything else).
    pub open spec fn needs_asset_spec(self) -> bool {
        match self {
            SoundActionMode::Queue | SoundActionMode::Overwrite | SoundActionMode::Passive => true,
            _ => false,
        }
    }

    pub fn needs_asset(&self) -> (r: bool)
        ensures
            r == self.needs_asset_spec(),
    {
        match self {
            SoundActionMode::Queue | SoundActionMode::Overwrite | SoundActionMode::Passive => true,
            _ => false,
        }
    }
}

} // verus!

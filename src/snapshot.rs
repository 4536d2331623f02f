use vstd::prelude::*;

use crate::audio::{Audio, ChannelState};

verus! {

/// A key of a channel's entry in the introspection table.
#[derive(Clone, Copy, Debug, PartialEq, Eq, Structural)]
pub enum TableKey {
    IsPlaying,
    HasSound,
    HasSoundQueued,
    Position,
    SoundDuration,
}

impl TableKey {
    pub open spec fn name(self) -> Seq<char> {
        match self {
            TableKey::IsPlaying => "is_playing"@,
            TableKey::HasSound => "has_sound"@,
            TableKey::HasSoundQueued => "has_sound_queued"@,
            TableKey::Position => "position"@,
            TableKey::SoundDuration => "sound_duration"@,
        }
    }

    /// The key as the script host sees it.
    pub fn as_str(&self) -> (r: &'static str)
        ensures
            r@ == self.name(),
    {
        match self {
            TableKey::IsPlaying => "is_playing",
            TableKey::HasSound => "has_sound",
            TableKey::HasSoundQueued => "has_sound_queued",
            TableKey::Position => "position",
            TableKey::SoundDuration => "sound_duration",
        }
    }
}

/// A value in a channel's entry.
#[derive(Clone, Copy, Debug, PartialEq, Eq, Structural)]
pub enum TableValue {
    Bool(bool),
    Millis(u64),
}

/// A channel's entry: the three flags, then position and length only where a sound plays.
pub open spec fn channel_entries(s: ChannelState) -> Seq<(TableKey, TableValue)> {
    seq![
        (TableKey::IsPlaying, TableValue::Bool(s.is_playing)),
        (TableKey::HasSound, TableValue::Bool(s.has_current)),
        (TableKey::HasSoundQueued, TableValue::Bool(s.has_queued)),
    ] + match s.position {
        Some((pos, len)) => seq![
            (TableKey::Position, TableValue::Millis(pos)),
            (TableKey::SoundDuration, TableValue::Millis(len)),
        ],
        None => Seq::empty(),
    }
}

/// The value stored under `k`, if any.
pub open spec fn lookup(entries: Seq<(TableKey, TableValue)>, k: TableKey) -> Option<TableValue> {
    if exists|i: int| 0 <= i < entries.len() && entries[i].0 == k {
        let i = choose|i: int| 0 <= i < entries.len() && entries[i].0 == k;
        Some(entries[i].1)
    } else {
        None
    }
}

/// Builds one channel's entry from its state.
pub fn channel_table(state: &ChannelState) -> (r: Vec<(TableKey, TableValue)>)
    ensures
        r@ == channel_entries(*state),
{
    let mut t: Vec<(TableKey, TableValue)> = Vec::new();
    t.push((TableKey::IsPlaying, TableValue::Bool(state.is_playing)));
    t.push((TableKey::HasSound, TableValue::Bool(state.has_current)));
    t.push((TableKey::HasSoundQueued, TableValue::Bool(state.has_queued)));
    if let Some((pos, len)) = state.position {
        t.push((TableKey::Position, TableValue::Millis(pos)));
        t.push((TableKey::SoundDuration, TableValue::Millis(len)));
    }
    assert(t@ =~= channel_entries(*state));
    t
}

impl Audio {
    /// The introspection table: each channel's name with its entry, where `states` holds
    /// the channels' states in channel order.
    pub fn create_audio_table(&self, states: &Vec<ChannelState>) -> (r: Vec<(String, Vec<(TableKey, TableValue)>)>)
        requires
            states@.len() == self.channel_list().len(),
        ensures
            r@.len() == self.channel_list().len(),
            forall|i: int| 0 <= i < r@.len() ==> r@[i].0 == self.channel_list()[i]
                && r@[i].1@ == channel_entries(states@[i]),
    {
        let mut out: Vec<(String, Vec<(TableKey, TableValue)>)> = Vec::new();
        let n = self.channel_count();
        let mut i: usize = 0;
        while i < n
            invariant
                n == self.channel_list().len(),
                states@.len() == n,
                i <= n,
                out@.len() == i,
                forall|k: int| 0 <= k < i ==> (#[trigger] out@[k]).0 == self.channel_list()[k]
                    && out@[k].1@ == channel_entries(states@[k]),
            decreases n - i,
        {
            let name = self.channel_name(i).clone();
            let entry = channel_table(&states[i]);
            out.push((name, entry));
            i += 1;
        }
        out
    }
}

} // verus!

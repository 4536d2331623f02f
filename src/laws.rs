use vstd::prelude::*;

use crate::action::{Command, ResolvedAction};
use crate::audio::{Audio, ChannelState, Profile};
use crate::mode::SoundActionMode;
use crate::snapshot::{channel_entries, lookup, TableKey, TableValue};

verus! {

/// An action on a muted channel sends nothing to the player.
pub proof fn lemma_mute_respect(audio: Audio, profile: Profile, action: ResolvedAction, state: ChannelState)
    requires
        audio.has_channel(action.channel@),
        !profile.enables(action.channel@),
    ensures
        audio.plan(profile, action, state) == Ok::<Seq<Command>, crate::audio::AudioError>(Seq::empty()),
{
}

/// An action without an asset never starts or queues a sound; an action with an asset whose
/// mode is skip, play or pause sends no transport command at all.
pub proof fn lemma_name_mode_coupling(audio: Audio, profile: Profile, action: ResolvedAction, state: ChannelState)
    ensures
        audio.plan(profile, action, state) matches Ok(cmds) ==> {
            &&& action.name is None ==> forall|i: int| 0 <= i < cmds.len() ==> !(#[trigger] cmds[i]).is_play()
            &&& (action.name is Some && !action.mode.needs_asset_spec()) ==> forall|i: int|
                0 <= i < cmds.len() ==> !(#[trigger] cmds[i]).is_transport()
        },
{
    if let Ok(cmds) = audio.plan(profile, action, state) {
        if audio.has_channel(action.channel@) && profile.enables(action.channel@) {
            let speed = if action.speed { seq![Command::SetSpeed] } else { Seq::<Command>::empty() };
            if action.name is None {
                let s = match action.seek {
                    Some(ms) => seq![Command::Seek(ms)],
                    None => Seq::<Command>::empty(),
                };
                let m = match action.mode {
                    SoundActionMode::Skip => seq![Command::Skip],
                    SoundActionMode::Play => seq![Command::SetPlaying(true)],
                    SoundActionMode::Pause => seq![Command::SetPlaying(false)],
                    _ => Seq::<Command>::empty(),
                };
                assert(cmds == s + m + speed);
                assert forall|i: int| 0 <= i < cmds.len() implies !(#[trigger] cmds[i]).is_play() by {
                    if i < s.len() {
                        assert(cmds[i] == s[i]);
                    } else if i < s.len() + m.len() {
                        assert(cmds[i] == m[i - s.len()]);
                    } else {
                        assert(cmds[i] == speed[i - s.len() - m.len()]);
                    }
                }
            } else if !action.mode.needs_asset_spec() {
                assert(cmds =~= speed);
            }
        }
    }
}

/// Once a channel's active slot is occupied, a passive action changes no transport state,
/// and applying it again gives exactly the same result.
pub proof fn lemma_passive_idempotent(
    audio: Audio,
    profile: Profile,
    action: ResolvedAction,
    first: ChannelState,
    second: ChannelState,
)
    requires
        action.mode == SoundActionMode::Passive,
        action.name is Some,
        first.has_current,
        second.has_current,
    ensures
        audio.plan(profile, action, first) == audio.plan(profile, action, second),
        audio.plan(profile, action, first) matches Ok(cmds) ==> forall|i: int| 0 <= i < cmds.len()
            ==> !(#[trigger] cmds[i]).is_transport(),
{
    if let Ok(cmds) = audio.plan(profile, action, first) {
        if audio.has_channel(action.channel@) && profile.enables(action.channel@) {
            let speed = if action.speed { seq![Command::SetSpeed] } else { Seq::<Command>::empty() };
            assert(cmds =~= speed);
        }
    }
}

/// An action that carries only a speed, on an enabled channel, changes the speed once and
/// nothing else.
pub proof fn lemma_speed_only(audio: Audio, profile: Profile, action: ResolvedAction, state: ChannelState)
    requires
        audio.has_channel(action.channel@),
        profile.enables(action.channel@),
        action.name is None,
        action.seek is None,
        action.mode.needs_asset_spec(),
        action.speed,
    ensures
        audio.plan(profile, action, state) == Ok::<Seq<Command>, crate::audio::AudioError>(seq![Command::SetSpeed]),
{
    assert(Seq::<Command>::empty() + Seq::<Command>::empty() + seq![Command::SetSpeed] =~= seq![Command::SetSpeed]);
}

/// A channel's entry reports the flags as read, and has a position and a length exactly
/// when the player reports one.
pub proof fn lemma_snapshot_faithful(state: ChannelState)
    ensures
        lookup(channel_entries(state), TableKey::IsPlaying) == Some(TableValue::Bool(state.is_playing)),
        lookup(channel_entries(state), TableKey::HasSound) == Some(TableValue::Bool(state.has_current)),
        lookup(channel_entries(state), TableKey::HasSoundQueued) == Some(
            TableValue::Bool(state.has_queued),
        ),
        lookup(channel_entries(state), TableKey::Position) is Some <==> state.position is Some,
        lookup(channel_entries(state), TableKey::SoundDuration) is Some <==> state.position is Some,
        state.position matches Some((pos, len)) ==> lookup(channel_entries(state), TableKey::Position)
            == Some(TableValue::Millis(pos)) && lookup(channel_entries(state), TableKey::SoundDuration)
            == Some(TableValue::Millis(len)),
{
    let e = channel_entries(state);
    assert(e[0].0 == TableKey::IsPlaying);
    assert(e[1].0 == TableKey::HasSound);
    assert(e[2].0 == TableKey::HasSoundQueued);
    if state.position is Some {
        assert(e[3].0 == TableKey::Position);
        assert(e[4].0 == TableKey::SoundDuration);
    }
}

} // verus!

use vstd::prelude::*;

use crate::action::{Command, ResolvedAction};
use crate::action::{general_commands, named_commands};

verus! {

/// No name occurs twice.
pub open spec fn unique(v: Seq<String>) -> bool {
    forall|i: int, j: int| 0 <= i < j < v.len() ==> v[i]@ != v[j]@
}

/// The names held by `v`, as a set.
pub open spec fn name_set(v: Seq<String>) -> Set<Seq<char>> {
    Set::new(|c: Seq<char>| exists|i: int| 0 <= i < v.len() && v[i]@ == c)
}

/// Errors surfaced to whoever submits an action.
#[derive(Clone, Debug, PartialEq, Eq)]
pub enum AudioError {
    /// The action names a channel that was never configured.
    UnknownChannel(String),
    /// The action names a sound asset that was never loaded.
    UnknownAsset(String),
}

/// The user's preferences that concern audio: the channels that are switched on.
#[derive(Clone, Debug)]
pub struct Profile {
    pub enabled_channels: Vec<String>,
}

impl Profile {
    pub open spec fn enables(self, channel: Seq<char>) -> bool {
        name_set(self.enabled_channels@).contains(channel)
    }

    /// Whether the user has switched on `channel`.
    pub fn is_enabled(&self, channel: &String) -> (r: bool)
        ensures
            r == self.enables(channel@),
    {
        position_of(&self.enabled_channels, channel).is_some()
    }
}

/// Where `key` stands in `names`, if anywhere.
pub fn position_of(names: &Vec<String>, key: &String) -> (r: Option<usize>)
    ensures
        match r {
            Some(i) => i < names@.len() && names@[i as int]@ == key@,
            None => forall|k: int| 0 <= k < names@.len() ==> names@[k]@ != key@,
        },
        r is Some <==> name_set(names@).contains(key@),
{
    let mut i: usize = 0;
    while i < names.len()
        invariant
            i <= names@.len(),
            forall|k: int| 0 <= k < i ==> names@[k]@ != key@,
        decreases names@.len() - i,
    {
        if names[i] == *key {
            assert(name_set(names@).contains(key@));
            return Some(i);
        }
        i += 1;
    }
    None
}

/// Appends each name of `src` that `dst` does not hold yet, keeping the first of equal names.
fn push_unique(dst: &mut Vec<String>, src: &Vec<String>)
    requires
        unique(old(dst)@),
    ensures
        unique(final(dst)@),
        name_set(final(dst)@) == name_set(old(dst)@).union(name_set(src@)),
{
    let ghost start = dst@;
    let mut i: usize = 0;
    while i < src.len()
        invariant
            i <= src@.len(),
            unique(dst@),
            name_set(dst@) == name_set(start).union(name_set(src@.subrange(0, i as int))),
        decreases src@.len() - i,
    {
        let ghost before = dst@;
        let ghost x = src@[i as int];
        if position_of(dst, &src[i]).is_none() {
            dst.push(src[i].clone());
            assert(dst@ == before.push(x));
            assert(name_set(dst@) =~= name_set(before).insert(x@)) by {
                assert(dst@[before.len() as int]@ == x@);
                assert forall|c: Seq<char>| name_set(before).contains(c) implies name_set(dst@).contains(c) by {
                    let k = choose|k: int| 0 <= k < before.len() && before[k]@ == c;
                    assert(dst@[k] == before[k]);
                }
            }
        }
        assert(name_set(src@.subrange(0, i + 1)) =~= name_set(src@.subrange(0, i as int)).insert(x@)) by {
            assert(src@.subrange(0, i + 1)[i as int] == x);
            assert forall|c: Seq<char>| name_set(src@.subrange(0, i as int)).contains(c) implies name_set(src@.subrange(0, i + 1)).contains(c) by {
                let k = choose|k: int| 0 <= k < i && src@.subrange(0, i as int)[k]@ == c;
                assert(src@.subrange(0, i + 1)[k] == src@.subrange(0, i as int)[k]);
            }
        }
        i += 1;
    }
    assert(src@.subrange(0, src@.len() as int) == src@);
}

/// Observable state of one channel, as read from the playback engine.
#[derive(Clone, Copy, Debug, PartialEq, Eq)]
pub struct ChannelState {
    /// The transport is not paused.
    pub is_playing: bool,
    /// A sound occupies the active slot.
    pub has_current: bool,
    /// A sound waits in the lookahead slot.
    pub has_queued: bool,
    /// Elapsed time and total length of the active sound, in milliseconds, where known.
    pub position: Option<(u64, u64)>,
}

/// The audio controller: a fixed set of channels and a library of sound assets, by name.
pub struct Audio {
    channels: Vec<String>,
    sounds: Vec<String>,
}

impl Audio {
    /// The channel names, in their order.
    pub closed spec fn channel_list(self) -> Seq<String> {
        self.channels@
    }

    /// The names of the loaded sound assets.
    pub closed spec fn sound_list(self) -> Seq<String> {
        self.sounds@
    }

    pub open spec fn wf(self) -> bool {
        unique(self.channel_list()) && unique(self.sound_list())
    }

    pub open spec fn has_channel(self, c: Seq<char>) -> bool {
        name_set(self.channel_list()).contains(c)
    }

    pub open spec fn has_sound(self, s: Seq<char>) -> bool {
        name_set(self.sound_list()).contains(s)
    }

    /// Builds a controller over the given channel and asset names; repeated names count once.
    pub fn new(channels: &Vec<String>, sounds: &Vec<String>) -> (r: Audio)
        ensures
            r.wf(),
            name_set(r.channel_list()) == name_set(channels@),
            name_set(r.sound_list()) == name_set(sounds@),
    {
        let mut c: Vec<String> = Vec::new();
        let mut s: Vec<String> = Vec::new();
        proof {
            assert(name_set(c@) =~= Set::<Seq<char>>::empty());
            assert(name_set(s@) =~= Set::<Seq<char>>::empty());
        }
        push_unique(&mut c, channels);
        push_unique(&mut s, sounds);
        proof {
            assert(name_set(c@) =~= name_set(channels@));
            assert(name_set(s@) =~= name_set(sounds@));
        }
        Audio { channels: c, sounds: s }
    }

    /// Assembles the controller from what was read at startup.
    ///
    /// `channels` is the configured channel list, `None` where the configuration has no
    /// channel section; `players_created` tells whether a player could be opened for every
    /// channel; `sounds` is the outcome of decoding the asset directory. Audio is optional:
    /// without channels, or without players, there is no controller and no error. A failure
    /// to decode an asset is an error.
    pub fn load<E>(channels: Option<&Vec<String>>, players_created: bool, sounds: Result<Vec<String>, E>) -> (r: Result<Option<Audio>, E>)
        ensures
            channels is None || !players_created ==> r matches Ok(None),
            channels is Some && players_created ==> match sounds {
                Err(e) => r == Err::<Option<Audio>, E>(e),
                Ok(names) => (r matches Ok(Some(a)) && a.wf()
                    && name_set(a.channel_list()) == name_set(channels.unwrap()@)
                    && name_set(a.sound_list()) == name_set(names@)),
            },
    {
        match channels {
            None => Ok(None),
            Some(list) => {
                if !players_created {
                    return Ok(None);
                }
                match sounds {
                    Err(e) => Err(e),
                    Ok(names) => Ok(Some(Audio::new(list, &names))),
                }
            },
        }
    }

    /// The number of channels.
    pub fn channel_count(&self) -> (r: usize)
        ensures
            r == self.channel_list().len(),
    {
        self.channels.len()
    }

    /// The name of the channel at `index`.
    pub fn channel_name(&self, index: usize) -> (r: &String)
        requires
            index < self.channel_list().len(),
        ensures
            *r == self.channel_list()[index as int],
    {
        &self.channels[index]
    }

    /// Finds the channel called `channel`, by its index.
    pub fn get_player(&self, channel: &str) -> (r: Result<usize, AudioError>)
        ensures
            match r {
                Ok(i) => i < self.channel_list().len() && self.channel_list()[i as int]@ == channel@,
                Err(e) => !self.has_channel(channel@) && (e matches AudioError::UnknownChannel(n)
                    && n@ == channel@),
            },
    {
        let key = channel.to_owned();
        match position_of(&self.channels, &key) {
            Some(i) => Ok(i),
            None => Err(AudioError::UnknownChannel(key)),
        }
    }

    /// Whether the asset called `name` was loaded.
    pub fn has_sound_named(&self, name: &String) -> (r: bool)
        ensures
            r == self.has_sound(name@),
    {
        position_of(&self.sounds, name).is_some()
    }

    /// Each channel, in order, with whether `profile` has it switched on.
    pub fn channel_statuses(&self, profile: &Profile) -> (r: Vec<(String, bool)>)
        ensures
            r@.len() == self.channel_list().len(),
            forall|i: int| 0 <= i < r@.len() ==> r@[i].0 == self.channel_list()[i]
                && r@[i].1 == profile.enables(self.channel_list()[i]@),
    {
        let mut out: Vec<(String, bool)> = Vec::new();
        let mut i: usize = 0;
        while i < self.channels.len()
            invariant
                i <= self.channels@.len(),
                out@.len() == i,
                forall|k: int| 0 <= k < i ==> out@[k].0 == self.channels@[k]
                    && out@[k].1 == profile.enables(self.channels@[k]@),
            decreases self.channels@.len() - i,
        {
            let name = self.channels[i].clone();
            let on = profile.is_enabled(&name);
            out.push((name, on));
            i += 1;
        }
        out
    }

    /// Which channel an action addressed to `channel` acts on: an error for an unknown
    /// channel, `None` for one the user has muted.
    pub fn route(&self, profile: &Profile, channel: &str) -> (r: Result<Option<usize>, AudioError>)
        ensures
            match r {
                Ok(Some(i)) => i < self.channel_list().len() && self.channel_list()[i as int]@
                    == channel@ && profile.enables(channel@),
                Ok(None) => self.has_channel(channel@) && !profile.enables(channel@),
                Err(e) => !self.has_channel(channel@) && (e matches AudioError::UnknownChannel(n)
                    && n@ == channel@),
            },
    {
        let i = self.get_player(channel)?;
        if profile.is_enabled(&self.channels[i]) {
            Ok(Some(i))
        } else {
            Ok(None)
        }
    }

    /// What an action does, given the state of the channel that it addresses.
    pub open spec fn plan(self, profile: Profile, action: ResolvedAction, state: ChannelState) -> Result<Seq<Command>, AudioError> {
        if !self.has_channel(action.channel@) {
            Err(AudioError::UnknownChannel(action.channel))
        } else if !profile.enables(action.channel@) {
            Ok(Seq::empty())
        } else {
            let speed = if action.speed { seq![Command::SetSpeed] } else { Seq::empty() };
            match action.name {
                None => Ok(general_commands(action.seek, action.mode) + speed),
                Some(n) => if self.has_sound(n@) {
                    Ok(named_commands(state.has_current, n, action.seek, action.mode) + speed)
                } else {
                    Err(AudioError::UnknownAsset(n))
                },
            }
        }
    }

    /// Applies a sound action: the commands to send, in order, to the addressed channel's
    /// player, whose current state is `state`.
    pub fn accept(&self, profile: &Profile, action: &ResolvedAction, state: &ChannelState) -> (r: Result<Vec<Command>, AudioError>)
        ensures
            match (r, self.plan(*profile, *action, *state)) {
                (Ok(v), Ok(p)) => v@ == p,
                (Err(e), Err(f)) => e == f,
                _ => false,
            },
    {
        let found = position_of(&self.channels, &action.channel);
        if found.is_none() {
            return Err(AudioError::UnknownChannel(action.channel.clone()));
        }
        if !profile.is_enabled(&action.channel) {
            return Ok(Vec::new());
        }
        let mut out: Vec<Command> = match &action.name {
            None => crate::action::accept_general_actions(action.seek, action.mode),
            Some(n) => {
                if !self.has_sound_named(n) {
                    return Err(AudioError::UnknownAsset(n.clone()));
                }
                crate::action::accept_mode(state.has_current, n, action.seek, action.mode)
            },
        };
        if action.speed {
            let ghost before = out@;
            out.push(Command::SetSpeed);
            assert(out@ == before + seq![Command::SetSpeed]);
        } else {
            assert(out@ + Seq::<Command>::empty() =~= out@);
        }
        Ok(out)
    }
}

} // verus!

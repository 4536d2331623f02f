use vstd::prelude::*;

use crate::mode::SoundActionMode;

verus! {

/// One operation on a channel's player, in the order the interpreter issues them.
#[derive(Clone, Debug, PartialEq, Eq)]
pub enum Command {
    /// Moves the active sound to this many milliseconds.
    Seek(u64),
    /// Drops the active sound and advances to the queued one.
    Skip,
    /// Resumes (`true`) or pauses (`false`) the transport.
    SetPlaying(bool),
    /// Places the asset in the lookahead slot, starting at `seek` milliseconds if given.
    PlayNext { asset: String, seek: Option<u64> },
    /// Replaces the active sound with the asset, starting at `seek` milliseconds if given.
    PlayNow { asset: String, seek: Option<u64> },
    /// Sets the playback speed to the value that the action carries.
    SetSpeed,
}

impl Command {
    /// Starts or queues a sound.
    pub open spec fn is_play(self) -> bool {
        self is PlayNext || self is PlayNow
    }

    /// Changes the transport or the slots (anything but the speed).
    pub open spec fn is_transport(self) -> bool {
        !(self is SetSpeed)
    }
}

/// A sound action whose fields have been evaluated against the text context.
#[derive(Clone, Debug)]
pub struct ResolvedAction {
    /// The channel addressed.
    pub channel: String,
    /// The asset to operate on, if any.
    pub name: Option<String>,
    /// Where to start or move to, in milliseconds.
    pub seek: Option<u64>,
    pub mode: SoundActionMode,
    /// Whether the action changes the playback speed; the value stays with the caller.
    pub speed: bool,
}

/// The commands of an action that names no asset.
pub open spec fn general_commands(seek: Option<u64>, mode: SoundActionMode) -> Seq<Command> {
    let s = match seek {
        Some(ms) => seq![Command::Seek(ms)],
        None => Seq::empty(),
    };
    s + match mode {
        SoundActionMode::Skip => seq![Command::Skip],
        SoundActionMode::Play => seq![Command::SetPlaying(true)],
        SoundActionMode::Pause => seq![Command::SetPlaying(false)],
        _ => Seq::empty(),
    }
}

/// The commands of an action that names the asset `asset`, on a channel whose active slot
/// is occupied or not.
pub open spec fn named_commands(has_current: bool, asset: String, seek: Option<u64>, mode: SoundActionMode) -> Seq<Command> {
    match mode {
        SoundActionMode::Queue => seq![Command::PlayNext { asset, seek }],
        SoundActionMode::Overwrite => seq![Command::PlayNow { asset, seek }],
        SoundActionMode::Passive => if has_current {
            Seq::empty()
        } else {
            seq![Command::PlayNow { asset, seek }]
        },
        _ => Seq::empty(),
    }
}

/// The commands of an action that names no asset: an optional seek, then the mode's verb.
/// Modes that need an asset do nothing here.
pub fn accept_general_actions(seek: Option<u64>, mode: SoundActionMode) -> (r: Vec<Command>)
    ensures
        r@ == general_commands(seek, mode),
{
    let mut out: Vec<Command> = Vec::new();
    if let Some(ms) = seek {
        out.push(Command::Seek(ms));
    }
    let ghost first = out@;
    match mode {
        SoundActionMode::Skip => out.push(Command::Skip),
        SoundActionMode::Play => out.push(Command::SetPlaying(true)),
        SoundActionMode::Pause => out.push(Command::SetPlaying(false)),
        _ => {},
    }
    proof {
        let s = match seek {
            Some(ms) => seq![Command::Seek(ms)],
            None => Seq::<Command>::empty(),
        };
        assert(first =~= s);
        assert(out@ =~= general_commands(seek, mode));
    }
    out
}

/// The commands of an action that names `asset`: queue it, play it now, or play it only on
/// an empty channel. Modes that ignore the asset do nothing.
pub fn accept_mode(has_current: bool, asset: &String, seek: Option<u64>, mode: SoundActionMode) -> (r: Vec<Command>)
    ensures
        r@ == named_commands(has_current, *asset, seek, mode),
{
    let mut out: Vec<Command> = Vec::new();
    match mode {
        SoundActionMode::Queue => out.push(Command::PlayNext { asset: asset.clone(), seek }),
        SoundActionMode::Overwrite => out.push(Command::PlayNow { asset: asset.clone(), seek }),
        SoundActionMode::Passive => {
            if !has_current {
                out.push(Command::PlayNow { asset: asset.clone(), seek });
            }
        },
        _ => {},
    }
    assert(out@ =~= named_commands(has_current, *asset, seek, mode));
    out
}

} // verus!

use game_audio::action::{accept_general_actions, accept_mode, Command, ResolvedAction};
use game_audio::audio::{Audio, AudioError, ChannelState, Profile};
use game_audio::mode::SoundActionMode;
use game_audio::snapshot::{channel_table, TableKey, TableValue};

fn names(v: &[&str]) -> Vec<String> {
    v.iter().map(|s| s.to_string()).collect()
}

fn controller() -> Audio {
    Audio::load(Some(&names(&["music", "sfx"])), true, Ok::<Vec<String>, String>(names(&["ping", "theme"])))
        .unwrap()
        .unwrap()
}

fn profile() -> Profile {
    Profile { enabled_channels: names(&["music"]) }
}

fn action(channel: &str, name: Option<&str>, mode: SoundActionMode) -> ResolvedAction {
    ResolvedAction {
        channel: channel.to_string(),
        name: name.map(|n| n.to_string()),
        seek: None,
        mode,
        speed: false,
    }
}

fn idle() -> ChannelState {
    ChannelState { is_playing: true, has_current: false, has_queued: false, position: None }
}

/// A stand-in for the playback engine: applies commands to a channel's state.
fn run(state: &mut ChannelState, cmds: &[Command], length_ms: u64) {
    for c in cmds {
        match c {
            Command::Seek(ms) => {
                if let Some((_, len)) = state.position {
                    state.position = Some((*ms, len));
                }
            }
            Command::Skip => {
                state.has_current = state.has_queued;
                state.has_queued = false;
                if !state.has_current {
                    state.position = None;
                }
            }
            Command::SetPlaying(p) => state.is_playing = *p,
            Command::PlayNext { .. } => state.has_queued = true,
            Command::PlayNow { seek, .. } => {
                state.has_current = true;
                state.position = Some((seek.unwrap_or(0), length_ms));
            }
            Command::SetSpeed => {}
        }
    }
}

#[test]
fn overwrite_starts_theme_on_music() {
    let audio = controller();
    let cmds = audio.accept(&profile(), &action("music", Some("theme"), SoundActionMode::Overwrite), &idle()).unwrap();
    assert_eq!(cmds, vec![Command::PlayNow { asset: "theme".to_string(), seek: None }]);
    let mut music = idle();
    run(&mut music, &cmds, 12000);
    assert!(music.has_current);
    assert_eq!(music.position, Some((0, 12000)));
}

#[test]
fn muted_channel_receives_nothing() {
    let audio = controller();
    let cmds = audio.accept(&profile(), &action("sfx", Some("ping"), SoundActionMode::Overwrite), &idle()).unwrap();
    assert!(cmds.is_empty());
    assert_eq!(audio.route(&profile(), "sfx"), Ok(None));
    assert_eq!(audio.route(&profile(), "music"), Ok(Some(0)));
}

#[test]
fn pause_then_snapshot() {
    let audio = controller();
    let mut music = idle();
    let start = audio.accept(&profile(), &action("music", Some("theme"), SoundActionMode::Overwrite), &music).unwrap();
    run(&mut music, &start, 12000);
    let pause = audio.accept(&profile(), &action("music", None, SoundActionMode::Pause), &music).unwrap();
    assert_eq!(pause, vec![Command::SetPlaying(false)]);
    run(&mut music, &pause, 12000);
    let table = audio.create_audio_table(&vec![music, idle()]);
    assert_eq!(table[0].0, "music");
    let entry = &table[0].1;
    assert!(entry.contains(&(TableKey::IsPlaying, TableValue::Bool(false))));
    assert!(entry.contains(&(TableKey::HasSound, TableValue::Bool(true))));
    assert!(entry.iter().any(|(k, _)| *k == TableKey::Position));
}

#[test]
fn unknown_channel_is_reported() {
    let audio = controller();
    let r = audio.accept(&profile(), &action("bogus", None, SoundActionMode::Play), &idle());
    assert_eq!(r, Err(AudioError::UnknownChannel("bogus".to_string())));
    assert_eq!(audio.get_player("bogus"), Err(AudioError::UnknownChannel("bogus".to_string())));
}

#[test]
fn unknown_asset_is_reported() {
    let audio = controller();
    let r = audio.accept(&profile(), &action("music", Some("missing"), SoundActionMode::Overwrite), &idle());
    assert_eq!(r, Err(AudioError::UnknownAsset("missing".to_string())));
}

#[test]
fn passive_twice_changes_nothing_the_second_time() {
    let audio = controller();
    let mut music = idle();
    let start = audio.accept(&profile(), &action("music", Some("theme"), SoundActionMode::Overwrite), &music).unwrap();
    run(&mut music, &start, 12000);
    let passive = action("music", Some("theme"), SoundActionMode::Passive);
    let first = audio.accept(&profile(), &passive, &music).unwrap();
    run(&mut music, &first, 12000);
    let second = audio.accept(&profile(), &passive, &music).unwrap();
    assert!(first.is_empty());
    assert!(second.is_empty());
}

#[test]
fn passive_on_empty_channel_plays() {
    let audio = controller();
    let passive = action("music", Some("theme"), SoundActionMode::Passive);
    let cmds = audio.accept(&profile(), &passive, &idle()).unwrap();
    assert_eq!(cmds, vec![Command::PlayNow { asset: "theme".to_string(), seek: None }]);
}

#[test]
fn queue_keeps_current_sound() {
    let audio = controller();
    let mut a = action("music", Some("ping"), SoundActionMode::Queue);
    a.seek = Some(150);
    let cmds = audio.accept(&profile(), &a, &idle()).unwrap();
    assert_eq!(cmds, vec![Command::PlayNext { asset: "ping".to_string(), seek: Some(150) }]);
}

#[test]
fn overwrite_with_seek_starts_there() {
    let audio = controller();
    let mut a = action("music", Some("theme"), SoundActionMode::Overwrite);
    a.seek = Some(4000);
    let cmds = audio.accept(&profile(), &a, &idle()).unwrap();
    let mut music = idle();
    run(&mut music, &cmds, 12000);
    assert_eq!(music.position, Some((4000, 12000)));
}

#[test]
fn named_action_with_transport_mode_is_filtered() {
    let audio = controller();
    for mode in [SoundActionMode::Skip, SoundActionMode::Play, SoundActionMode::Pause] {
        let cmds = audio.accept(&profile(), &action("music", Some("theme"), mode), &idle()).unwrap();
        assert!(cmds.is_empty());
    }
}

#[test]
fn unnamed_action_never_plays_a_sound() {
    let audio = controller();
    for mode in [SoundActionMode::Queue, SoundActionMode::Overwrite, SoundActionMode::Passive] {
        let mut a = action("music", None, mode);
        a.seek = Some(10);
        let cmds = audio.accept(&profile(), &a, &idle()).unwrap();
        assert_eq!(cmds, vec![Command::Seek(10)]);
    }
}

#[test]
fn general_actions_seek_then_verb() {
    assert_eq!(accept_general_actions(Some(250), SoundActionMode::Skip), vec![Command::Seek(250), Command::Skip]);
    assert_eq!(accept_general_actions(None, SoundActionMode::Play), vec![Command::SetPlaying(true)]);
    assert!(accept_general_actions(None, SoundActionMode::Queue).is_empty());
}

#[test]
fn mode_dispatch_with_asset() {
    let theme = "theme".to_string();
    assert_eq!(accept_mode(true, &theme, None, SoundActionMode::Passive), vec![]);
    assert_eq!(
        accept_mode(true, &theme, Some(5), SoundActionMode::Overwrite),
        vec![Command::PlayNow { asset: theme.clone(), seek: Some(5) }]
    );
    assert_eq!(accept_mode(false, &theme, None, SoundActionMode::Pause), vec![]);
}

#[test]
fn speed_only_changes_speed_once() {
    let audio = controller();
    let mut a = action("music", None, SoundActionMode::Passive);
    a.speed = true;
    let cmds = audio.accept(&profile(), &a, &idle()).unwrap();
    assert_eq!(cmds, vec![Command::SetSpeed]);
}

#[test]
fn speed_comes_after_transport() {
    let audio = controller();
    let mut a = action("music", Some("theme"), SoundActionMode::Overwrite);
    a.speed = true;
    let cmds = audio.accept(&profile(), &a, &idle()).unwrap();
    assert_eq!(cmds, vec![Command::PlayNow { asset: "theme".to_string(), seek: None }, Command::SetSpeed]);
}

#[test]
fn muted_channel_ignores_unknown_asset() {
    let audio = controller();
    let r = audio.accept(&profile(), &action("sfx", Some("missing"), SoundActionMode::Overwrite), &idle());
    assert_eq!(r, Ok(vec![]));
}

#[test]
fn snapshot_omits_position_when_idle() {
    let t = channel_table(&idle());
    assert_eq!(t.len(), 3);
    assert!(!t.iter().any(|(k, _)| *k == TableKey::Position || *k == TableKey::SoundDuration));
    let playing = ChannelState { is_playing: true, has_current: true, has_queued: true, position: Some((300, 12000)) };
    let t = channel_table(&playing);
    assert_eq!(t[3], (TableKey::Position, TableValue::Millis(300)));
    assert_eq!(t[4], (TableKey::SoundDuration, TableValue::Millis(12000)));
    assert_eq!(t[2], (TableKey::HasSoundQueued, TableValue::Bool(true)));
}

#[test]
fn table_keys_as_the_script_sees_them() {
    assert_eq!(TableKey::IsPlaying.as_str(), "is_playing");
    assert_eq!(TableKey::HasSound.as_str(), "has_sound");
    assert_eq!(TableKey::HasSoundQueued.as_str(), "has_sound_queued");
    assert_eq!(TableKey::Position.as_str(), "position");
    assert_eq!(TableKey::SoundDuration.as_str(), "sound_duration");
}

#[test]
fn statuses_follow_profile() {
    let audio = controller();
    assert_eq!(
        audio.channel_statuses(&profile()),
        vec![("music".to_string(), true), ("sfx".to_string(), false)]
    );
}

#[test]
fn load_without_channels_is_absent() {
    let r = Audio::load(None, true, Ok::<Vec<String>, String>(names(&["theme"])));
    assert!(matches!(r, Ok(None)));
}

#[test]
fn load_with_failed_players_is_absent() {
    let r = Audio::load(Some(&names(&["music"])), false, Err::<Vec<String>, String>("bad file".to_string()));
    assert!(matches!(r, Ok(None)));
}

#[test]
fn load_with_bad_asset_fails() {
    let r = Audio::load(Some(&names(&["music"])), true, Err::<Vec<String>, String>("sounds/bad.ogg".to_string()));
    assert!(matches!(r, Err(e) if e == "sounds/bad.ogg"));
}

#[test]
fn load_with_empty_section_has_no_channels() {
    let audio = Audio::load(Some(&Vec::new()), true, Ok::<Vec<String>, String>(Vec::new())).unwrap().unwrap();
    assert_eq!(audio.channel_count(), 0);
    assert!(audio.create_audio_table(&Vec::new()).is_empty());
}

#[test]
fn channels_are_the_configured_ones() {
    let audio = Audio::new(&names(&["music", "sfx", "music"]), &names(&["theme"]));
    assert_eq!(audio.channel_count(), 2);
    assert_eq!(audio.channel_name(0), "music");
    assert_eq!(audio.channel_name(1), "sfx");
    assert!(audio.has_sound_named(&"theme".to_string()));
    assert!(!audio.has_sound_named(&"ping".to_string()));
}

#[test]
fn needs_asset_by_mode() {
    assert!(SoundActionMode::Queue.needs_asset());
    assert!(SoundActionMode::Overwrite.needs_asset());
    assert!(SoundActionMode::Passive.needs_asset());
    assert!(!SoundActionMode::Skip.needs_asset());
    assert!(!SoundActionMode::Play.needs_asset());
    assert!(!SoundActionMode::Pause.needs_asset());
}

use mpvipc::core_api::{
    command_request, raw_command_request, MpvCommand, Playlist, PlaylistAddOptions, PlaylistEntry,
    SeekOptions,
};
use mpvipc::error::MpvError;
use mpvipc::highlevel_api_extension::{
    duration_from, file_looping_from, file_path_from, loop_value, metadata_from, mute_value,
    muted_from, play_next_command, playback_value, playing_from, playlist_add_command,
    playlist_from, playlist_looping_from, playlist_pos_from, restart_command, speed_from,
    time_pos_from, time_remaining_from, volume_from, NumberChangeOptions, PlaylistAddTypeOptions,
    Switch,
};
use mpvipc::ipc::MpvIpcCommand;
use mpvipc::property_parser::{LoopProperty, Property};

fn words(list: &[&str]) -> MpvIpcCommand {
    MpvIpcCommand::Command(list.iter().map(|s| s.to_string()).collect())
}

#[test]
fn raw_parts_of_options() {
    assert_eq!(PlaylistAddOptions::Replace.into_raw_command_part(), "replace");
    assert_eq!(PlaylistAddOptions::Append.into_raw_command_part(), "append");
    assert_eq!(SeekOptions::Relative.into_raw_command_part(), "relative");
    assert_eq!(SeekOptions::Absolute.into_raw_command_part(), "absolute");
    assert_eq!(SeekOptions::RelativePercent.into_raw_command_part(), "relative-percent");
    assert_eq!(SeekOptions::AbsolutePercent.into_raw_command_part(), "absolute-percent");
    assert_eq!(NumberChangeOptions::Absolute.into_raw_command_part(), "absolute");
    assert_eq!(NumberChangeOptions::Increase.into_raw_command_part(), "increase");
    assert_eq!(NumberChangeOptions::Decrease.into_raw_command_part(), "decrease");
}

#[test]
fn requests_of_commands() {
    assert_eq!(
        command_request(MpvCommand::LoadFile {
            file: "a.mkv".to_string(),
            option: PlaylistAddOptions::Append,
        }),
        words(&["loadfile", "a.mkv", "append"])
    );
    assert_eq!(
        command_request(MpvCommand::LoadList {
            file: "l.m3u".to_string(),
            option: PlaylistAddOptions::Replace,
        }),
        words(&["loadlist", "l.m3u", "replace"])
    );
    assert_eq!(command_request(MpvCommand::PlaylistClear), words(&["playlist-clear"]));
    assert_eq!(
        command_request(MpvCommand::PlaylistMove { from: 12, to: 0 }),
        words(&["playlist-move", "12", "0"])
    );
    assert_eq!(command_request(MpvCommand::PlaylistNext), words(&["playlist-next"]));
    assert_eq!(command_request(MpvCommand::PlaylistPrev), words(&["playlist-prev"]));
    assert_eq!(
        command_request(MpvCommand::PlaylistRemove(1050)),
        words(&["playlist-remove", "1050"])
    );
    assert_eq!(command_request(MpvCommand::PlaylistShuffle), words(&["playlist-shuffle"]));
    assert_eq!(command_request(MpvCommand::Quit), words(&["quit"]));
    assert_eq!(command_request(MpvCommand::Stop), words(&["stop"]));
    assert_eq!(
        command_request(MpvCommand::ScriptMessage(vec!["a".to_string(), "b".to_string()])),
        words(&["script-message", "a", "b"])
    );
    assert_eq!(
        command_request(MpvCommand::ScriptMessageTo {
            target: "t".to_string(),
            args: vec!["a".to_string()],
        }),
        words(&["script-message-to", "t", "a"])
    );
    assert_eq!(
        command_request(MpvCommand::Seek {
            seconds: 10.5f64.to_string(),
            option: SeekOptions::RelativePercent,
        }),
        words(&["seek", "10.5", "relative-percent"])
    );
    assert_eq!(
        command_request(MpvCommand::Observe { id: 3, property: "volume".to_string() }),
        MpvIpcCommand::ObserveProperty(3, "volume".to_string())
    );
    assert_eq!(command_request(MpvCommand::Unobserve(3)), MpvIpcCommand::UnobserveProperty(3));
}

#[test]
fn raw_command_requests() {
    assert_eq!(raw_command_request("stop", &[]), words(&["stop"]));
    assert_eq!(raw_command_request("seek", &["1", "absolute"]), words(&["seek", "1", "absolute"]));
}

#[test]
fn playlist_add_commands() {
    assert!(matches!(
        playlist_add_command("f", PlaylistAddTypeOptions::File, PlaylistAddOptions::Append),
        MpvCommand::LoadFile { file, option: PlaylistAddOptions::Append } if file == "f"
    ));
    assert!(matches!(
        playlist_add_command("l", PlaylistAddTypeOptions::Playlist, PlaylistAddOptions::Replace),
        MpvCommand::LoadList { file, option: PlaylistAddOptions::Replace } if file == "l"
    ));
}

#[test]
fn restart_seeks_to_the_start() {
    assert_eq!(command_request(restart_command()), words(&["seek", "0", "absolute"]));
    assert_eq!(0f64.to_string(), "0");
}

#[test]
fn play_next_moves_behind_the_current_entry() {
    match play_next_command(5, Property::PlaylistPos(Some(2))) {
        Ok(MpvCommand::PlaylistMove { from, to }) => {
            assert_eq!(from, 5);
            assert_eq!(to, 3);
        }
        other => panic!("{:?}", other),
    }
    match play_next_command(5, Property::PlaylistPos(None)) {
        Err(MpvError::UnexpectedProperty(p)) => assert_eq!(p, Property::PlaylistPos(None)),
        other => panic!("{:?}", other),
    }
}

#[test]
fn switch_values() {
    assert_eq!(playback_value(Switch::On, false), "no");
    assert_eq!(playback_value(Switch::Off, true), "yes");
    assert_eq!(playback_value(Switch::Toggle, true), "no");
    assert_eq!(playback_value(Switch::Toggle, false), "yes");
    assert_eq!(mute_value(Switch::On, false), "yes");
    assert_eq!(mute_value(Switch::Off, true), "no");
    assert_eq!(mute_value(Switch::Toggle, true), "no");
    assert_eq!(mute_value(Switch::Toggle, false), "yes");
    assert_eq!(loop_value(Switch::On, LoopProperty::No), "inf");
    assert_eq!(loop_value(Switch::Off, LoopProperty::Inf), "no");
    assert_eq!(loop_value(Switch::Toggle, LoopProperty::Inf), "no");
    assert_eq!(loop_value(Switch::Toggle, LoopProperty::N(3)), "no");
    assert_eq!(loop_value(Switch::Toggle, LoopProperty::No), "inf");
}

fn unexpected<T: std::fmt::Debug>(r: Result<T, MpvError>, property: Property) {
    match r {
        Err(MpvError::UnexpectedProperty(p)) => assert_eq!(p, property),
        other => panic!("{:?}", other),
    }
}

#[test]
fn values_out_of_properties() {
    let entry = PlaylistEntry { id: 0, filename: "f".to_string(), title: None, current: true };
    assert_eq!(
        playlist_from(Property::Playlist(vec![entry.clone()])).unwrap(),
        Playlist(vec![entry])
    );
    assert_eq!(metadata_from(Property::Metadata(Some(vec![]))).unwrap(), vec![]);
    assert_eq!(file_path_from(Property::Path(Some("p".to_string()))).unwrap(), "p");
    assert_eq!(f64::from_bits(volume_from(Property::Volume(64.0f64.to_bits())).unwrap()), 64.0);
    assert_eq!(f64::from_bits(speed_from(Property::Speed(1.5f64.to_bits())).unwrap()), 1.5);
    assert_eq!(time_pos_from(Property::TimePos(None)).unwrap(), None);
    assert_eq!(
        time_remaining_from(Property::TimeRemaining(Some(2.0f64.to_bits()))).unwrap(),
        Some(2.0f64.to_bits())
    );
    assert_eq!(
        f64::from_bits(duration_from(Property::Duration(Some(9.0f64.to_bits()))).unwrap()),
        9.0
    );
    assert_eq!(playlist_pos_from(Property::PlaylistPos(Some(4))).unwrap(), 4);
    assert_eq!(muted_from(Property::Mute(true)).unwrap(), true);
    assert_eq!(playing_from(Property::Pause(true)).unwrap(), false);
    assert_eq!(playing_from(Property::Pause(false)).unwrap(), true);
    assert_eq!(
        playlist_looping_from(Property::LoopPlaylist(LoopProperty::Inf)).unwrap(),
        LoopProperty::Inf
    );
    assert_eq!(
        file_looping_from(Property::LoopFile(LoopProperty::N(2))).unwrap(),
        LoopProperty::N(2)
    );
}

#[test]
fn other_properties_come_back_in_the_error() {
    unexpected(playlist_from(Property::Pause(true)), Property::Pause(true));
    unexpected(metadata_from(Property::Metadata(None)), Property::Metadata(None));
    unexpected(file_path_from(Property::Path(None)), Property::Path(None));
    unexpected(volume_from(Property::Speed(0)), Property::Speed(0));
    unexpected(speed_from(Property::Volume(0)), Property::Volume(0));
    unexpected(time_pos_from(Property::TimeRemaining(None)), Property::TimeRemaining(None));
    unexpected(time_remaining_from(Property::TimePos(None)), Property::TimePos(None));
    unexpected(duration_from(Property::Duration(None)), Property::Duration(None));
    unexpected(playlist_pos_from(Property::PlaylistPos(None)), Property::PlaylistPos(None));
    unexpected(muted_from(Property::Pause(true)), Property::Pause(true));
    unexpected(playing_from(Property::Mute(true)), Property::Mute(true));
    unexpected(
        playlist_looping_from(Property::LoopFile(LoopProperty::No)),
        Property::LoopFile(LoopProperty::No),
    );
    unexpected(
        file_looping_from(Property::LoopPlaylist(LoopProperty::No)),
        Property::LoopPlaylist(LoopProperty::No),
    );
}

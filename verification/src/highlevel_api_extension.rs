//! The decisions behind the high-level calls: which command or value a call
//! sends, and what it makes of the property that came back.

use vstd::prelude::*;
use crate::core_api::{MapEntry, MpvCommand, Playlist, PlaylistAddOptions, SeekOptions};
use crate::error::MpvError;
use crate::property_parser::{LoopProperty, Property};

verus! {

/// How a number is applied to a number property.
#[derive(Debug, Clone)]
pub enum NumberChangeOptions {
    Absolute,
    Increase,
    Decrease,
}

impl NumberChangeOptions {
    /// The word that the player expects for the option.
    pub open spec fn raw(self) -> Seq<char> {
        match self {
            NumberChangeOptions::Absolute => "absolute"@,
            NumberChangeOptions::Increase => "increase"@,
            NumberChangeOptions::Decrease => "decrease"@,
        }
    }

    /// The word that the player expects for the option.
    pub fn into_raw_command_part(self) -> (r: String)
        ensures
            r@ == self.raw(),
    {
        match self {
            NumberChangeOptions::Absolute => "absolute".to_owned(),
            NumberChangeOptions::Increase => "increase".to_owned(),
            NumberChangeOptions::Decrease => "decrease".to_owned(),
        }
    }
}

/// What to do with a setting that is on or off.
#[derive(Debug, Clone, Copy)]
pub enum Switch {
    On,
    Off,
    Toggle,
}

/// Whether a playlist entry to add is a file or a playlist.
#[derive(Debug, Clone, Copy)]
pub enum PlaylistAddTypeOptions {
    File,
    Playlist,
}

/// The command that adds a file or a playlist to the playlist.
pub fn playlist_add_command(
    file: &str,
    file_type: PlaylistAddTypeOptions,
    option: PlaylistAddOptions,
) -> (r: MpvCommand)
    ensures
        match file_type {
            PlaylistAddTypeOptions::File => r matches MpvCommand::LoadFile { file: f, option: o }
                && f@ == file@ && o == option,
            PlaylistAddTypeOptions::Playlist => r matches MpvCommand::LoadList {
                file: f,
                option: o,
            } && f@ == file@ && o == option,
        },
{
    match file_type {
        PlaylistAddTypeOptions::File => MpvCommand::LoadFile { file: file.to_owned(), option },
        PlaylistAddTypeOptions::Playlist => MpvCommand::LoadList { file: file.to_owned(), option },
    }
}

/// The command that starts the current file from its beginning: an absolute
/// seek to second 0.
pub fn restart_command() -> (r: MpvCommand)
    ensures
        r matches MpvCommand::Seek { seconds, option } && seconds@ == "0"@
            && option is Absolute,
{
    MpvCommand::Seek { seconds: "0".to_owned(), option: SeekOptions::Absolute }
}

/// The command that moves an entry right behind the current one. The
/// property must be a playlist position that holds one; any other comes
/// back in the error.
pub fn play_next_command(id: usize, position: Property) -> (r: Result<MpvCommand, MpvError>)
    requires
        position matches Property::PlaylistPos(Some(current)) ==> current < usize::MAX,
    ensures
        match position {
            Property::PlaylistPos(Some(current)) => r matches Ok(
                MpvCommand::PlaylistMove { from, to },
            ) && from == id && to == current + 1,
            other => r == Err::<MpvCommand, MpvError>(MpvError::UnexpectedProperty(other)),
        },
{
    match position {
        Property::PlaylistPos(Some(current)) => Ok(
            MpvCommand::PlaylistMove { from: id, to: current + 1 },
        ),
        other => Err(MpvError::UnexpectedProperty(other)),
    }
}

/// The value to set `pause` to. Playback on means no pause; `Toggle` pauses
/// exactly when the player is playing.
pub fn playback_value(option: Switch, is_playing: bool) -> (r: &'static str)
    ensures
        r@ == (match option {
            Switch::On => "no"@,
            Switch::Off => "yes"@,
            Switch::Toggle => if is_playing {
                "no"@
            } else {
                "yes"@
            },
        }),
{
    match option {
        Switch::On => "no",
        Switch::Off => "yes",
        Switch::Toggle => if is_playing {
            "no"
        } else {
            "yes"
        },
    }
}

/// The value to set `mute` to. `Toggle` mutes exactly when the player is
/// not muted.
pub fn mute_value(option: Switch, is_muted: bool) -> (r: &'static str)
    ensures
        r@ == (match option {
            Switch::On => "yes"@,
            Switch::Off => "no"@,
            Switch::Toggle => if is_muted {
                "no"@
            } else {
                "yes"@
            },
        }),
{
    match option {
        Switch::On => "yes",
        Switch::Off => "no",
        Switch::Toggle => if is_muted {
            "no"
        } else {
            "yes"
        },
    }
}

/// The value to set `loop-file` or `loop-playlist` to. `Toggle` loops for
/// ever exactly when the player does not loop now.
pub fn loop_value(option: Switch, current: LoopProperty) -> (r: &'static str)
    ensures
        r@ == (match option {
            Switch::On => "inf"@,
            Switch::Off => "no"@,
            Switch::Toggle => if current is No {
                "inf"@
            } else {
                "no"@
            },
        }),
{
    match option {
        Switch::On => "inf",
        Switch::Off => "no",
        Switch::Toggle => match current {
            LoopProperty::Inf => "no",
            LoopProperty::N(_) => "no",
            LoopProperty::No => "inf",
        },
    }
}

/// The playlist out of the `playlist` property.
pub fn playlist_from(property: Property) -> (r: Result<Playlist, MpvError>)
    ensures
        match property {
            Property::Playlist(entries) => r == Ok::<Playlist, MpvError>(Playlist(entries)),
            other => r == Err::<Playlist, MpvError>(MpvError::UnexpectedProperty(other)),
        },
{
    match property {
        Property::Playlist(entries) => Ok(Playlist(entries)),
        other => Err(MpvError::UnexpectedProperty(other)),
    }
}

/// The metadata out of the `metadata` property, which must hold some.
pub fn metadata_from(property: Property) -> (r: Result<Vec<MapEntry>, MpvError>)
    ensures
        match property {
            Property::Metadata(Some(m)) => r == Ok::<Vec<MapEntry>, MpvError>(m),
            other => r == Err::<Vec<MapEntry>, MpvError>(MpvError::UnexpectedProperty(other)),
        },
{
    match property {
        Property::Metadata(Some(m)) => Ok(m),
        other => Err(MpvError::UnexpectedProperty(other)),
    }
}

/// The path out of the `path` property, which must hold one.
pub fn file_path_from(property: Property) -> (r: Result<String, MpvError>)
    ensures
        match property {
            Property::Path(Some(p)) => r == Ok::<String, MpvError>(p),
            other => r == Err::<String, MpvError>(MpvError::UnexpectedProperty(other)),
        },
{
    match property {
        Property::Path(Some(p)) => Ok(p),
        other => Err(MpvError::UnexpectedProperty(other)),
    }
}

/// The volume out of the `volume` property.
pub fn volume_from(property: Property) -> (r: Result<u64, MpvError>)
    ensures
        match property {
            Property::Volume(v) => r == Ok::<u64, MpvError>(v),
            other => r == Err::<u64, MpvError>(MpvError::UnexpectedProperty(other)),
        },
{
    match property {
        Property::Volume(v) => Ok(v),
        other => Err(MpvError::UnexpectedProperty(other)),
    }
}

/// The speed out of the `speed` property.
pub fn speed_from(property: Property) -> (r: Result<u64, MpvError>)
    ensures
        match property {
            Property::Speed(v) => r == Ok::<u64, MpvError>(v),
            other => r == Err::<u64, MpvError>(MpvError::UnexpectedProperty(other)),
        },
{
    match property {
        Property::Speed(v) => Ok(v),
        other => Err(MpvError::UnexpectedProperty(other)),
    }
}

/// The position in the file out of the `time-pos` property.
pub fn time_pos_from(property: Property) -> (r: Result<Option<u64>, MpvError>)
    ensures
        match property {
            Property::TimePos(v) => r == Ok::<Option<u64>, MpvError>(v),
            other => r == Err::<Option<u64>, MpvError>(MpvError::UnexpectedProperty(other)),
        },
{
    match property {
        Property::TimePos(v) => Ok(v),
        other => Err(MpvError::UnexpectedProperty(other)),
    }
}

/// The time that remains out of the `time-remaining` property.
pub fn time_remaining_from(property: Property) -> (r: Result<Option<u64>, MpvError>)
    ensures
        match property {
            Property::TimeRemaining(v) => r == Ok::<Option<u64>, MpvError>(v),
            other => r == Err::<Option<u64>, MpvError>(MpvError::UnexpectedProperty(other)),
        },
{
    match property {
        Property::TimeRemaining(v) => Ok(v),
        other => Err(MpvError::UnexpectedProperty(other)),
    }
}

/// The duration out of the `duration` property, which must hold one.
pub fn duration_from(property: Property) -> (r: Result<u64, MpvError>)
    ensures
        match property {
            Property::Duration(Some(v)) => r == Ok::<u64, MpvError>(v),
            other => r == Err::<u64, MpvError>(MpvError::UnexpectedProperty(other)),
        },
{
    match property {
        Property::Duration(Some(v)) => Ok(v),
        other => Err(MpvError::UnexpectedProperty(other)),
    }
}

/// The position out of the `playlist-pos` property, which must hold one.
pub fn playlist_pos_from(property: Property) -> (r: Result<usize, MpvError>)
    ensures
        match property {
            Property::PlaylistPos(Some(v)) => r == Ok::<usize, MpvError>(v),
            other => r == Err::<usize, MpvError>(MpvError::UnexpectedProperty(other)),
        },
{
    match property {
        Property::PlaylistPos(Some(v)) => Ok(v),
        other => Err(MpvError::UnexpectedProperty(other)),
    }
}

/// Whether the player is muted, out of the `mute` property.
pub fn muted_from(property: Property) -> (r: Result<bool, MpvError>)
    ensures
        match property {
            Property::Mute(v) => r == Ok::<bool, MpvError>(v),
            other => r == Err::<bool, MpvError>(MpvError::UnexpectedProperty(other)),
        },
{
    match property {
        Property::Mute(v) => Ok(v),
        other => Err(MpvError::UnexpectedProperty(other)),
    }
}

/// Whether the player is playing, out of the `pause` property: it plays
/// when it is not paused.
pub fn playing_from(property: Property) -> (r: Result<bool, MpvError>)
    ensures
        match property {
            Property::Pause(v) => r == Ok::<bool, MpvError>(!v),
            other => r == Err::<bool, MpvError>(MpvError::UnexpectedProperty(other)),
        },
{
    match property {
        Property::Pause(v) => Ok(!v),
        other => Err(MpvError::UnexpectedProperty(other)),
    }
}

/// How the playlist loops, out of the `loop-playlist` property.
pub fn playlist_looping_from(property: Property) -> (r: Result<LoopProperty, MpvError>)
    ensures
        match property {
            Property::LoopPlaylist(v) => r == Ok::<LoopProperty, MpvError>(v),
            other => r == Err::<LoopProperty, MpvError>(MpvError::UnexpectedProperty(other)),
        },
{
    match property {
        Property::LoopPlaylist(v) => Ok(v),
        other => Err(MpvError::UnexpectedProperty(other)),
    }
}

/// How the file loops, out of the `loop-file` property.
pub fn file_looping_from(property: Property) -> (r: Result<LoopProperty, MpvError>)
    ensures
        match property {
            Property::LoopFile(v) => r == Ok::<LoopProperty, MpvError>(v),
            other => r == Err::<LoopProperty, MpvError>(MpvError::UnexpectedProperty(other)),
        },
{
    match property {
        Property::LoopFile(v) => Ok(v),
        other => Err(MpvError::UnexpectedProperty(other)),
    }
}

} // verus!

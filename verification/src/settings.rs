//! Game-wide settings: the game mode, the player colors and the audio mode.

use vstd::prelude::*;

verus! {

/// Whether the game is played against the computer or another player.
#[derive(Clone, Copy, Debug, PartialEq, Eq, Structural)]
pub enum GameMode {
    SinglePlayer,
    Multiplayer,
}

/// The colors a player can play with.
#[derive(Clone, Copy, Debug, PartialEq, Eq, Hash, Structural)]
pub enum PlayerColor {
    Black,
    Blue,
    Purple,
    Red,
    Yellow,
}

/// Every color, in declaration order.
pub fn all_colors() -> (res: Vec<PlayerColor>)
    ensures
        res@ == seq![PlayerColor::Black, PlayerColor::Blue, PlayerColor::Purple, PlayerColor::Red, PlayerColor::Yellow],
{
    vec![PlayerColor::Black, PlayerColor::Blue, PlayerColor::Purple, PlayerColor::Red, PlayerColor::Yellow]
}

/// The position of a color among the images of the interface.
pub open spec fn spec_color_index(c: PlayerColor) -> usize {
    match c {
        PlayerColor::Black => 4,
        PlayerColor::Blue => 0,
        PlayerColor::Purple => 3,
        PlayerColor::Red => 1,
        PlayerColor::Yellow => 2,
    }
}

/// The red, green and blue components of a color.
pub open spec fn spec_color_rgb(c: PlayerColor) -> (u8, u8, u8) {
    match c {
        PlayerColor::Black => (104, 128, 145),
        PlayerColor::Blue => (71, 149, 167),
        PlayerColor::Purple => (163, 112, 150),
        PlayerColor::Red => (222, 84, 84),
        PlayerColor::Yellow => (220, 170, 70),
    }
}

impl PlayerColor {
    /// The red, green and blue components of the color.
    pub fn rgb(self) -> (res: (u8, u8, u8))
        ensures
            res == spec_color_rgb(self),
    {
        match self {
            PlayerColor::Black => (104, 128, 145),
            PlayerColor::Blue => (71, 149, 167),
            PlayerColor::Purple => (163, 112, 150),
            PlayerColor::Red => (222, 84, 84),
            PlayerColor::Yellow => (220, 170, 70),
        }
    }

    /// The position of the color among the images of the interface.
    pub fn index(self) -> (res: usize)
        ensures
            res == spec_color_index(self),
    {
        match self {
            PlayerColor::Black => 4,
            PlayerColor::Blue => 0,
            PlayerColor::Purple => 3,
            PlayerColor::Red => 1,
            PlayerColor::Yellow => 2,
        }
    }
}

/// What is heard: nothing, sound effects only, or sound effects and music.
#[derive(Clone, Copy, Debug, PartialEq, Eq, Structural)]
pub enum AudioState {
    Mute,
    NoMusic,
    Sound,
}

impl Default for AudioState {
    fn default() -> (res: AudioState)
        ensures
            res == AudioState::Sound,
    {
        AudioState::Sound
    }
}

/// The audio mode after the mode button is pressed: mute, then sound
/// effects only, then everything, then mute again.
pub open spec fn spec_next_audio(a: AudioState) -> AudioState {
    match a {
        AudioState::Mute => AudioState::NoMusic,
        AudioState::NoMusic => AudioState::Sound,
        AudioState::Sound => AudioState::Mute,
    }
}

impl AudioState {
    /// The audio mode after the mode button is pressed.
    pub fn next(self) -> (res: AudioState)
        ensures
            res == spec_next_audio(self),
    {
        match self {
            AudioState::Mute => AudioState::NoMusic,
            AudioState::NoMusic => AudioState::Sound,
            AudioState::Sound => AudioState::Mute,
        }
    }
}

/// Pressing the audio button three times comes back to the same mode,
/// passing every mode.
pub proof fn audio_cycle(a: AudioState)
    ensures
        spec_next_audio(spec_next_audio(spec_next_audio(a))) == a,
        spec_next_audio(a) != a,
        spec_next_audio(spec_next_audio(a)) != a,
{
}

} // verus!

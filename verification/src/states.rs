//! The state machines of the application and of a game in progress, and
//! how key presses, menu buttons and network messages move them.

use crate::settings::{AudioState, PlayerColor};
use vstd::prelude::*;

verus! {

/// Where the application is: one of the menus, a lobby, or a game.
#[derive(Clone, Copy, Debug, PartialEq, Eq, Hash, Structural)]
pub enum AppState {
    MainMenu,
    SinglePlayerMenu,
    MultiPlayerMenu,
    Settings,
    Lobby,
    ConnectedLobby,
    Game,
}

impl Default for AppState {
    fn default() -> (res: AppState)
        ensures
            res == AppState::MainMenu,
    {
        AppState::MainMenu
    }
}

/// Where a game in progress is.
#[derive(Clone, Copy, Debug, PartialEq, Eq, Hash, Structural)]
pub enum GameState {
    Playing,
    Paused,
    GameMenu,
    UnitInfo,
    EndGame,
    Settings,
    BoostSelection,
    AfterBoostSelection,
}

impl Default for GameState {
    fn default() -> (res: GameState)
        ensures
            res == GameState::Playing,
    {
        GameState::Playing
    }
}

/// The states to move to; `None` leaves a state as it is.
#[derive(Clone, Copy, Debug, PartialEq, Eq, Structural)]
pub struct StateChange {
    pub app: Option<AppState>,
    pub game: Option<GameState>,
}

/// No change.
pub open spec fn no_change() -> StateChange {
    StateChange { app: None, game: None }
}

/// A change of the application state only.
pub open spec fn app_change(a: AppState) -> StateChange {
    StateChange { app: Some(a), game: None }
}

/// A change of the game state only.
pub open spec fn game_change(g: GameState) -> StateChange {
    StateChange { app: None, game: Some(g) }
}

/// What the escape key does.
pub open spec fn spec_on_escape(app: AppState, game: GameState) -> (StateChange, bool) {
    match app {
        AppState::SinglePlayerMenu | AppState::MultiPlayerMenu | AppState::Settings => (
            app_change(AppState::MainMenu),
            false,
        ),
        AppState::Lobby | AppState::ConnectedLobby => (app_change(AppState::MultiPlayerMenu), true),
        AppState::Game => match game {
            GameState::Playing => (game_change(GameState::GameMenu), false),
            GameState::Paused | GameState::GameMenu => (game_change(GameState::Playing), false),
            GameState::EndGame => (app_change(AppState::MainMenu), false),
            GameState::Settings => (game_change(GameState::GameMenu), false),
            _ => (no_change(), false),
        },
        _ => (no_change(), false),
    }
}

/// What the escape key does: the states to move to, and whether to leave
/// the multiplayer lobby (closing the connection).
pub fn on_escape(app: AppState, game: GameState) -> (res: (StateChange, bool))
    ensures
        res == spec_on_escape(app, game),
{
    match app {
        AppState::SinglePlayerMenu | AppState::MultiPlayerMenu | AppState::Settings => (
            StateChange { app: Some(AppState::MainMenu), game: None },
            false,
        ),
        AppState::Lobby | AppState::ConnectedLobby => (
            StateChange { app: Some(AppState::MultiPlayerMenu), game: None },
            true,
        ),
        AppState::Game => match game {
            GameState::Playing => (StateChange { app: None, game: Some(GameState::GameMenu) }, false),
            GameState::Paused | GameState::GameMenu => (
                StateChange { app: None, game: Some(GameState::Playing) },
                false,
            ),
            GameState::EndGame => (StateChange { app: Some(AppState::MainMenu), game: None }, false),
            GameState::Settings => (StateChange { app: None, game: Some(GameState::GameMenu) }, false),
            _ => (StateChange { app: None, game: None }, false),
        },
        _ => (StateChange { app: None, game: None }, false),
    }
}

/// What space does in a game: it pauses a running game and resumes a
/// paused one; elsewhere it does nothing.
pub open spec fn spec_on_space(game: GameState) -> Option<GameState> {
    match game {
        GameState::Playing => Some(GameState::Paused),
        GameState::Paused => Some(GameState::Playing),
        _ => None,
    }
}

/// What the space key does in a game: it pauses a running game and resumes
/// a paused one.
pub fn on_space(game: GameState) -> (res: Option<GameState>)
    ensures
        res == spec_on_space(game),
{
    match game {
        GameState::Playing => Some(GameState::Paused),
        GameState::Paused => Some(GameState::Playing),
        _ => None,
    }
}

/// The buttons of the menus.
#[derive(Clone, Copy, Debug, PartialEq, Eq, Structural)]
pub enum MenuBtn {
    Singleplayer,
    Multiplayer,
    NewGame,
    LoadGame,
    HostGame,
    FindGame,
    Back,
    Continue,
    SaveGame,
    Settings,
    Quit,
}

/// What a click on a menu button leads to.
#[derive(Clone, Copy, Debug, PartialEq, Eq, Structural)]
pub enum MenuAction {
    /// Nothing: the button is disabled.
    Nothing,
    /// Move to these states.
    Change(StateChange),
    /// Start a new game.
    StartNewGame,
    /// Ask for a saved game to load.
    LoadGame,
    /// Open a server and wait for players in the lobby.
    HostGame,
    /// Connect to a server and wait in the lobby.
    FindGame,
    /// Ask where to save the game.
    SaveGame,
    /// Close the application.
    Exit,
}

/// Whether a click on the button can be answered in the state the
/// application is in: the back button does nothing on the main menu, and
/// quitting is only offered in a game and on the main menu.
pub open spec fn click_answerable(btn: MenuBtn, app: AppState) -> bool {
    &&& !(btn == MenuBtn::Back && app == AppState::MainMenu)
    &&& (btn == MenuBtn::Quit ==> (app == AppState::Game || app == AppState::MainMenu))
}

/// What a click on a menu button leads to.
pub open spec fn spec_menu_click(btn: MenuBtn, disabled: bool, app: AppState, game: GameState) -> MenuAction {
    if disabled {
        MenuAction::Nothing
    } else {
        match btn {
            MenuBtn::Singleplayer => MenuAction::Change(app_change(AppState::SinglePlayerMenu)),
            MenuBtn::Multiplayer => MenuAction::Change(app_change(AppState::MultiPlayerMenu)),
            MenuBtn::NewGame => MenuAction::StartNewGame,
            MenuBtn::LoadGame => MenuAction::LoadGame,
            MenuBtn::HostGame => MenuAction::HostGame,
            MenuBtn::FindGame => MenuAction::FindGame,
            MenuBtn::Back => match app {
                AppState::SinglePlayerMenu | AppState::MultiPlayerMenu | AppState::Settings => MenuAction::Change(
                    app_change(AppState::MainMenu),
                ),
                AppState::Lobby | AppState::ConnectedLobby => MenuAction::Change(
                    app_change(AppState::MultiPlayerMenu),
                ),
                _ => MenuAction::Change(game_change(GameState::GameMenu)),
            },
            MenuBtn::Continue => MenuAction::Change(game_change(GameState::Playing)),
            MenuBtn::SaveGame => MenuAction::SaveGame,
            MenuBtn::Settings => if game == GameState::GameMenu {
                MenuAction::Change(game_change(GameState::Settings))
            } else {
                MenuAction::Change(app_change(AppState::Settings))
            },
            MenuBtn::Quit => if app == AppState::Game {
                MenuAction::Change(
                    StateChange { app: Some(AppState::MainMenu), game: Some(GameState::Playing) },
                )
            } else {
                MenuAction::Exit
            },
        }
    }
}

/// What a click on a menu button leads to. A disabled button does nothing.
pub fn menu_click(btn: MenuBtn, disabled: bool, app: AppState, game: GameState) -> (res: MenuAction)
    requires
        disabled || click_answerable(btn, app),
    ensures
        res == spec_menu_click(btn, disabled, app, game),
{
    if disabled {
        return MenuAction::Nothing;
    }
    match btn {
        MenuBtn::Singleplayer => MenuAction::Change(
            StateChange { app: Some(AppState::SinglePlayerMenu), game: None },
        ),
        MenuBtn::Multiplayer => MenuAction::Change(
            StateChange { app: Some(AppState::MultiPlayerMenu), game: None },
        ),
        MenuBtn::NewGame => MenuAction::StartNewGame,
        MenuBtn::LoadGame => MenuAction::LoadGame,
        MenuBtn::HostGame => MenuAction::HostGame,
        MenuBtn::FindGame => MenuAction::FindGame,
        MenuBtn::Back => match app {
            AppState::SinglePlayerMenu | AppState::MultiPlayerMenu | AppState::Settings => MenuAction::Change(
                StateChange { app: Some(AppState::MainMenu), game: None },
            ),
            AppState::Lobby | AppState::ConnectedLobby => MenuAction::Change(
                StateChange { app: Some(AppState::MultiPlayerMenu), game: None },
            ),
            _ => MenuAction::Change(StateChange { app: None, game: Some(GameState::GameMenu) }),
        },
        MenuBtn::Continue => MenuAction::Change(
            StateChange { app: None, game: Some(GameState::Playing) },
        ),
        MenuBtn::SaveGame => MenuAction::SaveGame,
        MenuBtn::Settings => if game == GameState::GameMenu {
            MenuAction::Change(StateChange { app: None, game: Some(GameState::Settings) })
        } else {
            MenuAction::Change(StateChange { app: Some(AppState::Settings), game: None })
        },
        MenuBtn::Quit => if app == AppState::Game {
            MenuAction::Change(
                StateChange { app: Some(AppState::MainMenu), game: Some(GameState::Playing) },
            )
        } else {
            MenuAction::Exit
        },
    }
}

/// What the host does when a client reports the state of its game.
#[derive(Clone, Copy, Debug, PartialEq, Eq, Structural)]
pub enum PeerReaction {
    /// Nothing.
    Ignore,
    /// Move the game to this state.
    GoTo(GameState),
    /// Count one more player done with picking boosts.
    CountPicked,
    /// Forget who is done picking boosts, and move the game to this state.
    ResetCountAndSet(GameState),
    /// Count one more player done picking boosts, and move the game to this
    /// state when given.
    CountPickedAndSet(Option<GameState>),
}

/// A state that pauses a running game of the other player.
pub open spec fn pausing(s: GameState) -> bool {
    s == GameState::GameMenu || s == GameState::Paused || s == GameState::UnitInfo
}

/// What the host does when a client reports that its game is in `reported`
/// while the host's is in `current`.
pub open spec fn spec_host_on_client_state(reported: GameState, current: GameState) -> PeerReaction {
    if pausing(reported) && current == GameState::Playing {
        PeerReaction::GoTo(GameState::Paused)
    } else if reported == GameState::Playing {
        PeerReaction::GoTo(GameState::Playing)
    } else if reported == GameState::AfterBoostSelection {
        PeerReaction::CountPicked
    } else {
        PeerReaction::Ignore
    }
}

/// What the host does when a client reports the state of its game: a
/// client that pauses pauses the game, a client that plays resumes it, and
/// a client done with picking boosts is counted.
pub fn host_on_client_state(reported: GameState, current: GameState) -> (res: PeerReaction)
    ensures
        res == spec_host_on_client_state(reported, current),
{
    let pauses = reported == GameState::GameMenu || reported == GameState::Paused || reported
        == GameState::UnitInfo;
    if pauses && current == GameState::Playing {
        return PeerReaction::GoTo(GameState::Paused);
    }
    match reported {
        GameState::Playing => PeerReaction::GoTo(GameState::Playing),
        GameState::AfterBoostSelection => PeerReaction::CountPicked,
        _ => PeerReaction::Ignore,
    }
}

/// What a client does when the host reports the state of the game.
/// `my_boosts` is how many boosts the client's player holds, `None` before
/// the players are known.
pub open spec fn spec_client_on_host_state(
    reported: GameState,
    current: GameState,
    my_boosts: Option<usize>,
    max_boosts: usize,
) -> PeerReaction {
    if pausing(reported) && current == GameState::Playing {
        PeerReaction::GoTo(GameState::Paused)
    } else if reported == GameState::Playing || reported == GameState::EndGame {
        PeerReaction::ResetCountAndSet(reported)
    } else if reported == GameState::BoostSelection {
        match my_boosts {
            Some(n) => if n != max_boosts {
                PeerReaction::GoTo(GameState::BoostSelection)
            } else {
                PeerReaction::GoTo(GameState::AfterBoostSelection)
            },
            None => PeerReaction::Ignore,
        }
    } else if reported == GameState::AfterBoostSelection {
        if current == GameState::BoostSelection || current == GameState::AfterBoostSelection {
            PeerReaction::CountPickedAndSet(None)
        } else {
            PeerReaction::CountPickedAndSet(Some(GameState::BoostSelection))
        }
    } else {
        PeerReaction::Ignore
    }
}

/// What a client does when the host reports the state of the game: it
/// pauses and resumes with the host, ends with it, goes to pick a boost
/// unless it holds the most it can, and counts the players done picking.
pub fn client_on_host_state(
    reported: GameState,
    current: GameState,
    my_boosts: Option<usize>,
    max_boosts: usize,
) -> (res: PeerReaction)
    ensures
        res == spec_client_on_host_state(reported, current, my_boosts, max_boosts),
{
    let pauses = reported == GameState::GameMenu || reported == GameState::Paused || reported
        == GameState::UnitInfo;
    if pauses && current == GameState::Playing {
        return PeerReaction::GoTo(GameState::Paused);
    }
    match reported {
        GameState::Playing | GameState::EndGame => PeerReaction::ResetCountAndSet(reported),
        GameState::BoostSelection => match my_boosts {
            Some(n) => if n != max_boosts {
                PeerReaction::GoTo(GameState::BoostSelection)
            } else {
                PeerReaction::GoTo(GameState::AfterBoostSelection)
            },
            None => PeerReaction::Ignore,
        },
        GameState::AfterBoostSelection => if current == GameState::BoostSelection || current
            == GameState::AfterBoostSelection {
            PeerReaction::CountPickedAndSet(None)
        } else {
            PeerReaction::CountPickedAndSet(Some(GameState::BoostSelection))
        },
        _ => PeerReaction::Ignore,
    }
}

/// Once the other player is done picking boosts, the host forgets the count
/// and resumes the game. Returns the new count and the state to move to.
pub fn after_boost_check(picked: usize) -> (res: (usize, Option<GameState>))
    ensures
        picked == 1 ==> res == (0usize, Some(GameState::Playing)),
        picked != 1 ==> res == (picked, None::<GameState>),
{
    if picked == 1 {
        (0, Some(GameState::Playing))
    } else {
        (picked, None)
    }
}

/// The lobby state for a number of connected players (the host counted):
/// waiting alone, or with others.
pub fn lobby_state(n_players: usize) -> (res: AppState)
    ensures
        n_players == 1 ==> res == AppState::Lobby,
        n_players != 1 ==> res == AppState::ConnectedLobby,
{
    if n_players == 1 {
        AppState::Lobby
    } else {
        AppState::ConnectedLobby
    }
}

/// The color of the computer in a game against it: red, or blue when the
/// player is red.
pub fn single_player_enemy_color(color: PlayerColor) -> (res: PlayerColor)
    ensures
        res == (if color == PlayerColor::Red { PlayerColor::Blue } else { PlayerColor::Red }),
        res != color,
{
    match color {
        PlayerColor::Red => PlayerColor::Blue,
        _ => PlayerColor::Red,
    }
}

/// The color of the other player in a game between two people: the color
/// it chose, unless that is the host's, in which case red, or blue when the
/// host is red.
pub fn multiplayer_enemy_color(color: PlayerColor, enemy_color: PlayerColor) -> (res: PlayerColor)
    ensures
        res == (if color == enemy_color {
            if color == PlayerColor::Red { PlayerColor::Blue } else { PlayerColor::Red }
        } else {
            enemy_color
        }),
        res != color,
{
    if color == enemy_color {
        single_player_enemy_color(color)
    } else {
        enemy_color
    }
}

/// What changes in what is heard when the audio mode changes.
#[derive(Clone, Copy, Debug, PartialEq, Eq, Structural)]
pub enum AudioCommand {
    /// Silence everything.
    MuteAll,
    /// Pause the music and stop the drums.
    StopMusic,
    /// Play the music in the background.
    PlayMusic,
}

/// The new audio mode: the one asked for, or else the next one after the
/// current mode; and what to do to get there.
pub fn change_audio(requested: Option<AudioState>, current: AudioState) -> (res: (AudioState, AudioCommand))
    ensures
        res.0 == (match requested {
            Some(a) => a,
            None => crate::settings::spec_next_audio(current),
        }),
        res.0 == AudioState::Mute ==> res.1 == AudioCommand::MuteAll,
        res.0 == AudioState::NoMusic ==> res.1 == AudioCommand::StopMusic,
        res.0 == AudioState::Sound ==> res.1 == AudioCommand::PlayMusic,
{
    let next = match requested {
        Some(a) => a,
        None => current.next(),
    };
    let cmd = match next {
        AudioState::Mute => AudioCommand::MuteAll,
        AudioState::NoMusic => AudioCommand::StopMusic,
        AudioState::Sound => AudioCommand::PlayMusic,
    };
    (next, cmd)
}

/// Where a sound that was started before stands.
#[derive(Clone, Copy, Debug, PartialEq, Eq, Structural)]
pub enum Playback {
    /// Paused, or pausing.
    Paused,
    /// Playing, or about to play again.
    Playing,
    /// Done, or stopping.
    Over,
}

/// What to do with a request to play a sound.
#[derive(Clone, Copy, Debug, PartialEq, Eq, Structural)]
pub enum PlayDecision {
    /// Nothing.
    Skip,
    /// Resume the paused sound.
    Resume,
    /// Start the sound once.
    PlayOnce,
    /// Start the sound, fading in and looping.
    PlayLooped,
}

/// What to do with a request to play a sound under an audio mode. `known`
/// tells whether the sound was started before (`Some`), and then where it
/// stands, `None` when it can no longer be found.
pub open spec fn spec_play_decision(
    mode: AudioState,
    background: bool,
    known: Option<Option<Playback>>,
) -> PlayDecision {
    if mode == AudioState::Mute {
        PlayDecision::Skip
    } else {
        match known {
            Some(Some(Playback::Paused)) => if !background || mode != AudioState::NoMusic {
                PlayDecision::Resume
            } else {
                PlayDecision::Skip
            },
            Some(Some(p)) => if !background || p != Playback::Playing {
                PlayDecision::PlayOnce
            } else {
                PlayDecision::Skip
            },
            Some(None) => PlayDecision::Skip,
            None => if background {
                if mode != AudioState::NoMusic {
                    PlayDecision::PlayLooped
                } else {
                    PlayDecision::Skip
                }
            } else {
                PlayDecision::PlayOnce
            },
        }
    }
}

/// What to do with a request to play a sound: nothing while muted; a
/// paused sound resumes (background music only while music is on); a sound
/// effect that already played plays again; music that is over starts
/// again; new music starts looping while music is on; a new sound effect
/// plays.
pub fn play_decision(mode: AudioState, background: bool, known: Option<Option<Playback>>) -> (res:
    PlayDecision)
    ensures
        res == spec_play_decision(mode, background, known),
{
    if mode == AudioState::Mute {
        return PlayDecision::Skip;
    }
    match known {
        Some(Some(p)) => match p {
            Playback::Paused => if !background || mode != AudioState::NoMusic {
                PlayDecision::Resume
            } else {
                PlayDecision::Skip
            },
            _ => if !background || p != Playback::Playing {
                PlayDecision::PlayOnce
            } else {
                PlayDecision::Skip
            },
        },
        Some(None) => PlayDecision::Skip,
        None => if background {
            if mode != AudioState::NoMusic {
                PlayDecision::PlayLooped
            } else {
                PlayDecision::Skip
            }
        } else {
            PlayDecision::PlayOnce
        },
    }
}

/// Keys in a game undo themselves: escape from a running game opens the
/// game menu and escape again closes it; space pauses a running game and
/// space again resumes it.
pub proof fn keys_undo_themselves()
    ensures
        spec_on_escape(AppState::Game, GameState::Playing).0.game == Some(GameState::GameMenu),
        spec_on_escape(AppState::Game, GameState::GameMenu).0.game == Some(GameState::Playing),
        spec_on_escape(AppState::Game, GameState::Playing).0.app is None,
        spec_on_escape(AppState::Game, GameState::GameMenu).0.app is None,
        spec_on_space(GameState::Playing) == Some(GameState::Paused),
        spec_on_space(GameState::Paused) == Some(GameState::Playing),
{
}

/// Escape never leaves a game in progress for a menu other than the main
/// menu, and only leaves the game once it has ended.
pub proof fn escape_leaves_game_only_at_end(game: GameState)
    ensures
        spec_on_escape(AppState::Game, game).0.app is Some <==> game == GameState::EndGame,
        spec_on_escape(AppState::Game, game).0.app is Some ==> spec_on_escape(AppState::Game, game).0.app
            == Some(AppState::MainMenu),
        !spec_on_escape(AppState::Game, game).1,
{
}

/// Host and client agree on pausing: either one seeing the other pause a
/// running game pauses it too.
pub proof fn pausing_is_shared(reported: GameState, my_boosts: Option<usize>, max_boosts: usize)
    requires
        pausing(reported),
    ensures
        spec_host_on_client_state(reported, GameState::Playing) == PeerReaction::GoTo(GameState::Paused),
        spec_client_on_host_state(reported, GameState::Playing, my_boosts, max_boosts) == PeerReaction::GoTo(
            GameState::Paused,
        ),
{
}

/// When the host reports that a player finished picking a boost, the
/// client counts it, and a client never picks twice: one that is picking
/// or already done stays where it is; any other one is sent to pick. Either
/// way the client ends up picking or done picking.
pub proof fn clients_never_pick_twice(current: GameState, my_boosts: Option<usize>, max_boosts: usize)
    ensures
        spec_client_on_host_state(GameState::AfterBoostSelection, current, my_boosts, max_boosts) matches
            PeerReaction::CountPickedAndSet(next) && ({
            let ends_in = match next {
                Some(g) => g,
                None => current,
            };
            &&& (current == GameState::BoostSelection || current == GameState::AfterBoostSelection) ==> next is None
            &&& (current != GameState::BoostSelection && current != GameState::AfterBoostSelection) ==> next
                == Some(GameState::BoostSelection)
            &&& (ends_in == GameState::BoostSelection || ends_in == GameState::AfterBoostSelection)
        }),
{
}

/// Escape does what the back button does wherever a menu offers it: from
/// the single and multiplayer menus, the settings and the lobbies, and
/// from the settings inside a game.
pub proof fn escape_is_back(app: AppState, game: GameState)
    ensures
        (app == AppState::SinglePlayerMenu || app == AppState::MultiPlayerMenu || app == AppState::Settings
            || app == AppState::Lobby || app == AppState::ConnectedLobby) ==> spec_menu_click(
            MenuBtn::Back,
            false,
            app,
            game,
        ) == MenuAction::Change(spec_on_escape(app, game).0),
        spec_menu_click(MenuBtn::Back, false, AppState::Game, GameState::Settings) == MenuAction::Change(
            spec_on_escape(AppState::Game, GameState::Settings).0,
        ),
{
}

/// Escape backs out of what a menu button opened: a menu opened from the
/// main menu returns to the main menu, and what a button of the game menu
/// opens (the game itself or its settings) returns to the game menu.
pub proof fn escape_undoes_menu_buttons(btn: MenuBtn, game: GameState)
    ensures
        spec_menu_click(btn, false, AppState::MainMenu, game) matches MenuAction::Change(c) ==> (c.app matches Some(
            a,
        ) ==> spec_on_escape(a, game).0 == app_change(AppState::MainMenu)),
        btn != MenuBtn::Back ==> (spec_menu_click(btn, false, AppState::Game, GameState::GameMenu) matches MenuAction::Change(
            c,
        ) ==> (c.app is None ==> (c.game matches Some(g) ==> spec_on_escape(AppState::Game, g).0 == game_change(
            GameState::GameMenu,
        )))),
{
}

/// The host follows its clients: a client that pauses a running game
/// pauses it, a client that plays makes it play, a client done picking a
/// boost is counted, and any other report changes nothing.
pub proof fn host_follows_clients(reported: GameState, current: GameState)
    ensures
        (reported == GameState::GameMenu || reported == GameState::Paused || reported == GameState::UnitInfo)
            && current == GameState::Playing ==> spec_host_on_client_state(reported, current) == PeerReaction::GoTo(
            GameState::Paused,
        ),
        reported == GameState::Playing ==> spec_host_on_client_state(reported, current) == PeerReaction::GoTo(
            GameState::Playing,
        ),
        reported == GameState::AfterBoostSelection ==> spec_host_on_client_state(reported, current)
            == PeerReaction::CountPicked,
        (reported == GameState::EndGame || reported == GameState::Settings || reported == GameState::BoostSelection
            || current != GameState::Playing && reported != GameState::Playing && reported
            != GameState::AfterBoostSelection) ==> spec_host_on_client_state(reported, current)
            == PeerReaction::Ignore,
{
}

/// Space only pauses and resumes: it pauses a running game, resumes a
/// paused one, and does nothing in any other state.
pub proof fn space_only_pauses(game: GameState)
    ensures
        spec_on_space(game) is Some <==> (game == GameState::Playing || game == GameState::Paused),
        spec_on_space(game) matches Some(g) ==> g != game && (g == GameState::Playing || g == GameState::Paused),
{
}

/// The menu buttons do what their labels say: a disabled button does
/// nothing; the single and multiplayer buttons open their menus; continue
/// resumes the game; quit leaves a game for the main menu and closes the
/// application from the main menu; the other buttons start what they name.
pub proof fn menu_buttons_do_what_they_say(app: AppState, game: GameState)
    ensures
        forall|b: MenuBtn| #[trigger] spec_menu_click(b, true, app, game) == MenuAction::Nothing,
        spec_menu_click(MenuBtn::Singleplayer, false, app, game) == MenuAction::Change(
            StateChange { app: Some(AppState::SinglePlayerMenu), game: None },
        ),
        spec_menu_click(MenuBtn::Multiplayer, false, app, game) == MenuAction::Change(
            StateChange { app: Some(AppState::MultiPlayerMenu), game: None },
        ),
        spec_menu_click(MenuBtn::Continue, false, app, game) == MenuAction::Change(
            StateChange { app: None, game: Some(GameState::Playing) },
        ),
        spec_menu_click(MenuBtn::Quit, false, AppState::Game, game) == MenuAction::Change(
            StateChange { app: Some(AppState::MainMenu), game: Some(GameState::Playing) },
        ),
        spec_menu_click(MenuBtn::Quit, false, AppState::MainMenu, game) == MenuAction::Exit,
        spec_menu_click(MenuBtn::NewGame, false, app, game) == MenuAction::StartNewGame,
        spec_menu_click(MenuBtn::LoadGame, false, app, game) == MenuAction::LoadGame,
        spec_menu_click(MenuBtn::SaveGame, false, app, game) == MenuAction::SaveGame,
        spec_menu_click(MenuBtn::HostGame, false, app, game) == MenuAction::HostGame,
        spec_menu_click(MenuBtn::FindGame, false, app, game) == MenuAction::FindGame,
        spec_menu_click(MenuBtn::Settings, false, AppState::MainMenu, GameState::Playing) == MenuAction::Change(
            StateChange { app: Some(AppState::Settings), game: None },
        ),
{
}

/// Muting silences everything; a background sound that is already playing
/// is not started again, and without music the background music neither
/// starts nor resumes; a short sound always plays once, from the start or
/// where it was paused.
pub proof fn sounds_follow_the_audio_setting(mode: AudioState, background: bool, known: Option<Option<Playback>>)
    ensures
        mode == AudioState::Mute ==> spec_play_decision(mode, background, known) == PlayDecision::Skip,
        background && known == Some(Some(Playback::Playing)) ==> spec_play_decision(mode, background, known)
            == PlayDecision::Skip,
        background && mode == AudioState::NoMusic ==> spec_play_decision(mode, background, known)
            != PlayDecision::PlayLooped && spec_play_decision(mode, background, known) != PlayDecision::Resume,
        !background && mode != AudioState::Mute && known != Some(None::<Playback>) ==> (spec_play_decision(
            mode,
            background,
            known,
        ) == PlayDecision::PlayOnce || spec_play_decision(mode, background, known) == PlayDecision::Resume),
        spec_play_decision(mode, background, known) == PlayDecision::PlayLooped ==> background && known is None,
{
}

} // verus!

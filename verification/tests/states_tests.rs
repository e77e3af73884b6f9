use tinywar::movement::{collide, interaction, keeps_action, movement_percent, Interaction};
use tinywar::player::Strategy;
use tinywar::names::{capitalize, extract_variant_name, to_lowername, to_name, to_title};
use tinywar::settings::{all_colors, AudioState, PlayerColor};
use tinywar::states::{
    after_boost_check, change_audio, client_on_host_state, host_on_client_state, lobby_state, menu_click,
    multiplayer_enemy_color, on_escape, on_space, play_decision, single_player_enemy_color, AppState,
    AudioCommand, GameState, MenuAction, MenuBtn, PeerReaction, PlayDecision, Playback, StateChange,
};
use tinywar::units::{ActionKind, UnitName};

#[test]
fn escape_in_game() {
    let (c, leave) = on_escape(AppState::Game, GameState::Playing);
    assert_eq!(c, StateChange { app: None, game: Some(GameState::GameMenu) });
    assert!(!leave);
    let (c, _) = on_escape(AppState::Game, GameState::GameMenu);
    assert_eq!(c.game, Some(GameState::Playing));
    let (c, _) = on_escape(AppState::Game, GameState::EndGame);
    assert_eq!(c.app, Some(AppState::MainMenu));
}

#[test]
fn escape_in_lobby_leaves_it() {
    let (c, leave) = on_escape(AppState::ConnectedLobby, GameState::Playing);
    assert_eq!(c.app, Some(AppState::MultiPlayerMenu));
    assert!(leave);
    let (c, leave) = on_escape(AppState::MainMenu, GameState::Playing);
    assert_eq!(c, StateChange { app: None, game: None });
    assert!(!leave);
}

#[test]
fn space_toggles_pause() {
    assert_eq!(on_space(GameState::Playing), Some(GameState::Paused));
    assert_eq!(on_space(GameState::Paused), Some(GameState::Playing));
    assert_eq!(on_space(GameState::GameMenu), None);
}

#[test]
fn menu_buttons() {
    assert_eq!(
        menu_click(MenuBtn::Singleplayer, false, AppState::MainMenu, GameState::Playing),
        MenuAction::Change(StateChange { app: Some(AppState::SinglePlayerMenu), game: None })
    );
    assert_eq!(menu_click(MenuBtn::HostGame, true, AppState::MultiPlayerMenu, GameState::Playing), MenuAction::Nothing);
    assert_eq!(
        menu_click(MenuBtn::Settings, false, AppState::Game, GameState::GameMenu),
        MenuAction::Change(StateChange { app: None, game: Some(GameState::Settings) })
    );
    assert_eq!(menu_click(MenuBtn::Quit, false, AppState::MainMenu, GameState::Playing), MenuAction::Exit);
    assert_eq!(
        menu_click(MenuBtn::Quit, false, AppState::Game, GameState::GameMenu),
        MenuAction::Change(StateChange { app: Some(AppState::MainMenu), game: Some(GameState::Playing) })
    );
    assert_eq!(
        menu_click(MenuBtn::Back, false, AppState::Lobby, GameState::Playing),
        MenuAction::Change(StateChange { app: Some(AppState::MultiPlayerMenu), game: None })
    );
}

#[test]
fn host_and_client_states() {
    assert_eq!(host_on_client_state(GameState::Paused, GameState::Playing), PeerReaction::GoTo(GameState::Paused));
    assert_eq!(host_on_client_state(GameState::Paused, GameState::GameMenu), PeerReaction::Ignore);
    assert_eq!(host_on_client_state(GameState::AfterBoostSelection, GameState::Playing), PeerReaction::CountPicked);
    assert_eq!(
        client_on_host_state(GameState::EndGame, GameState::Playing, Some(1), 4),
        PeerReaction::ResetCountAndSet(GameState::EndGame)
    );
    assert_eq!(
        client_on_host_state(GameState::BoostSelection, GameState::Playing, Some(4), 4),
        PeerReaction::GoTo(GameState::AfterBoostSelection)
    );
    assert_eq!(
        client_on_host_state(GameState::BoostSelection, GameState::Playing, None, 4),
        PeerReaction::Ignore
    );
    assert_eq!(
        client_on_host_state(GameState::AfterBoostSelection, GameState::Playing, Some(1), 4),
        PeerReaction::CountPickedAndSet(Some(GameState::BoostSelection))
    );
}

#[test]
fn boost_count_resumes_the_game() {
    assert_eq!(after_boost_check(1), (0, Some(GameState::Playing)));
    assert_eq!(after_boost_check(0), (0, None));
    assert_eq!(after_boost_check(2), (2, None));
    assert_eq!(lobby_state(1), AppState::Lobby);
    assert_eq!(lobby_state(3), AppState::ConnectedLobby);
}

#[test]
fn enemy_colors_differ() {
    assert_eq!(single_player_enemy_color(PlayerColor::Red), PlayerColor::Blue);
    assert_eq!(single_player_enemy_color(PlayerColor::Yellow), PlayerColor::Red);
    assert_eq!(multiplayer_enemy_color(PlayerColor::Blue, PlayerColor::Blue), PlayerColor::Red);
    assert_eq!(multiplayer_enemy_color(PlayerColor::Blue, PlayerColor::Purple), PlayerColor::Purple);
    for c in all_colors() {
        assert!(single_player_enemy_color(c) != c);
    }
    assert_eq!(PlayerColor::Black.index(), 4);
    assert_eq!(PlayerColor::Red.rgb(), (222, 84, 84));
}

#[test]
fn audio_modes() {
    assert_eq!(change_audio(None, AudioState::Sound), (AudioState::Mute, AudioCommand::MuteAll));
    assert_eq!(change_audio(None, AudioState::Mute), (AudioState::NoMusic, AudioCommand::StopMusic));
    assert_eq!(change_audio(Some(AudioState::Sound), AudioState::Mute), (AudioState::Sound, AudioCommand::PlayMusic));
    assert_eq!(AudioState::default(), AudioState::Sound);
    assert_eq!(AudioState::Mute.next().next().next(), AudioState::Mute);
}

#[test]
fn play_decisions() {
    assert_eq!(play_decision(AudioState::Mute, false, None), PlayDecision::Skip);
    assert_eq!(play_decision(AudioState::Sound, false, None), PlayDecision::PlayOnce);
    assert_eq!(play_decision(AudioState::Sound, true, None), PlayDecision::PlayLooped);
    assert_eq!(play_decision(AudioState::NoMusic, true, None), PlayDecision::Skip);
    assert_eq!(play_decision(AudioState::Sound, true, Some(Some(Playback::Paused))), PlayDecision::Resume);
    assert_eq!(play_decision(AudioState::NoMusic, true, Some(Some(Playback::Paused))), PlayDecision::Skip);
    assert_eq!(play_decision(AudioState::Sound, true, Some(Some(Playback::Playing))), PlayDecision::Skip);
    assert_eq!(play_decision(AudioState::Sound, false, Some(Some(Playback::Playing))), PlayDecision::PlayOnce);
    assert_eq!(play_decision(AudioState::Sound, true, Some(None)), PlayDecision::Skip);
}

#[test]
fn interactions() {
    assert_eq!(interaction(UnitName::Priest, false, true, true, false, Strategy::Attack), Interaction::Heal);
    assert_eq!(interaction(UnitName::Priest, true, true, true, false, Strategy::Attack), Interaction::Pass);
    assert_eq!(interaction(UnitName::Priest, false, true, false, true, Strategy::Attack), Interaction::Pass);
    assert_eq!(interaction(UnitName::Archer, false, false, false, false, Strategy::Attack), Interaction::Attack);
    assert_eq!(interaction(UnitName::Warrior, false, false, false, false, Strategy::Attack), Interaction::Pass);
    assert_eq!(interaction(UnitName::Warrior, false, false, false, true, Strategy::Attack), Interaction::Attack);
    assert_eq!(interaction(UnitName::Warrior, false, true, true, true, Strategy::Attack), Interaction::Pass);
    assert_eq!(interaction(UnitName::Priest, false, false, false, false, Strategy::Attack), Interaction::Pass);
    assert_eq!(interaction(UnitName::Priest, false, false, true, true, Strategy::Attack), Interaction::Pass);
    assert_eq!(interaction(UnitName::Archer, false, false, false, false, Strategy::March), Interaction::Pass);
    assert_eq!(interaction(UnitName::Warrior, false, false, false, true, Strategy::March), Interaction::Pass);
    assert_eq!(interaction(UnitName::Priest, false, true, true, false, Strategy::March), Interaction::Heal);
    assert_eq!(interaction(UnitName::Warrior, false, false, false, true, Strategy::Berserk), Interaction::Attack);
    assert!(keeps_action(ActionKind::Attack, true, false, false, false));
    assert!(!keeps_action(ActionKind::Attack, false, true, false, false));
    assert!(!keeps_action(ActionKind::Heal, false, true, true, false));
    assert!(keeps_action(ActionKind::Run, false, false, false, false));
}

#[test]
fn variant_names() {
    assert_eq!(extract_variant_name("Attack(5v1)".to_string()), "Attack");
    assert_eq!(extract_variant_name("Status { speed: 1.0 }".to_string()), "Status");
    assert_eq!(extract_variant_name("\"Warrior\"".to_string()), "Warrior");
    assert_eq!(extract_variant_name("Idle".to_string()), "Idle");
    assert_eq!(extract_variant_name("".to_string()), "");
}

#[test]
fn readable_names() {
    assert_eq!(to_name("ArmorGain".to_string()), "Armor Gain");
    assert_eq!(to_name("QueueHammerheads".to_string()), "Queue Hammerheads");
    assert_eq!(to_name("Heal(3v2)".to_string()), "Heal");
    assert_eq!(to_lowername("BearDefender".to_string()), "bear defender");
    assert_eq!(to_title("MagicSwap".to_string()), Some("Magic swap".to_string()));
    assert_eq!(to_title("".to_string()), None);
    assert_eq!(capitalize("éa".to_string().split_off(2)), "A");
}

#[test]
fn strategies_as_described() {
    assert_eq!(movement_percent(Strategy::March, false, false), 150);
    assert_eq!(movement_percent(Strategy::Attack, false, false), 100);
    assert_eq!(movement_percent(Strategy::Attack, true, false), 200);
    assert_eq!(movement_percent(Strategy::March, true, false), 300);
    assert_eq!(movement_percent(Strategy::March, true, true), 0);
    assert_eq!(Strategy::Guard.defense_percent(true, false), 150);
    assert_eq!(Strategy::Guard.defense_percent(false, false), 100);
    assert_eq!(Strategy::Berserk.defense_percent(false, false), 50);
    assert_eq!(Strategy::Berserk.defense_percent(false, true), 100);
    assert_eq!(Strategy::Berserk.defense_percent(true, false), 75);
    assert_eq!(Strategy::Berserk.attack_speed_percent(), 130);
    assert_eq!(Strategy::Guard.attack_speed_percent(), 100);
    assert!(Strategy::Guard.guards_when_hit(UnitName::Warrior));
    assert!(!Strategy::Guard.guards_when_hit(UnitName::Archer));
    assert!(!Strategy::Attack.guards_when_hit(UnitName::Warrior));
    assert!(Strategy::Guard.keeps_guard());
    assert!(!Strategy::March.keeps_guard());
    assert!(collide(false, true));
    assert!(collide(true, false));
    assert!(!collide(true, true));
}

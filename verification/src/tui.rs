use vstd::prelude::*;
use vstd::string::StringExecFns;

use crate::keys::{control_only, KeyCode, KeyEvent};
use crate::model::Mode;

verus! {

/// The command-line options of the multiplayer client.
#[derive(Debug, Clone)]
pub struct Args {
    /// Whether the user must correct errors before moving on to the next word.
    pub no_error: bool,
    /// Don't get quotes from the backend and only use the built-in quotes.
    pub offline: bool,
    /// Custom path to the database of words.
    pub words_path: Option<String>,
    /// Custom path to the database of quotes.
    pub quotes_path: Option<String>,
    /// How many times per second the interface is drawn.
    pub fps: usize,
    /// How many ticks per second.
    pub tps: usize,
}

pub open spec fn backend_domain_text(debug_build: bool) -> Seq<char> {
    if debug_build {
        "localhost:8080"@
    } else {
        "typing-test-tui-backend.onrender.com"@
    }
}

/// The host of the game server: a local one in debug builds.
pub fn backend_domain(debug_build: bool) -> (r: &'static str)
    ensures
        r@ == backend_domain_text(debug_build),
{
    if debug_build {
        "localhost:8080"
    } else {
        "typing-test-tui-backend.onrender.com"
    }
}

/// The websocket address of the game server: plain `ws` to the local server
/// in debug builds, `wss` to the hosted one otherwise.
pub fn ws_url(debug_build: bool) -> (r: String)
    ensures
        r@ == (if debug_build { "ws"@ } else { "wss"@ }) + "://"@ + backend_domain_text(debug_build) + "/ws"@,
{
    let mut url = if debug_build { String::from_str("ws") } else { String::from_str("wss") };
    url.append("://");
    url.append(backend_domain(debug_build));
    url.append("/ws");
    url
}

#[verifier::external_type_specification]
#[verifier::external_body]
pub struct ExSystemTime(std::time::SystemTime);

#[verifier::external_type_specification]
#[verifier::external_body]
pub struct ExSystemTimeError(std::time::SystemTimeError);

/// `SystemTime::now`: the current time of the system clock, of which nothing
/// is claimed.
#[verifier::external_body]
fn system_time_now() -> std::time::SystemTime {
    std::time::SystemTime::now()
}

/// `SystemTime::duration_since(UNIX_EPOCH)`: the time elapsed since the epoch,
/// or an error for a clock set before it. Nothing is claimed of the value.
#[verifier::external_body]
fn duration_since_epoch(t: &std::time::SystemTime) -> Result<core::time::Duration, std::time::SystemTimeError> {
    t.duration_since(std::time::UNIX_EPOCH)
}

/// `Duration::as_secs`: the whole seconds of a duration, of which nothing is
/// claimed since a duration is opaque here.
#[verifier::external_body]
fn duration_as_secs(d: &core::time::Duration) -> u64 {
    d.as_secs()
}

/// Whether the blinking cursor is shown at the given second since the epoch:
/// it is shown on even seconds.
pub fn cursor_visible_at(unix_secs: u64) -> (r: bool)
    ensures
        r == (unix_secs % 2 == 0),
{
    unix_secs % 2 == 0
}

/// Whether the blinking cursor is shown, given the whole seconds elapsed since
/// the epoch; a clock set before the epoch (no seconds) counts as second zero.
pub fn cursor_visible_since_epoch(elapsed_secs: Option<u64>) -> (r: bool)
    ensures
        r == match elapsed_secs {
            Some(t) => t % 2 == 0,
            None => true,
        },
{
    let t = match elapsed_secs {
        Some(t) => t,
        None => 0,
    };
    cursor_visible_at(t)
}

/// Whether the blinking cursor is shown now. Which of the two comes back
/// depends on the clock.
pub fn should_draw_cursor() -> bool {
    let now = system_time_now();
    let elapsed_secs = match duration_since_epoch(&now) {
        Ok(n) => Some(duration_as_secs(&n)),
        Err(_) => None,
    };
    cursor_visible_since_epoch(elapsed_secs)
}

/// What a key press does before the current screen sees it.
#[derive(Debug, Clone, Copy, PartialEq, Eq, Structural)]
pub enum RootKeyAction {
    /// Control-c: quit.
    Quit,
    /// Control-p on the single-player screen: open the multiplayer screen.
    OpenMultiplayer,
    /// Control-p on the multiplayer screen: go back to single player.
    SwitchToSinglePlayer,
    /// Any other key goes to the current screen.
    Forward,
}

pub open spec fn root_key_action(key: KeyEvent, on_single_player: bool) -> RootKeyAction {
    if key.code == KeyCode::Char('c') && control_only(key.modifiers) {
        RootKeyAction::Quit
    } else if key.code == KeyCode::Char('p') && control_only(key.modifiers) {
        if on_single_player {
            RootKeyAction::OpenMultiplayer
        } else {
            RootKeyAction::SwitchToSinglePlayer
        }
    } else {
        RootKeyAction::Forward
    }
}

/// Decides what a key press does at the top of the application: control-c
/// quits, control-p toggles between single player and multiplayer, the rest
/// goes to the current screen.
pub fn route_key(key: &KeyEvent, on_single_player: bool) -> (r: RootKeyAction)
    ensures
        r == root_key_action(*key, on_single_player),
{
    if key.code == KeyCode::Char('c') && key.modifiers.is_control_only() {
        RootKeyAction::Quit
    } else if key.code == KeyCode::Char('p') && key.modifiers.is_control_only() {
        if on_single_player {
            RootKeyAction::OpenMultiplayer
        } else {
            RootKeyAction::SwitchToSinglePlayer
        }
    } else {
        RootKeyAction::Forward
    }
}

/// An action of the application; `S` is the type of its screens.
pub enum Action<S> {
    Quit,
    SwitchScreen(S),
    SwitchToSinglePlayer,
    ConfigModeUpdate(Mode),
}

/// The part of the application state that actions change.
pub struct RootModel<S> {
    pub exit: bool,
    pub screen: S,
    /// The mode saved in the configuration.
    pub mode: Mode,
}

/// The outside work that an action asks for.
#[derive(Debug, Clone, Copy, PartialEq, Eq, Structural)]
pub enum ActionEffect {
    Nothing,
    /// Build a single-player screen for this mode and switch to it.
    BuildSinglePlayer(Mode),
    /// Save this mode in the configuration file.
    SaveConfigMode(Mode),
}

/// Applies an action: quitting sets the exit flag, a screen switch replaces
/// the screen, going back to single player asks for a new single-player
/// screen in the configured mode, and a mode change updates the configured
/// mode and asks to save it.
pub fn handle_action<S>(model: &mut RootModel<S>, action: Action<S>) -> (r: ActionEffect)
    ensures
        match action {
            Action::Quit => r == ActionEffect::Nothing && final(model).exit && final(model).screen == old(model).screen
                && final(model).mode == old(model).mode,
            Action::SwitchScreen(s) => r == ActionEffect::Nothing && final(model).screen == s
                && final(model).exit == old(model).exit && final(model).mode == old(model).mode,
            Action::SwitchToSinglePlayer => r == ActionEffect::BuildSinglePlayer(old(model).mode)
                && *final(model) == *old(model),
            Action::ConfigModeUpdate(m) => r == ActionEffect::SaveConfigMode(m) && final(model).mode == m
                && final(model).exit == old(model).exit && final(model).screen == old(model).screen,
        },
{
    match action {
        Action::Quit => {
            model.exit = true;
            ActionEffect::Nothing
        },
        Action::SwitchScreen(screen) => {
            model.screen = screen;
            ActionEffect::Nothing
        },
        Action::SwitchToSinglePlayer => ActionEffect::BuildSinglePlayer(model.mode),
        Action::ConfigModeUpdate(mode) => {
            model.mode = mode;
            ActionEffect::SaveConfigMode(mode)
        },
    }
}

/// Only a key pressed with exactly the control modifier can leave the
/// current screen: control-c quits on every screen, control-p moves to the
/// other screen, and every other key press goes to the current screen.
pub proof fn lemma_only_control_keys_are_routed(key: KeyEvent, on_single_player: bool)
    ensures
        !control_only(key.modifiers) ==> root_key_action(key, on_single_player) == RootKeyAction::Forward,
        key.code != KeyCode::Char('c') && key.code != KeyCode::Char('p')
            ==> root_key_action(key, on_single_player) == RootKeyAction::Forward,
        key.code == KeyCode::Char('c') && control_only(key.modifiers)
            ==> root_key_action(key, on_single_player) == RootKeyAction::Quit,
        key.code == KeyCode::Char('p') && control_only(key.modifiers) ==> root_key_action(key, on_single_player)
            == (if on_single_player { RootKeyAction::OpenMultiplayer } else { RootKeyAction::SwitchToSinglePlayer }),
{
}

} // verus!

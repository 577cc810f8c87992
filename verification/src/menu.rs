//! What the buttons of the menus do.

use vstd::prelude::*;
use crate::state::AppState;

verus! {

/// What the mouse does with a button.
#[derive(Clone, Copy, PartialEq, Eq, Structural, Debug)]
pub enum Interaction {
    /// The button is being pressed.
    Pressed,
    /// The mouse is over the button.
    Hovered,
    /// The mouse is elsewhere.
    Away,
}

/// The buttons of the main menu.
#[derive(Clone, Copy, PartialEq, Eq, Structural, Debug)]
pub enum ButtonType {
    Play,
    Quit,
}

/// The two colours of a button.
#[derive(Clone, Copy, PartialEq, Eq, Structural, Debug)]
pub enum ButtonShade {
    Normal,
    Hovered,
}

/// What a menu does when the mouse has done something with a button.
#[derive(Clone, Copy, PartialEq, Eq, Structural, Debug)]
pub struct ButtonResponse {
    /// The screen to show next, if the screen changes.
    pub next_state: Option<AppState>,
    /// Whether the button's link is to be opened.
    pub open_link: bool,
    /// Whether the game is to end.
    pub exit: bool,
    /// The colour that the button takes, if it changes colour.
    pub shade: Option<ButtonShade>,
}

/// The response of a main menu button.
pub open spec fn play_button_response(
    button_type: ButtonType,
    interaction: Interaction,
    change_state: Option<AppState>,
    has_link: bool,
) -> ButtonResponse {
    match interaction {
        Interaction::Pressed => ButtonResponse {
            next_state: change_state,
            open_link: change_state.is_none() && has_link,
            exit: button_type == ButtonType::Quit,
            shade: None,
        },
        Interaction::Hovered => ButtonResponse {
            next_state: None,
            open_link: false,
            exit: false,
            shade: Some(ButtonShade::Hovered),
        },
        Interaction::Away => ButtonResponse {
            next_state: None,
            open_link: false,
            exit: false,
            shade: Some(ButtonShade::Normal),
        },
    }
}

/// A button of the main menu.
///
/// Pressed, it changes the screen if it has a screen to change to; only a
/// button without one opens its link, if it has a link. The quit button ends
/// the game as well. A button that is not pressed only changes colour.
pub fn click_play_button(
    button_type: ButtonType,
    interaction: Interaction,
    change_state: Option<AppState>,
    has_link: bool,
) -> (r: ButtonResponse)
    ensures
        r == play_button_response(button_type, interaction, change_state, has_link),
{
    match interaction {
        Interaction::Pressed => {
            let open_link = match change_state {
                Some(_) => false,
                None => has_link,
            };
            let exit = match button_type {
                ButtonType::Quit => true,
                ButtonType::Play => false,
            };
            ButtonResponse { next_state: change_state, open_link, exit, shade: None }
        },
        Interaction::Hovered => ButtonResponse {
            next_state: None,
            open_link: false,
            exit: false,
            shade: Some(ButtonShade::Hovered),
        },
        Interaction::Away => ButtonResponse {
            next_state: None,
            open_link: false,
            exit: false,
            shade: Some(ButtonShade::Normal),
        },
    }
}

/// A button of the menu that follows a game.
///
/// Pressed, it changes the screen if it has a screen to change to. It opens
/// nothing and never ends the game. A button that is not pressed only changes
/// colour.
pub fn click_button(interaction: Interaction, change_state: Option<AppState>) -> (r:
    ButtonResponse)
    ensures
        r == play_button_response(ButtonType::Play, interaction, change_state, false),
{
    click_play_button(ButtonType::Play, interaction, change_state, false)
}

} // verus!

//! The screens of the provider popup: the title each one shows, and where
//! Esc leads from each.
use vstd::prelude::*;
use crate::menu::ProviderAuthType;
use crate::menu_item::ProviderMenuItem;
use crate::text::{push_str, string_from};

verus! {

broadcast use vstd::string::group_string_axioms;

/// A screen of the provider popup.
#[derive(Debug, Clone, Copy, PartialEq, Eq, Structural)]
pub enum ProviderPopupScreen {
    Main,
    Providers,
    ApiKey,
    Models,
    Reasoning,
    Settings,
    Runners,
    Spinner,
    WebSearch,
    VoiceModels,
    Shell,
    Resume,
    Themes,
    Marketplaces,
}

/// The row at `selected` among `items`, if there is one.
pub open spec fn selected_entry(items: Seq<ProviderMenuItem>, selected: Option<usize>) -> Option<ProviderMenuItem> {
    match selected {
        Some(i) => if i < items.len() {
            Some(items[i as int])
        } else {
            None
        },
        None => None,
    }
}

/// What Delete (or Ctrl-R while filtering) does to the highlighted provider:
/// sign out of an OAuth provider that is signed in, clear the key of another
/// one that is set up, and reset anything else.
pub open spec fn reset_action(selected: Option<ProviderMenuItem>) -> Seq<char> {
    match selected {
        Some(ProviderMenuItem::Provider(p)) => if p.authenticated {
            if p.auth_type == ProviderAuthType::OAuth {
                "sign out"@
            } else {
                "clear"@
            }
        } else {
            "reset"@
        },
        _ => "reset"@,
    }
}

/// The title of each screen.
pub open spec fn popup_title(screen: ProviderPopupScreen, filter_empty: bool, action: Seq<char>) -> Seq<
    char,
> {
    match screen {
        ProviderPopupScreen::Main => " Menu (Enter select, Esc close) "@,
        ProviderPopupScreen::Providers => if filter_empty {
            " Providers (Enter select, Delete "@ + action + ", Esc back) "@
        } else {
            " Providers (Enter select, Ctrl-R "@ + action + ", Esc back) "@
        },
        ProviderPopupScreen::ApiKey => " Paste API key (Enter save, Esc back) "@,
        ProviderPopupScreen::Models => " Models by provider (Enter select, Esc back) "@,
        ProviderPopupScreen::Reasoning => " Reasoning effort (Enter select, Esc back) "@,
        ProviderPopupScreen::Settings => " Settings (Enter select, Esc back) "@,
        ProviderPopupScreen::Runners => " Runners (Enter select, Esc back) "@,
        ProviderPopupScreen::Spinner => " Working spinner (Enter select, Esc back) "@,
        ProviderPopupScreen::WebSearch => " Web search provider (Enter select, Esc back) "@,
        ProviderPopupScreen::VoiceModels => " Voice model (Enter select, Esc back) "@,
        ProviderPopupScreen::Shell => " Shell command shell (Enter select, Esc back) "@,
        ProviderPopupScreen::Resume => " Resume thread (Enter select, Esc back) "@,
        ProviderPopupScreen::Themes => " Themes (Enter select, Esc back) "@,
        ProviderPopupScreen::Marketplaces => " Plugin marketplaces (Enter select, Esc back) "@,
    }
}

/// The title of the popup on `screen`, given the rows shown, the highlighted
/// row and the filter typed so far.
pub fn provider_popup_title(
    screen: ProviderPopupScreen,
    items: &Vec<ProviderMenuItem>,
    selected: Option<usize>,
    filter: &str,
) -> (r: String)
    ensures
        r@ == popup_title(screen, filter@.len() == 0, reset_action(selected_entry(items@, selected))),
{
    match screen {
        ProviderPopupScreen::Main => string_from(" Menu (Enter select, Esc close) "),
        ProviderPopupScreen::Providers => {
            let mut action = "reset";
            match selected {
                Some(i) => {
                    if i < items.len() {
                        match &items[i] {
                            ProviderMenuItem::Provider(p) => {
                                if p.authenticated {
                                    if p.auth_type == ProviderAuthType::OAuth {
                                        action = "sign out";
                                    } else {
                                        action = "clear";
                                    }
                                }
                            },
                            _ => {},
                        }
                    }
                },
                None => {},
            }
            let mut title = if filter.is_empty() {
                string_from(" Providers (Enter select, Delete ")
            } else {
                string_from(" Providers (Enter select, Ctrl-R ")
            };
            push_str(&mut title, action);
            push_str(&mut title, ", Esc back) ");
            title
        },
        ProviderPopupScreen::ApiKey => string_from(" Paste API key (Enter save, Esc back) "),
        ProviderPopupScreen::Models => string_from(" Models by provider (Enter select, Esc back) "),
        ProviderPopupScreen::Reasoning => string_from(" Reasoning effort (Enter select, Esc back) "),
        ProviderPopupScreen::Settings => string_from(" Settings (Enter select, Esc back) "),
        ProviderPopupScreen::Runners => string_from(" Runners (Enter select, Esc back) "),
        ProviderPopupScreen::Spinner => string_from(" Working spinner (Enter select, Esc back) "),
        ProviderPopupScreen::WebSearch => string_from(
            " Web search provider (Enter select, Esc back) ",
        ),
        ProviderPopupScreen::VoiceModels => string_from(" Voice model (Enter select, Esc back) "),
        ProviderPopupScreen::Shell => string_from(" Shell command shell (Enter select, Esc back) "),
        ProviderPopupScreen::Resume => string_from(" Resume thread (Enter select, Esc back) "),
        ProviderPopupScreen::Themes => string_from(" Themes (Enter select, Esc back) "),
        ProviderPopupScreen::Marketplaces => string_from(
            " Plugin marketplaces (Enter select, Esc back) ",
        ),
    }
}

/// What Esc does in the provider popup.
#[derive(Debug, Clone, Copy, PartialEq, Eq, Structural)]
pub enum PopupBack {
    /// Clear the filter typed so far and keep the screen.
    ClearFilter,
    /// Show this screen.
    Show(ProviderPopupScreen),
    /// Forget the provider whose key was being pasted and show the providers.
    LeaveApiKey,
    /// Show the settings with the voice model row highlighted.
    LeaveVoiceModels,
    /// Undo the live preview of a theme and show the main menu.
    LeaveThemes,
    /// Close the popup.
    Close,
}

/// The screen that Esc leads to from `screen` when no filter is typed;
/// nothing when it closes the popup.
pub open spec fn back_screen(screen: ProviderPopupScreen) -> Option<ProviderPopupScreen> {
    match screen {
        ProviderPopupScreen::Main => None,
        ProviderPopupScreen::Reasoning => Some(ProviderPopupScreen::Models),
        ProviderPopupScreen::ApiKey => Some(ProviderPopupScreen::Providers),
        ProviderPopupScreen::VoiceModels => Some(ProviderPopupScreen::Settings),
        ProviderPopupScreen::Shell => Some(ProviderPopupScreen::Settings),
        _ => Some(ProviderPopupScreen::Main),
    }
}

/// The screen shown once `action` is carried out on `screen`; nothing once
/// the popup is closed.
pub open spec fn screen_after(action: PopupBack, screen: ProviderPopupScreen) -> Option<
    ProviderPopupScreen,
> {
    match action {
        PopupBack::ClearFilter => Some(screen),
        PopupBack::Show(s) => Some(s),
        PopupBack::LeaveApiKey => Some(ProviderPopupScreen::Providers),
        PopupBack::LeaveVoiceModels => Some(ProviderPopupScreen::Settings),
        PopupBack::LeaveThemes => Some(ProviderPopupScreen::Main),
        PopupBack::Close => None,
    }
}

/// What Esc does on `screen`: with a filter typed it clears the filter;
/// else it goes back one screen (forgetting a half-pasted key, highlighting
/// the voice model row, or undoing a theme preview on the way), and on the
/// main menu it closes the popup.
pub fn provider_popup_back(screen: ProviderPopupScreen, filter: &str) -> (r: PopupBack)
    ensures
        filter@.len() > 0 ==> r == PopupBack::ClearFilter,
        filter@.len() == 0 ==> {
            &&& screen_after(r, screen) == back_screen(screen)
            &&& (r == PopupBack::LeaveApiKey <==> screen == ProviderPopupScreen::ApiKey)
            &&& (r == PopupBack::LeaveVoiceModels <==> screen == ProviderPopupScreen::VoiceModels)
            &&& (r == PopupBack::LeaveThemes <==> screen == ProviderPopupScreen::Themes)
            &&& r != PopupBack::ClearFilter
        },
{
    if !filter.is_empty() {
        return PopupBack::ClearFilter;
    }
    match screen {
        ProviderPopupScreen::Main => PopupBack::Close,
        ProviderPopupScreen::Reasoning => PopupBack::Show(ProviderPopupScreen::Models),
        ProviderPopupScreen::ApiKey => PopupBack::LeaveApiKey,
        ProviderPopupScreen::VoiceModels => PopupBack::LeaveVoiceModels,
        ProviderPopupScreen::Shell => PopupBack::Show(ProviderPopupScreen::Settings),
        ProviderPopupScreen::Themes => PopupBack::LeaveThemes,
        _ => PopupBack::Show(ProviderPopupScreen::Main),
    }
}

/// Esc with no filter typed closes the popup only on the main menu, and
/// from any other screen reaches the main menu within two presses.
pub proof fn law_escape_reaches_main_menu(screen: ProviderPopupScreen)
    ensures
        back_screen(screen) is None <==> screen == ProviderPopupScreen::Main,
        screen != ProviderPopupScreen::Main ==> {
            ||| back_screen(screen) == Some(ProviderPopupScreen::Main)
            ||| back_screen(back_screen(screen)->0) == Some(ProviderPopupScreen::Main)
        },
{
}

} // verus!

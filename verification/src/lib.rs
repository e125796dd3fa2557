use vstd::prelude::*;

pub mod text;
pub mod paste;
pub mod config;
pub mod tools;
pub mod commands;
pub mod keys;
pub mod composer;
pub mod queue;
pub mod dialog;
pub mod layout;
pub mod status;
pub mod selection;
pub mod context;
pub mod terminal;
pub mod providers;
pub mod files;
pub mod startup;
pub mod menu;
pub mod menu_item;
pub mod policy;
pub mod chrome;
pub mod theme;
pub mod settings;
pub mod menu_cursor;
pub mod popup;
pub mod runners;
pub mod menus;
pub mod menu_action;
pub mod menu_keys;
pub mod footer;
pub mod model_select;
pub mod reports;
pub mod paste_route;
pub mod voice_config;
pub mod sheen;
pub mod timeline_rows;
pub mod transcript;
pub mod provider_list;
pub mod popup_lines;
pub mod tui_config;
pub mod body_layout;
pub mod turn;
pub mod key_route;
pub mod session;
pub mod popup_view;
pub mod chrome_panel;
pub mod dialog_view;
pub mod tui_state;
pub mod prompt;

verus! {

/// Suffix `s` when `count` is anything but one.
pub fn plural_s(count: usize) -> (r: &'static str)
    ensures
        count == 1 ==> r@ == ""@,
        count != 1 ==> r@ == "s"@,
{
    if count == 1 { "" } else { "s" }
}

} // verus!

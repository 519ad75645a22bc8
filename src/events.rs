//! What a key press does to the clock.
use vstd::prelude::*;
use std::sync::{Arc, RwLock};
use crate::config::{toggled, DisplayConfig, Toggle};
use crate::shared::{read_shared, write_shared};

verus! {

/// What a key asks for.
#[derive(Clone, Copy, Debug, PartialEq, Eq, Structural)]
pub enum KeyAction {
    /// Stop the clock.
    Quit,
    /// Flip one display switch.
    Flip(Toggle),
}

/// The action bound to `key`: `q` quits; `c`, `s`, `d` and `t` flip
/// centering, seconds, the hidden date and twelve-hour time. Other keys do
/// nothing.
pub open spec fn key_action(key: char) -> Option<KeyAction> {
    if key == 'q' {
        Some(KeyAction::Quit)
    } else if key == 'c' {
        Some(KeyAction::Flip(Toggle::Centerize))
    } else if key == 's' {
        Some(KeyAction::Flip(Toggle::Seconds))
    } else if key == 'd' {
        Some(KeyAction::Flip(Toggle::HideDate))
    } else if key == 't' {
        Some(KeyAction::Flip(Toggle::StandardTime))
    } else {
        None
    }
}

/// The settings after a press of `key`: the bound switch flipped, or the
/// settings unchanged for the quit key and for unbound keys.
pub open spec fn key_effect(c: DisplayConfig, key: char) -> DisplayConfig {
    match key_action(key) {
        Some(KeyAction::Flip(t)) => toggled(c, t),
        _ => c,
    }
}

/// The action bound to `key`, if any.
pub fn action_for(key: char) -> (r: Option<KeyAction>)
    ensures
        r == key_action(key),
{
    match key {
        'q' => Some(KeyAction::Quit),
        'c' => Some(KeyAction::Flip(Toggle::Centerize)),
        's' => Some(KeyAction::Flip(Toggle::Seconds)),
        'd' => Some(KeyAction::Flip(Toggle::HideDate)),
        't' => Some(KeyAction::Flip(Toggle::StandardTime)),
        _ => None,
    }
}

/// The settings `config` after a press of `key`.
pub fn apply_key(config: DisplayConfig, key: char) -> (r: DisplayConfig)
    ensures
        r == key_effect(config, key),
{
    let mut r = config;
    if let Some(KeyAction::Flip(t)) = action_for(key) {
        r.toggle(t);
    }
    r
}

/// Applies key presses to the shared display settings and quit flag.
pub struct EventHandler {
    display_config: Arc<RwLock<DisplayConfig>>,
    should_quit: Arc<RwLock<bool>>,
}

impl EventHandler {
    /// The quit flag this handler sets.
    pub closed spec fn quit_flag(&self) -> Arc<RwLock<bool>> {
        self.should_quit
    }

    /// The settings this handler changes.
    pub closed spec fn settings(&self) -> Arc<RwLock<DisplayConfig>> {
        self.display_config
    }

    /// A handler for `display_config`, and the quit flag it sets, which
    /// starts out false.
    pub fn new(display_config: Arc<RwLock<DisplayConfig>>) -> (r: (Self, Arc<RwLock<bool>>))
        ensures
            r.0.settings() == display_config,
            r.0.quit_flag() == r.1,
    {
        let should_quit = Arc::new(RwLock::new(false));
        (EventHandler { should_quit: should_quit.clone(), display_config }, should_quit)
    }

    /// Handles a press of `key`: sets the quit flag, or flips the one display
    /// switch bound to it, or does nothing for an unbound key. A flip reads
    /// the whole record and writes back `apply_key` of it; this handler is the
    /// only writer of the settings. A change that cannot take the lock is
    /// dropped. Returns the action taken.
    pub fn handle_key(&self, key: char) -> (r: Option<KeyAction>)
        ensures
            r == key_action(key),
    {
        let action = action_for(key);
        match action {
            Some(KeyAction::Quit) => {
                write_shared(&self.should_quit, true);
            },
            Some(KeyAction::Flip(_)) => {
                if let Some(config) = read_shared(&self.display_config) {
                    write_shared(&self.display_config, apply_key(config, key));
                }
            },
            None => {},
        }
        action
    }
}

} // verus!

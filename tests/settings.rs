use click::config::{color_code, ColorConfig, ConfigBuilder, DisplayConfig, Toggle};
use click::events::{action_for, apply_key, EventHandler, KeyAction};
use click::layout::date_offset;
use click::number::BigNumber;
use ratatui::style::Color;
use std::sync::{Arc, RwLock};

fn all_off() -> DisplayConfig {
    DisplayConfig::default()
}

#[test]
fn default_has_every_switch_off() {
    let c = all_off();
    assert!(!c.show_seconds && !c.centerize_text && !c.standard_time && !c.hide_date);
}

#[test]
fn each_toggle_flips_only_its_switch() {
    let base = all_off();
    let mut c = base;
    c.toggle(Toggle::Seconds);
    assert_eq!(c, DisplayConfig { show_seconds: true, ..base });
    let mut c = base;
    c.toggle(Toggle::Centerize);
    assert_eq!(c, DisplayConfig { centerize_text: true, ..base });
    let mut c = base;
    c.toggle(Toggle::StandardTime);
    assert_eq!(c, DisplayConfig { standard_time: true, ..base });
    let mut c = base;
    c.toggle(Toggle::HideDate);
    assert_eq!(c, DisplayConfig { hide_date: true, ..base });
    c.toggle(Toggle::HideDate);
    assert_eq!(c, base);
}

#[test]
fn hiding_the_date_keeps_the_glyph_width() {
    let color = Color::White;
    let mut c = DisplayConfig { show_seconds: true, ..all_off() };
    let before = c.time_pattern();
    c.toggle(Toggle::HideDate);
    assert_eq!(c.time_pattern(), before);
    c.toggle(Toggle::Centerize);
    assert_eq!(c.time_pattern(), before);
    assert_eq!(BigNumber::new("13:05:09", &color).width(), 56);
    c.toggle(Toggle::Seconds);
    assert_eq!(c.time_pattern(), "%H:%M");
    assert_eq!(c.date_pattern(), "%F");
}

#[test]
fn keys_map_to_actions() {
    assert_eq!(action_for('q'), Some(KeyAction::Quit));
    assert_eq!(action_for('c'), Some(KeyAction::Flip(Toggle::Centerize)));
    assert_eq!(action_for('s'), Some(KeyAction::Flip(Toggle::Seconds)));
    assert_eq!(action_for('d'), Some(KeyAction::Flip(Toggle::HideDate)));
    assert_eq!(action_for('t'), Some(KeyAction::Flip(Toggle::StandardTime)));
    assert_eq!(action_for('x'), None);
    assert_eq!(action_for('Q'), None);
}

#[test]
fn handler_changes_shared_state() {
    let shared = Arc::new(RwLock::new(all_off()));
    let (handler, quit) = EventHandler::new(shared.clone());
    assert!(!*quit.read().unwrap());

    assert_eq!(handler.handle_key('s'), Some(KeyAction::Flip(Toggle::Seconds)));
    assert_eq!(*shared.read().unwrap(), DisplayConfig { show_seconds: true, ..all_off() });

    assert_eq!(handler.handle_key('z'), None);
    assert_eq!(*shared.read().unwrap(), DisplayConfig { show_seconds: true, ..all_off() });

    handler.handle_key('t');
    handler.handle_key('s');
    assert_eq!(*shared.read().unwrap(), DisplayConfig { standard_time: true, ..all_off() });
    assert!(!*quit.read().unwrap());

    assert_eq!(handler.handle_key('q'), Some(KeyAction::Quit));
    assert!(*quit.read().unwrap());
}

#[test]
fn overrides_replace_only_given_switches() {
    let base = DisplayConfig { hide_date: true, ..all_off() };
    let c = base.with_overrides(Some(true), None, None, Some(false));
    assert_eq!(c, DisplayConfig { show_seconds: true, ..all_off() });
    assert_eq!(base.with_overrides(None, None, None, None), base);
}

#[test]
fn color_codes_get_a_hash() {
    assert_eq!(color_code("0xFFFFFF"), "#FFFFFF");
    assert_eq!(color_code("FFFFFF"), "#FFFFFF");
    assert_eq!(color_code("#a0b1c2"), "#a0b1c2");
    assert_eq!(color_code(""), "#");
    assert_eq!(color_code("10x2"), "#1#2");
}

#[test]
fn date_sits_under_the_block() {
    assert_eq!(date_offset(56, 10, true), (22, 6));
    assert_eq!(date_offset(35, 10, false), (12, 6));
    assert_eq!(date_offset(0, 15, false), (-7, 6));
}

#[test]
fn built_config_shares_display() {
    let builder = ConfigBuilder::from_parts(
        ColorConfig { foreground_color: Color::Green },
        DisplayConfig { centerize_text: true, ..all_off() },
    );
    let config = builder.build();
    assert_eq!(*config.fg(), Color::Green);
    let a = config.display_config();
    let b = config.display_config();
    a.write().unwrap().hide_date = true;
    assert_eq!(*b.read().unwrap(), DisplayConfig { centerize_text: true, hide_date: true, ..all_off() });
}

#[test]
fn key_effect_on_settings() {
    let base = all_off();
    assert_eq!(apply_key(base, 'c'), DisplayConfig { centerize_text: true, ..base });
    assert_eq!(apply_key(base, 's'), DisplayConfig { show_seconds: true, ..base });
    assert_eq!(apply_key(base, 'd'), DisplayConfig { hide_date: true, ..base });
    assert_eq!(apply_key(base, 't'), DisplayConfig { standard_time: true, ..base });
    assert_eq!(apply_key(base, 'q'), base);
    assert_eq!(apply_key(base, 'x'), base);
}

#[test]
fn handler_and_caller_share_handles() {
    let shared = Arc::new(RwLock::new(all_off()));
    let (handler, quit) = EventHandler::new(shared.clone());
    handler.handle_key('q');
    assert!(*quit.read().unwrap());
    let config = ConfigBuilder::from_parts(ColorConfig { foreground_color: Color::Blue }, all_off()).build();
    assert!(Arc::ptr_eq(&config.display_config(), &config.display_config()));
}

use game_core::properties::{Color, PropertyValue};
use game_core::states::{
    is_state_in_game, is_state_in_ui, AppState, InGameStates, LoadingStates, UiState,
};

#[test]
fn in_game_matches_every_substate() {
    assert!(is_state_in_game(&AppState::InGame(InGameStates::Game)));
    assert!(is_state_in_game(&AppState::InGame(InGameStates::Pause)));
    assert!(is_state_in_game(&AppState::InGame(InGameStates::Combat)));
    assert!(is_state_in_game(&AppState::InGame(InGameStates::GameOver)));
    assert!(!is_state_in_game(&AppState::Preload));
    assert!(!is_state_in_game(&AppState::Screen(UiState::Menu)));
}

#[test]
fn ui_matches_every_screen() {
    assert!(is_state_in_ui(&AppState::Screen(UiState::Menu)));
    assert!(is_state_in_ui(&AppState::Screen(UiState::Settings)));
    assert!(!is_state_in_ui(&AppState::AppInit));
    assert!(!is_state_in_ui(&AppState::Loading(LoadingStates::BaseGen)));
}

#[test]
fn state_defaults() {
    assert_eq!(AppState::default(), AppState::AppInit);
    assert_eq!(UiState::default(), UiState::Menu);
    assert_eq!(LoadingStates::default(), LoadingStates::BaseGen);
    assert_eq!(InGameStates::default(), InGameStates::Game);
}

#[test]
fn property_accessors_match_their_variant() {
    let b = PropertyValue::BoolValue(true);
    assert_eq!(b.as_bool(), Some(true));
    assert_eq!(b.as_i32(), None);

    let i = PropertyValue::IntValue(-7);
    assert_eq!(i.as_i32(), Some(-7));
    assert_eq!(i.as_u32(), None);

    let o = PropertyValue::ObjectValue(42);
    assert_eq!(o.as_u32(), Some(42));

    let s = PropertyValue::StringValue("hello".to_string());
    assert_eq!(s.as_str(), Some("hello"));
    let f = PropertyValue::FileValue("a/b.png".to_string());
    assert_eq!(f.as_str(), Some("a/b.png"));
    assert_eq!(b.as_str(), None);

    let c = Color { alpha: 255, red: 1, green: 2, blue: 3 };
    let cv = PropertyValue::ColorValue(c);
    assert_eq!(cv.as_color(), Some(c));
    assert_eq!(s.as_color(), None);
}

#[test]
fn property_defaults_fall_through() {
    let i = PropertyValue::IntValue(-7);
    assert_eq!(i.bool_or(true), true);
    assert_eq!(i.i32_or(0), -7);
    assert_eq!(i.u32_or(9), 9);
    assert_eq!(i.str_or("fallback"), "fallback");
    let s = PropertyValue::StringValue("value".to_string());
    assert_eq!(s.str_or("fallback"), "value");
}

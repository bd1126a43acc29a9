use password_generator::password::PasswordState;

fn shown(state: &PasswordState) -> Option<String> {
    match state {
        PasswordState::Empty => None,
        PasswordState::PasswordGenerated(s) => Some(s.clone()),
    }
}

#[test]
fn default_password_is_empty() {
    assert!(matches!(PasswordState::default(), PasswordState::Empty));
}

#[test]
fn update_password_shows_a_non_empty_message() {
    let mut state = PasswordState::Empty;
    state.update_password("hunter2".to_string());
    assert_eq!(shown(&state), Some("hunter2".to_string()));
    state.update_password("swordfish".to_string());
    assert_eq!(shown(&state), Some("swordfish".to_string()));
}

#[test]
fn update_password_ignores_the_empty_message() {
    let mut state = PasswordState::Empty;
    state.update_password(String::new());
    assert_eq!(shown(&state), None);
    state.update_password("hunter2".to_string());
    state.update_password(String::new());
    assert_eq!(shown(&state), Some("hunter2".to_string()));
}

#[test]
fn replace_with_takes_a_generated_password() {
    let mut state = PasswordState::Empty;
    state.replace_with(PasswordState::PasswordGenerated("abc".to_string()));
    assert_eq!(shown(&state), Some("abc".to_string()));
    state.replace_with(PasswordState::PasswordGenerated("xyz".to_string()));
    assert_eq!(shown(&state), Some("xyz".to_string()));
}

#[test]
fn replace_with_keeps_the_display_on_an_empty_outcome() {
    let mut state = PasswordState::PasswordGenerated("abc".to_string());
    state.replace_with(PasswordState::Empty);
    assert_eq!(shown(&state), Some("abc".to_string()));
    let mut state = PasswordState::Empty;
    state.replace_with(PasswordState::Empty);
    assert_eq!(shown(&state), None);
}

#[test]
fn replace_with_takes_the_empty_string_as_a_password() {
    let mut state = PasswordState::PasswordGenerated("abc".to_string());
    state.replace_with(PasswordState::PasswordGenerated(String::new()));
    assert_eq!(shown(&state), Some(String::new()));
}

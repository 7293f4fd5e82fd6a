use robofill::grid::GridDirection;
use robofill::input::resolve_mapping;
use robofill::input::InputAction;
use robofill::input::InputMapping;
use robofill::input::KeyboardInput;
use robofill::input::KEY_A;
use robofill::input::KEY_D;
use robofill::input::KEY_S;
use robofill::input::KEY_W;

#[test]
fn keyboard_starts_released() {
    let input = KeyboardInput::new();
    assert!(!input.is_pressed(KEY_W));
    assert!(!input.is_pressed(12345));
}

#[test]
fn keyboard_set_and_release() {
    let mut input = KeyboardInput::new();
    input.set_key(KEY_S, true);
    assert!(input.is_pressed(KEY_S));
    assert!(!input.is_pressed(KEY_W));
    input.set_key(KEY_S, false);
    assert!(!input.is_pressed(KEY_S));
}

#[test]
fn default_mapping_is_wasd() {
    let m = InputMapping::default();
    assert_eq!(m.key_for(InputAction::MoveUp), KEY_W);
    assert_eq!(m.key_for(InputAction::MoveDown), KEY_S);
    assert_eq!(m.key_for(InputAction::MoveLeft), KEY_A);
    assert_eq!(m.key_for(InputAction::MoveRight), KEY_D);
}

#[test]
fn resolve_nothing_held() {
    let m = InputMapping::default();
    let input = KeyboardInput::new();
    assert_eq!(resolve_mapping(&m, &input), None);
}

#[test]
fn resolve_single_direction() {
    let m = InputMapping::default();
    let mut input = KeyboardInput::new();
    input.set_key(KEY_S, true);
    assert_eq!(
        resolve_mapping(&m, &input),
        Some(GridDirection::DirectionSouth)
    );
    input.set_key(KEY_S, false);
    input.set_key(KEY_W, true);
    assert_eq!(
        resolve_mapping(&m, &input),
        Some(GridDirection::DirectionNorth)
    );
}

#[test]
fn resolve_priority_on_simultaneous_input() {
    // The fixed tie-break order is West, then East, then South, then
    // North.
    let m = InputMapping::default();
    let mut input = KeyboardInput::new();
    input.set_key(KEY_W, true);
    input.set_key(KEY_S, true);
    assert_eq!(
        resolve_mapping(&m, &input),
        Some(GridDirection::DirectionSouth)
    );
    input.set_key(KEY_D, true);
    assert_eq!(
        resolve_mapping(&m, &input),
        Some(GridDirection::DirectionEast)
    );
    input.set_key(KEY_A, true);
    assert_eq!(
        resolve_mapping(&m, &input),
        Some(GridDirection::DirectionWest)
    );
}

#[test]
fn resolve_respects_custom_mapping() {
    let m = InputMapping {
        up: 1,
        down: 2,
        left: 3,
        right: 4,
    };
    let mut input = KeyboardInput::new();
    input.set_key(KEY_S, true);
    assert_eq!(resolve_mapping(&m, &input), None);
    input.set_key(2, true);
    assert_eq!(
        resolve_mapping(&m, &input),
        Some(GridDirection::DirectionSouth)
    );
}

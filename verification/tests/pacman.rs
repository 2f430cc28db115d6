use space_kit::hierarchy::HierarchyError;
use space_kit::pacman::{MoveDirection, PlayerCharacterMarker};

#[test]
fn move_directions_step_along_one_axis() {
    assert_eq!(MoveDirection::Up.delta(), (0, 1, 0));
    assert_eq!(MoveDirection::Down.delta(), (0, -1, 0));
    assert_eq!(MoveDirection::Left.delta(), (-1, 0, 0));
    assert_eq!(MoveDirection::Right.delta(), (1, 0, 0));
    let _ = PlayerCharacterMarker::default();
}

#[test]
fn hierarchy_errors_have_messages() {
    assert_eq!(HierarchyError::KeyNotFound.message(), "The key was not found");
    assert_eq!(HierarchyError::MultipleKeysFound.message(), "The key was found more than once");
    assert_eq!(HierarchyError::NodeNotFound.message(), "The specified node was not found");
}

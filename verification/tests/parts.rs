use fotosort::cursor::{clamp_index, next_index, previous_index};
use fotosort::mode::{resolve_mode, Modifiers, TransferMode};
use fotosort::rotation::Rotation;
use fotosort::slot::{destination_path, Slot};

#[test]
fn resolve_mode_without_override_is_default() {
    let held = Modifiers { force_move: false, force_copy: false };
    assert_eq!(resolve_mode(TransferMode::Copy, held), TransferMode::Copy);
    assert_eq!(resolve_mode(TransferMode::Move, held), TransferMode::Move);
}

#[test]
fn resolve_mode_override_beats_default() {
    let force_move = Modifiers { force_move: true, force_copy: false };
    let force_copy = Modifiers { force_move: false, force_copy: true };
    assert_eq!(resolve_mode(TransferMode::Copy, force_move), TransferMode::Move);
    assert_eq!(resolve_mode(TransferMode::Move, force_move), TransferMode::Move);
    assert_eq!(resolve_mode(TransferMode::Copy, force_copy), TransferMode::Copy);
    assert_eq!(resolve_mode(TransferMode::Move, force_copy), TransferMode::Copy);
}

#[test]
fn resolve_mode_copy_wins_when_both_held() {
    let both = Modifiers { force_move: true, force_copy: true };
    assert_eq!(resolve_mode(TransferMode::Copy, both), TransferMode::Copy);
    assert_eq!(resolve_mode(TransferMode::Move, both), TransferMode::Copy);
}

#[test]
fn mode_from_flag() {
    assert_eq!(TransferMode::from_flag(true), TransferMode::Move);
    assert_eq!(TransferMode::from_flag(false), TransferMode::Copy);
    assert!(TransferMode::Move.is_move());
    assert!(!TransferMode::Copy.is_move());
}

#[test]
fn slot_numbers_one_to_five() {
    let slots = [Slot::One, Slot::Two, Slot::Three, Slot::Four, Slot::Five];
    for (i, slot) in slots.iter().enumerate() {
        let n = (i + 1) as u8;
        assert_eq!(Slot::from_number(n), Some(*slot));
        assert_eq!(slot.number(), n);
    }
    assert_eq!(Slot::from_number(0), None);
    assert_eq!(Slot::from_number(6), None);
    assert_eq!(Slot::from_number(255), None);
}

#[test]
fn slot_folders() {
    assert_eq!(Slot::One.folder(), "fs1");
    assert_eq!(Slot::Two.folder(), "fs2");
    assert_eq!(Slot::Three.folder(), "fs3");
    assert_eq!(Slot::Four.folder(), "fs4");
    assert_eq!(Slot::Five.folder(), "fs5");
}

#[test]
fn destination_joins_folder_and_name() {
    assert_eq!(destination_path("fs3", "a.jpg"), "fs3/a.jpg");
    assert_eq!(destination_path("fs1", ""), "fs1/");
    assert_eq!(destination_path("", "x"), "/x");
    assert_eq!(destination_path(&Slot::Five.folder(), "b\u{e4}r.png"), "fs5/b\u{e4}r.png");
}

#[test]
fn rotation_degrees() {
    assert_eq!(Rotation::Deg0.degrees(), 0);
    assert_eq!(Rotation::Deg90.degrees(), 90);
    assert_eq!(Rotation::Deg180.degrees(), 180);
    assert_eq!(Rotation::Deg270.degrees(), 270);
}

#[test]
fn rotation_from_degrees() {
    assert_eq!(Rotation::from_degrees(0), Some(Rotation::Deg0));
    assert_eq!(Rotation::from_degrees(90), Some(Rotation::Deg90));
    assert_eq!(Rotation::from_degrees(180), Some(Rotation::Deg180));
    assert_eq!(Rotation::from_degrees(270), Some(Rotation::Deg270));
    assert_eq!(Rotation::from_degrees(360), None);
    assert_eq!(Rotation::from_degrees(45), None);
}

#[test]
fn rotation_turns_by_ninety_modulo_full_turn() {
    let all = [Rotation::Deg0, Rotation::Deg90, Rotation::Deg180, Rotation::Deg270];
    for r in all {
        assert_eq!(r.rotate_cw().degrees(), (r.degrees() + 90) % 360);
        assert_eq!(r.rotate_ccw().degrees(), (r.degrees() + 360 - 90) % 360);
        assert_eq!(r.rotate_cw().rotate_ccw(), r);
        assert_eq!(r.rotate_ccw().rotate_cw(), r);
        assert_eq!(r.rotate_cw().rotate_cw().rotate_cw().rotate_cw(), r);
    }
    assert_eq!(Rotation::Deg270.rotate_cw(), Rotation::Deg0);
    assert_eq!(Rotation::Deg0.rotate_ccw(), Rotation::Deg270);
}

#[test]
fn next_index_wraps_to_first() {
    assert_eq!(next_index(0, 3), 1);
    assert_eq!(next_index(1, 3), 2);
    assert_eq!(next_index(2, 3), 0);
    assert_eq!(next_index(0, 1), 0);
    assert_eq!(next_index(usize::MAX - 1, usize::MAX), 0);
}

#[test]
fn previous_index_wraps_to_last() {
    assert_eq!(previous_index(0, 3), 2);
    assert_eq!(previous_index(1, 3), 0);
    assert_eq!(previous_index(2, 3), 1);
    assert_eq!(previous_index(0, 1), 0);
    assert_eq!(previous_index(0, usize::MAX), usize::MAX - 1);
}

#[test]
fn clamp_index_keeps_cursor_inside() {
    assert_eq!(clamp_index(0, 2), 0);
    assert_eq!(clamp_index(1, 2), 1);
    assert_eq!(clamp_index(2, 2), 1);
    assert_eq!(clamp_index(7, 2), 1);
    assert_eq!(clamp_index(0, 0), 0);
    assert_eq!(clamp_index(3, 0), 0);
}

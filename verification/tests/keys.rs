use fotosort::event::{Action, Event, ExitReason, Phase};
use fotosort::keys::Keys;
use fotosort::mode::{Modifiers, TransferMode};
use fotosort::session::Session;
use fotosort::slot::Slot;

fn quiet() -> Keys {
    Keys {
        slot1: false,
        slot2: false,
        slot3: false,
        slot4: false,
        slot5: false,
        rotate: false,
        reverse: false,
        delete: false,
        yes: false,
        no: false,
        left: false,
        right: false,
        quit: false,
        force_move: false,
        force_copy: false,
    }
}

#[test]
fn no_key_gives_no_event() {
    assert_eq!(quiet().events(Phase::Browsing), vec![]);
    assert_eq!(quiet().events(Phase::ConfirmingDelete), vec![]);
    assert_eq!(quiet().events(Phase::Finished(ExitReason::UserQuit)), vec![]);
}

#[test]
fn single_keys_while_browsing() {
    let cases = [
        (Keys { slot1: true, ..quiet() }, Event::AssignToSlot(Slot::One)),
        (Keys { slot2: true, ..quiet() }, Event::AssignToSlot(Slot::Two)),
        (Keys { slot3: true, ..quiet() }, Event::AssignToSlot(Slot::Three)),
        (Keys { slot4: true, ..quiet() }, Event::AssignToSlot(Slot::Four)),
        (Keys { slot5: true, ..quiet() }, Event::AssignToSlot(Slot::Five)),
        (Keys { rotate: true, ..quiet() }, Event::RotateCw),
        (Keys { rotate: true, reverse: true, ..quiet() }, Event::RotateCcw),
        (Keys { delete: true, ..quiet() }, Event::RequestDelete),
        (Keys { left: true, ..quiet() }, Event::Previous),
        (Keys { right: true, ..quiet() }, Event::Next),
        (Keys { quit: true, ..quiet() }, Event::Quit),
    ];
    for (keys, event) in cases {
        assert_eq!(keys.events(Phase::Browsing), vec![event]);
    }
}

#[test]
fn keys_without_meaning_while_browsing() {
    assert_eq!(Keys { yes: true, no: true, ..quiet() }.events(Phase::Browsing), vec![]);
    assert_eq!(Keys { reverse: true, ..quiet() }.events(Phase::Browsing), vec![]);
    assert_eq!(
        Keys { force_move: true, force_copy: true, ..quiet() }.events(Phase::Browsing),
        vec![]
    );
}

#[test]
fn several_keys_come_in_order() {
    let keys = Keys {
        slot2: true,
        slot4: true,
        rotate: true,
        delete: true,
        left: true,
        right: true,
        ..quiet()
    };
    assert_eq!(
        keys.events(Phase::Browsing),
        vec![
            Event::AssignToSlot(Slot::Two),
            Event::RotateCw,
            Event::RequestDelete,
            Event::Previous
        ]
    );
}

#[test]
fn quit_comes_alone() {
    let keys = Keys { slot1: true, rotate: true, yes: true, left: true, quit: true, ..quiet() };
    assert_eq!(keys.events(Phase::Browsing), vec![Event::Quit]);
    assert_eq!(keys.events(Phase::ConfirmingDelete), vec![Event::Quit]);
    assert_eq!(keys.events(Phase::Finished(ExitReason::AllProcessed)), vec![]);
}

#[test]
fn confirmation_takes_only_yes_and_no() {
    assert_eq!(Keys { yes: true, ..quiet() }.events(Phase::ConfirmingDelete), vec![Event::Confirm]);
    assert_eq!(Keys { no: true, ..quiet() }.events(Phase::ConfirmingDelete), vec![Event::Deny]);
    assert_eq!(
        Keys { yes: true, no: true, ..quiet() }.events(Phase::ConfirmingDelete),
        vec![Event::Confirm]
    );
    let others = Keys { slot1: true, rotate: true, delete: true, left: true, ..quiet() };
    assert_eq!(others.events(Phase::ConfirmingDelete), vec![]);
}

#[test]
fn held_overrides_are_handed_on() {
    let keys = Keys { force_move: true, ..quiet() };
    assert_eq!(keys.held(), Modifiers { force_move: true, force_copy: false });
    let keys = Keys { force_copy: true, ..quiet() };
    assert_eq!(keys.held(), Modifiers { force_move: false, force_copy: true });
}

#[test]
fn a_tick_of_keys_drives_the_session() {
    let paths = vec!["a.jpg".to_string(), "b.jpg".to_string()];
    let mut s = Session::new(paths, TransferMode::Copy).unwrap();
    let keys = Keys { slot3: true, force_move: true, right: true, ..quiet() };
    let mut actions = Vec::new();
    for event in keys.events(s.phase()) {
        actions.push(s.step(event, keys.held()));
    }
    assert_eq!(
        actions,
        vec![Action::Transfer { slot: Slot::Three, mode: TransferMode::Move }, Action::Show]
    );
    assert_eq!(s.cursor(), Some(1));
}

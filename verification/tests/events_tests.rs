use battop::{map_key, Event, Key};

#[test]
fn arrows_move_the_selection() {
    assert_eq!(map_key(Key::Left, false), Some(Event::PreviousTab));
    assert_eq!(map_key(Key::Left, true), Some(Event::PreviousTab));
    assert_eq!(map_key(Key::Right, false), Some(Event::NextTab));
    assert_eq!(map_key(Key::Right, true), Some(Event::NextTab));
}

#[test]
fn exit_keys() {
    assert_eq!(map_key(Key::Char('q'), false), Some(Event::Exit));
    assert_eq!(map_key(Key::Char('q'), true), Some(Event::Exit));
    assert_eq!(map_key(Key::Char('c'), true), Some(Event::Exit));
    assert_eq!(map_key(Key::Esc, false), Some(Event::Exit));
}

#[test]
fn other_keys_are_discarded() {
    assert_eq!(map_key(Key::Char('c'), false), None);
    assert_eq!(map_key(Key::Char('x'), false), None);
    assert_eq!(map_key(Key::Char('Q'), false), None);
    assert_eq!(map_key(Key::Other, false), None);
    assert_eq!(map_key(Key::Other, true), None);
}

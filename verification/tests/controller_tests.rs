use kitten_grid::controller::{Controller, Direction, GameEvent, Key};

#[test]
fn arrow_keys_move() {
    assert_eq!(Controller::interpret(Key::Left), Some(GameEvent::Move(Direction::Left)));
    assert_eq!(Controller::interpret(Key::Up), Some(GameEvent::Move(Direction::Up)));
    assert_eq!(Controller::interpret(Key::Right), Some(GameEvent::Move(Direction::Right)));
    assert_eq!(Controller::interpret(Key::Down), Some(GameEvent::Move(Direction::Down)));
}

#[test]
fn vi_keys_move() {
    assert_eq!(Controller::interpret(Key::Char('h')), Some(GameEvent::Move(Direction::Left)));
    // vi-style: j is down and k is up.
    assert_eq!(Controller::interpret(Key::Char('j')), Some(GameEvent::Move(Direction::Down)));
    assert_eq!(Controller::interpret(Key::Char('k')), Some(GameEvent::Move(Direction::Up)));
    assert_eq!(Controller::interpret(Key::Char('l')), Some(GameEvent::Move(Direction::Right)));
}

#[test]
fn quit_keys() {
    assert_eq!(Controller::interpret(Key::Esc), Some(GameEvent::Quit));
    assert_eq!(Controller::interpret(Key::Char('q')), Some(GameEvent::Quit));
}

#[test]
fn unrecognized_keys_are_ignored() {
    assert_eq!(Controller::interpret(Key::Char('x')), None);
    assert_eq!(Controller::interpret(Key::Char('Q')), None);
    assert_eq!(Controller::interpret(Key::Char(' ')), None);
    assert_eq!(Controller::interpret(Key::Other), None);
}

use snake::Direction;

const ALL: [Direction; 4] = [Direction::Up, Direction::Down, Direction::Left, Direction::Right];

#[test]
fn opposite_pairs() {
    assert_eq!(Direction::Up.opposite(), Direction::Down);
    assert_eq!(Direction::Down.opposite(), Direction::Up);
    assert_eq!(Direction::Left.opposite(), Direction::Right);
    assert_eq!(Direction::Right.opposite(), Direction::Left);
}

#[test]
fn opposite_is_an_involution() {
    for d in ALL {
        assert_eq!(d.opposite().opposite(), d);
        assert_ne!(d.opposite(), d);
        assert!(d.is_opposite_of(d.opposite()));
        assert!(!d.is_opposite_of(d));
    }
}

#[test]
fn movement_keys_map_to_headings() {
    assert_eq!(Direction::from_key('w'), Some(Direction::Up));
    assert_eq!(Direction::from_key('a'), Some(Direction::Left));
    assert_eq!(Direction::from_key('s'), Some(Direction::Down));
    assert_eq!(Direction::from_key('d'), Some(Direction::Right));
}

#[test]
fn other_keys_map_to_nothing() {
    for c in ['q', 'W', 'x', ' ', '1', '\n'] {
        assert_eq!(Direction::from_key(c), None);
    }
}

#[test]
fn right_then_left_key_keeps_right() {
    assert_eq!(Direction::Right.resolve(Some('a')), Direction::Right);
}

#[test]
fn up_then_right_key_turns_right() {
    assert_eq!(Direction::Up.resolve(Some('d')), Direction::Right);
}

#[test]
fn no_key_keeps_heading() {
    for d in ALL {
        assert_eq!(d.resolve(None), d);
    }
}

#[test]
fn unmapped_key_keeps_heading() {
    for d in ALL {
        assert_eq!(d.resolve(Some('z')), d);
        assert_eq!(d.resolve(Some('q')), d);
    }
}

#[test]
fn resolve_never_reverses() {
    for d in ALL {
        for c in ['w', 'a', 's', 'd', 'q', 'x'] {
            assert_ne!(d.resolve(Some(c)), d.opposite());
        }
        assert_ne!(d.resolve(None), d.opposite());
    }
}

#[test]
fn resolve_is_idempotent() {
    for d in ALL {
        for c in ['w', 'a', 's', 'd', 'x'] {
            let once = d.resolve(Some(c));
            assert_eq!(once.resolve(Some(c)), once);
        }
    }
}

#[test]
fn resolve_full_table() {
    let keys = ['w', 's', 'a', 'd'];
    let wanted = [Direction::Up, Direction::Down, Direction::Left, Direction::Right];
    for d in ALL {
        for i in 0..4 {
            let expected = if wanted[i] == d.opposite() { d } else { wanted[i] };
            assert_eq!(d.resolve(Some(keys[i])), expected);
        }
    }
}

#[test]
fn displace_moves_one_unit() {
    assert_eq!(Direction::Up.displace((4, 7)), (4, 6));
    assert_eq!(Direction::Down.displace((4, 7)), (4, 8));
    assert_eq!(Direction::Left.displace((4, 7)), (3, 7));
    assert_eq!(Direction::Right.displace((4, 7)), (5, 7));
}

#[test]
fn displace_wraps_at_the_ends_of_the_range() {
    assert_eq!(Direction::Up.displace((3, 0)), (3, u16::MAX));
    assert_eq!(Direction::Left.displace((0, 3)), (u16::MAX, 3));
    assert_eq!(Direction::Down.displace((3, u16::MAX)), (3, 0));
    assert_eq!(Direction::Right.displace((u16::MAX, 3)), (0, 3));
}

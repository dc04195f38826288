use terrain_generation::gui::{Arg, State};

#[test]
fn state_holds_its_value() {
    let state: State<u64> = State::new(7);
    assert_eq!(*state.get(), 7);
}

#[test]
fn state_set_replaces_the_value() {
    let mut state: State<[u8; 3]> = State::new([1, 2, 3]);
    state.set([4, 5, 6]);
    assert_eq!(*state.get(), [4, 5, 6]);
}

#[test]
fn arg_carries_a_plain_value() {
    let arg: Arg<u32> = Arg::Value(11);
    match arg {
        Arg::Value(value) => assert_eq!(value, 11),
        Arg::State(_) => panic!("expected a plain value"),
    }
}

#[test]
fn arg_carries_a_state_cell() {
    let arg: Arg<u32> = Arg::State(State::new(13));
    match arg {
        Arg::Value(_) => panic!("expected a state cell"),
        Arg::State(state) => assert_eq!(*state.get(), 13),
    }
}

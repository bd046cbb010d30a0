use tui_scheduler::nav::Event;
use tui_scheduler::nav::Key;
use tui_scheduler::nav::MenuItem;
use tui_scheduler::nav::NavState;

#[test]
fn new_starts_at_first_entry() {
    let st = NavState::new(4).unwrap();
    assert_eq!(st.index, 0);
    assert_eq!(st.count, 4);
    assert!(matches!(st.menu, MenuItem::Entries));
}

#[test]
fn new_refuses_empty_collection() {
    assert!(NavState::new(0).is_none());
}

#[test]
fn down_advances_and_wraps() {
    let mut st = NavState::new(3).unwrap();
    st.down();
    assert_eq!(st.index, 1);
    st.down();
    assert_eq!(st.index, 2);
    st.down();
    assert_eq!(st.index, 0);
}

#[test]
fn up_from_first_wraps_to_last() {
    let mut st = NavState::new(5).unwrap();
    st.up();
    assert_eq!(st.index, 4);
}

#[test]
fn down_from_last_wraps_to_first() {
    let mut st = NavState::new(5).unwrap();
    for _ in 0..4 {
        st.down();
    }
    assert_eq!(st.index, 4);
    st.down();
    assert_eq!(st.index, 0);
}

#[test]
fn n_downs_complete_a_full_cycle() {
    for n in 1..10usize {
        let mut st = NavState::new(n).unwrap();
        for _ in 0..n {
            st.down();
        }
        assert_eq!(st.index, 0);
    }
}

#[test]
fn step_dispatches_each_event_kind() {
    let mut st = NavState::new(2).unwrap();
    assert!(!st.step(Event::Input(Key::Down)));
    assert_eq!(st.index, 1);
    assert!(!st.step(Event::Input(Key::Up)));
    assert_eq!(st.index, 0);
    assert!(!st.step(Event::Input(Key::SwitchView)));
    assert_eq!(st.index, 0);
    assert!(matches!(st.menu, MenuItem::Entries));
    assert!(!st.step(Event::Input(Key::Other)));
    assert_eq!(st.index, 0);
    assert!(!st.step(Event::Tick));
    assert_eq!(st.index, 0);
    assert!(st.step(Event::Input(Key::Quit)));
    assert_eq!(st.index, 0);
    assert_eq!(st.count, 2);
}

#[test]
fn singleton_collection_never_moves() {
    let mut st = NavState::new(1).unwrap();
    st.down();
    assert_eq!(st.index, 0);
    st.up();
    assert_eq!(st.index, 0);
}

#[test]
fn menu_item_tab_position() {
    assert_eq!(usize::from(MenuItem::Entries), 1);
}

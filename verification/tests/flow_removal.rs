use torrent_assistant::removal;
use torrent_assistant::removal::{Action, End, Event, MagnetLookup, Notice, ServerLookup, State};

#[test]
fn removal_is_not_retried() {
    let mut state = removal::start();
    let mut actions = vec![];
    for event in [
        Event::Payload { well_formed: true },
        Event::User { known: true },
        Event::Task { known: true },
        Event::Servers(ServerLookup::Found),
        Event::Magnet(MagnetLookup::Found),
        Event::Daemon { removed: false },
    ] {
        assert!(removal::accepts(state, event));
        let (next, action) = removal::step(state, event);
        state = next;
        actions.push(action);
    }
    assert_eq!(actions[4], Action::RemoveTorrent);
    assert_eq!(actions[5], Action::Finish(End::NotRemoved));
    assert_eq!(state, State::Finished);
    assert!(!removal::accepts(state, Event::Daemon { removed: true }));
    assert_eq!(
        removal::step(State::AwaitDaemon, Event::Daemon { removed: true }),
        (State::AwaitSent(Notice::Removed), Action::Send(Notice::Removed))
    );
    assert_eq!(
        removal::step(State::AwaitSent(Notice::Removed), Event::Sent),
        (State::Finished, Action::Finish(End::Handled))
    );
    assert!(!removal::accepts(State::AwaitTask, Event::Task { known: false }));
}

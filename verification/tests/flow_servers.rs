use torrent_assistant::servers;
use torrent_assistant::servers::{Action, End, Event, Notice, State};

#[test]
fn registration_stores_only_a_daemon_that_answers() {
    let mut state = servers::start();
    let mut actions = vec![];
    for event in [
        Event::Read { well_formed: true },
        Event::Probed { reachable: true },
        Event::Saved,
        Event::Sent,
        Event::Left,
    ] {
        assert!(servers::accepts(state, event));
        let (next, action) = servers::step(state, event);
        state = next;
        actions.push(action);
    }
    assert_eq!(
        actions,
        vec![Action::Probe, Action::Save, Action::Send(Notice::Done), Action::Leave, Action::Finish(End::Handled)]
    );
    assert_eq!(
        servers::step(State::Probing, Event::Probed { reachable: false }),
        (State::AwaitSent(Notice::Unreachable), Action::Send(Notice::Unreachable))
    );
    assert_eq!(
        servers::step(State::AwaitSent(Notice::Unreachable), Event::Sent),
        (State::Prompting { leave_if_free: false }, Action::Prompt)
    );
    assert_eq!(
        servers::step(State::Prompting { leave_if_free: false }, Event::Prompted { free: true }),
        (State::Finished, Action::Finish(End::Handled))
    );
    assert_eq!(
        servers::step(State::Reading, Event::Read { well_formed: false }),
        (State::AwaitSent(Notice::IncorrectFormat), Action::Send(Notice::IncorrectFormat))
    );
    assert_eq!(
        servers::step(State::Prompting { leave_if_free: true }, Event::Prompted { free: true }),
        (State::Leaving, Action::Leave)
    );
    assert_eq!(
        servers::step(State::Prompting { leave_if_free: true }, Event::Prompted { free: false }),
        (State::Finished, Action::Finish(End::Handled))
    );
}

use torrent_assistant::submit;
use torrent_assistant::submit::{Action, DaemonAnswer, End, Event, Notice, ServerLookup, State};

fn run_submit(events: &[submit::Event]) -> Vec<submit::Action> {
    let mut state = submit::start();
    let mut actions = vec![];
    for event in events {
        assert!(submit::accepts(state, *event), "{:?} does not expect {:?}", state, event);
        let (next, action) = submit::step(state, *event);
        state = next;
        actions.push(action);
    }
    actions
}

#[test]
fn accepted_torrent_stores_exactly_one_task() {
    let actions = run_submit(&[
        Event::Payload { well_formed: true },
        Event::User { known: true },
        Event::Magnet { known: true },
        Event::Directory { known: true },
        Event::Servers(ServerLookup::Found),
        Event::Daemon(DaemonAnswer::Added),
        Event::TaskCreated,
        Event::Sent,
    ]);
    assert_eq!(
        actions,
        vec![
            Action::LoadUser,
            Action::LoadMagnet,
            Action::LoadDirectory,
            Action::LoadServers,
            Action::AddTorrent,
            Action::CreateTask,
            Action::Send(Notice::Downloading),
            Action::Finish(End::Handled),
        ]
    );
    assert_eq!(actions.iter().filter(|a| **a == Action::CreateTask).count(), 1);
}

#[test]
fn duplicate_or_failed_torrent_stores_no_task() {
    for (answer, notice) in [(DaemonAnswer::Duplicate, Notice::Duplicate), (DaemonAnswer::Failed, Notice::UnableToAdd)] {
        let actions = run_submit(&[
            Event::Payload { well_formed: true },
            Event::User { known: true },
            Event::Magnet { known: true },
            Event::Directory { known: true },
            Event::Servers(ServerLookup::Found),
            Event::Daemon(answer),
            Event::Sent,
        ]);
        assert!(!actions.contains(&Action::CreateTask));
        assert_eq!(actions[5], Action::Send(notice));
        assert_eq!(actions[6], Action::Finish(End::Handled));
    }
}

#[test]
fn submission_stops_early_without_server_or_directory() {
    assert_eq!(
        run_submit(&[Event::Payload { well_formed: false }, Event::Sent]),
        vec![Action::Send(Notice::MessedUp), Action::Finish(End::Handled)]
    );
    let head = [
        Event::Payload { well_formed: true },
        Event::User { known: true },
        Event::Magnet { known: true },
    ];
    let mut no_directory = head.to_vec();
    no_directory.extend([Event::Directory { known: false }, Event::Servers(ServerLookup::Found), Event::Sent]);
    let actions = run_submit(&no_directory);
    assert_eq!(actions[4], Action::Send(Notice::NoDirectory));
    assert!(!actions.contains(&Action::AddTorrent));

    let mut no_server = head.to_vec();
    no_server.extend([Event::Directory { known: true }, Event::Servers(ServerLookup::Missing), Event::Failed]);
    let actions = run_submit(&no_server);
    assert_eq!(actions[4], Action::Send(Notice::NoServer));
    assert_eq!(actions[5], Action::Finish(End::Handled));

    let mut store_down = head.to_vec();
    store_down.extend([Event::Directory { known: true }, Event::Servers(ServerLookup::Failed)]);
    assert_eq!(run_submit(&store_down)[4], Action::Finish(End::Handled));

    assert_eq!(run_submit(&[Event::Payload { well_formed: true }, Event::Failed])[1], Action::Finish(End::Failed));
    assert!(!submit::accepts(State::AwaitUser, Event::User { known: false }));
    assert!(!submit::accepts(State::AwaitMagnet, Event::Magnet { known: false }));
    assert!(!submit::accepts(State::Finished, Event::Sent));
    assert!(!submit::accepts(State::Decoding, Event::Sent));
}

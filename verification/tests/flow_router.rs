use torrent_assistant::router;
use torrent_assistant::router::{Action, End, Event, Handler, State};

fn run_router(events: &[router::Event]) -> Vec<router::Action> {
    let mut stage = router::start();
    let mut actions = vec![];
    for event in events {
        assert!(router::accepts(stage, *event));
        let (next, action) = router::step(stage, *event);
        stage = next;
        actions.push(action);
    }
    actions
}

#[test]
fn router_deletes_or_hides_what_is_not_updated_in_place() {
    let (handler, keep) = router::route("download:x:1");
    let query = Event::Query { message: true, data: true, handler, keep };
    assert_eq!(
        run_router(&[query, Event::Handled { proceed: true }, Event::Deleted { done: true }, Event::Answered]),
        vec![Action::Call(Handler::StartDownload), Action::DeleteMessage, Action::Answer, Action::Finish(End::Handled)]
    );
    assert_eq!(
        run_router(&[query, Event::Handled { proceed: true }, Event::Deleted { done: false }, Event::Hidden, Event::Answered]),
        vec![
            Action::Call(Handler::StartDownload),
            Action::DeleteMessage,
            Action::HideMessage,
            Action::Answer,
            Action::Finish(End::Handled),
        ]
    );
    let (handler, keep) = router::route("t_status:x");
    let status = Event::Query { message: true, data: true, handler, keep };
    assert_eq!(
        run_router(&[status, Event::Handled { proceed: true }, Event::Answered]),
        vec![Action::Call(Handler::UpdateTaskStatus), Action::Answer, Action::Finish(End::Handled)]
    );
    assert_eq!(run_router(&[status, Event::Failed]), vec![Action::Call(Handler::UpdateTaskStatus), Action::Finish(End::Failed)]);

    let (handler, keep) = router::route("cancel");
    let unknown = Event::Query { message: true, data: true, handler, keep };
    assert_eq!(run_router(&[unknown])[0], Action::DeleteMessage);
    let silent = Event::Query { message: false, data: true, handler, keep };
    assert_eq!(run_router(&[silent]), vec![Action::Finish(End::Ignored)]);
    let empty = Event::Query { message: true, data: false, handler, keep };
    assert_eq!(run_router(&[empty]), vec![Action::Finish(End::Ignored)]);

    let (handler, keep) = router::route("Register server 🧰+");
    let register = Event::Query { message: true, data: true, handler, keep };
    assert_eq!(
        run_router(&[register, Event::Handled { proceed: true }, Event::Entered])[1..],
        [Action::Enter(State::RegisterServer), Action::DeleteMessage]
    );
    assert_eq!(run_router(&[register, Event::Handled { proceed: false }])[1], Action::DeleteMessage);
    let (handler, keep) = router::route("Add Directory 📂+");
    let add = Event::Query { message: true, data: true, handler, keep };
    assert_eq!(run_router(&[add, Event::Handled { proceed: false }])[1], Action::Enter(State::AddDirectory));
    assert_eq!(State::default(), State::Start);
}

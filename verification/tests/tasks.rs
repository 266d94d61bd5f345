use torrent_assistant::intake::Refusal;
use torrent_assistant::magnet::MagnetLink;
use torrent_assistant::models::DownloadDirectory;
use torrent_assistant::payload::{decode, Callback};
use torrent_assistant::refs::Ref;
use torrent_assistant::tasks::{
    accepted_task, add_request, downloading_reply, duplicate_reply, messed_up_reply, no_directory_reply, no_server_reply,
    no_task_error, not_on_server_reply, offer_reply, progress_reply, registration, removal_error,
    removed_reply, refresh_button, refusal_error, refusal_reply, status_at, torrent_status, unable_to_add_reply, unreadable_error, unreadable_reply,
    update_task_status_button, Operation, Torrent,
};
use torrent_assistant::ui::{hide_message_button, Button, Render};

const ID: u128 = 0xa1a2a3a4b1b2c1c2d1d2d3d4d5d6d7d8;

fn torrent(percent_done: Option<f32>) -> Torrent {
    Torrent {
        name: Some("ubuntu.iso".to_owned()),
        percent: percent_done.map(|p| (p * 100.0) as i32),
        complete: percent_done == Some(1.0_f32),
    }
}

fn button(label: &str, payload: &str) -> Button {
    Button { label: label.to_owned(), payload: payload.to_owned() }
}

#[test]
fn progress_of_42_percent_fills_four_segments() {
    let status = status_at(&torrent(Some(0.42)), "01.02.2024 03:04:05");
    assert_eq!(status, "❇️❇️❇️❇️◻️◻️◻️◻️◻️◻️[42%]\nUpdated at: 01.02.2024 03:04:05");
    assert_eq!(status.matches("❇️").count(), 4);
    assert_eq!(status.matches("◻️").count(), 6);
    assert!(status.contains("42%"));
}

#[test]
fn progress_bar_at_its_ends() {
    assert_eq!(status_at(&torrent(Some(0.0)), "t"), "◻️◻️◻️◻️◻️◻️◻️◻️◻️◻️[0%]\nUpdated at: t");
    assert_eq!(status_at(&torrent(Some(0.099)), "t"), "◻️◻️◻️◻️◻️◻️◻️◻️◻️◻️[9%]\nUpdated at: t");
    assert_eq!(status_at(&torrent(Some(0.1)), "t"), "❇️◻️◻️◻️◻️◻️◻️◻️◻️◻️[10%]\nUpdated at: t");
    assert_eq!(status_at(&torrent(Some(0.999)), "t"), "❇️❇️❇️❇️❇️❇️❇️❇️❇️◻️[99%]\nUpdated at: t");
    assert_eq!(status_at(&torrent(Some(1.0)), "t"), "❇️❇️❇️❇️❇️❇️❇️❇️❇️❇️[100%]\nUpdated at: t");
    assert_eq!(status_at(&torrent(None), "t"), "");
}

#[test]
fn progress_bar_outside_the_usual_range() {
    let odd = |percent: i32| Torrent { name: None, percent: Some(percent), complete: false };
    let filled = |s: &str| s.matches("❇️").count();
    let empty = |s: &str| s.matches("◻️").count();
    for percent in [-2147483648, -25, -10, -9, -1, 105, 110, 250] {
        let line = status_at(&odd(percent), "t");
        let expected_filled = (0..percent / 10).count();
        let expected_empty = (percent / 10..10).count();
        assert_eq!(filled(&line), expected_filled, "filled at {}", percent);
        assert_eq!(empty(&line), expected_empty, "empty at {}", percent);
        assert!(line.ends_with(&format!("[{}%]\nUpdated at: t", percent)));
    }
}

#[test]
fn status_read_now_carries_a_time() {
    let status = torrent_status(&torrent(Some(0.5)));
    assert!(status.starts_with("❇️❇️❇️❇️❇️◻️◻️◻️◻️◻️[50%]\nUpdated at: "));
    let time = &status["❇️❇️❇️❇️❇️◻️◻️◻️◻️◻️[50%]\nUpdated at: ".len()..];
    assert_eq!(time.len(), "01.02.2024 03:04:05".len());
    assert_eq!(torrent_status(&torrent(None)), "");
}

#[test]
fn complete_download_offers_removal_and_hiding() {
    let task = Ref { value: ID };
    let done = update_task_status_button(&task, &torrent(Some(1.0)));
    assert_eq!(
        done,
        vec![
            vec![button("Delete torrent ❌", "t_remove:a1a2a3a4-b1b2-c1c2-d1d2-d3d4d5d6d7d8")],
            vec![button("Hide 🙈", "Hide 🙈")],
        ]
    );
    let running = update_task_status_button(&task, &torrent(Some(0.42)));
    assert_eq!(
        running,
        vec![vec![button("Update task status 👀", "t_status:a1a2a3a4-b1b2-c1c2-d1d2-d3d4d5d6d7d8")]]
    );
    let unknown = update_task_status_button(&task, &torrent(None));
    assert_eq!(unknown.len(), 1);
    assert_eq!(hide_message_button(), vec![vec![button("Hide 🙈", "Hide 🙈")]]);
}

fn directory(alias: &str, ordinal: i32) -> DownloadDirectory {
    DownloadDirectory {
        id: Ref { value: ordinal as u128 },
        user_id: 1,
        alias: alias.to_owned(),
        path: format!("/data/{}", alias),
        ordinal,
        created_at: 0,
    }
}

#[test]
fn offer_has_one_button_for_each_directory() {
    let magnet = Ref { value: ID };
    let dirs = vec![directory("films", 1), directory("music", 2), directory("misc", 4)];
    let reply = offer_reply("ubuntu.iso", &magnet, &dirs);
    assert_eq!(reply.render, Render::Send);
    assert_eq!(reply.text, "ubuntu.iso\nChoose directory to download");
    assert_eq!(reply.keyboard.len(), 4);
    assert_eq!(reply.keyboard[0], vec![button("films", "download:a1a2a3a4-b1b2-c1c2-d1d2-d3d4d5d6d7d8:1")]);
    assert_eq!(reply.keyboard[2], vec![button("misc", "download:a1a2a3a4-b1b2-c1c2-d1d2-d3d4d5d6d7d8:4")]);
    assert_eq!(reply.keyboard[3], vec![button("-- Cancel --", "cancel")]);
    for (row, dir) in reply.keyboard.iter().zip(dirs.iter()) {
        assert!(row[0].payload.len() <= 64);
        assert_eq!(decode(&row[0].payload), Ok(Callback::Download { magnet, ordinal: dir.ordinal }));
    }
    let none = offer_reply("n", &magnet, &vec![]);
    assert_eq!(none.keyboard, vec![vec![button("-- Cancel --", "cancel")]]);
}

#[test]
fn replies_have_their_texts_and_buttons() {
    let task = Ref { value: ID };
    assert_eq!(messed_up_reply(Operation::Submit).text, "We messed up. Can't start downloading :(");
    assert_eq!(messed_up_reply(Operation::Poll).text, "We messed up. Can't check the status :(");
    assert_eq!(messed_up_reply(Operation::Remove).text, "We messed up. Can't remove the task :(");
    assert!(messed_up_reply(Operation::Poll).keyboard.is_empty());

    let no_server = no_server_reply();
    assert_eq!(no_server.text, "No Servers found! Please register one first!");
    assert_eq!(no_server.keyboard, vec![vec![button("Register server 🧰+", "Register server 🧰+")]]);
    let no_directory = no_directory_reply();
    assert_eq!(no_directory.text, "No Directories found! Please add one first!");
    assert_eq!(no_directory.keyboard, vec![vec![button("Add Directory 📂+", "Add Directory 📂+")]]);

    assert_eq!(unreadable_reply().text, "Sorry. Couldn't handle this magnet. Try later :(");
    assert_eq!(unreadable_error("hello").message(), "Couldn't parse magnet from text: hello");

    let started = downloading_reply("ubuntu.iso", "films", &task);
    assert_eq!(started.render, Render::Send);
    assert_eq!(started.text, "Downloading ubuntu.iso\nto films");
    assert_eq!(
        started.keyboard,
        vec![vec![button("Update task status 👀", "t_status:a1a2a3a4-b1b2-c1c2-d1d2-d3d4d5d6d7d8")]]
    );
    assert_eq!(started.keyboard, refresh_button(&task));
    assert_eq!(duplicate_reply().text, "Such task already exists");
    assert_eq!(unable_to_add_reply().text, "Unable to add task");

    let progress = progress_reply(&task, &torrent(Some(0.42)), "e249", "now");
    assert_eq!(progress.render, Render::Edit);
    assert_eq!(progress.text, "Downloading ubuntu.iso\n❇️❇️❇️❇️◻️◻️◻️◻️◻️◻️[42%]\nUpdated at: now");
    let nameless = Torrent { name: None, percent: None, complete: false };
    assert_eq!(progress_reply(&task, &nameless, "e249", "now").text, "Downloading e249\n");
    let complete = progress_reply(&task, &torrent(Some(1.0)), "e249", "now");
    assert_eq!(complete.keyboard.len(), 2);
    assert_eq!(complete.keyboard[0][0].payload, "t_remove:a1a2a3a4-b1b2-c1c2-d1d2-d3d4d5d6d7d8");

    let removed = removed_reply("ubuntu.iso");
    assert_eq!(removed.render, Render::Edit);
    assert_eq!(removed.text, "Torrent\nubuntu.iso\nwas removed");
    assert_eq!(removed.keyboard, hide_message_button());
    let missing = not_on_server_reply("e249");
    assert_eq!(missing.text, "e249\nTorrent was not found on the server!");
    assert!(missing.keyboard.is_empty());
    assert_eq!(removal_error("ubuntu.iso").message(), "Failed to remove the torrent: ubuntu.iso");
    assert_eq!(no_task_error().message(), "No task found!");
}

#[test]
fn requests_and_records_carry_the_right_form_of_the_link() {
    let link = MagnetLink {
        xt: "urn:btih:c0ffee".to_owned(),
        tr: vec!["http://t/a".to_owned()],
        dn: "the name".to_owned(),
    };
    let request = add_request(link.clone(), &directory("films", 1));
    assert_eq!(request.filename, "magnet:?xt=urn:btih:c0ffee&tr=http%3A%2F%2Ft%2Fa");
    assert_eq!(request.download_dir, "/data/films");
    let record = registration(9, link);
    assert_eq!(record.user_id, 9);
    assert_eq!(record.url, "magnet:?dn=the+name&xt=urn:btih:c0ffee&tr=http%3A%2F%2Ft%2Fa");
    let task = accepted_task(9, Ref { value: 1 }, Ref { value: 2 });
    assert_eq!((task.user_id, task.server_id.value, task.magnet_id.value), (9, 1, 2));
    assert_eq!(task.status, "created");
    assert!(task.description.is_none());
}

#[test]
fn refused_intake_fails_with_a_logic_error() {
    assert_eq!(
        refusal_error(Refusal::Unreadable, "hello").message(),
        "Couldn't parse magnet from text: hello"
    );
    assert_eq!(
        refusal_error(Refusal::NoServer, "magnet:?xt=urn:btih:aa").message(),
        "No Servers found! Please register one first!"
    );
    assert_eq!(
        refusal_error(Refusal::NoDirectory, "magnet:?xt=urn:btih:aa").message(),
        "No Directories found! Please add one first!"
    );
    assert_eq!(refusal_reply(Refusal::Unreadable), unreadable_reply());
    assert_eq!(refusal_reply(Refusal::NoServer), no_server_reply());
    assert_eq!(refusal_reply(Refusal::NoDirectory), no_directory_reply());
    assert_eq!(refusal_reply(Refusal::NoServer).keyboard.len(), 1);
    assert_eq!(refusal_reply(Refusal::NoDirectory).keyboard[0].len(), 1);
}

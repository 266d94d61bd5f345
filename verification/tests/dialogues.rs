use torrent_assistant::commands::{
    new_user, settings_buttons, settings_menu, sharing_menu, welcome, Arrival, Command,
};
use torrent_assistant::flaresolver::{Flaresolver, FlaresolverRequest, FlaresolverResponse, FlaresolverSolution};
use torrent_assistant::friends::{
    confirm_buttons, confirm_payload, friends_buttons, manage_buttons, manage_payload, unfriend_payload,
    FriendEntry,
};
use torrent_assistant::magnet::MagnetLink;
use torrent_assistant::messages::{
    after_fetch, after_intake, befriend, classify, forum_message, proposed_friend, AfterIntake,
    Befriend, Fetch, Forward, ForumStep, Incoming, NoFriend,
};
use torrent_assistant::payload::{decode, Callback};
use torrent_assistant::rutracker::find_magnet;
use torrent_assistant::servers::{incorrect_format, read_server, register_prompt, stats_reply, ServerStats};
use torrent_assistant::ui::Render;

#[test]
fn server_form_takes_one_or_three_lines() {
    let bare = read_server(5, "http://Host:9091/transmission/web/").unwrap();
    assert_eq!(bare.user_id, 5);
    assert_eq!(bare.url, "http://host:9091");
    assert!(bare.auth().is_none());
    let full = read_server(5, "http://host:9091/transmission/web\nuser\npass word\n").unwrap();
    assert_eq!(full.url, "http://host:9091");
    assert_eq!(full.username.as_deref(), Some("user"));
    assert_eq!(full.password.as_deref(), Some("pass word"));
    assert_eq!(read_server(5, "a\nb").unwrap_err(), 2);
    assert_eq!(read_server(5, "").unwrap_err(), 0);
    assert_eq!(read_server(5, "a\nb\nc\nd").unwrap_err(), 4);
    assert_eq!(incorrect_format(2), "Incorrect format. Found 2 lines");
    assert_eq!(incorrect_format(0), "Incorrect format. Found 0 lines");
}

#[test]
fn only_one_server_is_registered_for_an_owner() {
    let (reply, free) = register_prompt(0);
    assert!(free);
    assert!(reply.text.starts_with("Enter server details in the format:\n"));
    let (reply, free) = register_prompt(1);
    assert!(!free);
    assert_eq!(reply.text, "There is already a server registered!");
    assert!(!register_prompt(2).1);
}

#[test]
fn statistics_show_the_server_and_its_state() {
    let up = stats_reply(&Some(ServerStats { base_url: "http://h".to_owned(), tasks: 12, reachable: true }));
    assert_eq!(up.text, "Downloads for server:\n<b>http://h</b>: <i>12</i>\nServer status: 👍");
    assert_eq!(up.keyboard.len(), 3);
    assert_eq!(up.keyboard[0][0].label, "Register server 🧰+");
    assert_eq!(up.keyboard[1][0].label, "Reset Servers 🧰❌");
    assert_eq!(up.keyboard[2][0].label, "Back to settings ⬅️");
    let down = stats_reply(&Some(ServerStats { base_url: "http://h".to_owned(), tasks: 0, reachable: false }));
    assert_eq!(down.text, "Downloads for server:\n<b>http://h</b>: <i>0</i>\nServer status: 👎");
    assert_eq!(stats_reply(&None).text, "Downloads for server:\nNothing yet :(");
}

#[test]
fn messages_are_classified() {
    assert_eq!(classify(Some(Some("linux.torrent")), Some("magnet:?x")), Incoming::TorrentFile);
    assert_eq!(classify(Some(Some(".torrent")), None), Incoming::TorrentFile);
    assert_eq!(classify(Some(Some("torrent")), None), Incoming::OtherFile);
    assert_eq!(classify(Some(Some("linux.torrent.zip")), None), Incoming::OtherFile);
    assert_eq!(classify(Some(None), Some("magnet:?x")), Incoming::NamelessFile);
    assert_eq!(classify(None, Some("look: magnet:?xt=urn:btih:aa")), Incoming::Magnet);
    assert_eq!(classify(None, Some("magnet:")), Incoming::Magnet);
    assert_eq!(
        classify(None, Some("https://rutracker.org/forum/viewtopic.php?t=5956127")),
        Incoming::ForumLink
    );
    assert_eq!(
        classify(None, Some("https://rutracker.org/forum/viewtopic.php?t=1 magnet:?xt=urn:btih:aa")),
        Incoming::Magnet
    );
    assert_eq!(classify(None, Some(" https://rutracker.org/forum/viewtopic.php?t=1")), Incoming::Unknown);
    assert_eq!(classify(None, Some("hello")), Incoming::Unknown);
    assert_eq!(classify(None, Some("magnet")), Incoming::Unknown);
    assert_eq!(classify(None, Some("")), Incoming::Unknown);
    assert_eq!(classify(None, None), Incoming::Unknown);
}

#[test]
fn forum_link_leads_to_an_intake_or_a_message() {
    assert_eq!(after_fetch(Fetch::Page { magnet: true }), ForumStep::Intake);
    assert_eq!(after_fetch(Fetch::Page { magnet: false }), ForumStep::TellNoMagnet);
    assert_eq!(after_fetch(Fetch::Failed), ForumStep::TellNotFetched);
    assert_eq!(after_fetch(Fetch::NoService), ForumStep::TellNoService);
    assert_eq!(forum_message(ForumStep::TellNoService), "FLARESOLVER_URL is not set, can't parse rutracker links");
    assert_eq!(
        forum_message(ForumStep::TellNoMagnet),
        "Couldn't find a magnet on the page. Try to send the magnet manually"
    );
    assert_eq!(forum_message(ForumStep::TellNotFetched), "Couldn't fetch the link. Try to send the magnet manually");
    assert_eq!(forum_message(ForumStep::Intake), "");
}

#[test]
fn magnet_is_found_on_a_forum_page() {
    let page = "<html><body><a class=\"other\" href=\"x\">x</a>\
        <div><a class=\"magnet-link big\" href=\"magnet:?xt=urn:btih:e249&amp;tr=http%3A%2F%2Ft\">get</a></div>\
        <a class=\"magnet-link\" href=\"magnet:?xt=urn:btih:second\">second</a></body></html>";
    let magnet = find_magnet(page.to_owned()).unwrap();
    assert_eq!(magnet, "magnet:?xt=urn:btih:e249&tr=http%3A%2F%2Ft");
    let link = MagnetLink::find(&magnet).unwrap();
    assert_eq!(link.tr, vec!["http://t".to_owned()]);
    assert_eq!(link.hash(), "e249");
    assert_eq!(find_magnet("<a class=\"magnet-link\">no address</a>".to_owned()), None);
    assert_eq!(find_magnet("<p class=\"magnet-link\" href=\"magnet:?x\">not a link</p>".to_owned()), None);
    assert_eq!(find_magnet("".to_owned()), None);
}

#[test]
fn page_is_taken_only_from_a_successful_answer() {
    let request = FlaresolverRequest::get("https://forum/topic".to_owned());
    assert_eq!(request.cmd, "request.get");
    assert_eq!(request.url, "https://forum/topic");
    assert_eq!(request.max_timeout, 60000);
    assert_eq!(Flaresolver::new("http://solver/v1".to_owned()).endpoint(), "http://solver/v1");
    let answer = |status: &str| FlaresolverResponse {
        status: status.to_owned(),
        solution: FlaresolverSolution { response: "<html/>".to_owned() },
    };
    assert_eq!(Flaresolver::page_of(answer("ok")), Some("<html/>".to_owned()));
    assert_eq!(Flaresolver::page_of(answer("error")), None);
    assert_eq!(Flaresolver::page_of(answer("OK")), None);
    assert_eq!(Flaresolver::page_of(answer("")), None);
}

#[test]
fn forwarded_message_proposes_a_friend() {
    assert_eq!(proposed_friend(Forward::Missing, 1, 2), Err(NoFriend::NotForwarded));
    assert_eq!(proposed_friend(Forward::NotUser, 1, 2), Err(NoFriend::NotPersonal));
    assert_eq!(proposed_friend(Forward::User(1), 1, 2), Err(NoFriend::Assistant));
    assert_eq!(proposed_friend(Forward::User(2), 1, 2), Err(NoFriend::Oneself));
    assert_eq!(proposed_friend(Forward::User(1), 1, 1), Err(NoFriend::Assistant));
    assert_eq!(proposed_friend(Forward::User(3), 1, 2), Ok(3));
    assert_eq!(befriend(false, false), Befriend::Stranger);
    assert_eq!(befriend(false, true), Befriend::Stranger);
    assert_eq!(befriend(true, true), Befriend::Already);
    assert_eq!(befriend(true, false), Befriend::Add);
}

#[test]
fn friends_are_listed_two_to_a_row() {
    let entry = |id: i64| FriendEntry { id, username: format!("user{}", id) };
    let rows = friends_buttons(&vec![entry(1), entry(2), entry(3)]);
    assert_eq!(rows.len(), 2);
    assert_eq!(rows[0].len(), 2);
    assert_eq!(rows[1].len(), 1);
    assert_eq!(rows[0][1].label, "user2");
    assert_eq!(rows[1][0].payload, "manage_friend:3");
    assert_eq!(decode(&rows[1][0].payload), Ok(Callback::ManageFriend { friend: 3 }));
    assert!(friends_buttons(&vec![]).is_empty());
    assert_eq!(friends_buttons(&vec![entry(1), entry(2)]).len(), 1);
    assert_eq!(friends_buttons(&vec![entry(-9)])[0][0].payload, "manage_friend:-9");
    assert_eq!(manage_payload(12), "manage_friend:12");
    assert_eq!(unfriend_payload(12), "unfriend:12");
    assert_eq!(confirm_payload("unfriend:12"), "confirm_unfriend:12");
    assert_eq!(decode(&confirm_payload(&unfriend_payload(12))), Ok(Callback::ConfirmUnfriend { friend: 12 }));
}

#[test]
fn commands_and_settings() {
    assert_eq!(Command::AddFriend.name(), "add_friend");
    assert_eq!(Command::ServerSharing.name(), "server_sharing");
    assert_eq!(Command::Help.description(), "display this text.");
    let menu = settings_menu(Render::Edit);
    assert_eq!(menu.render, Render::Edit);
    assert_eq!(menu.text, "Settings ⚙️");
    assert_eq!(menu.keyboard, settings_buttons());
    assert_eq!(menu.keyboard[0][0].label, "List Directories 📂");
    assert_eq!(menu.keyboard[1][0].payload, "Server stats 👀");
    assert_eq!(welcome(Arrival::Known, "Ann"), "Welcome back, Ann");
    assert_eq!(welcome(Arrival::Registered, "Ann"), "Welcome, Ann");
    assert_eq!(welcome(Arrival::NotSaved, "no connection"), "Unable to save user: no connection");
    assert_eq!(welcome(Arrival::Anonymous, "ignored"), "Unable to register user");
    let user = new_user(77, -5, "Ann".to_owned(), None, Some("ann".to_owned()));
    assert_eq!((user.id, user.chat), (77, -5));
    assert_eq!(user.first_name, "Ann");
    assert_eq!(user.username.as_deref(), Some("ann"));
    assert_eq!(user.salt.len(), 16);
}

#[test]
fn friend_is_managed_by_two_buttons() {
    let rows = manage_buttons(12);
    assert_eq!(rows.len(), 2);
    assert_eq!((rows[0][0].label.as_str(), rows[0][0].payload.as_str()), ("Unfriend", "unfriend:12"));
    assert_eq!((rows[1][0].label.as_str(), rows[1][0].payload.as_str()), ("Hide 🙈", "Hide 🙈"));
    let answers = confirm_buttons("unfriend:12");
    assert_eq!(answers.len(), 3);
    assert_eq!((answers[0][0].label.as_str(), answers[0][0].payload.as_str()), ("Yes", "confirm_unfriend:12"));
    assert_eq!((answers[1][0].label.as_str(), answers[1][0].payload.as_str()), ("No", "-"));
    assert_eq!((answers[2][0].label.as_str(), answers[2][0].payload.as_str()), ("Also No", "-"));
}

#[test]
fn sharing_menu_has_four_buttons() {
    let menu = sharing_menu();
    assert_eq!(menu.text, "Manage Server sharing:");
    let labels: Vec<&str> = menu.keyboard.iter().map(|row| row[0].label.as_str()).collect();
    assert_eq!(labels, vec!["Share a server", "Un-share a server", "Reset Servers Sharing❌", "Hide 🙈"]);
    assert!(menu.keyboard.iter().all(|row| row.len() == 1 && row[0].label == row[0].payload));
}

#[test]
fn original_message_is_deleted_only_after_an_offer() {
    assert_eq!(after_intake(true), AfterIntake::DeleteOriginal);
    assert_eq!(after_intake(false), AfterIntake::Keep);
}

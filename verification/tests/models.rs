use torrent_assistant::crypto::{Crypto, CryptoErrorKind};
use torrent_assistant::db_config::DbConfig;
use torrent_assistant::directories::{added_reply, list_reply, new_directory, read_directory};
use torrent_assistant::errors::{BotError, BotErrorKind, DbError, DbErrorKind};
use torrent_assistant::models::{
    next_ordinal, Authentication, DownloadDirectory, DownloadTask, NewDownloadDirectory,
    NewDownloadTask, NewMagnet, NewServer, Server, TaskStatus,
};
use torrent_assistant::refs::Ref;

fn directory(ordinal: i32) -> DownloadDirectory {
    DownloadDirectory {
        id: Ref { value: ordinal as u128 },
        user_id: 7,
        alias: format!("dir{}", ordinal),
        path: format!("/data/{}", ordinal),
        ordinal,
        created_at: 0,
    }
}

#[test]
fn next_ordinal_is_one_more_than_the_largest() {
    assert_eq!(next_ordinal(&vec![1, 2, 4]), Some(5));
    assert_eq!(next_ordinal(&vec![]), Some(1));
    assert_eq!(next_ordinal(&vec![4, 1, 2]), Some(5));
    assert_eq!(next_ordinal(&vec![3, 3]), Some(4));
    assert_eq!(next_ordinal(&vec![-5]), Some(-4));
    assert_eq!(next_ordinal(&vec![-9, -5, -7]), Some(-4));
    assert_eq!(next_ordinal(&vec![-1]), Some(0));
    assert_eq!(next_ordinal(&vec![0]), Some(1));
    assert_eq!(next_ordinal(&vec![i32::MIN]), Some(i32::MIN + 1));
    assert_eq!(next_ordinal(&vec![i32::MAX - 1]), Some(i32::MAX));
    assert_eq!(next_ordinal(&vec![1, i32::MAX]), None);
}

#[test]
fn new_directory_takes_the_next_ordinal_of_its_owner() {
    let existing = vec![directory(1), directory(2), directory(4)];
    let dir = new_directory(7, "films".to_owned(), "/films".to_owned(), &existing).unwrap();
    assert_eq!(dir.ordinal, 5);
    assert_eq!(dir.user_id, 7);
    assert_eq!(dir.alias, "films");
    assert_eq!(dir.path, "/films");
    let first = new_directory(8, "a".to_owned(), "/a".to_owned(), &vec![]).unwrap();
    assert_eq!(first.ordinal, 1);
    assert_ne!(first.id, dir.id);
    assert!(new_directory(7, "a".to_owned(), "/a".to_owned(), &vec![directory(i32::MAX)]).is_none());
    let below = new_directory(7, "a".to_owned(), "/a".to_owned(), &vec![directory(-5), directory(-8)]).unwrap();
    assert_eq!(below.ordinal, -4);
}

#[test]
fn directory_form_takes_two_lines() {
    assert_eq!(read_directory("films\n/data/films"), Ok(("films".to_owned(), "/data/films".to_owned())));
    assert_eq!(read_directory("films\r\n/data/films\n"), Ok(("films".to_owned(), "/data/films".to_owned())));
    assert_eq!(read_directory("films"), Err(1));
    assert_eq!(read_directory(""), Err(0));
    assert_eq!(read_directory("a\nb\nc"), Err(3));
}

#[test]
fn directories_are_listed_one_to_a_line() {
    let reply = list_reply(&vec![directory(1), directory(2)]);
    assert_eq!(reply.text, "<b>dir1</b>: /data/1\n<b>dir2</b>: /data/2");
    assert_eq!(reply.keyboard.len(), 2);
    assert_eq!(reply.keyboard[0][0].label, "Add Directory 📂+");
    assert_eq!(reply.keyboard[1][0].payload, "Reset Directories 📂❌");
    assert_eq!(list_reply(&vec![directory(3)]).text, "<b>dir3</b>: /data/3");
    assert_eq!(list_reply(&vec![]).text, "There are no registered directories yet");
    let added = added_reply();
    assert_eq!(added.text, "Done!");
    assert_eq!(added.keyboard.len(), 3);
    assert_eq!(added.keyboard[2][0].label, "Back to settings ⬅️");
}

#[test]
fn task_status_has_four_texts() {
    for (status, text) in [
        (TaskStatus::Created, "created"),
        (TaskStatus::Started, "started"),
        (TaskStatus::Finished, "finished"),
        (TaskStatus::Error, "error"),
    ] {
        assert_eq!(status.to_string(), text);
        assert_eq!(TaskStatus::from(text.to_owned()), status);
        assert_eq!(TaskStatus::parse(&text.to_owned()), Some(status));
    }
    assert_eq!(TaskStatus::parse(&"Created".to_owned()), None);
    assert_eq!(TaskStatus::parse(&"".to_owned()), None);
    let task = DownloadTask {
        id: Ref { value: 1 },
        user_id: 1,
        server_id: Ref { value: 2 },
        magnet_id: Ref { value: 3 },
        status: "created".to_owned(),
        description: None,
        created_at: 0,
    };
    assert_eq!(task.status(), TaskStatus::Created);
}

#[test]
fn new_records_keep_what_they_are_given() {
    let task = NewDownloadTask::new(1, Ref { value: 2 }, Ref { value: 3 }, TaskStatus::Created.to_string(), None);
    assert_eq!((task.user_id, task.server_id.value, task.magnet_id.value), (1, 2, 3));
    assert_eq!(task.status, "created");
    assert_eq!(task.description, None);
    let magnet = NewMagnet::new(9, "magnet:?xt=urn:btih:aa".to_owned());
    assert_eq!(magnet.user_id, 9);
    assert_eq!(magnet.url, "magnet:?xt=urn:btih:aa");
    assert_ne!(magnet.id, NewMagnet::new(9, "x".to_owned()).id);
    let dir = NewDownloadDirectory::new(1, "a".to_owned(), "/a".to_owned(), 3);
    assert_eq!((dir.user_id, dir.ordinal), (1, 3));
}

#[test]
fn server_has_a_credential_only_with_both_parts() {
    let auth = Authentication { username: "u".to_owned(), password: "p".to_owned() };
    let with = NewServer::new(5, "http://h".to_owned(), Some(auth));
    assert_eq!(with.user_id, 5);
    assert_eq!(with.url().get_base_url(), "http://h");
    let credential = with.auth().unwrap();
    assert_eq!((credential.username.as_str(), credential.password.as_str()), ("u", "p"));
    let without = NewServer::new(5, "http://h".to_owned(), None);
    assert!(without.auth().is_none());
    let half = Server {
        id: Ref { value: 1 },
        user_id: 5,
        url: "http://h".to_owned(),
        username: Some("u".to_owned()),
        password: None,
        created_at: 0,
    };
    assert!(half.auth().is_none());
    assert_eq!(half.url().rpc_address(), "http://h/transmission/rpc");
}

#[test]
fn stored_password_is_decrypted_on_read() {
    let crypto = Crypto::new("0123456789abcdef0123456789abcdef".to_owned(), "0123456789abcdef".to_owned()).unwrap();
    let stored = Server {
        id: Ref { value: 1 },
        user_id: 5,
        url: "http://h".to_owned(),
        username: Some("u".to_owned()),
        password: Some(crypto.encrypt(&"secret".to_owned())),
        created_at: 12,
    };
    assert_ne!(stored.password.as_deref(), Some("secret"));
    let opened = stored.decrypt(&crypto);
    assert_eq!(opened.password.as_deref(), Some("secret"));
    assert_eq!(opened.username.as_deref(), Some("u"));
    assert_eq!((opened.id, opened.user_id, opened.url.as_str(), opened.created_at), (stored.id, 5, "http://h", 12));
    assert_eq!(stored.try_decrypt(&crypto).unwrap().password.as_deref(), Some("secret"));

    let other = Crypto::new("0123456789abcdef0123456789abcdef".to_owned(), "fedcba9876543210".to_owned()).unwrap();
    let failure = stored.try_decrypt(&other).unwrap_err();
    assert!(matches!(failure.0, CryptoErrorKind::Unauthentic));

    let open_server = Server { password: None, username: None, ..stored.clone() };
    assert!(open_server.try_decrypt(&other).unwrap().password.is_none());
}

#[test]
fn errors_carry_their_messages() {
    let db = DbError::new(DbErrorKind::Connection("no connection".to_owned()));
    assert_eq!(db.message(), "no connection");
    let from_text: DbError = "query failed".to_owned().into();
    assert!(matches!(from_text.0, DbErrorKind::Execution(_)));
    assert_eq!(from_text.message(), "query failed");
    let bot: BotError = from_text.into();
    assert!(matches!(bot.0, BotErrorKind::DbError(_)));
    assert_eq!(bot.message(), "query failed");
    assert_eq!(BotError::logic("stop".to_owned()).message(), "stop");
    assert_eq!(BotError::new(BotErrorKind::TelegramError("chat down".to_owned())).message(), "chat down");
}

#[test]
fn pool_is_bounded() {
    assert_eq!(DbConfig::max_connections(), 15);
}

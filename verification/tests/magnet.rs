use torrent_assistant::errors::{MagnetErrorKind, MagnetMappingError};
use torrent_assistant::magnet::MagnetLink;

#[test]
pub fn test_short_magnet_generation_from_magnet_string() {
    let magnet = String::from("magnet:?xt=urn:btih:e249fe4dc957be4b4ce3ecaac280fdf1c71bc5bb&tr=http%3A%2F%2Fsometracker.com%2Fannounce&dn=ubuntu-mate-16.10-desktop-amd64.iso&tr=http%3A%2F%2Fsometracker.com%2Fannounce2");
    let urn = String::from("urn:btih:e249fe4dc957be4b4ce3ecaac280fdf1c71bc5bb");
    let trackers = vec!["http://sometracker.com/announce".to_owned(), "http://sometracker.com/announce2".to_owned()];
    let short = MagnetLink::from(&magnet).unwrap();
    assert_eq!(short.clone().xt, urn);
    assert_eq!(short.clone().tr, trackers);
}

#[test]
pub fn test_short_magnet_generation_from_magnet_string_in_message() {
    let magnet = &String::from("some info magnet:?xt=urn:btih:e249fe4dc957be4b4ce3ecaac280fdf1c71bc5bb&tr=http%3A%2F%2Fsometracker.com%2Fannounce&dn=ubuntu-mate-16.10-desktop-amd64.iso&tr=http%3A%2F%2Fsometracker.com%2Fannounce2 and some comment after");
    let urn = String::from("urn:btih:e249fe4dc957be4b4ce3ecaac280fdf1c71bc5bb");
    let trackers = vec!["http://sometracker.com/announce".to_owned(), "http://sometracker.com/announce2".to_owned()];
    let short = MagnetLink::find(magnet);
    assert!(short.clone().is_some());
    assert_eq!(short.clone().unwrap().xt, urn);
    assert_eq!(short.clone().unwrap().tr, trackers);
}

#[test]
pub fn test_short_magnet_generation_from_magnet_string_in_message_on_new_line() {
    let magnet = &String::from("some info\nmagnet:?xt=urn:btih:e249fe4dc957be4b4ce3ecaac280fdf1c71bc5bb&tr=http%3A%2F%2Fsometracker.com%2Fannounce&dn=ubuntu-mate-16.10-desktop-amd64.iso&tr=http%3A%2F%2Fsometracker.com%2Fannounce2\nand some comment after");
    let urn = String::from("urn:btih:e249fe4dc957be4b4ce3ecaac280fdf1c71bc5bb");
    let trackers = vec!["http://sometracker.com/announce".to_owned(), "http://sometracker.com/announce2".to_owned()];
    let link = MagnetLink::find(magnet);
    assert!(link.clone().is_some());
    assert_eq!(link.clone().unwrap().xt, urn);
    assert_eq!(link.clone().unwrap().tr, trackers);
}

#[test]
pub fn test_short_magnet_string_generation() {
    let magnet = String::from("magnet:?xt=urn:btih:e249fe4dc957be4b4ce3ecaac280fdf1c71bc5bb&tr=http%3A%2F%2Fsometracker.com%2Fannounce&tr=http%3A%2F%2Fsometracker.com%2Fannounce2");
    let urn = String::from("urn:btih:e249fe4dc957be4b4ce3ecaac280fdf1c71bc5bb");
    let trackers = vec!["http://sometracker.com/announce".to_owned(), "http://sometracker.com/announce2".to_owned()];
    let link = MagnetLink { xt: urn, tr: trackers, dn: "test".to_owned() };
    let actual: String = link.short_link();
    assert_eq!(actual, magnet);
}

#[test]
pub fn test_short_magnet_hash() {
    let hash = String::from("e249fe4dc957be4b4ce3ecaac280fdf1c71bc5bb");
    let urn = String::from("urn:btih:e249fe4dc957be4b4ce3ecaac280fdf1c71bc5bb");
    let trackers = vec!["http://sometracker.com/announce".to_owned(), "http://sometracker.com/announce2".to_owned()];
    let short = MagnetLink { xt: urn, tr: trackers, dn: "test".to_owned() };
    let actual: String = short.hash();
    assert_eq!(actual, hash);
}

#[test]
pub fn test_dn() {
    let magnet = &String::from("some info\nmagnet:?xt=urn:btih:e249fe4dc957be4b4ce3ecaac280fdf1c71bc5bb&tr=http%3A%2F%2Fsometracker.com%2Fannounce&dn=ubuntu-mate-16.10-desktop-amd64.iso&tr=http%3A%2F%2Fsometracker.com%2Fannounce2\nand some comment after");
    let link = MagnetLink::find(magnet);
    assert_eq!(link.unwrap().dn(), "ubuntu-mate-16.10-desktop-amd64.iso")
}

#[test]
pub fn test_dn_cirillic() {
    let magnet = &String::from("some info\nmagnet:?xt=urn:btih:e249fe4dc957be4b4ce3ecaac280fdf1c71bc5bb&tr=http%3A%2F%2Fsometracker.com%2Fannounce&dn=%D1%82%D0%B5%D1%81%D1%82&tr=http%3A%2F%2Fsometracker.com%2Fannounce2\nand some comment after");
    let link = MagnetLink::find(magnet);
    assert_eq!(link.unwrap().dn(), "тест")
}

#[test]
pub fn test_dn_with_no_dn() {
    let magnet = &String::from("some info\nmagnet:?xt=urn:btih:e249fe4dc957be4b4ce3ecaac280fdf1c71bc5bb&tr=http%3A%2F%2Fsometracker.com%2Fannounce&tr=http%3A%2F%2Fsometracker.com%2Fannounce2\nand some comment after");
    let hash = String::from("e249fe4dc957be4b4ce3ecaac280fdf1c71bc5bb");
    let link = MagnetLink::find(magnet);
    assert_eq!(link.unwrap().dn(), hash)
}

#[test]
fn parse_refuses_missing_and_repeated_parameters() {
    let none = MagnetLink::from(&"magnet:?tr=http%3A%2F%2Fa&dn=x".to_owned());
    assert_eq!(none.unwrap_err(), MagnetMappingError(MagnetErrorKind::MissingExactTopic));
    let two = MagnetLink::from(&"magnet:?xt=urn:btih:aa&xt=urn:btih:bb".to_owned());
    assert_eq!(two.unwrap_err().kind(), MagnetErrorKind::AmbiguousExactTopic);
    let names = MagnetLink::from(&"magnet:?xt=urn:btih:aa&dn=a&dn=b".to_owned());
    assert_eq!(names.unwrap_err().kind(), MagnetErrorKind::AmbiguousDisplayName);
    assert_eq!(
        MagnetMappingError::new(MagnetErrorKind::MissingExactTopic).message(),
        "Magnet Mapping error: No XT parameter found"
    );
}

#[test]
fn parse_keeps_repeated_trackers_in_order() {
    let link = MagnetLink::from(&"magnet:?tr=b&xt=urn:btih:aa&tr=a&tr=b".to_owned()).unwrap();
    assert_eq!(link.tr, vec!["b".to_owned(), "a".to_owned(), "b".to_owned()]);
    assert_eq!(link.dn, "aa");
}

#[test]
fn short_form_reads_back() {
    let link = MagnetLink {
        xt: "urn:btih:c0ffee".to_owned(),
        tr: vec!["udp://t.example:80/a b".to_owned(), "http://x/?q=1&r=2".to_owned()],
        dn: "some name".to_owned(),
    };
    let back = MagnetLink::from(&link.clone().short_link()).unwrap();
    assert_eq!(back.xt, link.xt);
    assert_eq!(back.tr, link.tr);
    assert_eq!(back.dn, "c0ffee");
}

#[test]
fn short_form_without_trackers_ends_with_separator() {
    let link = MagnetLink { xt: "urn:btih:aa".to_owned(), tr: vec![], dn: "n".to_owned() };
    assert_eq!(link.short_link(), "magnet:?xt=urn:btih:aa&");
}

#[test]
fn find_stops_at_the_first_magnet_token() {
    let text = "see magnet:?tr=only-a-tracker then magnet:?xt=urn:btih:aa".to_owned();
    assert!(MagnetLink::find(&text).is_none());
    assert!(MagnetLink::find(&"no link here\nat all".to_owned()).is_none());
    assert!(MagnetLink::find(&"xmagnet:?xt=urn:btih:aa".to_owned()).is_none());
    let second_line = "first line\n  magnet:?xt=urn:btih:aa:bb tail".to_owned();
    assert_eq!(MagnetLink::find(&second_line).unwrap().hash(), "aa");
}

#[test]
fn end_to_end_example() {
    let text = "magnet:?xt=urn:btih:e249fe4dc957be4b4ce3ecaac280fdf1c71bc5bb&tr=http%3A%2F%2Fsometracker.com%2Fannounce&dn=ubuntu-mate-16.10-desktop-amd64.iso&tr=http%3A%2F%2Fsometracker.com%2Fannounce2".to_owned();
    let link = MagnetLink::from(&text).unwrap();
    assert_eq!(link.xt, "urn:btih:e249fe4dc957be4b4ce3ecaac280fdf1c71bc5bb");
    assert_eq!(
        link.tr,
        vec!["http://sometracker.com/announce".to_owned(), "http://sometracker.com/announce2".to_owned()]
    );
    assert_eq!(link.dn, "ubuntu-mate-16.10-desktop-amd64.iso");
    assert_eq!(link.hash(), "e249fe4dc957be4b4ce3ecaac280fdf1c71bc5bb");
}

#[test]
fn trackers_are_form_encoded_by_the_rule() {
    let link = MagnetLink {
        xt: "x".to_owned(),
        tr: vec!["AZaz09*-._".to_owned(), " ~!'()+&=/?#%".to_owned(), "é€".to_owned(), "".to_owned()],
        dn: "".to_owned(),
    };
    assert_eq!(
        link.clone().short_link(),
        "magnet:?xt=x&tr=AZaz09*-._&tr=+%7E%21%27%28%29%2B%26%3D%2F%3F%23%25&tr=%C3%A9%E2%82%AC&tr="
    );
    assert_eq!(
        link.full_link(),
        "magnet:?dn=&xt=x&tr=AZaz09*-._&tr=+%7E%21%27%28%29%2B%26%3D%2F%3F%23%25&tr=%C3%A9%E2%82%AC&tr="
    );
}

#[test]
fn pairs_decide_what_is_read() {
    let pair = |k: &str, v: &str| (k.to_owned(), v.to_owned());
    let link = MagnetLink::from_pairs(&vec![
        pair("tr", "one"),
        pair("XT", "ignored"),
        pair("xt", "urn:btih:hash:rest"),
        pair("x", "y"),
        pair("tr", "two"),
    ])
    .unwrap();
    assert_eq!(link.xt, "urn:btih:hash:rest");
    assert_eq!(link.tr, vec!["one".to_owned(), "two".to_owned()]);
    assert_eq!(link.dn, "hash");
    assert_eq!(
        MagnetLink::from_pairs(&vec![]).unwrap_err().kind(),
        MagnetErrorKind::MissingExactTopic
    );
    // an ambiguous topic is told before an ambiguous name
    let both = vec![pair("xt", "a"), pair("xt", "b"), pair("dn", "c"), pair("dn", "d")];
    assert_eq!(MagnetLink::from_pairs(&both).unwrap_err().kind(), MagnetErrorKind::AmbiguousExactTopic);
}

fn named(dn: &str) -> Vec<(String, String)> {
    vec![("xt".to_owned(), "urn:btih:aa".to_owned()), ("dn".to_owned(), dn.to_owned())]
}

#[test]
fn name_is_decoded_exactly_once() {
    for (written, name) in [
        ("%2541", "%41"),
        ("%41", "A"),
        ("%25FF", "%FF"),
        ("100%25", "100%"),
        ("100%2525", "100%25"),
        ("a%20b+c", "a b c"),
        ("%D1%82%D0%B5%D1%81%D1%82", "тест"),
        ("%E2%82%AC", "€"),
        ("", ""),
    ] {
        let text = format!("magnet:?xt=urn:btih:abc&dn={}", written);
        assert_eq!(MagnetLink::from(&text).unwrap().dn, name, "name written as {:?}", written);
        assert_eq!(MagnetLink::find(&text).unwrap().dn, name);
    }
    // from the pairs the name is taken as it stands
    for given in ["%41", "%", "%zz", "plain name", "тест"] {
        let pairs = named(given);
        assert!(MagnetLink::readable_pairs(&pairs));
        assert_eq!(MagnetLink::from_pairs(&pairs).unwrap().dn, given);
    }
}

#[test]
fn full_form_gives_the_link_back() {
    for name in ["тест & more", "%41", "100%", "a+b c", "x#y?z=1&w", "", "%25", "é€ \"quoted\""] {
        let link = MagnetLink {
            xt: "urn:btih:c0ffee".to_owned(),
            tr: vec!["http://x/a".to_owned(), "udp://y:1/?k=v&l=%20".to_owned(), "http://x/a".to_owned()],
            dn: name.to_owned(),
        };
        let full = link.clone().full_link();
        assert!(full.starts_with("magnet:?dn="));
        let back = MagnetLink::from(&full).unwrap();
        assert_eq!(back.dn, link.dn, "name {:?}", name);
        assert_eq!(back.xt, link.xt);
        assert_eq!(back.tr, link.tr);
    }
    let link = MagnetLink {
        xt: "urn:btih:c0ffee".to_owned(),
        tr: vec!["http://x/a".to_owned()],
        dn: "тест & more".to_owned(),
    };
    assert_eq!(
        link.full_link(),
        "magnet:?dn=%D1%82%D0%B5%D1%81%D1%82+%26+more&xt=urn:btih:c0ffee&tr=http%3A%2F%2Fx%2Fa"
    );
}

#[test]
fn text_that_is_no_url_has_no_topic() {
    for text in ["hello", "", "not a url", "magnet"] {
        let refused = MagnetLink::from(&text.to_owned()).unwrap_err();
        assert_eq!(refused.kind(), MagnetErrorKind::MissingExactTopic, "for {:?}", text);
        assert_eq!(
            MagnetLink::parse(&text.to_owned()).unwrap().unwrap_err().kind(),
            MagnetErrorKind::MissingExactTopic
        );
    }
    assert_eq!(
        MagnetLink::from(&"http://host/path?tr=a".to_owned()).unwrap_err().kind(),
        MagnetErrorKind::MissingExactTopic
    );
}

#[test]
fn unknown_parameters_are_ignored() {
    let text = "magnet:?xl=10&xt=urn:btih:AbC&as=x&tr=t&kt=y&dn=n&XT=other".to_owned();
    let link = MagnetLink::from(&text).unwrap();
    assert_eq!(link.xt, "urn:btih:AbC");
    assert_eq!(link.tr, vec!["t".to_owned()]);
    assert_eq!(link.dn, "n");
}

#[test]
fn topic_without_a_hash_cannot_name_the_link() {
    assert!(MagnetLink::parse(&"magnet:?xt=nohash".to_owned()).is_none());
    assert!(MagnetLink::find(&"magnet:?xt=nohash".to_owned()).is_none());
    assert!(!MagnetLink::readable_pairs(&vec![("xt".to_owned(), "nohash".to_owned())]));
    let named_link = MagnetLink::parse(&"magnet:?xt=nohash&dn=x".to_owned()).unwrap().unwrap();
    assert_eq!(named_link.dn, "x");
    let refused = MagnetLink::parse(&"magnet:?dn=x".to_owned()).unwrap();
    assert_eq!(refused.unwrap_err().kind(), MagnetErrorKind::MissingExactTopic);
}

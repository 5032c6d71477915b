use everest::card::{Card, CardError, Timestamp};
use everest::discovery::{addressbook_path, Discovery, DiscoveryStage, DiscoveryStep, StageOutcome, StageReply};
use everest::http::{HttpMethod, HttpOutcome};
use everest::multistatus::{
    Addressbook, AddressbookHomeSet, AddressbookHomeSetProp, AddressbookProp,
    AddressbookResourceType, CurrentUserPrincipal, CurrentUserPrincipalProp, Href, LastModified,
    Multistatus, Propstat, Response, Status, str_ends_with,
};
use everest::repository::{CardRepository, LocalCardRepository, RemoteCardRepository};

const HOST: &str = "http://localhost:5232";
const T0: Timestamp = Timestamp { secs: 0, nanos: 0 };
const ID: &str = "8f16d8b5-7e3a-6cd9-fa49-fc6cea65db2a";

fn vcard(id: &str) -> String {
    [
        "BEGIN:VCARD",
        "VERSION:3.0",
        &format!("UID:{}", id),
        "EMAIL:test@mail.com",
        "FN:Test",
        "N:Nom;Prenom;;;",
        "ORG:Test",
        "TEL;TYPE=pref:06 06 06 06 06",
        "END:VCARD",
        "",
    ]
    .join("\r\n")
}

fn href(s: &str) -> Href {
    Href { value: s.to_string() }
}

fn principal(hrefs: &[&str]) -> Multistatus<CurrentUserPrincipalProp> {
    Multistatus {
        responses: hrefs
            .iter()
            .map(|h| Response {
                href: href("/"),
                propstat: Propstat {
                    prop: CurrentUserPrincipalProp {
                        current_user_principal: CurrentUserPrincipal { href: href(h) },
                    },
                    status: None,
                },
            })
            .collect(),
    }
}

fn home_set(hrefs: &[&str]) -> Multistatus<AddressbookHomeSetProp> {
    Multistatus {
        responses: hrefs
            .iter()
            .map(|h| Response {
                href: href("/"),
                propstat: Propstat {
                    prop: AddressbookHomeSetProp {
                        addressbook_home_set: AddressbookHomeSet { href: href(h) },
                    },
                    status: None,
                },
            })
            .collect(),
    }
}

fn entry(h: &str, status: Option<&str>, marked: bool) -> Response<AddressbookProp> {
    Response {
        href: href(h),
        propstat: Propstat {
            prop: AddressbookProp {
                resourcetype: AddressbookResourceType {
                    addressbook: if marked { Some(Addressbook {}) } else { None },
                },
            },
            status: status.map(|s| Status { value: s.to_string() }),
        },
    }
}

fn next(step: Result<DiscoveryStep, CardError>) -> Discovery {
    match step {
        Ok(DiscoveryStep::Next(d)) => d,
        _ => panic!("discovery should go on"),
    }
}

fn done(step: Result<DiscoveryStep, CardError>) -> String {
    match step {
        Ok(DiscoveryStep::Done(p)) => p,
        _ => panic!("discovery should be done"),
    }
}

fn discover(
    r1: Multistatus<CurrentUserPrincipalProp>,
    r2: Multistatus<AddressbookHomeSetProp>,
    r3: Multistatus<AddressbookProp>,
) -> String {
    let d = Discovery::start(HOST);
    let d = next(d.advance(StageOutcome::Decoded(StageReply::CurrentUserPrincipal(r1))));
    let d = next(d.advance(StageOutcome::Decoded(StageReply::AddressbookHomeSet(r2))));
    done(d.advance(StageOutcome::Decoded(StageReply::Addressbook(r3))))
}

#[test]
fn create_then_read_gives_back_the_card() {
    let repo = RemoteCardRepository::new("http://localhost:5232/user/contacts/");
    let card = Card { id: ID.to_string(), date: Timestamp { secs: 0, nanos: 0 }, raw: vcard(ID) };

    let put = repo.create_request(&card);
    assert_eq!(HttpMethod::Put, put.method);
    assert_eq!(
        format!("http://localhost:5232/user/contacts/{}.vcf", ID),
        put.url
    );
    assert_eq!(
        vec![("Content-Type".to_string(), "text/vcard; charset=utf-8".to_string())],
        put.headers
    );
    assert_eq!(Some(card.raw.clone()), put.body);
    assert!(repo
        .create_response(&card, &HttpOutcome::Received { status: 201, body: None })
        .is_ok());

    let get = repo.read_request(ID);
    assert_eq!(HttpMethod::Get, get.method);
    assert_eq!(put.url, get.url);
    assert_eq!(vec![("Depth".to_string(), "1".to_string())], get.headers);
    assert_eq!(None, get.body);

    let read = repo
        .read_response(
            ID,
            HttpOutcome::Received { status: 200, body: put.body.clone() },
            Timestamp { secs: 1_700_000_000, nanos: 5 },
        )
        .unwrap();
    assert_eq!(card.id, read.id);
    assert_eq!(card.raw, read.raw);
    assert_eq!(Timestamp { secs: 1_700_000_000, nanos: 5 }, read.date);
    assert!(Timestamp::now().secs > 1_500_000_000);
}

#[test]
fn delete_then_read_fails_with_protocol_error() {
    let repo = RemoteCardRepository::new("http://localhost:5232/user/contacts/");
    let del = repo.delete_request(ID);
    assert_eq!(HttpMethod::Delete, del.method);
    assert_eq!(format!("http://localhost:5232/user/contacts/{}.vcf", ID), del.url);
    assert!(del.headers.is_empty());
    assert!(repo
        .delete_response(ID, &HttpOutcome::Received { status: 204, body: None })
        .is_ok());

    let err = repo
        .read_response(ID, HttpOutcome::Received { status: 404, body: Some(String::new()) }, T0)
        .unwrap_err();
    assert!(matches!(err, CardError::Protocol { .. }));
    assert_eq!(format!(r#"cannot read card "{}""#, ID), err.message());
    assert!(err.message().contains(ID));
}

#[test]
fn writes_accept_any_reply_and_fail_only_when_not_sent() {
    let repo = RemoteCardRepository::new("http://h/ab/");
    let card = Card { id: "c1".into(), date: Timestamp { secs: 1, nanos: 2 }, raw: "x".into() };
    assert!(repo
        .create_response(&card, &HttpOutcome::Received { status: 500, body: None })
        .is_ok());
    let e = repo.create_response(&card, &HttpOutcome::NotSent).unwrap_err();
    assert_eq!(r#"cannot send create request for card "c1""#, e.message());
    assert!(repo.delete_response("c1", &HttpOutcome::Received { status: 403, body: None }).is_ok());
    let e = repo.delete_response("c1", &HttpOutcome::NotSent).unwrap_err();
    assert_eq!(r#"cannot send delete request for card "c1""#, e.message());
}

#[test]
fn read_errors_for_each_failure() {
    let repo = RemoteCardRepository::new("http://h/ab/");
    let e = repo.read_response("c1", HttpOutcome::NotSent, T0).unwrap_err();
    assert_eq!(r#"cannot send read request for card "c1""#, e.message());
    let e = repo
        .read_response("c1", HttpOutcome::Received { status: 200, body: None }, T0)
        .unwrap_err();
    assert_eq!(r#"cannot read content of card "c1""#, e.message());
    let e = repo
        .read_response("c1", HttpOutcome::Received { status: 201, body: Some("x".into()) }, T0)
        .unwrap_err();
    assert!(matches!(e, CardError::Protocol { ref id } if id == "c1"));
}

#[test]
fn conditional_delete_reports_a_changed_card() {
    let repo = RemoteCardRepository::new("http://h/ab/");
    let req = repo.delete_if_unmodified_request("c1", "\"etag-1\"");
    assert_eq!(HttpMethod::Delete, req.method);
    assert_eq!("http://h/ab/c1.vcf", req.url);
    assert_eq!(vec![("If-Match".to_string(), "\"etag-1\"".to_string())], req.headers);
    let e = repo
        .delete_if_unmodified_response("c1", &HttpOutcome::Received { status: 412, body: None })
        .unwrap_err();
    assert!(matches!(e, CardError::PreconditionFailed { .. }));
    assert_eq!(r#"card "c1" was modified on the server"#, e.message());
    assert!(repo
        .delete_if_unmodified_response("c1", &HttpOutcome::Received { status: 204, body: None })
        .is_ok());
    assert!(repo.delete_if_unmodified_response("c1", &HttpOutcome::NotSent).is_err());
}

#[test]
fn unimplemented_operations_say_so() {
    let repo = RemoteCardRepository::new("http://h/ab/");
    let card = Card { id: "c1".into(), date: Timestamp { secs: 0, nanos: 0 }, raw: String::new() };
    assert_eq!("read_all is not implemented", repo.read_all().unwrap_err().message());
    assert_eq!("update is not implemented", repo.update(&card).unwrap_err().message());
    let local = LocalCardRepository;
    assert_eq!("create is not implemented", local.create(&card).unwrap_err().message());
    assert_eq!("read is not implemented", local.read("c1").unwrap_err().message());
    assert_eq!("read_all is not implemented", local.read_all().unwrap_err().message());
    assert_eq!("update is not implemented", local.update(&card).unwrap_err().message());
    assert_eq!("delete is not implemented", local.delete("c1").unwrap_err().message());
}

#[test]
fn card_url_has_one_separator_between_path_and_id() {
    let repo = RemoteCardRepository::new("http://localhost:5232/user/contacts/");
    let url = repo.card_url("abc");
    assert_eq!("http://localhost:5232/user/contacts/abc.vcf", url);
    assert!(!url.contains("contacts//"));
    assert_eq!(".vcf", RemoteCardRepository::new("").card_url(""));
}

#[test]
fn discovery_falls_back_to_root_path() {
    let path = discover(
        principal(&[]),
        home_set(&[]),
        Multistatus {
            responses: vec![
                entry("/a/", Some("HTTP/1.1 404 Not Found"), true),
                entry("/b/", Some("HTTP/1.1 200 OK"), false),
                entry("/c/", None, true),
            ],
        },
    );
    assert_eq!("http://localhost:5232/", path);
}

#[test]
fn discovery_keeps_home_set_when_no_addressbook_found() {
    let path = discover(
        principal(&["/principals/user/"]),
        home_set(&["/user/"]),
        Multistatus { responses: vec![] },
    );
    assert_eq!("http://localhost:5232/user/", path);
}

#[test]
fn discovery_finds_the_one_addressbook() {
    let path = discover(
        principal(&["/principals/user/", "/ignored/"]),
        home_set(&["/user/"]),
        Multistatus {
            responses: vec![
                entry("/user/", Some("HTTP/1.1 200 OK"), false),
                entry("/user/bad/", Some("HTTP/1.1 500 Internal Server Error"), true),
                entry("/user/contacts/", Some("HTTP/1.1 200 OK"), true),
                entry("/user/other/", None, true),
            ],
        },
    );
    assert_eq!("http://localhost:5232/user/contacts/", path);
}

#[test]
fn discovery_requests_follow_the_resolved_path() {
    let d = Discovery::start(HOST);
    assert_eq!(DiscoveryStage::CurrentUserPrincipal, d.stage);
    let r = d.request();
    assert_eq!(HttpMethod::Propfind, r.method);
    assert_eq!("http://localhost:5232/", r.url);
    assert_eq!(
        Some(r#"<D:propfind xmlns:D="DAV:"><D:prop><D:current-user-principal/></D:prop></D:propfind>"#.to_string()),
        r.body
    );
    let d = next(d.advance(StageOutcome::Decoded(StageReply::CurrentUserPrincipal(principal(&[
        "/principals/user/",
    ])))));
    let r = d.request();
    assert_eq!("http://localhost:5232/principals/user/", r.url);
    assert_eq!(
        Some(r#"<D:propfind xmlns:D="DAV:" xmlns:C="urn:ietf:params:xml:ns:carddav"><D:prop><C:addressbook-home-set/></D:prop></D:propfind>"#.to_string()),
        r.body
    );
    let d = next(d.advance(StageOutcome::Decoded(StageReply::AddressbookHomeSet(home_set(&["/user/"])))));
    assert_eq!(DiscoveryStage::Addressbook, d.stage);
    // The third query goes to the home set, not to the bare host.
    let r = d.request();
    assert_eq!("http://localhost:5232/user/", r.url);
    assert_eq!(
        Some(r#"<D:propfind xmlns:D="DAV:"><D:prop><D:resourcetype/></D:prop></D:propfind>"#.to_string()),
        r.body
    );
}

#[test]
fn discovery_fails_on_transport_and_decode_errors() {
    let e = Discovery::start(HOST).advance(StageOutcome::NotSent).unwrap_err();
    assert_eq!(
        r#"cannot send current user principal request to "http://localhost:5232/""#,
        e.message()
    );
    let d = next(Discovery::start(HOST).advance(StageOutcome::Decoded(
        StageReply::CurrentUserPrincipal(principal(&[])),
    )));
    let e = d.clone().advance(StageOutcome::Unreadable).unwrap_err();
    assert_eq!(
        r#"cannot read addressbook home set response from "http://localhost:5232/""#,
        e.message()
    );
    let e = d.clone().advance(StageOutcome::Undecodable).unwrap_err();
    assert_eq!("cannot parse addressbook home set response", e.message());
    let e = d
        .advance(StageOutcome::Decoded(StageReply::CurrentUserPrincipal(principal(&[]))))
        .unwrap_err();
    assert!(matches!(e, CardError::Parse { .. }));
}

#[test]
fn last_modified_parses_rfc2822() {
    let m = LastModified::parse("Wed, 21 Oct 2020 07:28:00 GMT").unwrap();
    assert_eq!(Timestamp { secs: 1_603_265_280, nanos: 0 }, m.value);
    let m = LastModified::parse("Wed, 21 Oct 2020 09:28:00 +0200").unwrap();
    assert_eq!(1_603_265_280, m.value.secs);
    let e = LastModified::parse("2020-10-21T07:28:00Z").unwrap_err();
    assert_eq!("cannot parse last modification date", e.message());
    assert!(LastModified::parse("").is_err());
}

#[test]
fn last_modified_from_instant_checks_nanoseconds() {
    assert!(LastModified::from_instant(None).is_err());
    assert!(LastModified::from_instant(Some((5, 2_000_000_000))).is_err());
    let m = LastModified::from_instant(Some((5, 1_999_999_999))).unwrap();
    assert_eq!(Timestamp { secs: 5, nanos: 1_999_999_999 }, m.value);
    assert_eq!(None, Timestamp::new(1, 2_000_000_000));
}

#[test]
fn status_suffix_check() {
    assert!(str_ends_with("HTTP/1.1 200 OK", "200 OK"));
    assert!(!str_ends_with("HTTP/1.1 200 Okay", "200 OK"));
    assert!(!str_ends_with("OK", "200 OK"));
    assert!(str_ends_with("", ""));
}

#[test]
fn method_names() {
    assert_eq!("PROPFIND", HttpMethod::Propfind.name());
    assert_eq!("REPORT", HttpMethod::Report.name());
    assert_eq!("GET", HttpMethod::Get.name());
    assert_eq!("PUT", HttpMethod::Put.name());
    assert_eq!("DELETE", HttpMethod::Delete.name());
}

#[test]
fn addressbook_path_chains_the_three_replies() {
    let p = addressbook_path(
        HOST,
        StageReply::CurrentUserPrincipal(principal(&[])),
        StageReply::AddressbookHomeSet(home_set(&[])),
        StageReply::Addressbook(Multistatus { responses: vec![] }),
    )
    .unwrap();
    assert_eq!("http://localhost:5232/", p);

    let p = addressbook_path(
        HOST,
        StageReply::CurrentUserPrincipal(principal(&["/p/"])),
        StageReply::AddressbookHomeSet(home_set(&["/h/"])),
        StageReply::Addressbook(Multistatus {
            responses: vec![entry("/h/book/", Some("HTTP/1.1 200 OK"), true)],
        }),
    )
    .unwrap();
    assert_eq!("http://localhost:5232/h/book/", p);

    let e = addressbook_path(
        HOST,
        StageReply::AddressbookHomeSet(home_set(&[])),
        StageReply::AddressbookHomeSet(home_set(&[])),
        StageReply::Addressbook(Multistatus { responses: vec![] }),
    )
    .unwrap_err();
    assert_eq!("cannot parse current user principal response", e.message());

    let e = addressbook_path(
        HOST,
        StageReply::CurrentUserPrincipal(principal(&[])),
        StageReply::Addressbook(Multistatus { responses: vec![] }),
        StageReply::Addressbook(Multistatus { responses: vec![] }),
    )
    .unwrap_err();
    assert_eq!("cannot parse addressbook home set response", e.message());

    let e = addressbook_path(
        HOST,
        StageReply::CurrentUserPrincipal(principal(&[])),
        StageReply::AddressbookHomeSet(home_set(&[])),
        StageReply::AddressbookHomeSet(home_set(&[])),
    )
    .unwrap_err();
    assert_eq!("cannot parse addressbook response", e.message());
}

#[test]
fn cards_compare_by_every_field() {
    let a = Card { id: "c1".into(), date: Timestamp { secs: 7, nanos: 0 }, raw: "x".into() };
    assert_eq!(a.clone(), a);
    let mut b = a.clone();
    b.date = Timestamp { secs: 8, nanos: 0 };
    assert_ne!(a, b);
    let mut c = a.clone();
    c.raw = "y".into();
    assert_ne!(a, c);
}

#[test]
fn test_remote_card_repository() {
    let host = "http://localhost:5232";
    let repository = RemoteCardRepository::new(&format!("{}/user/contacts/", host));

    let id = "8f16d8b5-7e3a-6cd9-fa49-fc6cea65db2a";
    let card = Card {
        id: id.to_string(),
        date: Timestamp::now(),
        raw: [
            "BEGIN:VCARD",
            "VERSION:3.0",
            &format!("UID:{}", id),
            "EMAIL:test@mail.com",
            "FN:Test",
            "N:Nom;Prenom;;;",
            "ORG:Test",
            "TEL;TYPE=pref:06 06 06 06 06",
            "END:VCARD",
            "",
        ]
        .join("\r\n"),
    };

    // The server stores what the PUT carries and answers the GET with it.
    let put = repository.create_request(&card);
    repository
        .create_response(&card, &HttpOutcome::Received { status: 201, body: None })
        .unwrap();
    let get = repository.read_request(id);
    assert_eq!(put.url, get.url);
    let expected_card = repository
        .read_response(id, HttpOutcome::Received { status: 200, body: put.body }, Timestamp::now())
        .unwrap();
    assert_eq!(expected_card.id, card.id);
    assert_eq!(expected_card.raw, card.raw);

    // Once deleted, the server answers the GET with 404.
    let del = repository.delete_request(&card.id);
    assert_eq!(put.url, del.url);
    repository
        .delete_response(&card.id, &HttpOutcome::Received { status: 204, body: None })
        .unwrap();
    let res = repository.read_response(
        id,
        HttpOutcome::Received { status: 404, body: Some(String::new()) },
        Timestamp::now(),
    );
    assert_eq!(res.unwrap_err().message(), format!(r#"cannot read card "{}""#, id));
}

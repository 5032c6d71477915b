use everest::mbox::{ImapMbox, ImapMboxAttr, ImapMboxAttrs, MaildirMbox, MaildirMboxes};

#[test]
fn imap_mbox_it_should_create_new_mbox() {
    assert_eq!(ImapMbox::default(), ImapMbox::new(""));
    assert_eq!(
        ImapMbox {
            name: "INBOX".into(),
            ..ImapMbox::default()
        },
        ImapMbox::new("INBOX")
    );
}

#[test]
fn imap_mbox_it_should_display_mbox() {
    let default_mbox = ImapMbox::default();
    assert_eq!("", default_mbox.to_string());

    let new_mbox = ImapMbox::new("INBOX");
    assert_eq!("INBOX", new_mbox.to_string());

    let full_mbox = ImapMbox {
        delim: ".".into(),
        name: "Sent".into(),
        attrs: ImapMboxAttrs(vec![ImapMboxAttr::NoSelect]),
    };
    assert_eq!("Sent", full_mbox.to_string());
}

#[test]
fn maildir_mbox_it_should_create_new_mbox() {
    assert_eq!(MaildirMbox::default(), MaildirMbox::new(""));
    assert_eq!(
        MaildirMbox {
            name: "INBOX".into(),
            ..MaildirMbox::default()
        },
        MaildirMbox::new("INBOX")
    );
}

#[test]
fn maildir_mbox_it_should_display_mbox() {
    let default_mbox = MaildirMbox::default();
    assert_eq!("", default_mbox.to_string());

    let new_mbox = MaildirMbox::new("INBOX");
    assert_eq!("INBOX", new_mbox.to_string());

    let full_mbox = MaildirMbox {
        name: "Sent".into(),
    };
    assert_eq!("Sent", full_mbox.to_string());
}

#[test]
fn imap_mboxes_differ_by_attributes() {
    let a = ImapMbox {
        delim: ".".into(),
        name: "Sent".into(),
        attrs: ImapMboxAttrs(vec![ImapMboxAttr::NoSelect]),
    };
    let b = ImapMbox {
        delim: ".".into(),
        name: "Sent".into(),
        attrs: ImapMboxAttrs(vec![ImapMboxAttr::Custom("\\Sent".into())]),
    };
    assert_ne!(a, b);
    assert_eq!(a, a.clone());
    assert_eq!(b, b.clone());
}

#[test]
fn imap_mbox_attrs_are_listed_with_commas() {
    let attrs = ImapMboxAttrs(vec![
        ImapMboxAttr::NoSelect,
        ImapMboxAttr::Marked,
        ImapMboxAttr::Custom("\\Trash".into()),
    ]);
    assert_eq!("NoSelect, Marked, \\Trash", attrs.to_string());
    assert_eq!("", ImapMboxAttrs(vec![]).to_string());
}

#[test]
fn maildir_subdir_names_drop_the_leading_dot() {
    let m = MaildirMbox::try_from_subdir_name(Some(".Sent")).unwrap();
    assert_eq!("Sent", m.name);
    assert!(MaildirMbox::try_from_subdir_name(Some(".")).is_err());
    assert!(MaildirMbox::try_from_subdir_name(Some("")).is_err());
    let e = MaildirMbox::try_from_subdir_name(None).unwrap_err();
    assert_eq!(None, e.subdir_name);
    assert_eq!("cannot parse maildir subdirectory name from path None", e.message());
    let e = MaildirMbox::try_from_subdir_name(Some("x")).unwrap_err();
    assert_eq!(
        "cannot parse maildir subdirectory name from path Some(\"x\")",
        e.message()
    );
}

#[test]
fn maildir_mboxes_keep_order_and_stop_at_first_bad_name() {
    let names = vec![Some(".INBOX".to_string()), Some(".Sent".to_string())];
    let ms = MaildirMboxes::try_from_subdir_names(&names).unwrap();
    assert_eq!(vec![MaildirMbox::new("INBOX"), MaildirMbox::new("Sent")], ms.0);

    let bad = vec![Some(".INBOX".to_string()), Some("x".to_string()), None];
    let e = MaildirMboxes::try_from_subdir_names(&bad).unwrap_err();
    assert_eq!(Some("x".to_string()), e.subdir_name);

    let empty: Vec<Option<String>> = vec![];
    assert!(MaildirMboxes::try_from_subdir_names(&empty).unwrap().0.is_empty());
}

use plato_zotero::events::PlatoMessage;
use plato_zotero::fetch::{archive_url, ItemFetch};
use plato_zotero::index::{is_pdf, pdf_attachments, SyncIndex};
use plato_zotero::lifecycle::{line_kind, Controller, HostInput, LineKind, LoopAction, Phase, SyncPolicy};
use plato_zotero::model::{Attachment, BibItem, ChildItem};

fn item(key: &str, title: &str, has_children: bool) -> BibItem {
    BibItem {
        key: key.to_string(),
        title: title.to_string(),
        author: "Grace Hopper".to_string(),
        year: 1952,
        has_children,
    }
}

fn attachment(key: &str, title: &str, content_type: &str) -> ChildItem {
    ChildItem::Attachment(Attachment {
        key: key.to_string(),
        title: title.to_string(),
        content_type: content_type.to_string(),
    })
}

#[test]
fn only_exact_pdf_type_is_kept() {
    let a = |t: &str| Attachment { key: "K".to_string(), title: "T".to_string(), content_type: t.to_string() };
    assert!(is_pdf(&a("application/pdf")));
    assert!(!is_pdf(&a("Application/PDF")));
    assert!(!is_pdf(&a("application/pdf ")));
    assert!(!is_pdf(&a("application/*")));
    assert!(!is_pdf(&a("text/html")));
    let children = vec![
        attachment("A", "one", "application/pdf"),
        ChildItem::Other,
        attachment("B", "two", "text/html"),
        attachment("C", "three", "APPLICATION/PDF"),
        attachment("D", "four", "application/pdf"),
    ];
    let kept = pdf_attachments(&children);
    let keys: Vec<&str> = kept.iter().map(|a| a.key.as_str()).collect();
    assert_eq!(keys, vec!["A", "D"]);
    assert!(pdf_attachments(&vec![]).is_empty());
}

#[test]
fn items_without_children_are_left_out() {
    let items = vec![item("X1", "no kids", false), item("X2", "kids", true), item("X3", "none", false)];
    let queries = SyncIndex::child_queries(&items);
    assert_eq!(queries, vec!["X2".to_string()]);
    let listings = vec![vec![attachment("P", "note", "text/plain")]];
    let index = SyncIndex::resolve(&items, &listings);
    assert_eq!(index.entries().len(), 1);
    assert_eq!(index.entries()[0].item.key, "X2");
    assert!(index.entries()[0].attachments.is_empty());
}

#[test]
fn index_keeps_service_order() {
    let items = vec![item("Z9", "last", true), item("A1", "first", true)];
    assert_eq!(SyncIndex::child_queries(&items), vec!["Z9".to_string(), "A1".to_string()]);
    let listings = vec![vec![attachment("Z", "z", "application/pdf")], vec![]];
    let index = SyncIndex::resolve(&items, &listings);
    let keys: Vec<&str> = index.entries().iter().map(|e| e.item.key.as_str()).collect();
    assert_eq!(keys, vec!["Z9", "A1"]);
    assert_eq!(index.entries()[0].attachments[0].key, "Z");
}

#[test]
fn repeated_key_replaces_its_entry() {
    let items = vec![item("K1", "old", true), item("K2", "other", true), item("K1", "new", true)];
    assert_eq!(
        SyncIndex::child_queries(&items),
        vec!["K1".to_string(), "K2".to_string(), "K1".to_string()]
    );
    let listings = vec![
        vec![attachment("A", "a", "application/pdf")],
        vec![],
        vec![attachment("B", "b", "application/pdf"), attachment("C", "c", "image/png")],
    ];
    let index = SyncIndex::resolve(&items, &listings);
    assert_eq!(index.entries().len(), 2);
    assert_eq!(index.entries()[0].item.title, "new");
    assert_eq!(index.entries()[0].attachments.len(), 1);
    assert_eq!(index.entries()[0].attachments[0].key, "B");
    assert_eq!(index.entries()[1].item.key, "K2");
}

#[test]
fn one_item_one_pdf_end_to_end() {
    let items = vec![item("AB12", "Paper", true)];
    assert_eq!(SyncIndex::child_queries(&items), vec!["AB12".to_string()]);
    let listings = vec![vec![attachment("CD34", "Paper", "application/pdf")]];
    let index = SyncIndex::resolve(&items, &listings);
    assert_eq!(index.entries().len(), 1);
    let entry = &index.entries()[0];
    assert_eq!(entry.item, items[0]);
    assert_eq!(entry.attachments.len(), 1);
    assert_eq!(entry.attachments[0].key, "CD34");

    let mut fetch = ItemFetch::new(entry, "https://dav.example/zotero", "/mnt/onboard/zotero");
    assert_eq!(fetch.folder(), "/mnt/onboard/zotero/AB12");
    assert_eq!(fetch.next_url(), Some("https://dav.example/zotero/CD34.zip".to_string()));
    let path = fetch.file_path("paper.pdf");
    assert!(path.ends_with("AB12/paper.pdf"));
    let event = fetch.file_written(&path, 1024);
    fetch.archive_done();
    assert_eq!(fetch.next_url(), None);
    match event {
        PlatoMessage::AddDocument { info } => {
            assert!(info.file.path.ends_with("AB12/paper.pdf"));
            assert_eq!(info.file.kind, "pdf");
            assert_eq!(info.file.size, 1024);
            assert_eq!(info.identifier, "AB12");
            assert_eq!(info.title, "Paper");
        }
        other => panic!("unexpected {:?}", other),
    }
}

#[test]
fn archive_urls() {
    assert_eq!(archive_url("https://h/dav", "CD34"), "https://h/dav/CD34.zip");
    assert_eq!(archive_url("", "K"), "/K.zip");
}

#[test]
fn one_failed_download_among_three() {
    let items = vec![item("IT01", "Book", true)];
    let listings = vec![vec![
        attachment("A1", "First", "application/pdf"),
        attachment("A2", "Second", "application/pdf"),
        attachment("A3", "Third", "application/pdf"),
    ]];
    let index = SyncIndex::resolve(&items, &listings);
    let mut fetch = ItemFetch::new(&index.entries()[0], "https://store", "/books");
    let mut events = Vec::new();
    let mut urls = Vec::new();
    while let Some(url) = fetch.next_url() {
        urls.push(url.clone());
        if url.ends_with("A2.zip") {
            events.push(fetch.attachment_failed("connection reset"));
        } else {
            let name = if url.ends_with("A1.zip") { "first.pdf" } else { "third.pdf" };
            let path = fetch.file_path(name);
            events.push(fetch.file_written(&path, 10));
            fetch.archive_done();
        }
    }
    assert_eq!(urls, vec!["https://store/A1.zip", "https://store/A2.zip", "https://store/A3.zip"]);
    let notes: Vec<&PlatoMessage> =
        events.iter().filter(|e| matches!(e, PlatoMessage::Notification { .. })).collect();
    assert_eq!(notes.len(), 1);
    assert_eq!(
        *notes[0],
        PlatoMessage::Notification {
            message: "Could not download Zotero Item Second!\nconnection reset".to_string()
        }
    );
    let added = events.iter().filter(|e| matches!(e, PlatoMessage::AddDocument { .. })).count();
    assert_eq!(added, 2);
    assert!(matches!(events[1], PlatoMessage::Notification { .. }));
}

#[test]
fn storage_failure_skips_the_rest_of_the_item() {
    let items = vec![item("IT02", "Thesis", true)];
    let listings = vec![vec![attachment("B1", "x", "application/pdf"), attachment("B2", "y", "application/pdf")]];
    let index = SyncIndex::resolve(&items, &listings);
    let mut fetch = ItemFetch::new(&index.entries()[0], "u", "/r");
    assert_eq!(fetch.next_url(), Some("u/B1.zip".to_string()));
    let event = fetch.item_failed("permission denied");
    assert_eq!(
        event,
        PlatoMessage::Notification {
            message: "Could not store Zotero Item Thesis!\npermission denied".to_string()
        }
    );
    assert_eq!(fetch.next_url(), None);
}

#[test]
fn line_kinds() {
    assert_eq!(line_kind(""), LineKind::EndOfInput);
    assert_eq!(line_kind("\n"), LineKind::Blank);
    assert_eq!(line_kind(" \r\n"), LineKind::Blank);
    assert_eq!(line_kind("\"not json\"\n"), LineKind::Text);
    assert_eq!(line_kind("{\"type\":\"search\",\"results\":[]}\n"), LineKind::Text);
}

#[test]
fn not_json_line_is_malformed_and_the_loop_goes_on() {
    assert_eq!(line_kind("\"not json\"\n"), LineKind::Text);
    let mut c = Controller::new(SyncPolicy::OneShot);
    c.announce("/d");
    assert!(c.keep_running(false));
    assert_eq!(c.on_input(&HostInput::Malformed), LoopAction::Synchronize);
    assert_eq!(c.phase(), Phase::Polling);
    assert!(c.keep_running(false));
}

#[test]
fn one_shot_fetches_on_empty_first_read() {
    assert_eq!(line_kind(""), LineKind::EndOfInput);
    let mut c = Controller::new(SyncPolicy::OneShot);
    c.announce("/d");
    assert!(c.keep_running(false));
    assert_eq!(c.on_input(&HostInput::EndOfInput), LoopAction::Synchronize);
    assert!(c.keep_running(false));
    assert_eq!(c.on_input(&HostInput::EndOfInput), LoopAction::Exit);
    assert_eq!(c.phase(), Phase::Terminated);
}

#[test]
fn one_shot_fetches_on_blank_first_line() {
    assert_eq!(line_kind("\n"), LineKind::Blank);
    let mut c = Controller::new(SyncPolicy::OneShot);
    c.announce("/d");
    assert!(c.keep_running(false));
    assert_eq!(c.on_input(&HostInput::NoEvent), LoopAction::Synchronize);
}

#[test]
fn continuous_ends_at_end_of_input() {
    let mut c = Controller::new(SyncPolicy::Continuous);
    c.announce("/d");
    assert!(c.keep_running(false));
    assert_eq!(c.on_input(&HostInput::EndOfInput), LoopAction::Exit);
    assert_eq!(c.phase(), Phase::Terminated);
}

#[test]
fn startup_announcement() {
    let mut c = Controller::new(SyncPolicy::OneShot);
    assert_eq!(c.phase(), Phase::IndexLoaded);
    let msgs = c.announce("/mnt/onboard/zotero");
    assert_eq!(c.phase(), Phase::Polling);
    assert_eq!(
        msgs,
        vec![
            PlatoMessage::Notification { message: "Zotero Items tagged for Reading loaded!".to_string() },
            PlatoMessage::Search {
                path: "/mnt/onboard/zotero".to_string(),
                query: String::new(),
                sort_by: (String::new(), false)
            },
        ]
    );
}

#[test]
fn one_shot_syncs_once_then_exits() {
    let mut c = Controller::new(SyncPolicy::OneShot);
    c.announce("/d");
    assert!(c.keep_running(false));
    assert_eq!(c.on_input(&HostInput::NoEvent), LoopAction::Synchronize);
    assert!(c.keep_running(false));
    assert_eq!(c.on_input(&HostInput::NoEvent), LoopAction::Exit);
    assert_eq!(c.phase(), Phase::Terminated);
    assert!(!c.keep_running(false));
}

#[test]
fn malformed_line_keeps_the_loop_running() {
    let mut c = Controller::new(SyncPolicy::Continuous);
    c.announce("/d");
    assert!(c.keep_running(false));
    assert_eq!(c.on_input(&HostInput::Malformed), LoopAction::Synchronize);
    assert!(c.keep_running(false));
    assert_eq!(c.on_input(&HostInput::Malformed), LoopAction::Synchronize);
    assert_eq!(c.phase(), Phase::Polling);
}

#[test]
fn continuous_syncs_on_every_line() {
    let mut c = Controller::new(SyncPolicy::Continuous);
    c.announce("/d");
    for _ in 0..3 {
        assert!(c.keep_running(false));
        assert_eq!(c.on_input(&HostInput::Event(plato_zotero::events::PlatoResponse::SearchResults { results: vec![] })), LoopAction::Synchronize);
    }
    assert_eq!(c.on_input(&HostInput::EndOfInput), LoopAction::Exit);
    assert_eq!(c.phase(), Phase::Terminated);
}

#[test]
fn termination_flag_ends_the_loop() {
    let mut c = Controller::new(SyncPolicy::Continuous);
    c.announce("/d");
    assert!(c.keep_running(false));
    assert_eq!(c.on_input(&HostInput::NoEvent), LoopAction::Synchronize);
    assert!(!c.keep_running(true));
    assert_eq!(c.phase(), Phase::Terminated);
    assert!(!c.keep_running(false));
}

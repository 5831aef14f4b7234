use std::io::{Cursor, Write};

use plato_zotero::archive::unpack;
use plato_zotero::events::PlatoMessage;
use plato_zotero::fetch::ItemFetch;
use plato_zotero::index::SyncIndex;
use plato_zotero::model::{Attachment, BibItem, ChildItem};

fn zip_of(files: &[(&str, Vec<u8>)]) -> Vec<u8> {
    let mut w = zip::ZipWriter::new(Cursor::new(Vec::new()));
    for (name, data) in files {
        let options = zip::write::FileOptions::default().compression_method(zip::CompressionMethod::Deflated);
        w.start_file(*name, options).unwrap();
        w.write_all(data).unwrap();
    }
    w.finish().unwrap().into_inner()
}

#[test]
fn unpack_gives_every_file_in_order() {
    let bytes = zip_of(&[("paper.pdf", vec![7u8; 1024]), ("notes.txt", b"hello".to_vec())]);
    let files = unpack(bytes).unwrap();
    assert_eq!(files.len(), 2);
    assert_eq!(files[0].name, "paper.pdf");
    assert_eq!(files[0].data, vec![7u8; 1024]);
    assert_eq!(files[1].name, "notes.txt");
    assert_eq!(files[1].data, b"hello".to_vec());
}

#[test]
fn unpack_of_an_empty_archive_is_empty() {
    assert!(unpack(zip_of(&[])).unwrap().is_empty());
}

#[test]
fn unpack_refuses_what_is_no_archive() {
    assert!(unpack(b"not a zip archive".to_vec()).is_err());
    assert!(unpack(Vec::new()).is_err());
}

fn entry_fetch() -> ItemFetch {
    let items = vec![BibItem {
        key: "AB12".to_string(),
        title: "Paper".to_string(),
        author: "A".to_string(),
        year: 2020,
        has_children: true,
    }];
    let listings = vec![vec![
        ChildItem::Attachment(Attachment {
            key: "CD34".to_string(),
            title: "Broken".to_string(),
            content_type: "application/pdf".to_string(),
        }),
        ChildItem::Attachment(Attachment {
            key: "EF56".to_string(),
            title: "Fine".to_string(),
            content_type: "application/pdf".to_string(),
        }),
    ]];
    let index = SyncIndex::resolve(&items, &listings);
    ItemFetch::new(&index.entries()[0], "https://store", "/books")
}

#[test]
fn unreadable_archive_is_reported_and_skipped() {
    let mut fetch = entry_fetch();
    match fetch.archive_received(b"garbage".to_vec()) {
        Err(PlatoMessage::Notification { message }) => {
            assert!(message.starts_with("Could not download Zotero Item Broken!\n"));
            assert!(message.len() > "Could not download Zotero Item Broken!\n".len());
        }
        other => panic!("unexpected {:?}", other),
    }
    assert_eq!(fetch.next_url(), Some("https://store/EF56.zip".to_string()));
}

#[test]
fn archive_of_one_pdf_becomes_one_document() {
    let mut fetch = entry_fetch();
    fetch.attachment_failed("timeout");
    let files = fetch.archive_received(zip_of(&[("paper.pdf", vec![1u8; 1024])])).unwrap();
    assert_eq!(fetch.next_url(), Some("https://store/EF56.zip".to_string()));
    assert_eq!(files.len(), 1);
    let path = fetch.file_path(&files[0].name);
    assert_eq!(path, "/books/AB12/paper.pdf");
    match fetch.file_written(&path, files[0].data.len() as u64) {
        PlatoMessage::AddDocument { info } => {
            assert!(info.file.path.ends_with("AB12/paper.pdf"));
            assert_eq!(info.file.kind, "pdf");
            assert_eq!(info.file.size, 1024);
        }
        other => panic!("unexpected {:?}", other),
    }
    fetch.archive_done();
    assert_eq!(fetch.next_url(), None);
}

#[test]
fn one_failed_download_among_three_archives() {
    let items = vec![BibItem {
        key: "IT09".to_string(),
        title: "Book".to_string(),
        author: "B".to_string(),
        year: 2001,
        has_children: true,
    }];
    let att = |k: &str, t: &str| {
        ChildItem::Attachment(Attachment {
            key: k.to_string(),
            title: t.to_string(),
            content_type: "application/pdf".to_string(),
        })
    };
    let listings = vec![vec![att("A1", "First"), att("A2", "Second"), att("A3", "Third")]];
    let index = SyncIndex::resolve(&items, &listings);
    let mut fetch = ItemFetch::new(&index.entries()[0], "https://store", "/books");
    let mut events = Vec::new();
    while let Some(url) = fetch.next_url() {
        if url.ends_with("A2.zip") {
            events.push(fetch.attachment_failed("network unreachable"));
            continue;
        }
        let name = if url.ends_with("A1.zip") { "one.pdf" } else { "three.pdf" };
        match fetch.archive_received(zip_of(&[(name, vec![0u8; 64])])) {
            Ok(files) => {
                for f in &files {
                    let path = fetch.file_path(&f.name);
                    events.push(fetch.file_written(&path, f.data.len() as u64));
                }
                fetch.archive_done();
            }
            Err(notice) => events.push(notice),
        }
    }
    assert_eq!(events.len(), 3);
    match &events[0] {
        PlatoMessage::AddDocument { info } => assert_eq!(info.file.path, "/books/IT09/one.pdf"),
        other => panic!("unexpected {:?}", other),
    }
    assert_eq!(
        events[1],
        PlatoMessage::Notification {
            message: "Could not download Zotero Item Second!\nnetwork unreachable".to_string()
        }
    );
    match &events[2] {
        PlatoMessage::AddDocument { info } => assert_eq!(info.file.path, "/books/IT09/three.pdf"),
        other => panic!("unexpected {:?}", other),
    }
}

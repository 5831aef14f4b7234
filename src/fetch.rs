//! The archive fetcher for one item: which archive to request next, where
//! its files go, and what the host is told about each outcome. Download and
//! archive failures are isolated per attachment; only a failure to store
//! files stops the item.

use vstd::prelude::*;

use crate::archive::{archive_reads, files_of, unpack, ArchiveFile};
use crate::events::{announces, notifies, PlatoMessage};
use crate::index::{copy_attachment, copy_item, IndexEntry};
use crate::model::{Attachment, BibItem};

verus! {

/// `{base}/{key}.zip`: where the document store keeps an attachment.
pub open spec fn archive_url_of(base: Seq<char>, key: Seq<char>) -> Seq<char> {
    base + "/"@ + key + ".zip"@
}

/// `{root}/{key}`: the folder that receives an item's files.
pub open spec fn folder_of(root: Seq<char>, key: Seq<char>) -> Seq<char> {
    root + "/"@ + key
}

/// The notice for an attachment whose archive could not be had.
pub open spec fn attachment_failure_text(title: Seq<char>, error: Seq<char>) -> Seq<char> {
    "Could not download Zotero Item "@ + title + "!\n"@ + error
}

/// The notice for an item whose files could not be stored: its folder could
/// not be made, or one of its files could not be written.
pub open spec fn item_failure_text(title: Seq<char>, error: Seq<char>) -> Seq<char> {
    "Could not store Zotero Item "@ + title + "!\n"@ + error
}

/// Where a fetch for one item stands.
pub struct FetchState {
    pub item: BibItem,
    pub attachments: Seq<Attachment>,
    pub base_url: Seq<char>,
    pub folder: Seq<char>,
    /// How many attachments have been dealt with.
    pub next: nat,
}

/// The fetch of one item's attachments, one at a time, in index order.
pub struct ItemFetch {
    item: BibItem,
    attachments: Vec<Attachment>,
    base_url: String,
    folder: String,
    next: usize,
}

impl View for ItemFetch {
    type V = FetchState;

    closed spec fn view(&self) -> FetchState {
        FetchState {
            item: self.item,
            attachments: self.attachments@,
            base_url: self.base_url@,
            folder: self.folder@,
            next: self.next as nat,
        }
    }
}

/// The archive URL of an attachment.
pub fn archive_url(base_url: &str, key: &str) -> (r: String)
    ensures
        r@ == archive_url_of(base_url@, key@),
{
    let mut s = String::from_str(base_url);
    s.append("/");
    s.append(key);
    s.append(".zip");
    s
}

impl ItemFetch {
    pub closed spec fn wf(&self) -> bool {
        self.next <= self.attachments@.len()
    }

    /// Starts the fetch of an index entry, its files going to a folder named
    /// by the item's key under `root`.
    pub fn new(entry: &IndexEntry, base_url: &str, root: &str) -> (r: Self)
        ensures
            r.wf(),
            r@ == (FetchState {
                item: entry.item,
                attachments: entry.attachments@,
                base_url: base_url@,
                folder: folder_of(root@, entry.item.key@),
                next: 0,
            }),
    {
        let mut attachments: Vec<Attachment> = Vec::new();
        let mut i: usize = 0;
        while i < entry.attachments.len()
            invariant
                i <= entry.attachments@.len(),
                attachments@ == entry.attachments@.subrange(0, i as int),
            decreases entry.attachments@.len() - i,
        {
            attachments.push(copy_attachment(&entry.attachments[i]));
            i = i + 1;
        }
        assert(entry.attachments@.subrange(0, i as int) == entry.attachments@);
        let mut folder = String::from_str(root);
        folder.append("/");
        folder.append(entry.item.key.as_str());
        ItemFetch {
            item: copy_item(&entry.item),
            attachments,
            base_url: String::from_str(base_url),
            folder,
            next: 0,
        }
    }

    /// The folder that receives the item's files.
    pub fn folder(&self) -> (r: &String)
        ensures
            r@ == self@.folder,
    {
        &self.folder
    }

    /// The URL of the archive to request next, or `None` once every
    /// attachment has been dealt with.
    pub fn next_url(&self) -> (r: Option<String>)
        requires
            self.wf(),
        ensures
            self@.next < self@.attachments.len() ==> (r matches Some(u) && u@ == archive_url_of(
                self@.base_url,
                self@.attachments[self@.next as int].key@,
            )),
            self@.next >= self@.attachments.len() ==> r is None,
    {
        if self.next < self.attachments.len() {
            Some(archive_url(self.base_url.as_str(), self.attachments[self.next].key.as_str()))
        } else {
            None
        }
    }

    /// The path that an archive entry named `entry_name` is written to.
    pub fn file_path(&self, entry_name: &str) -> (r: String)
        ensures
            r@ == self@.folder + "/"@ + entry_name@,
    {
        let mut s = self.folder.clone();
        s.append("/");
        s.append(entry_name);
        s
    }

    /// Announces a file of the current archive, written to `path`.
    pub fn file_written(&self, path: &str, size: u64) -> (r: PlatoMessage)
        ensures
            announces(r, path@, self@.item, size),
    {
        PlatoMessage::add_document(path, &self.item, size)
    }

    /// The current archive arrived. When it reads, all its files come back,
    /// with their names and bytes in archive order, to be written, and the
    /// fetch stays on this attachment. When it does not, the notice for the
    /// host comes back, with the attachment's title and zip's error, and
    /// the fetch goes on with the next attachment.
    pub fn archive_received(&mut self, bytes: Vec<u8>) -> (r: Result<Vec<ArchiveFile>, PlatoMessage>)
        requires
            old(self).wf(),
            old(self)@.next < old(self)@.attachments.len(),
        ensures
            final(self).wf(),
            r is Ok <==> archive_reads(bytes@),
            r matches Ok(files) ==> files_of(files@, bytes@) && final(self)@ == old(self)@,
            r matches Err(m) ==> final(self)@ == (FetchState { next: old(self)@.next + 1, ..old(self)@ })
                && exists|e: Seq<char>| notifies(
                    m,
                    attachment_failure_text(old(self)@.attachments[old(self)@.next as int].title@, e),
                ),
    {
        match unpack(bytes) {
            Ok(files) => Ok(files),
            Err(e) => Err(self.attachment_failed(e.as_str())),
        }
    }

    /// The current archive has been unpacked: go on with the next one.
    pub fn archive_done(&mut self)
        requires
            old(self).wf(),
            old(self)@.next < old(self)@.attachments.len(),
        ensures
            final(self).wf(),
            final(self)@ == (FetchState { next: old(self)@.next + 1, ..old(self)@ }),
    {
        let n = self.attachments.len();
        assert(self.next < n);
        self.next = self.next + 1;
    }

    /// The current archive could not be downloaded or read: the host is
    /// told, with the attachment's title and the error, and the fetch goes
    /// on with the next attachment.
    pub fn attachment_failed(&mut self, error: &str) -> (r: PlatoMessage)
        requires
            old(self).wf(),
            old(self)@.next < old(self)@.attachments.len(),
        ensures
            final(self).wf(),
            final(self)@ == (FetchState { next: old(self)@.next + 1, ..old(self)@ }),
            notifies(
                r,
                attachment_failure_text(old(self)@.attachments[old(self)@.next as int].title@, error@),
            ),
    {
        let mut text = String::from_str("Could not download Zotero Item ");
        text.append(self.attachments[self.next].title.as_str());
        text.append("!\n");
        text.append(error);
        let n = self.attachments.len();
        assert(self.next < n);
        self.next = self.next + 1;
        PlatoMessage::notify(text.as_str())
    }

    /// The item's folder could not be made, or one of its files could not
    /// be written: the host is told, and none of the item's remaining
    /// attachments is fetched.
    pub fn item_failed(&mut self, error: &str) -> (r: PlatoMessage)
        requires
            old(self).wf(),
        ensures
            final(self).wf(),
            final(self)@ == (FetchState { next: old(self)@.attachments.len(), ..old(self)@ }),
            notifies(r, item_failure_text(old(self)@.item.title@, error@)),
    {
        let mut text = String::from_str("Could not store Zotero Item ");
        text.append(self.item.title.as_str());
        text.append("!\n");
        text.append(error);
        self.next = self.attachments.len();
        PlatoMessage::notify(text.as_str())
    }
}

} // verus!

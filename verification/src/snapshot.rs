//! The root list as the server last reported it.

use crate::clock::Clock;
use crate::identifier::{in_use, is_identifier, GenerateError};
use crate::request::{fresh_request, FolderRequest};
use serde_json::Value;
use std::collections::HashMap;
use vstd::prelude::*;

verus! {

/// One entry of the flat list: a playlist, or the marker that opens or
/// closes a folder. Which of them is told by the shape of the URI alone.
#[derive(Debug, PartialEq)]
pub struct RootListItem {
    pub uri: String,
    pub attributes: HashMap<String, Value>,
}

pub struct RootListItemView {
    pub uri: Seq<char>,
    pub attributes: Map<String, Value>,
}

impl View for RootListItem {
    type V = RootListItemView;

    open spec fn view(&self) -> RootListItemView {
        RootListItemView { uri: self.uri@, attributes: self.attributes@ }
    }
}

/// What the server knows of the entry at the same index. Any part may be
/// missing; for folder markers all of them usually are.
#[derive(Debug, PartialEq)]
pub struct RootListMetaItem {
    pub revision: Option<String>,
    pub attributes: Option<HashMap<String, Value>>,
    pub length: Option<u32>,
    pub timestamp: Option<String>,
    pub owner_username: Option<String>,
}

pub struct RootListMetaItemView {
    pub revision: Option<Seq<char>>,
    pub attributes: Option<Map<String, Value>>,
    pub length: Option<u32>,
    pub timestamp: Option<Seq<char>>,
    pub owner_username: Option<Seq<char>>,
}

/// The text of a string that may be missing.
pub open spec fn text_of(s: Option<String>) -> Option<Seq<char>> {
    match s {
        Some(s) => Some(s@),
        None => None,
    }
}

impl View for RootListMetaItem {
    type V = RootListMetaItemView;

    open spec fn view(&self) -> RootListMetaItemView {
        RootListMetaItemView {
            revision: text_of(self.revision),
            attributes: match self.attributes {
                Some(a) => Some(a@),
                None => None,
            },
            length: self.length,
            timestamp: text_of(self.timestamp),
            owner_username: text_of(self.owner_username),
        }
    }
}

/// The entries and their metadata, index by index.
#[derive(Debug, PartialEq)]
pub struct RootListContent {
    pub pos: u32,
    pub truncated: bool,
    pub items: Vec<RootListItem>,
    pub meta_items: Vec<RootListMetaItem>,
}

pub struct RootListContentView {
    pub pos: u32,
    pub truncated: bool,
    pub items: Seq<RootListItemView>,
    pub meta_items: Seq<RootListMetaItemView>,
}

impl View for RootListContent {
    type V = RootListContentView;

    open spec fn view(&self) -> RootListContentView {
        RootListContentView {
            pos: self.pos,
            truncated: self.truncated,
            items: self.items@.map_values(|i: RootListItem| i@),
            meta_items: self.meta_items@.map_values(|m: RootListMetaItem| m@),
        }
    }
}

/// Why a document is no snapshot.
#[derive(Clone, Copy, Debug, PartialEq, Eq, Structural)]
pub enum SnapshotError {
    /// The entries and the metadata records differ in number.
    Misaligned,
}

/// A snapshot of the root list at one revision, together with the folder
/// identifiers that were handed out for it since.
///
/// The snapshot itself never changes: a change is a request sent to the
/// server, which answers with a new revision. Only the record of handed-out
/// identifiers grows, so a snapshot has one owner at a time.
#[derive(Debug, PartialEq)]
pub struct RootList {
    pub revision: String,
    length: u32,
    attributes: HashMap<String, Value>,
    timestamp: String,
    contents: RootListContent,
    generated_uris: Vec<String>,
}

pub struct RootListView {
    pub revision: Seq<char>,
    pub length: u32,
    pub attributes: Map<String, Value>,
    pub timestamp: Seq<char>,
    pub contents: RootListContentView,
    pub generated_uris: Seq<Seq<char>>,
}

impl RootListView {
    /// Every entry has its metadata record.
    pub open spec fn aligned(self) -> bool {
        self.contents.items.len() == self.contents.meta_items.len()
    }

    /// The texts that a new identifier must differ from: the URI of every
    /// entry, then every identifier handed out so far.
    pub open spec fn taken(self) -> Seq<Seq<char>> {
        self.contents.items.map_values(|i: RootListItemView| i.uri) + self.generated_uris
    }
}

impl View for RootList {
    type V = RootListView;

    closed spec fn view(&self) -> RootListView {
        RootListView {
            revision: self.revision@,
            length: self.length,
            attributes: self.attributes@,
            timestamp: self.timestamp@,
            contents: self.contents@,
            generated_uris: self.generated_uris@.map_values(|s: String| s@),
        }
    }
}

impl RootList {
    /// Whether the snapshot is well formed: every entry has its metadata
    /// record.
    pub open spec fn wf(&self) -> bool {
        self@.aligned()
    }

    /// The snapshot that a document with these parts describes. A document
    /// whose entries and metadata records differ in number is refused.
    pub fn new(
        revision: String,
        length: u32,
        attributes: HashMap<String, Value>,
        timestamp: String,
        contents: RootListContent,
    ) -> (r: Result<Self, SnapshotError>)
        ensures
            match r {
                Ok(list) => {
                    &&& contents.items@.len() == contents.meta_items@.len()
                    &&& list.wf()
                    &&& list@ == (RootListView {
                        revision: revision@,
                        length,
                        attributes: attributes@,
                        timestamp: timestamp@,
                        contents: contents@,
                        generated_uris: Seq::empty(),
                    })
                },
                Err(e) => e == SnapshotError::Misaligned && contents.items@.len()
                    != contents.meta_items@.len(),
            },
    {
        if contents.items.len() != contents.meta_items.len() {
            return Err(SnapshotError::Misaligned);
        }
        let generated_uris: Vec<String> = Vec::new();
        assert(generated_uris@.map_values(|s: String| s@) =~= Seq::empty());
        Ok(RootList { revision, length, attributes, timestamp, contents, generated_uris })
    }

    /// The number of entries that the server counts in the list.
    pub fn length(&self) -> (r: u32)
        ensures
            r == self@.length,
    {
        self.length
    }

    /// The list's own attributes, as the server sent them.
    pub fn attributes(&self) -> (r: &HashMap<String, Value>)
        ensures
            r@ == self@.attributes,
    {
        &self.attributes
    }

    /// When the server last changed the list, as it wrote it.
    pub fn timestamp(&self) -> (r: &String)
        ensures
            r@ == self@.timestamp,
    {
        &self.timestamp
    }

    /// The entries and their metadata.
    pub fn contents(&self) -> (r: &RootListContent)
        ensures
            r@ == self@.contents,
    {
        &self.contents
    }

    /// The identifiers handed out so far, oldest first.
    pub fn generated_uris(&self) -> (r: &Vec<String>)
        ensures
            r@.map_values(|s: String| s@) == self@.generated_uris,
    {
        &self.generated_uris
    }

    /// An empty request against this snapshot's revision.
    pub fn new_request(&self) -> (r: FolderRequest)
        ensures
            r@ == fresh_request(self@.revision, Clock::System),
    {
        FolderRequest::new(self.revision.as_str())
    }

    /// A fresh folder identifier: well-formed, different from the URI of
    /// every entry and from every identifier that this snapshot handed out
    /// before. It is recorded, so that the next call avoids it too; nothing
    /// else of the snapshot changes. Where the generator gives up, nothing
    /// changes at all.
    pub fn generate_folder_uri(&mut self) -> (r: Result<String, GenerateError>)
        ensures
            final(self).wf() == old(self).wf(),
            match r {
                Ok(id) => {
                    &&& is_identifier(id@)
                    &&& !old(self)@.taken().contains(id@)
                    &&& final(self)@ == (RootListView {
                        generated_uris: old(self)@.generated_uris.push(id@),
                        ..old(self)@
                    })
                },
                Err(e) => {
                    &&& e == GenerateError::Exhausted
                    &&& final(self)@ == old(self)@
                    &&& exists|i: int|
                        0 <= i < old(self)@.taken().len() && is_identifier(
                            #[trigger] old(self)@.taken()[i],
                        )
                },
            },
    {
        let ghost taken = self@.taken();
        let n = self.contents.items.len();
        let mut all: Vec<&String> = Vec::new();
        let mut i: usize = 0;
        while i < n
            invariant
                n == self.contents.items@.len(),
                i <= n,
                all@.len() == i,
                forall|j: int| 0 <= j < i ==> (#[trigger] all@[j])@ == self.contents.items@[j].uri@,
            decreases n - i,
        {
            all.push(&self.contents.items[i].uri);
            i += 1;
        }
        let m = self.generated_uris.len();
        let mut k: usize = 0;
        while k < m
            invariant
                n == self.contents.items@.len(),
                m == self.generated_uris@.len(),
                k <= m,
                all@.len() == n + k,
                forall|j: int| 0 <= j < n ==> (#[trigger] all@[j])@ == self.contents.items@[j].uri@,
                forall|j: int| 0 <= j < k ==> (#[trigger] all@[n + j])@ == self.generated_uris@[j]@,
            decreases m - k,
        {
            all.push(&self.generated_uris[k]);
            k += 1;
        }
        proof {
            assert(taken.len() == all@.len());
            assert forall|j: int| 0 <= j < all@.len() implies (#[trigger] all@[j])@ == taken[j] by {
                if j >= n {
                    assert(all@[n + (j - n)]@ == self.generated_uris@[j - n]@);
                }
            }
            assert forall|s: Seq<char>| in_use(all@, s) == taken.contains(s) by {
                if in_use(all@, s) {
                    let j = choose|j: int| 0 <= j < all@.len() && (#[trigger] all@[j])@ == s;
                    assert(taken[j] == s);
                }
                if taken.contains(s) {
                    let j = choose|j: int| 0 <= j < taken.len() && taken[j] == s;
                    assert(all@[j]@ == s);
                }
            }
        }
        let ghost before = self.generated_uris@;
        match crate::identifier::generate_folder_uri(all) {
            Ok(id) => {
                self.generated_uris.push(id.clone());
                assert(self.generated_uris@.map_values(|s: String| s@) =~= before.map_values(
                    |s: String| s@,
                ).push(id@));
                Ok(id)
            },
            Err(e) => {
                proof {
                    let j = choose|j: int|
                        0 <= j < all@.len() && is_identifier((#[trigger] all@[j])@);
                    assert(is_identifier(taken[j]));
                }
                Err(e)
            },
        }
    }
}

} // verus!

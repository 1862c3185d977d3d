//! The mutation payload: operations, the delta that groups them, and the
//! envelope that is submitted against a base revision.

use crate::decimal::{decimal, decimal_string};
use serde_json::Value;
use vstd::prelude::*;

verus! {

/// Creation attributes of an inserted item.
#[derive(Debug, PartialEq)]
pub struct OperationItemAttrs {
    pub added_by: String,
    pub timestamp: String,
    pub seen_at: String,
    pub public: bool,
    pub format_attributes: Vec<Value>,
}

pub struct OperationItemAttrsView {
    pub added_by: Seq<char>,
    pub timestamp: Seq<char>,
    pub seen_at: Seq<char>,
    pub public: bool,
    pub format_attributes: Seq<Value>,
}

impl View for OperationItemAttrs {
    type V = OperationItemAttrsView;

    open spec fn view(&self) -> OperationItemAttrsView {
        OperationItemAttrsView {
            added_by: self.added_by@,
            timestamp: self.timestamp@,
            seen_at: self.seen_at@,
            public: self.public,
            format_attributes: self.format_attributes@,
        }
    }
}

impl Clone for OperationItemAttrs {
    fn clone(&self) -> (r: Self)
        ensures
            r@ == self@,
    {
        let format_attributes = self.format_attributes.clone();
        assert(format_attributes@ =~= self.format_attributes@);
        OperationItemAttrs {
            added_by: self.added_by.clone(),
            timestamp: self.timestamp.clone(),
            seen_at: self.seen_at.clone(),
            public: self.public,
            format_attributes,
        }
    }
}

/// The attributes of an item created `millis` milliseconds after the epoch:
/// nobody named as adder, the creation time in decimal, never seen, not
/// public, no format attributes.
pub open spec fn stamped_attrs(millis: nat) -> OperationItemAttrsView {
    OperationItemAttrsView {
        added_by: Seq::empty(),
        timestamp: decimal(millis),
        seen_at: seq!['0'],
        public: false,
        format_attributes: Seq::empty(),
    }
}

impl OperationItemAttrs {
    /// Attributes of an item created at `millis`.
    pub fn stamped(millis: u128) -> (r: Self)
        ensures
            r@ == stamped_attrs(millis as nat),
    {
        proof {
            reveal_strlit("0");
        }
        let seen_at = String::from_str("0");
        assert(seen_at@ =~= seq!['0']);
        OperationItemAttrs {
            added_by: String::new(),
            timestamp: decimal_string(millis),
            seen_at,
            public: false,
            format_attributes: Vec::new(),
        }
    }
}

/// An item that an add operation inserts.
#[derive(Debug, PartialEq)]
pub struct OperationItem {
    pub uri: String,
    pub attributes: OperationItemAttrs,
}

pub struct OperationItemView {
    pub uri: Seq<char>,
    pub attributes: OperationItemAttrsView,
}

impl View for OperationItem {
    type V = OperationItemView;

    open spec fn view(&self) -> OperationItemView {
        OperationItemView { uri: self.uri@, attributes: self.attributes@ }
    }
}

impl Clone for OperationItem {
    fn clone(&self) -> (r: Self)
        ensures
            r@ == self@,
    {
        OperationItem { uri: self.uri.clone(), attributes: self.attributes.clone() }
    }
}

/// URI of the playlist `id`.
pub open spec fn playlist_uri(id: Seq<char>) -> Seq<char> {
    "spotify:playlist:"@ + id
}

/// URI of the marker that opens the folder `id`, shown as `name`.
pub open spec fn start_folder_uri(id: Seq<char>, name: Seq<char>) -> Seq<char> {
    "spotify:start-group:"@ + id + ":"@ + name
}

/// URI of the marker that closes the folder `id`.
pub open spec fn end_folder_uri(id: Seq<char>) -> Seq<char> {
    "spotify:end-group:"@ + id
}

/// The item with the given URI, created at `millis`.
pub open spec fn item_at(uri: Seq<char>, millis: nat) -> OperationItemView {
    OperationItemView { uri, attributes: stamped_attrs(millis) }
}

impl OperationItem {
    /// A reference to the playlist `uri`, created at `millis`.
    pub fn new_playlist(uri: String, millis: u128) -> (r: Self)
        ensures
            r@ == item_at(playlist_uri(uri@), millis as nat),
    {
        let full = String::from_str("spotify:playlist:").concat(uri.as_str());
        OperationItem { uri: full, attributes: OperationItemAttrs::stamped(millis) }
    }

    /// The marker that opens the folder `uri` under the name `folder_name`,
    /// created at `millis`.
    pub fn new_start_folder(uri: &str, folder_name: &str, millis: u128) -> (r: Self)
        ensures
            r@ == item_at(start_folder_uri(uri@, folder_name@), millis as nat),
    {
        let mut full = String::from_str("spotify:start-group:");
        full.append(uri);
        full.append(":");
        full.append(folder_name);
        OperationItem { uri: full, attributes: OperationItemAttrs::stamped(millis) }
    }

    /// The marker that closes the folder `uri`, created at `millis`.
    pub fn new_end_folder(uri: &str, millis: u128) -> (r: Self)
        ensures
            r@ == item_at(end_folder_uri(uri@), millis as nat),
    {
        let full = String::from_str("spotify:end-group:").concat(uri);
        OperationItem { uri: full, attributes: OperationItemAttrs::stamped(millis) }
    }
}

/// The views of a run of items, in order.
pub open spec fn items_view(items: Seq<OperationItem>) -> Seq<OperationItemView> {
    items.map_values(|i: OperationItem| i@)
}

/// Insert `items` so that the first of them lands at `from_index`.
#[derive(Debug, PartialEq)]
pub struct AddOperation {
    pub from_index: u32,
    pub items: Vec<OperationItem>,
    pub add_last: bool,
    pub add_first: bool,
}

pub struct AddOperationView {
    pub from_index: u32,
    pub items: Seq<OperationItemView>,
    pub add_last: bool,
    pub add_first: bool,
}

impl View for AddOperation {
    type V = AddOperationView;

    open spec fn view(&self) -> AddOperationView {
        AddOperationView {
            from_index: self.from_index,
            items: items_view(self.items@),
            add_last: self.add_last,
            add_first: self.add_first,
        }
    }
}

impl Clone for AddOperation {
    fn clone(&self) -> (r: Self)
        ensures
            r@ == self@,
    {
        let items = self.items.clone();
        assert(items_view(items@) =~= items_view(self.items@));
        AddOperation {
            from_index: self.from_index,
            items,
            add_last: self.add_last,
            add_first: self.add_first,
        }
    }
}

/// Delete `length` consecutive items, the first of them at `from_index`.
#[derive(Debug, PartialEq)]
pub struct RemoveOperation {
    pub from_index: u32,
    pub length: u32,
    pub items: Vec<Value>,
    pub items_as_key: bool,
}

pub struct RemoveOperationView {
    pub from_index: u32,
    pub length: u32,
    pub items: Seq<Value>,
    pub items_as_key: bool,
}

impl View for RemoveOperation {
    type V = RemoveOperationView;

    open spec fn view(&self) -> RemoveOperationView {
        RemoveOperationView {
            from_index: self.from_index,
            length: self.length,
            items: self.items@,
            items_as_key: self.items_as_key,
        }
    }
}

impl Clone for RemoveOperation {
    fn clone(&self) -> (r: Self)
        ensures
            r@ == self@,
    {
        let items = self.items.clone();
        assert(items@ =~= self.items@);
        RemoveOperation {
            from_index: self.from_index,
            length: self.length,
            items,
            items_as_key: self.items_as_key,
        }
    }
}

/// Relocate `length` consecutive items from `from_index` to `to_index`.
#[derive(Clone, Copy, Debug, PartialEq, Eq, Structural)]
pub struct MoveOperation {
    pub from_index: u32,
    pub to_index: u32,
    pub length: u32,
}

/// One structural mutation of the list.
#[derive(Debug, PartialEq)]
pub enum Operation {
    Add(AddOperation),
    Rem(RemoveOperation),
    Mov(MoveOperation),
}

pub enum OperationView {
    Add(AddOperationView),
    Rem(RemoveOperationView),
    Mov(MoveOperation),
}

impl View for Operation {
    type V = OperationView;

    open spec fn view(&self) -> OperationView {
        match *self {
            Operation::Add(a) => OperationView::Add(a@),
            Operation::Rem(r) => OperationView::Rem(r@),
            Operation::Mov(m) => OperationView::Mov(m),
        }
    }
}

impl Clone for Operation {
    fn clone(&self) -> (r: Self)
        ensures
            r@ == self@,
    {
        match self {
            Operation::Add(a) => Operation::Add(a.clone()),
            Operation::Rem(r) => Operation::Rem(r.clone()),
            Operation::Mov(m) => Operation::Mov(*m),
        }
    }
}

/// The operation that inserts the single item `item` at `from_index`.
pub open spec fn insertion(from_index: u32, item: OperationItemView) -> OperationView {
    OperationView::Add(
        AddOperationView { from_index, items: seq![item], add_last: false, add_first: false },
    )
}

/// The operation that deletes `length` items from `from_index` on.
pub open spec fn removal(from_index: u32, length: u32) -> OperationView {
    OperationView::Rem(
        RemoveOperationView { from_index, length, items: Seq::empty(), items_as_key: false },
    )
}

/// The operation that moves `length` items from `from_index` to `to_index`.
pub open spec fn relocation(from_index: u32, to_index: u32, length: u32) -> OperationView {
    OperationView::Mov(MoveOperation { from_index, to_index, length })
}

impl Operation {
    /// Inserts the one item `item` at `from_index`.
    pub fn insert_one(from_index: u32, item: OperationItem) -> (r: Self)
        ensures
            r@ == insertion(from_index, item@),
    {
        let mut items = Vec::new();
        items.push(item);
        assert(items_view(items@) =~= seq![item@]);
        Operation::Add(AddOperation { from_index, items, add_last: false, add_first: false })
    }

    /// Deletes `length` items from `from_index` on.
    pub fn remove_run(from_index: u32, length: u32) -> (r: Self)
        ensures
            r@ == removal(from_index, length),
    {
        Operation::Rem(
            RemoveOperation { from_index, length, items: Vec::new(), items_as_key: false },
        )
    }

    /// Moves `length` items from `from_index` to `to_index`.
    pub fn move_run(from_index: u32, to_index: u32, length: u32) -> (r: Self)
        ensures
            r@ == relocation(from_index, to_index, length),
    {
        Operation::Mov(MoveOperation { from_index, to_index, length })
    }
}

/// The views of a sequence of operations, in order.
pub open spec fn ops_view(ops: Seq<Operation>) -> Seq<OperationView> {
    ops.map_values(|o: Operation| o@)
}

/// The client that a delta originates from.
#[derive(Debug, PartialEq)]
pub struct DeltaInfoSource {
    pub client: String,
    pub app: String,
    pub source: String,
    pub version: String,
}

pub struct DeltaInfoSourceView {
    pub client: Seq<char>,
    pub app: Seq<char>,
    pub source: Seq<char>,
    pub version: Seq<char>,
}

impl View for DeltaInfoSource {
    type V = DeltaInfoSourceView;

    open spec fn view(&self) -> DeltaInfoSourceView {
        DeltaInfoSourceView {
            client: self.client@,
            app: self.app@,
            source: self.source@,
            version: self.version@,
        }
    }
}

/// The origin that this client states: the web player, and nothing more.
pub open spec fn web_player() -> DeltaInfoSourceView {
    DeltaInfoSourceView {
        client: "WEBPLAYER"@,
        app: Seq::empty(),
        source: Seq::empty(),
        version: Seq::empty(),
    }
}

impl Default for DeltaInfoSource {
    fn default() -> (r: Self)
        ensures
            r@ == web_player(),
    {
        DeltaInfoSource {
            client: String::from_str("WEBPLAYER"),
            app: String::new(),
            source: String::new(),
            version: String::new(),
        }
    }
}

/// Authorship and provenance of a delta.
#[derive(Debug, PartialEq)]
pub struct DeltaInfo {
    pub user: String,
    pub timestamp: String,
    pub admin: bool,
    pub undo: bool,
    pub redo: bool,
    pub merge: bool,
    pub compressed: bool,
    pub migration: bool,
    pub split_id: i32,
    pub source: DeltaInfoSource,
}

pub struct DeltaInfoView {
    pub user: Seq<char>,
    pub timestamp: Seq<char>,
    pub admin: bool,
    pub undo: bool,
    pub redo: bool,
    pub merge: bool,
    pub compressed: bool,
    pub migration: bool,
    pub split_id: i32,
    pub source: DeltaInfoSourceView,
}

impl View for DeltaInfo {
    type V = DeltaInfoView;

    open spec fn view(&self) -> DeltaInfoView {
        DeltaInfoView {
            user: self.user@,
            timestamp: self.timestamp@,
            admin: self.admin,
            undo: self.undo,
            redo: self.redo,
            merge: self.merge,
            compressed: self.compressed,
            migration: self.migration,
            split_id: self.split_id,
            source: self.source@,
        }
    }
}

/// The provenance of a fresh edit: no user, timestamp `"0"`, every flag
/// off, split 0, sent by the web player.
pub open spec fn fresh_edit() -> DeltaInfoView {
    DeltaInfoView {
        user: Seq::empty(),
        timestamp: seq!['0'],
        admin: false,
        undo: false,
        redo: false,
        merge: false,
        compressed: false,
        migration: false,
        split_id: 0,
        source: web_player(),
    }
}

impl Default for DeltaInfo {
    fn default() -> (r: Self)
        ensures
            r@ == fresh_edit(),
    {
        proof {
            reveal_strlit("0");
        }
        let timestamp = String::from_str("0");
        assert(timestamp@ =~= seq!['0']);
        DeltaInfo {
            user: String::new(),
            timestamp,
            admin: false,
            undo: false,
            redo: false,
            merge: false,
            compressed: false,
            migration: false,
            split_id: 0i32,
            source: DeltaInfoSource::default(),
        }
    }
}

/// One atomic batch of operations, applied in order, each against the
/// indices that the one before it left.
#[derive(Debug, PartialEq)]
pub struct Delta {
    pub ops: Vec<Operation>,
    pub info: DeltaInfo,
}

pub struct DeltaView {
    pub ops: Seq<OperationView>,
    pub info: DeltaInfoView,
}

impl View for Delta {
    type V = DeltaView;

    open spec fn view(&self) -> DeltaView {
        DeltaView { ops: ops_view(self.ops@), info: self.info@ }
    }
}

impl Default for Delta {
    fn default() -> (r: Self)
        ensures
            r@ == (DeltaView { ops: Seq::empty(), info: fresh_edit() }),
    {
        let ops: Vec<Operation> = Vec::new();
        assert(ops_view(ops@) =~= Seq::empty());
        Delta { ops, info: DeltaInfo::default() }
    }
}

/// The views of a sequence of deltas, in order.
pub open spec fn deltas_view(deltas: Seq<Delta>) -> Seq<DeltaView> {
    deltas.map_values(|d: Delta| d@)
}

/// The envelope that is submitted: deltas against a base revision.
#[derive(Debug, PartialEq)]
pub struct Changes {
    pub base_revision: String,
    pub deltas: Vec<Delta>,
    pub want_resulting_revisions: bool,
    pub want_sync_result: bool,
    pub nonces: Vec<Value>,
}

pub struct ChangesView {
    pub base_revision: Seq<char>,
    pub deltas: Seq<DeltaView>,
    pub want_resulting_revisions: bool,
    pub want_sync_result: bool,
    pub nonces: Seq<Value>,
}

impl View for Changes {
    type V = ChangesView;

    open spec fn view(&self) -> ChangesView {
        ChangesView {
            base_revision: self.base_revision@,
            deltas: deltas_view(self.deltas@),
            want_resulting_revisions: self.want_resulting_revisions,
            want_sync_result: self.want_sync_result,
            nonces: self.nonces@,
        }
    }
}

/// The envelope that carries `deltas` against `base_revision`, with both
/// reporting extensions switched off and no nonces.
pub open spec fn envelope(base_revision: Seq<char>, deltas: Seq<DeltaView>) -> ChangesView {
    ChangesView {
        base_revision,
        deltas,
        want_resulting_revisions: false,
        want_sync_result: false,
        nonces: Seq::empty(),
    }
}

/// The payload for `ops` against `revision`: one delta that holds them all,
/// signed as a fresh edit.
pub open spec fn rendered(revision: Seq<char>, ops: Seq<OperationView>) -> ChangesView {
    envelope(revision, seq![DeltaView { ops, info: fresh_edit() }])
}

impl Default for Changes {
    fn default() -> (r: Self)
        ensures
            r@ == envelope(Seq::empty(), Seq::empty()),
    {
        let deltas: Vec<Delta> = Vec::new();
        assert(deltas_view(deltas@) =~= Seq::empty());
        Changes {
            base_revision: String::new(),
            deltas,
            want_resulting_revisions: false,
            want_sync_result: false,
            nonces: Vec::new(),
        }
    }
}

impl Changes {
    /// The payload that submits `ops` as one delta against `revision`.
    pub fn single_delta(revision: String, ops: Vec<Operation>) -> (r: Self)
        ensures
            r@ == rendered(revision@, ops_view(ops@)),
    {
        let mut deltas: Vec<Delta> = Vec::new();
        let delta = Delta { ops, info: DeltaInfo::default() };
        deltas.push(delta);
        assert(deltas_view(deltas@) =~= seq![delta@]);
        Changes {
            base_revision: revision,
            deltas,
            want_resulting_revisions: false,
            want_sync_result: false,
            nonces: Vec::new(),
        }
    }
}

} // verus!

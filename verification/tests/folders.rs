use serde_json::{Number, Value};
use spotify_private_api::clock::Clock;
use spotify_private_api::delta::{
    AddOperation, Changes, Delta, DeltaInfo, DeltaInfoSource, MoveOperation, Operation,
    OperationItem, OperationItemAttrs, RemoveOperation,
};
use spotify_private_api::identifier::generate_folder_uri;
use spotify_private_api::request::FolderRequest;
use spotify_private_api::snapshot::{
    RootList, RootListContent, RootListItem, RootListMetaItem, SnapshotError,
};
use std::collections::HashMap;

const REV: &str = "AAAAELqqrKuzaoeUKYP7gEzCzrx3h0rD";

const API_RESPONSE: &str = r#"{"revision":"AAAAELqqrKuzaoeUKYP7gEzCzrx3h0rD","length":4,"attributes":{},"contents":{"pos":0,"truncated":false,"items":[{"uri":"spotify:start-group:123456789abcdefa:Abablagan","attributes":{"timestamp":"1665495078416","seenAt":"0","public":false}},{"uri":"spotify:end-group:123456789abcdefa","attributes":{"timestamp":"1665495078416","seenAt":"0","public":false}},{"uri":"spotify:playlist:5aNzxEEkRE9MgNkiuXmpOR","attributes":{"timestamp":"1665486971754","seenAt":"0","public":false}},{"uri":"spotify:playlist:3FKTkhbClLGgKdPpbx3aHy","attributes":{"timestamp":"1665486908663","seenAt":"0","public":false}}],"metaItems":[{},{},{"revision":"AAAAAX9FIoTlMkv9e4zCryuZtD/yioLv","attributes":{"name":"My Playlist #2"},"length":0,"timestamp":"1665486971670","ownerUsername":"31h5mfzvglpwfevvaens2flw7smu"},{"revision":"AAAAAvZixvi5cLYefOMaVOKtGZUJS5pE","attributes":{"name":"My Playlist #1"},"length":1,"timestamp":"1665486922515","ownerUsername":"31h5mfzvglpwfevvaens2flw7smu"}]},"timestamp":"1665495078416"}"#;

const ADD_OPS: &str = r#"[{"kind":"ADD","add":{"fromIndex":0,"items":[{"uri":"spotify:start-group:123456789abcdefa:TestFolder","attributes":{"addedBy":"","timestamp":"1665582465479","seenAt":"0","public":false,"formatAttributes":[]}}],"addLast":false,"addFirst":false}},{"kind":"ADD","add":{"fromIndex":2,"items":[{"uri":"spotify:end-group:123456789abcdefa","attributes":{"addedBy":"","timestamp":"1665582465479","seenAt":"0","public":false,"formatAttributes":[]}}],"addLast":false,"addFirst":false}}]"#;

// Reading a document.

fn part<'a>(v: &'a Value, key: &str) -> &'a Value {
    match v.get(key) {
        Some(p) => p,
        None => panic!("missing field {}", key),
    }
}

fn text(v: &Value, key: &str) -> String {
    part(v, key).as_str().expect("a string").to_string()
}

fn flag(v: &Value, key: &str) -> bool {
    part(v, key).as_bool().expect("a bool")
}

fn index(v: &Value, key: &str) -> u32 {
    u32::try_from(part(v, key).as_u64().expect("a number")).expect("a 32-bit number")
}

fn list(v: &Value, key: &str) -> Vec<Value> {
    part(v, key).as_array().expect("an array").clone()
}

fn table(v: &Value) -> HashMap<String, Value> {
    let mut out = HashMap::new();
    for (k, x) in v.as_object().expect("an object") {
        out.insert(k.clone(), x.clone());
    }
    out
}

fn maybe_text(v: &Value, key: &str) -> Option<String> {
    match v.get(key) {
        None | Some(Value::Null) => None,
        Some(x) => Some(x.as_str().expect("a string").to_string()),
    }
}

fn item_from(v: &Value) -> OperationItem {
    let a = part(v, "attributes");
    OperationItem {
        uri: text(v, "uri"),
        attributes: OperationItemAttrs {
            added_by: text(a, "addedBy"),
            timestamp: text(a, "timestamp"),
            seen_at: text(a, "seenAt"),
            public: flag(a, "public"),
            format_attributes: list(a, "formatAttributes"),
        },
    }
}

fn operation_from(v: &Value) -> Operation {
    match text(v, "kind").as_str() {
        "ADD" => {
            let p = part(v, "add");
            Operation::Add(AddOperation {
                from_index: index(p, "fromIndex"),
                items: list(p, "items").iter().map(item_from).collect(),
                add_last: flag(p, "addLast"),
                add_first: flag(p, "addFirst"),
            })
        }
        "REM" => {
            let p = part(v, "rem");
            Operation::Rem(RemoveOperation {
                from_index: index(p, "fromIndex"),
                length: index(p, "length"),
                items: list(p, "items"),
                items_as_key: flag(p, "itemsAsKey"),
            })
        }
        "MOV" => {
            let p = part(v, "mov");
            Operation::Mov(MoveOperation {
                from_index: index(p, "fromIndex"),
                to_index: index(p, "toIndex"),
                length: index(p, "length"),
            })
        }
        other => panic!("unknown kind {}", other),
    }
}

fn delta_from(v: &Value) -> Delta {
    let i = part(v, "info");
    let s = part(i, "source");
    Delta {
        ops: list(v, "ops").iter().map(operation_from).collect(),
        info: DeltaInfo {
            user: text(i, "user"),
            timestamp: text(i, "timestamp"),
            admin: flag(i, "admin"),
            undo: flag(i, "undo"),
            redo: flag(i, "redo"),
            merge: flag(i, "merge"),
            compressed: flag(i, "compressed"),
            migration: flag(i, "migration"),
            split_id: i32::try_from(part(i, "splitId").as_i64().expect("a number"))
                .expect("a 32-bit number"),
            source: DeltaInfoSource {
                client: text(s, "client"),
                app: text(s, "app"),
                source: text(s, "source"),
                version: text(s, "version"),
            },
        },
    }
}

fn changes_from(document: &str) -> Result<Changes, serde_json::Error> {
    let v: Value = serde_json::from_str(document)?;
    Ok(Changes {
        base_revision: text(&v, "baseRevision"),
        deltas: list(&v, "deltas").iter().map(delta_from).collect(),
        want_resulting_revisions: flag(&v, "wantResultingRevisions"),
        want_sync_result: flag(&v, "wantSyncResult"),
        nonces: list(&v, "nonces"),
    })
}

fn meta_from(v: &Value) -> RootListMetaItem {
    RootListMetaItem {
        revision: maybe_text(v, "revision"),
        attributes: match v.get("attributes") {
            None | Some(Value::Null) => None,
            Some(a) => Some(table(a)),
        },
        length: match v.get("length") {
            None | Some(Value::Null) => None,
            Some(_) => Some(index(v, "length")),
        },
        timestamp: maybe_text(v, "timestamp"),
        owner_username: maybe_text(v, "ownerUsername"),
    }
}

fn root_list_from(document: &str) -> Result<RootList, String> {
    let v: Value = serde_json::from_str(document).map_err(|e| e.to_string())?;
    let c = part(&v, "contents");
    let contents = RootListContent {
        pos: index(c, "pos"),
        truncated: flag(c, "truncated"),
        items: list(c, "items")
            .iter()
            .map(|i| RootListItem { uri: text(i, "uri"), attributes: table(part(i, "attributes")) })
            .collect(),
        meta_items: list(c, "metaItems").iter().map(meta_from).collect(),
    };
    RootList::new(
        text(&v, "revision"),
        index(&v, "length"),
        table(part(&v, "attributes")),
        text(&v, "timestamp"),
        contents,
    )
    .map_err(|e| format!("{:?}", e))
}

// Writing a document.

fn object(fields: Vec<(&str, Value)>) -> Value {
    let mut m = serde_json::Map::new();
    for (k, v) in fields {
        m.insert(k.to_string(), v);
    }
    Value::Object(m)
}

fn number(n: u32) -> Value {
    Value::Number(Number::from(n))
}

fn string(s: &str) -> Value {
    Value::String(s.to_string())
}

fn table_to(t: &HashMap<String, Value>) -> Value {
    let mut m = serde_json::Map::new();
    for (k, v) in t {
        m.insert(k.clone(), v.clone());
    }
    Value::Object(m)
}

fn maybe_string(s: &Option<String>) -> Value {
    match s {
        Some(s) => string(s),
        None => Value::Null,
    }
}

fn item_to(i: &OperationItem) -> Value {
    object(vec![
        ("uri", string(&i.uri)),
        (
            "attributes",
            object(vec![
                ("addedBy", string(&i.attributes.added_by)),
                ("timestamp", string(&i.attributes.timestamp)),
                ("seenAt", string(&i.attributes.seen_at)),
                ("public", Value::Bool(i.attributes.public)),
                ("formatAttributes", Value::Array(i.attributes.format_attributes.clone())),
            ]),
        ),
    ])
}

fn operation_to(op: &Operation) -> Value {
    match op {
        Operation::Add(a) => object(vec![
            ("kind", string("ADD")),
            (
                "add",
                object(vec![
                    ("fromIndex", number(a.from_index)),
                    ("items", Value::Array(a.items.iter().map(item_to).collect())),
                    ("addLast", Value::Bool(a.add_last)),
                    ("addFirst", Value::Bool(a.add_first)),
                ]),
            ),
        ]),
        Operation::Rem(r) => object(vec![
            ("kind", string("REM")),
            (
                "rem",
                object(vec![
                    ("fromIndex", number(r.from_index)),
                    ("length", number(r.length)),
                    ("items", Value::Array(r.items.clone())),
                    ("itemsAsKey", Value::Bool(r.items_as_key)),
                ]),
            ),
        ]),
        Operation::Mov(m) => object(vec![
            ("kind", string("MOV")),
            (
                "mov",
                object(vec![
                    ("fromIndex", number(m.from_index)),
                    ("toIndex", number(m.to_index)),
                    ("length", number(m.length)),
                ]),
            ),
        ]),
    }
}

fn root_list_to(l: &RootList) -> Value {
    let c = l.contents();
    object(vec![
        ("revision", string(&l.revision)),
        ("length", number(l.length())),
        ("attributes", table_to(l.attributes())),
        ("timestamp", string(l.timestamp())),
        (
            "contents",
            object(vec![
                ("pos", number(c.pos)),
                ("truncated", Value::Bool(c.truncated)),
                (
                    "items",
                    Value::Array(
                        c.items
                            .iter()
                            .map(|i| {
                                object(vec![
                                    ("uri", string(&i.uri)),
                                    ("attributes", table_to(&i.attributes)),
                                ])
                            })
                            .collect(),
                    ),
                ),
                (
                    "metaItems",
                    Value::Array(
                        c.meta_items
                            .iter()
                            .map(|m| {
                                object(vec![
                                    ("revision", maybe_string(&m.revision)),
                                    (
                                        "attributes",
                                        match &m.attributes {
                                            Some(a) => table_to(a),
                                            None => Value::Null,
                                        },
                                    ),
                                    (
                                        "length",
                                        match m.length {
                                            Some(n) => number(n),
                                            None => Value::Null,
                                        },
                                    ),
                                    ("timestamp", maybe_string(&m.timestamp)),
                                    ("ownerUsername", maybe_string(&m.owner_username)),
                                ])
                            })
                            .collect(),
                    ),
                ),
            ]),
        ),
    ])
}

fn is_identifier(s: &str) -> bool {
    s.chars().count() == 16 && s.chars().all(|c| "abcdef1234567890".contains(c))
}

#[test]
fn test_root_list_des() {
    let mut rl: RootList = root_list_from(API_RESPONSE).expect("Couldn't parse rootlist");

    assert_eq!(rl.revision, REV);
    let id = rl.generate_folder_uri().expect("an identifier");
    assert!(is_identifier(&id));
    assert_eq!(rl.generated_uris(), &vec![id]);
}

#[test]
fn test_root_list_ser() {
    let rl = root_list_from(API_RESPONSE).expect("Couldn't parse rootlist");
    let written = root_list_to(&rl);

    assert_eq!(written["revision"], string(REV));
    assert_eq!(written["length"], number(4));
    assert_eq!(written["timestamp"], string("1665495078416"));
    assert_eq!(written["contents"]["items"][2]["uri"], string("spotify:playlist:5aNzxEEkRE9MgNkiuXmpOR"));
    assert_eq!(written["contents"]["items"][2]["attributes"]["timestamp"], string("1665486971754"));
    assert_eq!(written["contents"]["metaItems"][0]["revision"], Value::Null);
    assert_eq!(written["contents"]["metaItems"][0]["length"], Value::Null);
    assert_eq!(written["contents"]["metaItems"][3]["length"], number(1));
    assert_eq!(
        written["contents"]["metaItems"][3]["attributes"]["name"],
        string("My Playlist #1")
    );

    let again = root_list_from(&written.to_string()).expect("Couldn't parse rootlist");
    assert_eq!(again, rl);
    assert_eq!(root_list_to(&again), written);
}

#[test]
fn test_add_des() {
    let ops: Value = serde_json::from_str(ADD_OPS).expect("Coudln't parse expected json");
    let read: Vec<Operation> = ops.as_array().expect("an array").iter().map(operation_from).collect();

    let expected = vec![
        Operation::insert_one(
            0,
            OperationItem::new_start_folder("123456789abcdefa", "TestFolder", 1665582465479),
        ),
        Operation::insert_one(2, OperationItem::new_end_folder("123456789abcdefa", 1665582465479)),
    ];
    assert_eq!(read, expected);
}

#[test]
fn test_add_ser() {
    let changes = FolderRequest::with_clock(REV, Clock::Fixed(1665582465479))
        .add("TestFolder", "123456789abcdefa", 0, 2)
        .expect("a fixed clock can be read")
        .build();

    let expected = changes_from(r#"{"baseRevision":"AAAAELqqrKuzaoeUKYP7gEzCzrx3h0rD","deltas":[{"ops":[{"kind":"ADD","add":{"fromIndex":0,"items":[{"uri":"spotify:start-group:123456789abcdefa:TestFolder","attributes":{"addedBy":"","timestamp":"1665582465479","seenAt":"0","public":false,"formatAttributes":[]}}],"addLast":false,"addFirst":false}},{"kind":"ADD","add":{"fromIndex":2,"items":[{"uri":"spotify:end-group:123456789abcdefa","attributes":{"addedBy":"","timestamp":"1665582465479","seenAt":"0","public":false,"formatAttributes":[]}}],"addLast":false,"addFirst":false}}],"info":{"user":"","timestamp":"0","admin":false,"undo":false,"redo":false,"merge":false,"compressed":false,"migration":false,"splitId":0,"source":{"client":"WEBPLAYER","app":"","source":"","version":""}}}],"wantResultingRevisions":false,"wantSyncResult":false,"nonces":[]}"#).expect("Coudln't parse expected json");

    assert_eq!(changes, expected);

    let written: Vec<Value> = changes.deltas[0].ops.iter().map(operation_to).collect();
    let ops: Value = serde_json::from_str(ADD_OPS).expect("Coudln't parse expected json");
    assert_eq!(Value::Array(written), ops);
}

#[test]
fn test_rem_des() {
    let op: Value = serde_json::from_str(
        r#"{"kind":"REM","rem":{"fromIndex":23,"length":2,"items":[],"itemsAsKey":false}}"#,
    )
    .expect("Coudln't parse expected json");

    assert_eq!(operation_from(&op), Operation::remove_run(23, 2));
    assert_eq!(operation_to(&Operation::remove_run(23, 2)), op);
}

#[test]
fn test_rem_ser() {
    let changes = FolderRequest::new(REV).remove(23, 2).build();

    let expected = changes_from(r#"{"baseRevision":"AAAAELqqrKuzaoeUKYP7gEzCzrx3h0rD","deltas":[{"ops":[{"kind":"REM","rem":{"fromIndex":23,"length":2,"items":[],"itemsAsKey":false}}],"info":{"user":"","timestamp":"0","admin":false,"undo":false,"redo":false,"merge":false,"compressed":false,"migration":false,"splitId":0,"source":{"client":"WEBPLAYER","app":"","source":"","version":""}}}],"wantResultingRevisions":false,"wantSyncResult":false,"nonces":[]}"#).expect("Coudln't parse expected json");

    assert_eq!(changes, expected);
}

#[test]
fn test_mov_des() {
    let op: Value =
        serde_json::from_str(r#"{"kind":"MOV","mov":{"fromIndex":6,"length":1,"toIndex":8}}"#)
            .expect("Coudln't parse expected json");

    assert_eq!(operation_from(&op), Operation::move_run(6, 8, 1));
    assert_eq!(operation_to(&Operation::move_run(6, 8, 1)), op);
}

#[test]
fn test_mov_ser() {
    let changes = FolderRequest::new(REV).mov(6, 8, 1).build();

    let expected = changes_from(r#"{"baseRevision":"AAAAELqqrKuzaoeUKYP7gEzCzrx3h0rD","deltas":[{"ops":[{"kind":"MOV","mov":{"fromIndex":6,"length":1,"toIndex":8}}],"info":{"user":"","timestamp":"0","admin":false,"undo":false,"redo":false,"merge":false,"compressed":false,"migration":false,"splitId":0,"source":{"client":"WEBPLAYER","app":"","source":"","version":""}}}],"wantResultingRevisions":false,"wantSyncResult":false,"nonces":[]}"#).expect("Coudln't parse expected json");

    assert_eq!(changes, expected);
}

#[test]
fn test_gen_uri() {
    let taken = "123456789abcdefa".to_string();
    let id = generate_folder_uri(vec![&taken]).expect("an identifier");
    assert!(is_identifier(&id));
    assert_ne!(id, taken);
}

#[test]
fn misaligned_document_is_refused() {
    let document = r#"{"revision":"r","length":1,"attributes":{},"contents":{"pos":0,"truncated":false,"items":[{"uri":"spotify:playlist:a","attributes":{}}],"metaItems":[]},"timestamp":"1"}"#;
    assert_eq!(root_list_from(document), Err(format!("{:?}", SnapshotError::Misaligned)));
}

#[test]
fn new_request_takes_the_revision() {
    let rl = root_list_from(API_RESPONSE).expect("Couldn't parse rootlist");
    let changes = rl.new_request().build();
    assert_eq!(changes.base_revision, REV);
    assert_eq!(changes.deltas.len(), 1);
    assert!(changes.deltas[0].ops.is_empty());
}

#[test]
fn handed_out_identifiers_differ() {
    let mut rl = root_list_from(API_RESPONSE).expect("Couldn't parse rootlist");
    let first = rl.generate_folder_uri().expect("an identifier");
    let second = rl.generate_folder_uri().expect("an identifier");
    let third = rl.generate_folder_uri().expect("an identifier");
    assert_ne!(first, second);
    assert_ne!(first, third);
    assert_ne!(second, third);
    assert_eq!(rl.generated_uris(), &vec![first, second, third]);
    assert_eq!(rl.contents().items.len(), 4);
    assert_eq!(rl.revision, REV);
}

//! The request builder: a recorder of operations against a base revision.

use crate::clock::{now, reading_of, Clock, ClockError};
use crate::delta::{
    end_folder_uri, insertion, item_at, ops_view, relocation, removal, rendered,
    start_folder_uri, Changes, ChangesView, Operation, OperationItem, OperationView,
};
use vstd::prelude::*;

verus! {

/// Records operations in the order in which the server is to apply them,
/// and renders them as a payload. It checks neither indices nor the pairing
/// of folder markers: what is queued is what is sent.
pub struct FolderRequest {
    revision: String,
    ops: Vec<Operation>,
    clock: Clock,
}

pub struct FolderRequestView {
    pub revision: Seq<char>,
    pub ops: Seq<OperationView>,
    pub clock: Clock,
}

impl View for FolderRequest {
    type V = FolderRequestView;

    closed spec fn view(&self) -> FolderRequestView {
        FolderRequestView {
            revision: self.revision@,
            ops: ops_view(self.ops@),
            clock: self.clock,
        }
    }
}

/// The empty request against `revision`, stamped by `clock`.
pub open spec fn fresh_request(revision: Seq<char>, clock: Clock) -> FolderRequestView {
    FolderRequestView { revision, ops: Seq::empty(), clock }
}

/// The payload of a request: all of its operations, in the order in which
/// they were queued, as one delta against its revision.
pub open spec fn payload(request: FolderRequestView) -> ChangesView {
    rendered(request.revision, request.ops)
}

/// The builder `before` after `more` has been queued behind what it held.
pub open spec fn queued(before: FolderRequestView, more: Seq<OperationView>) -> FolderRequestView {
    FolderRequestView { ops: before.ops + more, ..before }
}

/// The two insertions that make a folder: the opening marker at
/// `start_index`, then the closing marker at `end_index`, both created at
/// `millis`.
pub open spec fn folder_insertions(
    name: Seq<char>,
    uri: Seq<char>,
    start_index: u32,
    end_index: u32,
    millis: nat,
) -> Seq<OperationView> {
    seq![
        insertion(start_index, item_at(start_folder_uri(uri, name), millis)),
        insertion(end_index, item_at(end_folder_uri(uri), millis)),
    ]
}

impl FolderRequest {
    /// An empty request against `revision`, stamped by the wall clock.
    pub fn new(revision: &str) -> (r: Self)
        ensures
            r@ == fresh_request(revision@, Clock::System),
    {
        FolderRequest::with_clock(revision, Clock::System)
    }

    /// An empty request against `revision`, stamped by `clock`.
    pub fn with_clock(revision: &str, clock: Clock) -> (r: Self)
        ensures
            r@ == fresh_request(revision@, clock),
    {
        let ops: Vec<Operation> = Vec::new();
        assert(ops_view(ops@) =~= Seq::empty());
        FolderRequest { revision: String::from_str(revision), ops, clock }
    }

    /// The payload for what has been queued so far. The builder is left as
    /// it was, so building again gives the same payload.
    pub fn build(&self) -> (r: Changes)
        ensures
            r@ == payload(self@),
    {
        let ops = self.ops.clone();
        assert(ops_view(ops@) =~= ops_view(self.ops@));
        Changes::single_delta(self.revision.clone(), ops)
    }

    /// Queues the two insertions of a folder, stamped with `millis`.
    pub fn add_at(
        &mut self,
        name: &str,
        uri: &str,
        start_index: u32,
        end_index: u32,
        millis: u128,
    ) -> (r: &Self)
        ensures
            final(self)@ == queued(
                old(self)@,
                folder_insertions(name@, uri@, start_index, end_index, millis as nat),
            ),
            *r == *final(self),
    {
        let ghost before = self.ops@;
        let start = Operation::insert_one(
            start_index,
            OperationItem::new_start_folder(uri, name, millis),
        );
        let end = Operation::insert_one(end_index, OperationItem::new_end_folder(uri, millis));
        self.ops.push(start);
        self.ops.push(end);
        assert(ops_view(self.ops@) =~= ops_view(before) + seq![start@, end@]);
        self
    }

    /// Queues the two insertions of a folder named `name` with the
    /// identifier `uri`: its opening marker at `start_index`, its closing
    /// marker at `end_index`. Both are stamped with one reading of the
    /// builder's clock, taken now. Where the clock cannot be read, nothing
    /// is queued; a fixed clock can always be read.
    pub fn add(&mut self, name: &str, uri: &str, start_index: u32, end_index: u32) -> (r: Result<
        &Self,
        ClockError,
    >)
        ensures
            match r {
                Ok(b) => *b == *final(self) && exists|millis: u128|
                    {
                        &&& reading_of(old(self)@.clock, Ok(millis))
                        &&& final(self)@ == queued(
                            old(self)@,
                            #[trigger] folder_insertions(
                                name@,
                                uri@,
                                start_index,
                                end_index,
                                millis as nat,
                            ),
                        )
                    },
                Err(e) => reading_of(old(self)@.clock, Err(e)) && final(self)@ == old(self)@,
            },
    {
        match now(&self.clock) {
            Ok(millis) => Ok(self.add_at(name, uri, start_index, end_index, millis)),
            Err(e) => Err(e),
        }
    }

    /// Queues the removal of `length` items from `start_index` on.
    pub fn remove(&mut self, start_index: u32, length: u32) -> (r: &Self)
        ensures
            final(self)@ == queued(old(self)@, seq![removal(start_index, length)]),
            *r == *final(self),
    {
        let ghost before = self.ops@;
        let op = Operation::remove_run(start_index, length);
        self.ops.push(op);
        assert(ops_view(self.ops@) =~= ops_view(before) + seq![op@]);
        self
    }

    /// Queues the move of `length` items from `from_index` to `to_index`.
    pub fn mov(&mut self, from_index: u32, to_index: u32, length: u32) -> (r: &Self)
        ensures
            final(self)@ == queued(old(self)@, seq![relocation(from_index, to_index, length)]),
            *r == *final(self),
    {
        let ghost before = self.ops@;
        let op = Operation::move_run(from_index, to_index, length);
        self.ops.push(op);
        assert(ops_view(self.ops@) =~= ops_view(before) + seq![op@]);
        self
    }
}

} // verus!

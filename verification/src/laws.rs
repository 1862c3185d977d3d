//! Properties that hold across the functions of this crate, stated over
//! the same models as their contracts.

use crate::clock::Clock;
use crate::decimal::{decimal, lemma_decimal_is_numeral, lemma_decimal_value, value_of};
use crate::delta::{fresh_edit, stamped_attrs, Changes, OperationView};
use crate::identifier::is_identifier;
use crate::request::{fresh_request, payload, queued, FolderRequest, FolderRequestView};
use crate::snapshot::RootListView;
use vstd::prelude::*;

verus! {

/// A request made for a revision is submitted against that revision,
/// whatever clock it has and whatever is queued on it afterwards.
pub proof fn law_payload_keeps_revision(
    revision: Seq<char>,
    clock: Clock,
    more: Seq<OperationView>,
)
    ensures
        payload(fresh_request(revision, clock)).base_revision == revision,
        payload(queued(fresh_request(revision, clock), more)).base_revision == revision,
{
}

/// Building twice without queueing in between gives the same payload: the
/// contract of `build` leaves no room for two payloads of one builder.
pub proof fn law_build_is_repeatable(request: FolderRequest, first: Changes, second: Changes)
    requires
        first@ == payload(request@),
        second@ == payload(request@),
    ensures
        first@ == second@,
{
}

/// A payload is a single delta, signed as a fresh edit, that holds what
/// was queued in the order of queueing: first what the builder held, then
/// what came after.
pub proof fn law_payload_keeps_order(
    before: FolderRequestView,
    more: Seq<OperationView>,
)
    ensures
        payload(queued(before, more)).deltas.len() == 1,
        payload(queued(before, more)).deltas[0].info == fresh_edit(),
        payload(queued(before, more)).deltas[0].ops == payload(before).deltas[0].ops + more,
{
}

/// Queueing in two steps is queueing the two runs at once.
pub proof fn law_queueing_composes(
    before: FolderRequestView,
    first: Seq<OperationView>,
    second: Seq<OperationView>,
)
    ensures
        queued(queued(before, first), second) == queued(before, first + second),
{
    assert((before.ops + first) + second =~= before.ops + (first + second));
}

/// An identifier that was handed out is taken from then on: one that is
/// free afterwards differs from it, and from all that was taken before.
pub proof fn law_handed_out_is_taken(
    before: RootListView,
    after: RootListView,
    first: Seq<char>,
    second: Seq<char>,
)
    requires
        after == (RootListView {
            generated_uris: before.generated_uris.push(first),
            ..before
        }),
        !after.taken().contains(second),
    ensures
        second != first,
        !before.taken().contains(second),
        after.aligned() == before.aligned(),
{
    let n = before.contents.items.len() as int;
    let m = before.generated_uris.len() as int;
    assert(after.taken()[n + m] == first);
    if before.taken().contains(second) {
        let j = choose|j: int| 0 <= j < before.taken().len() && before.taken()[j] == second;
        assert(after.taken()[j] == second);
    }
}

/// No well-formed identifier is the URI of a playlist or of a folder
/// marker: those are longer than sixteen characters.
pub proof fn law_identifier_is_no_uri(id: Seq<char>, name: Seq<char>)
    ensures
        !is_identifier(crate::delta::playlist_uri(id)),
        !is_identifier(crate::delta::start_folder_uri(id, name)),
        !is_identifier(crate::delta::end_folder_uri(id)),
{
    reveal_strlit("spotify:playlist:");
    reveal_strlit("spotify:start-group:");
    reveal_strlit("spotify:end-group:");
    reveal_strlit(":");
}

/// The creation time of an item is written as a plain decimal numeral:
/// digits only, no leading zero but for zero itself, and it writes the
/// very number of milliseconds, so that different times are written
/// differently.
pub proof fn law_stamp_writes_the_time(millis: nat, other: nat)
    ensures
        stamped_attrs(millis).timestamp == decimal(millis),
        decimal(millis).len() >= 1,
        forall|i: int|
            0 <= i < decimal(millis).len() ==> '0' <= #[trigger] decimal(millis)[i] <= '9',
        millis > 0 ==> decimal(millis)[0] != '0',
        value_of(decimal(millis)) == millis,
        decimal(millis) == decimal(other) ==> millis == other,
{
    lemma_decimal_is_numeral(millis);
    lemma_decimal_value(millis);
    lemma_decimal_value(other);
}

} // verus!

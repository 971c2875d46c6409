use vstd::prelude::*;
use vstd::arithmetic::div_mod::{lemma_add_mod_noop_right, lemma_small_mod};

use crate::counter::wrap_i8;
use crate::dispatch::{logs_of, refusal, step, Call, CallError};
use crate::events::LogLine;
use crate::storage::{granted_permission, names_of, Permission, StorageState};

verus! {

/// The state after the accepted calls `calls`, none of them `new`, run in order from `s`.
pub open spec fn run(s: StorageState, calls: Seq<Call>) -> StorageState
    decreases calls.len(),
{
    if calls.len() == 0 {
        s
    } else {
        run(step(s, calls[0]), calls.drop_first())
    }
}

/// How many of `calls` are increments.
pub open spec fn count_increments(calls: Seq<Call>) -> int
    decreases calls.len(),
{
    if calls.len() == 0 {
        0
    } else {
        (if calls[0] is Increment { 1int } else { 0int }) + count_increments(calls.drop_first())
    }
}

/// How many of `calls` are decrements.
pub open spec fn count_decrements(calls: Seq<Call>) -> int
    decreases calls.len(),
{
    if calls.len() == 0 {
        0
    } else {
        (if calls[0] is Decrement { 1int } else { 0int }) + count_decrements(calls.drop_first())
    }
}

/// One call of `add_file` for each of `names`, in order.
pub open spec fn add_file_calls(names: Seq<String>) -> Seq<Call> {
    names.map_values(|n: String| Call::AddFile(n))
}

proof fn lemma_wrap_absorbs(x: int, d: int)
    ensures
        wrap_i8(wrap_i8(x) + d) == wrap_i8(x + d),
{
    lemma_add_mod_noop_right(d, x + 128, 256);
    assert(wrap_i8(x) + d + 128 == d + (x + 128) % 256);
    assert(x + d + 128 == d + (x + 128));
}

proof fn lemma_wrap_in_range(v: int)
    requires
        -128 <= v < 128,
    ensures
        wrap_i8(v) == v,
{
    lemma_small_mod((v + 128) as nat, 256);
}

/// From any state whose counter is an `i8`, a run of increments and decrements
/// moves the counter by their difference, wrapped into `i8`, and changes
/// nothing else.
pub proof fn counter_follows_net_steps(s: StorageState, calls: Seq<Call>)
    requires
        -128 <= s.counter < 128,
        forall|i: int| 0 <= i < calls.len() ==> (calls[i] is Increment || calls[i] is Decrement),
    ensures
        run(s, calls) == s.with_counter(
            wrap_i8(s.counter + count_increments(calls) - count_decrements(calls)),
        ),
    decreases calls.len(),
{
    if calls.len() == 0 {
        lemma_wrap_in_range(s.counter);
        assert(s.with_counter(s.counter) == s);
    } else {
        let rest = calls.drop_first();
        let d: int = if calls[0] is Increment { 1 } else { -1 };
        let next = step(s, calls[0]);
        assert(next == s.with_counter(wrap_i8(s.counter + d)));
        assert forall|i: int| 0 <= i < rest.len() implies (rest[i] is Increment
            || rest[i] is Decrement) by {
            assert(rest[i] == calls[i + 1]);
        }
        counter_follows_net_steps(next, rest);
        lemma_wrap_absorbs(
            s.counter + d,
            count_increments(rest) - count_decrements(rest),
        );
    }
}

/// Starting from the initialized value `3`, any run of increments and
/// decrements leaves the counter at `3 + increments - decrements`, wrapped
/// into `i8`.
pub proof fn counter_from_initial(owner: Seq<char>, calls: Seq<Call>)
    requires
        forall|i: int| 0 <= i < calls.len() ==> (calls[i] is Increment || calls[i] is Decrement),
    ensures
        run(StorageState::initial(owner), calls).counter == wrap_i8(
            3 + count_increments(calls) - count_decrements(calls),
        ),
{
    counter_follows_net_steps(StorageState::initial(owner), calls);
}

/// Resetting twice leaves the counter at zero after each call, and the
/// second reset changes nothing.
pub proof fn reset_is_idempotent(s: StorageState)
    ensures
        step(s, Call::Reset).counter == 0,
        step(step(s, Call::Reset), Call::Reset) == step(s, Call::Reset),
{
    assert(step(s, Call::Reset).with_counter(0) == step(s, Call::Reset));
}

/// Adding files appends their names in call order and one granted permission
/// for each, and changes nothing else.
pub proof fn add_files_appends(s: StorageState, names: Seq<String>)
    ensures
        run(s, add_file_calls(names)) == (StorageState {
            files: s.files + names_of(names),
            permissions: s.permissions + Seq::new(names.len(), |i: int| granted_permission()),
            ..s
        }),
    decreases names.len(),
{
    let calls = add_file_calls(names);
    if names.len() == 0 {
        assert(s.files + names_of(names) =~= s.files);
        assert(s.permissions + Seq::new(names.len(), |i: int| granted_permission())
            =~= s.permissions);
    } else {
        let rest = names.drop_first();
        assert(calls.drop_first() =~= add_file_calls(rest));
        let next = s.with_file(names[0]@);
        assert(step(s, calls[0]) == next);
        add_files_appends(next, rest);
        assert(next.files + names_of(rest) =~= s.files + names_of(names));
        assert(next.permissions + Seq::new(rest.len(), |i: int| granted_permission())
            =~= s.permissions + Seq::new(names.len(), |i: int| granted_permission()));
    }
}

/// After `n` calls of `add_file` on a freshly initialized state, the folder
/// holds the `n` names in call order and the disk holds `n` permissions, each
/// `{ id: 1, writable: true }`.
pub proof fn add_file_is_never_lossy(owner: Seq<char>, names: Seq<String>)
    ensures
        run(StorageState::initial(owner), add_file_calls(names)).files == names_of(names),
        run(StorageState::initial(owner), add_file_calls(names)).permissions.len()
            == names.len(),
        forall|i: int|
            0 <= i < names.len() ==> run(
                StorageState::initial(owner),
                add_file_calls(names),
            ).permissions[i] == (Permission { id: 1, writable: true }),
{
    let s = StorageState::initial(owner);
    add_files_appends(s, names);
    assert(s.files + names_of(names) =~= names_of(names));
}

/// Before `new`, every other call fails with `Uninitialized`, whatever value is
/// attached. By the contract of `dispatch`, a refused call leaves the state as
/// it was, so nothing is stored.
pub proof fn calls_before_new_fail(call: Call, deposit: u128)
    requires
        !(call is New),
    ensures
        refusal(false, call, deposit) == Some(CallError::Uninitialized),
{
}

/// A view call leaves the state unchanged and writes no log line.
pub proof fn view_calls_change_nothing(s: StorageState, call: Call)
    requires
        call.is_view_spec(),
    ensures
        step(s, call) == s,
        logs_of(s, call) == Seq::<LogLine>::empty(),
{
}

/// Attaching value to `payable_no_annotation` fails the call, in every state:
/// as unexpected value once initialized, as uninitialized before.
pub proof fn deposit_on_unannotated_fails(initialized: bool, deposit: u128)
    requires
        deposit != 0,
    ensures
        refusal(initialized, Call::PayableNoAnnotation, deposit) == Some(
            if initialized {
                CallError::UnexpectedValueAttached
            } else {
                CallError::Uninitialized
            },
        ),
{
}

/// On an initialized state, `payable_annotated_mut` accepts attached value,
/// leaves the state unchanged and only writes its log line.
pub proof fn deposit_on_annotated_is_absorbed(s: StorageState, deposit: u128)
    ensures
        refusal(true, Call::PayableAnnotatedMut, deposit) is None,
        step(s, Call::PayableAnnotatedMut) == s,
        logs_of(s, Call::PayableAnnotatedMut) == seq![LogLine::FeesBurned],
{
}

} // verus!

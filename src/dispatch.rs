use vstd::prelude::*;

use crate::counter::wrap_i8;
use crate::events::LogLine;
use crate::storage::{Storage, StorageState, Transfer};

verus! {

/// One call of an entry point, with its decoded arguments.
pub enum Call {
    New(String),
    GetNum,
    Increment,
    Decrement,
    Reset,
    AddFile(String),
    PayableAnnotatedView,
    PayableAnnotatedMut,
    PayableNoAnnotation,
    TransferMoney(String, u64),
    NoArgs,
}

/// Why a call fails. A failed call changes no state and writes no log line.
#[derive(Clone, Copy, Debug, PartialEq, Eq, Structural)]
pub enum CallError {
    /// An entry point other than `new` was called before the state was initialized.
    Uninitialized,
    /// `new` was called on a state that is already initialized.
    AlreadyInitialized,
    /// Value was attached to an entry point that is not payable.
    UnexpectedValueAttached,
}

/// What an accepted call hands back to the host.
pub struct Reply {
    /// Lines for the host's event log, in order.
    pub logs: Vec<LogLine>,
    /// The value returned to the caller, if the entry point returns one.
    pub value: Option<i8>,
    /// The outbound transfer that the host is to carry out, if any.
    pub transfer: Option<Transfer>,
}

impl Call {
    /// The entry points that accept attached value.
    pub open spec fn is_payable(&self) -> bool {
        ||| *self is PayableAnnotatedView
        ||| *self is PayableAnnotatedMut
    }

    /// The view-only entry points: they read the state and never write it.
    pub open spec fn is_view_spec(&self) -> bool {
        *self is GetNum
    }

    /// Whether this call only reads the state, so that the host runs it
    /// without attached value and stores nothing afterwards.
    pub fn is_view(&self) -> (r: bool)
        ensures
            r == self.is_view_spec(),
    {
        match self {
            Call::GetNum => true,
            _ => false,
        }
    }

    /// Whether value may be attached to this call.
    pub fn accepts_deposit(&self) -> (r: bool)
        ensures
            r == self.is_payable(),
    {
        match self {
            Call::PayableAnnotatedView | Call::PayableAnnotatedMut => true,
            _ => false,
        }
    }
}

/// The error that a call meets, if any, given whether the state is
/// initialized and how much value is attached.
pub open spec fn refusal(initialized: bool, call: Call, deposit: u128) -> Option<CallError> {
    if call is New {
        if initialized {
            Some(CallError::AlreadyInitialized)
        } else if deposit != 0 {
            Some(CallError::UnexpectedValueAttached)
        } else {
            None
        }
    } else if !initialized {
        Some(CallError::Uninitialized)
    } else if deposit != 0 && !call.is_payable() {
        Some(CallError::UnexpectedValueAttached)
    } else {
        None
    }
}

/// The state after an accepted call other than `new`.
pub open spec fn step(s: StorageState, call: Call) -> StorageState {
    match call {
        Call::Increment => s.with_counter(wrap_i8(s.counter + 1)),
        Call::Decrement => s.with_counter(wrap_i8(s.counter - 1)),
        Call::Reset => s.with_counter(0),
        Call::AddFile(name) => s.with_file(name@),
        _ => s,
    }
}

/// The state after an accepted call, from the state before it (`None` when
/// uninitialized).
pub open spec fn state_after(before: Option<StorageState>, call: Call) -> Option<StorageState> {
    match call {
        Call::New(owner) => Some(StorageState::initial(owner@)),
        _ => match before {
            Some(s) => Some(step(s, call)),
            None => None,
        },
    }
}

/// The log lines of an accepted call, given the state after it.
pub open spec fn logs_of(after: StorageState, call: Call) -> Seq<LogLine> {
    match call {
        Call::Increment => seq![LogLine::Increased(after.counter as i8), LogLine::OverflowAdvice],
        Call::Decrement => seq![LogLine::Decreased(after.counter as i8), LogLine::OverflowAdvice],
        Call::Reset => seq![LogLine::ResetToZero],
        Call::PayableAnnotatedView => seq![LogLine::FeesBurned],
        Call::PayableAnnotatedMut => seq![LogLine::FeesBurned],
        Call::PayableNoAnnotation => seq![LogLine::NotPayable],
        _ => Seq::empty(),
    }
}

/// `reply` is what an accepted `call` hands back, given the state after it.
pub open spec fn reply_matches(reply: Reply, call: Call, after: StorageState) -> bool {
    &&& reply.logs@ == logs_of(after, call)
    &&& reply.value == if call is GetNum {
        Some(after.counter as i8)
    } else {
        None::<i8>
    }
    &&& reply.transfer == match call {
        Call::TransferMoney(to, amount) => Some(Transfer { receiver: to, amount: amount as u128 }),
        _ => None,
    }
}

/// The state as mathematical values, `None` when uninitialized.
pub open spec fn state_view(state: Option<Storage>) -> Option<StorageState> {
    match state {
        Some(s) => Some(s@),
        None => None,
    }
}

/// Decides whether a call is accepted: see `refusal`.
pub fn gate(initialized: bool, call: &Call, deposit: u128) -> (r: Option<CallError>)
    ensures
        r == refusal(initialized, *call, deposit),
{
    match call {
        Call::New(_) => {
            if initialized {
                Some(CallError::AlreadyInitialized)
            } else if deposit != 0 {
                Some(CallError::UnexpectedValueAttached)
            } else {
                None
            }
        },
        _ => {
            if !initialized {
                Some(CallError::Uninitialized)
            } else if deposit != 0 && !call.accepts_deposit() {
                Some(CallError::UnexpectedValueAttached)
            } else {
                None
            }
        },
    }
}

/// Runs one call against the state root held in `state` (`None` until `new`
/// has run), with `deposit` the value attached to the call.
///
/// A refused call returns its error and leaves `state` as it was. An accepted
/// call updates `state` and returns the log lines, the returned value and the
/// transfer request that the host is to act on.
pub fn dispatch(state: &mut Option<Storage>, call: Call, deposit: u128) -> (r: Result<Reply, CallError>)
    ensures
        match refusal(*old(state) is Some, call, deposit) {
            Some(e) => r == Err::<Reply, CallError>(e) && *final(state) == *old(state),
            None => {
                &&& r is Ok
                &&& state_view(*final(state)) == state_after(state_view(*old(state)), call)
                &&& *final(state) is Some
                &&& reply_matches(r->Ok_0, call, final(state)->Some_0@)
            },
        },
{
    if let Some(e) = gate(state.is_some(), &call, deposit) {
        return Err(e);
    }
    match call {
        Call::New(owner) => {
            *state = Some(Storage::new(owner));
            Ok(Reply { logs: Vec::new(), value: None, transfer: None })
        },
        call => match state {
            Some(s) => {
                let reply = match call {
                    Call::GetNum => Reply {
                        logs: Vec::new(),
                        value: Some(s.get_num()),
                        transfer: None,
                    },
                    Call::Increment => Reply { logs: s.increment(), value: None, transfer: None },
                    Call::Decrement => Reply { logs: s.decrement(), value: None, transfer: None },
                    Call::Reset => Reply { logs: s.reset(), value: None, transfer: None },
                    Call::AddFile(name) => {
                        s.add_file(name);
                        Reply { logs: Vec::new(), value: None, transfer: None }
                    },
                    Call::PayableAnnotatedView => Reply {
                        logs: Storage::payable_annotated_view(),
                        value: None,
                        transfer: None,
                    },
                    Call::PayableAnnotatedMut => Reply {
                        logs: s.payable_annotated_mut(),
                        value: None,
                        transfer: None,
                    },
                    Call::PayableNoAnnotation => Reply {
                        logs: Storage::payable_no_annotation(),
                        value: None,
                        transfer: None,
                    },
                    Call::TransferMoney(to, amount) => Reply {
                        logs: Vec::new(),
                        value: None,
                        transfer: Some(s.transfer_money(to, amount)),
                    },
                    Call::NoArgs => {
                        Storage::no_args();
                        Reply { logs: Vec::new(), value: None, transfer: None }
                    },
                    Call::New(_) => Reply { logs: Vec::new(), value: None, transfer: None },
                };
                Ok(reply)
            },
            None => Err(CallError::Uninitialized),
        },
    }
}

} // verus!

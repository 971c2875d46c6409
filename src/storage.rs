use vstd::prelude::*;

use crate::counter::{wrap_i8, Counter};
use crate::events::LogLine;

verus! {

/// Access granted to one file of the catalog.
#[derive(Clone, Copy, Debug, PartialEq, Eq, Structural)]
pub struct Permission {
    pub id: i64,
    pub writable: bool,
}

/// A folder: its identifier and the names of its files, in the order they were added.
pub struct Folder {
    pub id: i8,
    pub files: Vec<String>,
}

/// A disk: its name, its folder, and one permission per file of the folder.
pub struct Disk {
    pub name: String,
    pub folder: Folder,
    pub permissions: Vec<Permission>,
}

/// A computer: the account that owns it and its disk.
pub struct Computer {
    pub owner: String,
    pub disk: Disk,
}

/// An outbound value transfer that the host is asked to carry out.
pub struct Transfer {
    pub receiver: String,
    pub amount: u128,
}

/// What a state root holds, as mathematical values.
pub struct StorageState {
    pub owner: Seq<char>,
    pub disk_name: Seq<char>,
    pub folder_id: i8,
    pub files: Seq<Seq<char>>,
    pub permissions: Seq<Permission>,
    pub counter: int,
}

/// The permission recorded for every file that is added.
pub open spec fn granted_permission() -> Permission {
    Permission { id: 1, writable: true }
}

/// The names of `files`, as character sequences.
pub open spec fn names_of(files: Seq<String>) -> Seq<Seq<char>> {
    files.map_values(|f: String| f@)
}

/// `c` holds exactly the catalog part of `s`.
pub open spec fn computer_matches(c: Computer, s: StorageState) -> bool {
    &&& c.owner@ == s.owner
    &&& c.disk.name@ == s.disk_name
    &&& c.disk.folder.id == s.folder_id
    &&& names_of(c.disk.folder.files@) == s.files
    &&& c.disk.permissions@ == s.permissions
}

impl StorageState {
    /// The state right after initialization by `owner`.
    pub open spec fn initial(owner: Seq<char>) -> StorageState {
        StorageState {
            owner,
            disk_name: Seq::empty(),
            folder_id: 0,
            files: Seq::empty(),
            permissions: Seq::empty(),
            counter: 3,
        }
    }

    /// The same state with the counter at `v`.
    pub open spec fn with_counter(self, v: int) -> StorageState {
        StorageState { counter: v, ..self }
    }

    /// The same state with the file `name` appended, together with its permission.
    pub open spec fn with_file(self, name: Seq<char>) -> StorageState {
        StorageState {
            files: self.files.push(name),
            permissions: self.permissions.push(granted_permission()),
            ..self
        }
    }
}

/// The state root: a computer with its file catalog, and a counter.
///
/// Its fields change only through the entry points below.
pub struct Storage {
    computer: Computer,
    counter: Counter,
}

impl View for Storage {
    type V = StorageState;

    closed spec fn view(&self) -> StorageState {
        StorageState {
            owner: self.computer.owner@,
            disk_name: self.computer.disk.name@,
            folder_id: self.computer.disk.folder.id,
            files: names_of(self.computer.disk.folder.files@),
            permissions: self.computer.disk.permissions@,
            counter: self.counter.val as int,
        }
    }
}

/// The advisory line that follows every change of the counter by one step.
fn after_counter_change() -> (r: LogLine)
    ensures
        r == LogLine::OverflowAdvice,
{
    LogLine::OverflowAdvice
}

impl Storage {
    /// Initializes the state root for `owner`: the counter starts at `3`,
    /// everything else is empty or zero.
    pub fn new(owner: String) -> (r: Storage)
        ensures
            r@ == StorageState::initial(owner@),
    {
        let r = Storage {
            computer: Computer {
                owner,
                disk: Disk {
                    name: String::new(),
                    folder: Folder { id: 0, files: Vec::new() },
                    permissions: Vec::new(),
                },
            },
            counter: Counter::new(3),
        };
        assert(names_of(r.computer.disk.folder.files@) =~= Seq::empty());
        r
    }

    /// Rebuilds a state root from its two parts, as when it is loaded from storage.
    pub fn from_parts(computer: Computer, counter: Counter) -> (r: Storage)
        ensures
            computer_matches(computer, r@),
            r@.counter == counter.val,
    {
        Storage { computer, counter }
    }

    /// The catalog part of the state.
    pub fn computer(&self) -> (r: &Computer)
        ensures
            computer_matches(*r, self@),
    {
        &self.computer
    }

    /// The counter part of the state.
    pub fn counter(&self) -> (r: &Counter)
        ensures
            r.val == self@.counter,
    {
        &self.counter
    }

    /// The counter's value. A view call: nothing changes.
    pub fn get_num(&self) -> (r: i8)
        ensures
            r == self@.counter,
    {
        self.counter.get_num()
    }

    /// Adds one to the counter (wrapping from `127` to `-128`) and reports the
    /// new value, then the advisory line.
    pub fn increment(&mut self) -> (logs: Vec<LogLine>)
        ensures
            final(self)@ == old(self)@.with_counter(wrap_i8(old(self)@.counter + 1)),
            logs@ == seq![LogLine::Increased(final(self)@.counter as i8), LogLine::OverflowAdvice],
    {
        self.counter.increment();
        let mut logs = Vec::new();
        logs.push(LogLine::Increased(self.counter.val));
        logs.push(after_counter_change());
        logs
    }

    /// Subtracts one from the counter (wrapping from `-128` to `127`) and
    /// reports the new value, then the advisory line.
    pub fn decrement(&mut self) -> (logs: Vec<LogLine>)
        ensures
            final(self)@ == old(self)@.with_counter(wrap_i8(old(self)@.counter - 1)),
            logs@ == seq![LogLine::Decreased(final(self)@.counter as i8), LogLine::OverflowAdvice],
    {
        self.counter.decrement();
        let mut logs = Vec::new();
        logs.push(LogLine::Decreased(self.counter.val));
        logs.push(after_counter_change());
        logs
    }

    /// Sets the counter to zero, whatever it held.
    pub fn reset(&mut self) -> (logs: Vec<LogLine>)
        ensures
            final(self)@ == old(self)@.with_counter(0),
            logs@ == seq![LogLine::ResetToZero],
    {
        self.counter.reset();
        let mut logs = Vec::new();
        logs.push(LogLine::ResetToZero);
        logs
    }

    /// Appends `name` to the folder and a permission `{ id: 1, writable: true }`
    /// to the disk. Any name is accepted, empty or repeated.
    pub fn add_file(&mut self, name: String)
        ensures
            final(self)@ == old(self)@.with_file(name@),
    {
        let ghost n = name@;
        let ghost before = self.computer.disk.folder.files@;
        self.computer.disk.folder.files.push(name);
        self.computer.disk.permissions.push(Permission { id: 1, writable: true });
        assert(names_of(self.computer.disk.folder.files@) =~= names_of(before).push(n));
    }

    /// A payable entry point that needs no state: it acknowledges the value received.
    pub fn payable_annotated_view() -> (logs: Vec<LogLine>)
        ensures
            logs@ == seq![LogLine::FeesBurned],
    {
        let mut logs = Vec::new();
        logs.push(LogLine::FeesBurned);
        logs
    }

    /// A payable entry point on the state: it acknowledges the value received
    /// and leaves the state as it was.
    pub fn payable_annotated_mut(&mut self) -> (logs: Vec<LogLine>)
        ensures
            *final(self) == *old(self),
            logs@ == seq![LogLine::FeesBurned],
    {
        let mut logs = Vec::new();
        logs.push(LogLine::FeesBurned);
        logs
    }

    /// An entry point that is not payable: the host fails the call when value
    /// is attached to it.
    pub fn payable_no_annotation() -> (logs: Vec<LogLine>)
        ensures
            logs@ == seq![LogLine::NotPayable],
    {
        let mut logs = Vec::new();
        logs.push(LogLine::NotPayable);
        logs
    }

    /// Requests one transfer of `amount` to `to`, widened to the host's
    /// 128-bit unit. The state is left as it was.
    pub fn transfer_money(&mut self, to: String, amount: u64) -> (t: Transfer)
        ensures
            *final(self) == *old(self),
            t.receiver == to,
            t.amount == amount as u128,
    {
        Transfer { receiver: to, amount: amount as u128 }
    }

    /// An entry point that takes nothing and does nothing.
    pub fn no_args() {
    }
}

} // verus!

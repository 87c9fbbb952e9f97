//! The record that one shell session keeps on disk, and the session itself.

use vstd::prelude::*;
use vstd::string::*;

use crate::text::{str_of, text_of};

verus! {

/// A status record as a mathematical value.
pub struct RecordView {
    /// The worker that is computing the status, while it does.
    pub owner_pid: Option<i32>,
    /// The command cycle that the status was asked for.
    pub generation: u32,
    /// The status, once it is known.
    pub payload: Option<Seq<char>>,
}

impl RecordView {
    /// A record holds either its worker or its status, never both and never
    /// neither, and a worker is a process, whose id is positive.
    pub open spec fn valid(self) -> bool {
        &&& self.owner_pid is Some <==> self.payload is None
        &&& self.owner_pid matches Some(pid) ==> pid > 0
    }

    /// The status is still being computed.
    pub open spec fn is_pending(self) -> bool {
        self.owner_pid is Some
    }

    /// The status is known.
    pub open spec fn is_resolved(self) -> bool {
        self.payload is Some
    }

    /// What names the process group of the worker to the system: its
    /// negated process id.
    pub open spec fn group_target(self) -> Option<i32> {
        match self.owner_pid {
            Some(pid) => Some((-pid) as i32),
            None => None,
        }
    }

    /// The record of a worker `owner_pid` that has begun on `generation`.
    pub open spec fn pending(owner_pid: i32, generation: u32) -> RecordView {
        RecordView { owner_pid: Some(owner_pid), generation, payload: None }
    }

    /// The record of the status `payload` found for `generation`.
    pub open spec fn resolved(generation: u32, payload: Seq<char>) -> RecordView {
        RecordView { owner_pid: None, generation, payload: Some(payload) }
    }
}

/// The persisted state of the one background job of a session: pending with
/// its worker, or resolved with its status.
#[derive(Debug, PartialEq, Eq)]
pub struct StatusRecord {
    owner_pid: Option<i32>,
    generation: u32,
    payload: Option<String>,
}

impl View for StatusRecord {
    type V = RecordView;

    closed spec fn view(&self) -> RecordView {
        RecordView {
            owner_pid: self.owner_pid,
            generation: self.generation,
            payload: text_of(self.payload),
        }
    }
}

impl StatusRecord {
    /// Every record that exists is valid.
    #[verifier::type_invariant]
    pub open spec fn well_formed(self) -> bool {
        self@.valid()
    }

    /// The record that a worker writes first. There is none for an
    /// `owner_pid` that is no process id.
    pub fn pending(owner_pid: i32, generation: u32) -> (r: Option<StatusRecord>)
        ensures
            r matches Some(record) ==> record@ == RecordView::pending(owner_pid, generation),
            r is Some <==> owner_pid > 0,
    {
        if owner_pid > 0 {
            Some(StatusRecord { owner_pid: Some(owner_pid), generation, payload: None })
        } else {
            None
        }
    }

    /// The record that a worker writes last.
    pub fn resolved(generation: u32, payload: String) -> (r: StatusRecord)
        ensures
            r@ == RecordView::resolved(generation, payload@),
    {
        StatusRecord { owner_pid: None, generation, payload: Some(payload) }
    }

    /// The record with the three given fields, if there is one: `None` where
    /// they break the rule that `RecordView::valid` states.
    pub fn from_parts(owner_pid: Option<i32>, generation: u32, payload: Option<String>) -> (r:
        Option<StatusRecord>)
        ensures
            r matches Some(record) ==> record@ == (RecordView {
                owner_pid,
                generation,
                payload: text_of(payload),
            }),
            r is Some <==> (RecordView { owner_pid, generation, payload: text_of(payload) }).valid(),
    {
        match (owner_pid, payload) {
            (Some(pid), None) => StatusRecord::pending(pid, generation),
            (None, Some(text)) => Some(StatusRecord::resolved(generation, text)),
            _ => None,
        }
    }

    pub fn owner_pid(&self) -> (r: Option<i32>)
        ensures
            r == self@.owner_pid,
    {
        self.owner_pid
    }

    pub fn generation(&self) -> (r: u32)
        ensures
            r == self@.generation,
    {
        self.generation
    }

    /// The status, where it is known.
    pub fn payload(&self) -> (r: Option<&str>)
        ensures
            str_of(r) == self@.payload,
    {
        match &self.payload {
            Some(text) => Some(text.as_str()),
            None => None,
        }
    }

    /// What names the process group of the worker to the system: the negated
    /// process id of the worker, where the record has one.
    pub fn group_target(&self) -> (r: Option<i32>)
        ensures
            r == self@.group_target(),
            r matches Some(target) ==> target < 0,
    {
        proof {
            use_type_invariant(self);
        }
        match self.owner_pid {
            Some(pid) => Some(-pid),
            None => None,
        }
    }

    /// Whether the status is still being computed. Every record is valid,
    /// so it is pending exactly if it is not resolved.
    pub fn is_pending(&self) -> (r: bool)
        ensures
            r == self@.is_pending(),
            self@.valid(),
    {
        proof {
            use_type_invariant(self);
        }
        self.owner_pid.is_some()
    }

    /// Whether the status is known.
    pub fn is_resolved(&self) -> (r: bool)
        ensures
            r == self@.is_resolved(),
            self@.valid(),
    {
        proof {
            use_type_invariant(self);
        }
        self.payload.is_some()
    }

    /// A second record with the same fields.
    pub fn duplicate(&self) -> (r: StatusRecord)
        ensures
            r@ == self@,
    {
        proof {
            use_type_invariant(self);
        }
        StatusRecord {
            owner_pid: self.owner_pid,
            generation: self.generation,
            payload: match &self.payload {
                Some(text) => Some(text.clone()),
                None => None,
            },
        }
    }
}

} // verus!

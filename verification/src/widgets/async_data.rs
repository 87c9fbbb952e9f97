//! The status indicator that a background worker computes: what the prompt
//! shows of it, and what has to be done about the record of the session.

pub mod placeholder;
pub mod record;
pub mod session;
pub mod store;
pub mod supervisor;

use vstd::prelude::*;
use vstd::string::*;

use crate::formatting::{zero_width, zw};
use crate::widgets::async_data::placeholder::{placeholder, tickdata};
use crate::widgets::async_data::record::{RecordView, StatusRecord};
use crate::widgets::async_data::session::Session;

verus! {

/// What the drawing of a prompt asks to be done for the background job.
#[derive(Debug, Clone, Copy, PartialEq, Eq)]
pub enum Action {
    /// Send the termination signal to `target`. It is the negated process id
    /// of a worker, and so names the whole process group of that worker.
    Terminate { target: i32 },
    /// Delete the record of the session.
    Discard,
    /// Start a worker for the current generation, and go on once it can
    /// take signals.
    Spawn,
}

/// The view of an optional record.
pub open spec fn view_of(stored: Option<StatusRecord>) -> Option<RecordView> {
    match stored {
        Some(record) => Some(record@),
        None => None,
    }
}

/// The record that is still of use for `generation`: the stored one, unless
/// it was made for another generation.
pub open spec fn reconciled(stored: Option<RecordView>, generation: u32) -> Option<RecordView> {
    match stored {
        Some(record) => if record.generation == generation {
            Some(record)
        } else {
            None
        },
        None => None,
    }
}

/// What is done about a stored record before it is used for `generation`:
/// nothing if it was made for that generation; else the group of its worker
/// is told to end, if it still has a worker, and then the record is deleted.
pub open spec fn reclaim(stored: Option<RecordView>, generation: u32) -> Seq<Action> {
    match stored {
        Some(record) => if record.generation == generation {
            seq![]
        } else {
            match record.group_target() {
                Some(target) => seq![Action::Terminate { target }, Action::Discard],
                None => seq![Action::Discard],
            }
        },
        None => seq![],
    }
}

/// Everything that one drawing of the prompt asks for: what `reclaim` says,
/// and then a new worker unless a record of this generation is there.
pub open spec fn render_actions(session: Option<Session>, stored: Option<RecordView>) -> Seq<
    Action,
> {
    match session {
        Some(session) => if reconciled(stored, session.generation) is Some {
            reclaim(stored, session.generation)
        } else {
            reclaim(stored, session.generation).push(Action::Spawn)
        },
        None => seq![],
    }
}

/// What one drawing of the prompt shows at `millis` milliseconds after the
/// epoch: the status of this generation where it is known, else the frame
/// of the animation that is due, each as zero-width text; nothing at all
/// without a session.
pub open spec fn render_text(session: Option<Session>, stored: Option<RecordView>, millis: nat)
    -> Seq<char> {
    match session {
        Some(session) => match reconciled(stored, session.generation) {
            Some(record) => match record.payload {
                Some(payload) => zero_width(payload),
                None => zero_width(placeholder(millis)),
            },
            None => zero_width(placeholder(millis)),
        },
        None => Seq::empty(),
    }
}

/// What one drawing of the prompt comes to.
#[derive(Debug, PartialEq, Eq)]
pub struct Rendering {
    /// What is to be done, in this order, before the text is shown.
    pub actions: Vec<Action>,
    /// What the prompt shows.
    pub text: String,
}

/// Decides whether the record `stored`, as it was read from disk, is of use
/// for `generation`. Returns the record if it is, and what has to be done
/// first: a record of another generation is given up, after the process
/// group of its worker was told to end if the record still names one.
pub fn load_async_data(stored: Option<StatusRecord>, generation: u32) -> (r: (
    Option<StatusRecord>,
    Vec<Action>,
))
    ensures
        view_of(r.0) == reconciled(view_of(stored), generation),
        r.1@ == reclaim(view_of(stored), generation),
{
    let mut actions: Vec<Action> = Vec::new();
    match stored {
        Some(record) => {
            if record.generation() == generation {
                (Some(record), actions)
            } else {
                match record.group_target() {
                    Some(target) => {
                        actions.push(Action::Terminate { target });
                    },
                    None => {},
                }
                actions.push(Action::Discard);
                proof {
                    assert(actions@ == reclaim(view_of(stored), generation));
                }
                (None, actions)
            }
        },
        None => (None, actions),
    }
}

/// Draws the status indicator for `session`, given the record `stored` that
/// was read for it from disk (`None` where no file is there or where what
/// it holds is no record) and the time `millis` in milliseconds since the
/// epoch. Never waits and never fails: the text is the status of this
/// generation or a frame of the animation, and empty without a session.
pub fn generate(session: Option<Session>, stored: Option<StatusRecord>, millis: u128) -> (r:
    Rendering)
    ensures
        r.actions@ == render_actions(session, view_of(stored)),
        r.text@ == render_text(session, view_of(stored), millis as nat),
{
    match session {
        Some(session) => {
            let (kept, mut actions) = load_async_data(stored, session.generation);
            match kept {
                Some(record) => match record.payload() {
                    Some(payload) => Rendering { actions, text: zw(payload) },
                    None => {
                        let frame = tickdata(millis);
                        Rendering { actions, text: zw(frame.as_str()) }
                    },
                },
                None => {
                    actions.push(Action::Spawn);
                    let frame = tickdata(millis);
                    Rendering { actions, text: zw(frame.as_str()) }
                },
            }
        },
        None => Rendering { actions: Vec::new(), text: String::new() },
    }
}

/// A record of the current generation that holds a status is shown as it
/// is, at any time, and nothing is asked for, so that the record stays as it
/// is: any number of drawings show the same status.
pub proof fn lemma_resolved_record_is_shown(
    session: Session,
    record: RecordView,
    earlier: nat,
    later: nat,
)
    requires
        record.valid(),
        record.is_resolved(),
        record.generation == session.generation,
    ensures
        render_actions(Some(session), Some(record)) == Seq::<Action>::empty(),
        reconciled(Some(record), session.generation) == Some(record),
        render_text(Some(session), Some(record), earlier) == zero_width(record.payload->0),
        render_text(Some(session), Some(record), later) == render_text(
            Some(session),
            Some(record),
            earlier,
        ),
{
}

/// A record of another generation is given up and a new worker is asked
/// for, and the frame of the animation is shown. Where the record still
/// names a worker, the first thing asked for is the termination signal for
/// the process group of that worker, before the record is deleted.
pub proof fn lemma_stale_record_is_replaced(session: Session, record: RecordView, millis: nat)
    requires
        record.valid(),
        record.generation != session.generation,
    ensures
        reconciled(Some(record), session.generation) is None,
        record.owner_pid matches Some(pid) ==> render_actions(Some(session), Some(record))
            == seq![Action::Terminate { target: (-pid) as i32 }, Action::Discard, Action::Spawn],
        record.owner_pid is None ==> render_actions(Some(session), Some(record)) == seq![
            Action::Discard,
            Action::Spawn,
        ],
        render_text(Some(session), Some(record), millis) == zero_width(placeholder(millis)),
{
}

/// Where no record is there, one drawing asks for one worker and nothing
/// else, and shows the frame of the animation.
pub proof fn lemma_first_drawing_spawns_once(session: Session, millis: nat)
    ensures
        render_actions(Some(session), None) == seq![Action::Spawn],
        render_text(Some(session), None, millis) == zero_width(placeholder(millis)),
{
}

/// No drawing asks for more than one worker, and a worker is asked for
/// exactly where there is a session and no record of its generation.
pub proof fn lemma_at_most_one_spawn(session: Option<Session>, stored: Option<RecordView>)
    ensures
        forall|i: int, j: int|
            #![trigger render_actions(session, stored)[i], render_actions(session, stored)[j]]
            0 <= i < render_actions(session, stored).len() && 0 <= j < render_actions(
                session,
                stored,
            ).len() && render_actions(session, stored)[i] == Action::Spawn && render_actions(
                session,
                stored,
            )[j] == Action::Spawn ==> i == j,
        render_actions(session, stored).contains(Action::Spawn) <==> (session matches Some(current)
            && reconciled(stored, current.generation) is None),
{
    let actions = render_actions(session, stored);
    match session {
        Some(current) => {
            if reconciled(stored, current.generation) is None {
                assert(actions[actions.len() - 1] == Action::Spawn);
            }
        },
        None => {},
    }
}

} // verus!

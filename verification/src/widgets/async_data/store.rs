//! Where the record of a session lies on disk, and how it is replaced so that
//! no reader ever finds half of one.

use rand::Rng;
use vstd::prelude::*;
use vstd::string::*;

use crate::text::{
    decimal, join_path, joined, lemma_decimal_is_injective, push_decimal, push_signed_decimal,
    signed_decimal,
};
use crate::widgets::async_data::record::{RecordView, StatusRecord};

verus! {

/// The variable that configures the directory of the records.
pub const RUNTIME_DIR_VAR: &'static str = "XDG_RUNTIME_DIR";

/// The directory that is used where none is configured.
pub const FALLBACK_DIR: &'static str = "/tmp";

/// The name of the record of the session `shell_pid`, without its extension.
pub open spec fn record_stem(shell_pid: i32) -> Seq<char> {
    "shell-prompt-"@ + signed_decimal(shell_pid as int)
}

/// The path of the record of the session `shell_pid`.
pub open spec fn record_path(dir: Seq<char>, shell_pid: i32) -> Seq<char> {
    joined(dir, record_stem(shell_pid) + ".json"@)
}

/// The path of the temporary file, beside the record, that a writer with
/// the random number `nonce` fills.
pub open spec fn temp_path(dir: Seq<char>, shell_pid: i32, nonce: u32) -> Seq<char> {
    joined(dir, record_stem(shell_pid) + "."@ + decimal(nonce as nat) + ".tmp"@)
}

/// The directory of the records: the configured one, else `/tmp`.
pub fn runtime_dir(configured: Option<String>) -> (r: String)
    ensures
        r@ == match configured {
            Some(dir) => dir@,
            None => FALLBACK_DIR@,
        },
{
    match configured {
        Some(dir) => dir,
        None => String::from_str(FALLBACK_DIR),
    }
}

/// The beginning of the names of the files of the session `shell_pid`.
fn stem(shell_pid: i32) -> (r: String)
    ensures
        r@ == record_stem(shell_pid),
{
    let mut name = String::from_str("shell-prompt-");
    push_signed_decimal(&mut name, shell_pid as i64);
    name
}

/// The path of the record of the session `shell_pid` under `runtime_dir`.
pub fn json_path(runtime_dir: &str, shell_pid: i32) -> (r: String)
    ensures
        r@ == record_path(runtime_dir@, shell_pid),
{
    let mut name = stem(shell_pid);
    name.append(".json");
    join_path(runtime_dir, name.as_str())
}

/// The path of the temporary file for the record of `shell_pid` that the
/// random number `nonce` tells from those of other writers.
pub fn temp_json_path(runtime_dir: &str, shell_pid: i32, nonce: u32) -> (r: String)
    ensures
        r@ == temp_path(runtime_dir@, shell_pid, nonce),
{
    let mut name = stem(shell_pid);
    name.append(".");
    push_decimal(&mut name, nonce as u64);
    name.append(".tmp");
    join_path(runtime_dir, name.as_str())
}

/// One step on the files of a session.
#[derive(Debug, PartialEq, Eq)]
pub enum StoreOp {
    /// Create the file `path`, or empty it if it is there.
    Create { path: String },
    /// Write `record` into the file `path`, all of it, and close the file.
    Fill { path: String, record: StatusRecord },
    /// Give the file `from` the name `to`, in one step, in place of what
    /// had that name.
    Rename { from: String, to: String },
}

/// A step on the files of a session as a mathematical value.
pub enum StoreOpView {
    Create { path: Seq<char> },
    Fill { path: Seq<char>, record: RecordView },
    Rename { from: Seq<char>, to: Seq<char> },
}

impl View for StoreOp {
    type V = StoreOpView;

    open spec fn view(&self) -> StoreOpView {
        match self {
            StoreOp::Create { path } => StoreOpView::Create { path: path@ },
            StoreOp::Fill { path, record } => StoreOpView::Fill { path: path@, record: record@ },
            StoreOp::Rename { from, to } => StoreOpView::Rename { from: from@, to: to@ },
        }
    }
}

/// The steps `plan` as mathematical values.
pub open spec fn plan_view(plan: Seq<StoreOp>) -> Seq<StoreOpView> {
    plan.map_values(|op: StoreOp| op@)
}

/// What a file holds: a whole record, or anything less, which no reader
/// takes for a record.
pub enum FileView {
    Partial,
    Whole(RecordView),
}

/// The files of a directory, by path.
pub type Disk = Map<Seq<char>, FileView>;

/// The files after the step `op`.
pub open spec fn apply(disk: Disk, op: StoreOpView) -> Disk {
    match op {
        StoreOpView::Create { path } => disk.insert(path, FileView::Partial),
        StoreOpView::Fill { path, record } => disk.insert(path, FileView::Whole(record)),
        StoreOpView::Rename { from, to } => if disk.contains_key(from) {
            disk.remove(from).insert(to, disk[from])
        } else {
            disk
        },
    }
}

/// The files after the steps `ops`, taken in order.
pub open spec fn apply_all(disk: Disk, ops: Seq<StoreOpView>) -> Disk
    decreases ops.len(),
{
    if ops.len() == 0 {
        disk
    } else {
        apply(apply_all(disk, ops.drop_last()), ops.last())
    }
}

/// What a reader finds at `path`: the record, if a whole one is there.
pub open spec fn stored(disk: Disk, path: Seq<char>) -> Option<RecordView> {
    if disk.contains_key(path) {
        match disk[path] {
            FileView::Whole(record) => Some(record),
            FileView::Partial => None,
        }
    } else {
        None
    }
}

/// The steps that put `record` in place for the session `shell_pid`: a
/// temporary file beside the record is created and filled, and then takes
/// the record's name.
pub open spec fn write_ops(record: RecordView, dir: Seq<char>, shell_pid: i32, nonce: u32) -> Seq<
    StoreOpView,
> {
    seq![
        StoreOpView::Create { path: temp_path(dir, shell_pid, nonce) },
        StoreOpView::Fill { path: temp_path(dir, shell_pid, nonce), record },
        StoreOpView::Rename {
            from: temp_path(dir, shell_pid, nonce),
            to: record_path(dir, shell_pid),
        },
    ]
}

/// The steps that put `record` in place for the session `shell_pid`, with
/// `nonce` in the name of the temporary file.
pub fn write_plan(record: StatusRecord, runtime_dir: &str, shell_pid: i32, nonce: u32) -> (plan:
    Vec<StoreOp>)
    ensures
        plan_view(plan@) == write_ops(record@, runtime_dir@, shell_pid, nonce),
{
    let mut plan: Vec<StoreOp> = Vec::new();
    plan.push(StoreOp::Create { path: temp_json_path(runtime_dir, shell_pid, nonce) });
    plan.push(StoreOp::Fill { path: temp_json_path(runtime_dir, shell_pid, nonce), record });
    plan.push(
        StoreOp::Rename {
            from: temp_json_path(runtime_dir, shell_pid, nonce),
            to: json_path(runtime_dir, shell_pid),
        },
    );
    proof {
        assert(plan_view(plan@) =~= write_ops(record@, runtime_dir@, shell_pid, nonce));
    }
    plan
}

/// `rand::thread_rng` and `Rng::gen`: a number drawn by the generator of
/// this thread. Nothing is known of it. The generator is seeded at its
/// first use, and stops the process if the system has no randomness to give.
#[verifier::external_body]
fn random_nonce() -> u32 {
    rand::thread_rng().gen::<u32>()
}

/// The steps that put `record` in place for the session `shell_pid`. The
/// name of the temporary file holds a random number, so that two writers do
/// not fill the same file.
pub fn write_async_data(record: StatusRecord, runtime_dir: &str, shell_pid: i32) -> (plan: Vec<
    StoreOp,
>)
    ensures
        exists|nonce: u32|
            plan_view(plan@) == #[trigger] write_ops(record@, runtime_dir@, shell_pid, nonce),
{
    let nonce = random_nonce();
    write_plan(record, runtime_dir, shell_pid, nonce)
}

/// A path in a directory ends as the name ends.
proof fn lemma_joined_last(dir: Seq<char>, name: Seq<char>)
    requires
        name.len() > 0,
    ensures
        joined(dir, name).len() > 0,
        joined(dir, name).last() == name.last(),
{
}

/// The temporary file is never the record itself.
pub proof fn lemma_temp_is_not_record(dir: Seq<char>, shell_pid: i32, nonce: u32)
    ensures
        temp_path(dir, shell_pid, nonce) != record_path(dir, shell_pid),
{
    reveal_strlit(".json");
    reveal_strlit(".tmp");
    let record_name = record_stem(shell_pid) + ".json"@;
    let temp_name = record_stem(shell_pid) + "."@ + decimal(nonce as nat) + ".tmp"@;
    assert(record_name.last() == 'n');
    assert(temp_name.last() == 'p');
    lemma_joined_last(dir, record_name);
    lemma_joined_last(dir, temp_name);
}

/// Two writers for one session that drew different numbers fill different
/// temporary files.
pub proof fn lemma_nonces_tell_writers_apart(
    dir: Seq<char>,
    shell_pid: i32,
    first: u32,
    second: u32,
)
    requires
        first != second,
    ensures
        temp_path(dir, shell_pid, first) != temp_path(dir, shell_pid, second),
{
    let front = record_stem(shell_pid) + "."@;
    let first_name = front + decimal(first as nat) + ".tmp"@;
    let second_name = front + decimal(second as nat) + ".tmp"@;
    if temp_path(dir, shell_pid, first) == temp_path(dir, shell_pid, second) {
        let lead = if dir.len() == 0 || dir.last() == '/' {
            dir
        } else {
            dir + seq!['/']
        };
        assert(temp_path(dir, shell_pid, first) == lead + first_name);
        assert(temp_path(dir, shell_pid, second) == lead + second_name);
        assert(first_name == (lead + first_name).skip(lead.len() as int));
        assert(second_name == (lead + second_name).skip(lead.len() as int));
        assert(first_name == second_name);
        let first_digits = decimal(first as nat);
        let second_digits = decimal(second as nat);
        assert(first_name.len() == front.len() + first_digits.len() + ".tmp"@.len());
        assert(second_name.len() == front.len() + second_digits.len() + ".tmp"@.len());
        assert(first_digits == first_name.subrange(
            front.len() as int,
            (front.len() + first_digits.len()) as int,
        ));
        assert(second_digits == second_name.subrange(
            front.len() as int,
            (front.len() + second_digits.len()) as int,
        ));
        lemma_decimal_is_injective(first as nat, second as nat);
    }
}

/// The files after none, one and two steps of a write.
proof fn lemma_interrupted_steps(
    disk: Disk,
    record: RecordView,
    dir: Seq<char>,
    shell_pid: i32,
    nonce: u32,
)
    ensures
        ({
            let ops = write_ops(record, dir, shell_pid, nonce);
            let temp = temp_path(dir, shell_pid, nonce);
            &&& apply_all(disk, ops.take(0)) == disk
            &&& apply_all(disk, ops.take(1)) == disk.insert(temp, FileView::Partial)
            &&& apply_all(disk, ops.take(2)) == disk.insert(temp, FileView::Whole(record))
        }),
{
    let ops = write_ops(record, dir, shell_pid, nonce);
    let temp = temp_path(dir, shell_pid, nonce);
    assert(apply_all(disk, ops.take(0)) == disk);
    assert(ops.take(1).drop_last() == ops.take(0));
    assert(apply_all(disk, ops.take(1)) == disk.insert(temp, FileView::Partial));
    assert(ops.take(2).drop_last() == ops.take(1));
    assert(disk.insert(temp, FileView::Partial).insert(temp, FileView::Whole(record))
        == disk.insert(temp, FileView::Whole(record)));
}

/// A write that is interrupted before its last step, the renaming, is over
/// leaves every file but the temporary one as it was: a reader of the
/// record finds what it found before.
pub proof fn lemma_interrupted_write(
    disk: Disk,
    record: RecordView,
    dir: Seq<char>,
    shell_pid: i32,
    nonce: u32,
    done: int,
)
    requires
        0 <= done < 3,
    ensures
        ({
            let after = apply_all(disk, write_ops(record, dir, shell_pid, nonce).take(done));
            &&& stored(after, record_path(dir, shell_pid)) == stored(
                disk,
                record_path(dir, shell_pid),
            )
            &&& forall|path: Seq<char>|
                path != temp_path(dir, shell_pid, nonce) ==> after.contains_key(path)
                    == disk.contains_key(path) && (disk.contains_key(path) ==> after[path]
                    == disk[path])
        }),
{
    lemma_temp_is_not_record(dir, shell_pid, nonce);
    lemma_interrupted_steps(disk, record, dir, shell_pid, nonce);
}

/// A write that is carried through leaves `record` in place and no
/// temporary file, and touches no other file.
pub proof fn lemma_completed_write(
    disk: Disk,
    record: RecordView,
    dir: Seq<char>,
    shell_pid: i32,
    nonce: u32,
)
    ensures
        ({
            let after = apply_all(disk, write_ops(record, dir, shell_pid, nonce));
            &&& stored(after, record_path(dir, shell_pid)) == Some(record)
            &&& !after.contains_key(temp_path(dir, shell_pid, nonce))
            &&& forall|path: Seq<char>|
                path != temp_path(dir, shell_pid, nonce) && path != record_path(dir, shell_pid)
                    ==> after.contains_key(path) == disk.contains_key(path) && (
                disk.contains_key(path) ==> after[path] == disk[path])
        }),
{
    lemma_temp_is_not_record(dir, shell_pid, nonce);
    let ops = write_ops(record, dir, shell_pid, nonce);
    let temp = temp_path(dir, shell_pid, nonce);
    lemma_interrupted_steps(disk, record, dir, shell_pid, nonce);
    assert(ops.drop_last() == ops.take(2));
}

/// However far a write has come, a reader of the record finds what it
/// found before the write or the record that is being written, whole:
/// never half a record, and never nothing where a record was.
pub proof fn lemma_readers_find_old_or_new(
    disk: Disk,
    record: RecordView,
    dir: Seq<char>,
    shell_pid: i32,
    nonce: u32,
    done: int,
)
    requires
        0 <= done <= 3,
    ensures
        ({
            let after = apply_all(disk, write_ops(record, dir, shell_pid, nonce).take(done));
            let found = stored(after, record_path(dir, shell_pid));
            found == stored(disk, record_path(dir, shell_pid)) || found == Some(record)
        }),
{
    if done < 3 {
        lemma_interrupted_write(disk, record, dir, shell_pid, nonce, done);
    } else {
        lemma_completed_write(disk, record, dir, shell_pid, nonce);
        assert(write_ops(record, dir, shell_pid, nonce).take(3) == write_ops(
            record,
            dir,
            shell_pid,
            nonce,
        ));
    }
}

} // verus!

//! The synchronizer: the session of one run and the state machine that carries
//! each synchronization intent through its remote calls.
//!
//! The machine never performs a remote call itself. Each step returns a
//! [`Command`] that the caller performs; the caller then hands the outcome
//! back as a [`Reply`], until a `Command::Done` closes the intent.
use vstd::prelude::*;

use crate::path_filter::{is_valid_path, search_key, search_key_of, syncable};

verus! {

/// The error that the backend client reports, carried through unopened.
#[verifier::external_type_specification]
#[verifier::external_body]
pub struct ExAnyhowError(anyhow::Error);

/// Time given to the backend to start processing an upload before its state
/// is first examined.
pub const INITIAL_DELAY_MILLIS: u64 = 5000;

/// Pause between two queries of an uploaded model's state.
pub const RETRY_INTERVAL_MILLIS: u64 = 2000;

/// Once this much time (ten thousand seconds) has passed since the upload
/// returned, polling gives up.
pub const POLL_TIMEOUT_MILLIS: u64 = 10_000_000;

/// Pause between two events handled in a row.
pub const EVENT_DELAY_MILLIS: u64 = 1000;

/// Why an intent, or the session, failed.
#[derive(Debug)]
pub enum SynchronizerError {
    /// The backend did not accept an uploaded file.
    UploadError,
    /// A search or delete call of the backend failed.
    PcliError(anyhow::Error),
    /// The backend refused to drop the tenant's earlier session.
    SessionInitError,
    /// No home directory holds the client configuration.
    InvalidHomeDirectory,
}

/// A synchronization intent for one path.
#[derive(Debug)]
pub enum SynchronizerEvent {
    Create(String),
    Delete(String),
    Rename(String),
}

impl SynchronizerEvent {
    pub open spec fn path_view(&self) -> Seq<char> {
        match self {
            SynchronizerEvent::Create(p) => p@,
            SynchronizerEvent::Delete(p) => p@,
            SynchronizerEvent::Rename(p) => p@,
        }
    }
}

/// A model as the backend reports it.
#[derive(Debug)]
pub struct RemoteModel {
    pub uuid: u128,
    pub state: String,
}

/// What became of an intent that succeeded.
#[derive(Debug)]
pub enum Outcome {
    /// The path does not take part in synchronization; nothing was called.
    Ignored,
    /// The file was uploaded and the backend returned no model to follow.
    Submitted,
    /// The uploaded model reached a settled state.
    Settled { uuid: u128, state: String },
    /// The uploaded model did not settle before the polling timeout.
    TimedOut { uuid: u128 },
    /// Querying the uploaded model failed, so its state is unknown.
    Unconfirmed { uuid: u128 },
    /// The matching remote models were all deleted; `count` of them.
    Removed { count: usize },
}

/// A remote operation that the caller is to perform, or the end of an intent.
#[derive(Debug)]
pub enum Command {
    /// The intent is over, with this result.
    Done(Result<Outcome, SynchronizerError>),
    /// Upload the file at `path` into the folder, as part of the batch.
    Upload { folder_id: u32, path: String, batch_uuid: u128, units: String },
    /// Wait this long, then report the time since the upload returned.
    Pause { millis: u64 },
    /// Fetch the current state of a model.
    GetModel { uuid: u128 },
    /// List the models of these folders whose name matches `name`.
    Search { folder_ids: Vec<u32>, name: String },
    /// Delete a model.
    DeleteModel { uuid: u128 },
}

/// The outcome of a performed [`Command`].
#[derive(Debug)]
pub enum Reply {
    Uploaded(Result<Option<RemoteModel>, anyhow::Error>),
    /// A pause ended; `elapsed_millis` have passed since the upload returned.
    Paused { elapsed_millis: u64 },
    Model(Result<RemoteModel, anyhow::Error>),
    Found(Result<Vec<RemoteModel>, anyhow::Error>),
    Deleted(Result<(), anyhow::Error>),
}

/// Where the synchronizer stands.
#[derive(Debug)]
pub enum Phase {
    /// The backend session has not been initialized yet.
    Uninitialized,
    /// Ready for the next event.
    Idle,
    /// An upload was commanded.
    Uploading,
    /// A pause was commanded; `waited` is the total of the pauses commanded
    /// since the upload returned, and `state` the model's last known state.
    Settling { uuid: u128, state: String, waited: u64 },
    /// A query of the model was commanded, `waited` after the upload returned.
    Checking { uuid: u128, waited: u64 },
    /// A search for the models matching a deleted file was commanded.
    Searching,
    /// The deletion of `found[next]` was commanded; `deleted` of the earlier
    /// ones succeeded and `failure` holds the first error, if any.
    Deleting {
        found: Vec<RemoteModel>,
        next: usize,
        deleted: usize,
        failure: Option<anyhow::Error>,
    },
}

/// The session of one run: the tenant, the target folder, the unit of
/// measure, and the batch that groups every upload of the run.
pub struct Synchronizer {
    pub path: String,
    pub folder_id: u32,
    pub tenant: String,
    pub units: String,
    pub batch_uuid: u128,
    pub phase: Phase,
}

/// The state of a model that has finished processing, well or not.
pub open spec fn settled_state(state: Seq<char>) -> bool {
    state == "finished"@ || state == "failed"@ || state == "missing-parts"@
}

/// A random UUID (version 4, RFC 4122 variant) as a 128-bit big-endian value.
pub open spec fn is_random_uuid(id: u128) -> bool {
    id & 0xF000_C000_0000_0000_0000u128 == 0x4000_8000_0000_0000_0000u128
}

/// Relies on uuid::Uuid::new_v4, read back with Uuid::as_u128: a random value
/// whose version bits say 4 and whose variant bits say RFC 4122.
#[verifier::external_body]
fn random_batch_uuid() -> (r: u128)
    ensures
        is_random_uuid(r),
{
    uuid::Uuid::new_v4().as_u128()
}

/// The client configuration file, which sits in the user's home directory.
pub fn configuration_file(home: Option<String>) -> (r: Result<String, SynchronizerError>)
    ensures
        home is None <==> (r matches Err(SynchronizerError::InvalidHomeDirectory)),
        home matches Some(h) ==> (r matches Ok(file) && file@ == h@ + "/.pcli.conf"@),
{
    match home {
        None => Err(SynchronizerError::InvalidHomeDirectory),
        Some(mut file) => {
            file.append("/.pcli.conf");
            Ok(file)
        },
    }
}

/// Whether a model in `state` has finished processing.
pub fn is_settled(state: &String) -> (r: bool)
    ensures
        r == settled_state(state@),
{
    *state == "finished".to_owned() || *state == "failed".to_owned() || *state
        == "missing-parts".to_owned()
}

/// The time to reckon with after a pause: what the caller measured, but never
/// less than the pauses commanded.
pub open spec fn clock(waited: u64, elapsed: u64) -> u64 {
    if elapsed > waited {
        elapsed
    } else {
        waited
    }
}

/// Which reply each phase waits for.
pub open spec fn phase_awaits(phase: Phase, reply: Reply) -> bool {
    match phase {
        Phase::Uploading => reply is Uploaded,
        Phase::Settling { .. } => reply is Paused,
        Phase::Checking { .. } => reply is Model,
        Phase::Searching => reply is Found,
        Phase::Deleting { .. } => reply is Deleted,
        _ => false,
    }
}

/// A reply that a real value can be: a list of models fits in memory.
pub open spec fn reply_wf(reply: Reply) -> bool {
    match reply {
        Reply::Found(Ok(found)) => found@.len() <= usize::MAX,
        _ => true,
    }
}

/// The result that closes a deletion fan-out.
pub open spec fn deletion_result(deleted: usize, failure: Option<anyhow::Error>) -> Result<
    Outcome,
    SynchronizerError,
> {
    match failure {
        Some(e) => Err(SynchronizerError::PcliError(e)),
        None => Ok(Outcome::Removed { count: deleted }),
    }
}

/// The phase and command that follow `reply` in `phase`.
pub open spec fn step(phase: Phase, reply: Reply) -> (Phase, Command) {
    match (phase, reply) {
        (Phase::Uploading, Reply::Uploaded(res)) => match res {
            Err(_) => (Phase::Idle, Command::Done(Err(SynchronizerError::UploadError))),
            Ok(None) => (Phase::Idle, Command::Done(Ok(Outcome::Submitted))),
            Ok(Some(m)) => (
                Phase::Settling { uuid: m.uuid, state: m.state, waited: INITIAL_DELAY_MILLIS },
                Command::Pause { millis: INITIAL_DELAY_MILLIS },
            ),
        },
        (Phase::Settling { uuid, state, waited }, Reply::Paused { elapsed_millis }) => {
            if settled_state(state@) {
                (Phase::Idle, Command::Done(Ok(Outcome::Settled { uuid, state })))
            } else if clock(waited, elapsed_millis) >= POLL_TIMEOUT_MILLIS {
                (Phase::Idle, Command::Done(Ok(Outcome::TimedOut { uuid })))
            } else {
                (
                    Phase::Checking { uuid, waited: clock(waited, elapsed_millis) },
                    Command::GetModel { uuid },
                )
            }
        },
        (Phase::Checking { uuid, waited }, Reply::Model(res)) => match res {
            Err(_) => (Phase::Idle, Command::Done(Ok(Outcome::Unconfirmed { uuid }))),
            Ok(m) => (
                Phase::Settling {
                    uuid,
                    state: m.state,
                    waited: (waited + RETRY_INTERVAL_MILLIS) as u64,
                },
                Command::Pause { millis: RETRY_INTERVAL_MILLIS },
            ),
        },
        (Phase::Searching, Reply::Found(res)) => match res {
            Err(e) => (Phase::Idle, Command::Done(Err(SynchronizerError::PcliError(e)))),
            Ok(found) => if found@.len() == 0 {
                (Phase::Idle, Command::Done(Ok(Outcome::Removed { count: 0 })))
            } else {
                (
                    Phase::Deleting { found, next: 0, deleted: 0, failure: None },
                    Command::DeleteModel { uuid: found@[0].uuid },
                )
            },
        },
        (Phase::Deleting { found, next, deleted, failure }, Reply::Deleted(res)) => {
            let deleted2 = if res is Ok {
                (deleted + 1) as usize
            } else {
                deleted
            };
            let failure2 = match failure {
                Some(f) => Some(f),
                None => match res {
                    Err(e) => Some(e),
                    Ok(_) => None,
                },
            };
            if next + 1 < found@.len() {
                (
                    Phase::Deleting {
                        found,
                        next: (next + 1) as usize,
                        deleted: deleted2,
                        failure: failure2,
                    },
                    Command::DeleteModel { uuid: found@[next + 1].uuid },
                )
            } else {
                (Phase::Idle, Command::Done(deletion_result(deleted2, failure2)))
            }
        },
        // A reply that the phase does not wait for changes nothing.
        (p, _) => (p, Command::Done(Ok(Outcome::Ignored))),
    }
}

/// A consistent phase: polling stays under the timeout, and a deletion
/// fan-out points inside its list.
pub open spec fn phase_wf(phase: Phase) -> bool {
    match phase {
        Phase::Settling { waited, .. } => waited < POLL_TIMEOUT_MILLIS + RETRY_INTERVAL_MILLIS,
        Phase::Checking { waited, .. } => waited < POLL_TIMEOUT_MILLIS,
        Phase::Deleting { found, next, deleted, .. } => next < found@.len() <= usize::MAX
            && deleted <= next,
        _ => true,
    }
}

impl Synchronizer {
    /// The phase is consistent.
    pub open spec fn wf(&self) -> bool {
        phase_wf(self.phase)
    }

    /// Ready for the next event.
    pub open spec fn idle(&self) -> bool {
        self.phase is Idle
    }

    /// The same session, in another phase.
    pub open spec fn same_session(&self, other: &Synchronizer) -> bool {
        self.path == other.path && self.folder_id == other.folder_id && self.tenant
            == other.tenant && self.units == other.units && self.batch_uuid == other.batch_uuid
    }

    /// A new session for the directory at `path`, under a fresh random batch.
    /// It accepts events once [`Synchronizer::init`] has succeeded.
    pub fn new(path: String, tenant: String, folder_id: u32, units: String) -> (r: Synchronizer)
        ensures
            r.path == path,
            r.tenant == tenant,
            r.folder_id == folder_id,
            r.units == units,
            is_random_uuid(r.batch_uuid),
            r.phase is Uninitialized,
            r.wf(),
    {
        Synchronizer { path, folder_id, tenant, units, batch_uuid: random_batch_uuid(), phase: Phase::Uninitialized }
    }

    /// Records the outcome of invalidating the tenant's earlier session. The
    /// synchronizer accepts events only after an invalidation that succeeded;
    /// once it has, the session is open and is not initialized again.
    pub fn init(&mut self, invalidated: bool) -> (r: Result<(), SynchronizerError>)
        requires
            old(self).phase is Uninitialized,
        ensures
            final(self).wf(),
            final(self).same_session(old(self)),
            invalidated ==> r is Ok && final(self).idle(),
            !invalidated ==> (r matches Err(SynchronizerError::SessionInitError))
                && final(self).phase is Uninitialized,
    {
        if invalidated {
            self.phase = Phase::Idle;
            Ok(())
        } else {
            Err(SynchronizerError::SessionInitError)
        }
    }

    /// Whether the synchronizer waits for `reply`.
    pub fn awaits(&self, reply: &Reply) -> (r: bool)
        ensures
            r == phase_awaits(self.phase, *reply),
    {
        match (&self.phase, reply) {
            (Phase::Uploading, Reply::Uploaded(_)) => true,
            (Phase::Settling { .. }, Reply::Paused { .. }) => true,
            (Phase::Checking { .. }, Reply::Model(_)) => true,
            (Phase::Searching, Reply::Found(_)) => true,
            (Phase::Deleting { .. }, Reply::Deleted(_)) => true,
            _ => false,
        }
    }

    /// Starts the intent for `event`. A path that does not take part in
    /// synchronization ends it at once, with no remote call. Create and
    /// Rename upload the file under the session's folder, batch and units;
    /// Delete searches the folder for the models named after the file.
    pub fn on_event(&mut self, event: SynchronizerEvent) -> (r: Command)
        requires
            old(self).wf(),
            old(self).idle(),
        ensures
            final(self).wf(),
            final(self).same_session(old(self)),
            !syncable(event.path_view()) ==> r == Command::Done(Ok(Outcome::Ignored))
                && final(self).idle(),
            syncable(event.path_view()) && event is Delete ==> final(self).phase is Searching
                && match r {
                Command::Search { folder_ids, name } => folder_ids@ == seq![old(self).folder_id]
                    && name@ == search_key_of(event.path_view()),
                _ => false,
            },
            syncable(event.path_view()) && !(event is Delete) ==> final(self).phase is Uploading
                && match r {
                Command::Upload { folder_id, path, batch_uuid, units } => folder_id == old(
                    self,
                ).folder_id && path@ == event.path_view() && batch_uuid == old(self).batch_uuid
                    && units == old(self).units,
                _ => false,
            },
    {
        match event {
            SynchronizerEvent::Create(path) | SynchronizerEvent::Rename(path) => {
                if !is_valid_path(path.as_str()) {
                    return Command::Done(Ok(Outcome::Ignored));
                }
                self.phase = Phase::Uploading;
                Command::Upload {
                    folder_id: self.folder_id,
                    path,
                    batch_uuid: self.batch_uuid,
                    units: self.units.clone(),
                }
            },
            SynchronizerEvent::Delete(path) => {
                if !is_valid_path(path.as_str()) {
                    return Command::Done(Ok(Outcome::Ignored));
                }
                self.phase = Phase::Searching;
                Command::Search { folder_ids: vec![self.folder_id], name: search_key(path.as_str()) }
            },
        }
    }

    /// Takes the outcome of the last command and returns the next one, as
    /// [`step`] describes: an upload that returned a model is followed by an
    /// initial pause and then by queries of the model's state, a pause apart,
    /// until the state is settled, the timeout has passed or a query fails;
    /// a search is followed by one deletion per model found, each attempted
    /// whatever became of the others.
    pub fn on_reply(&mut self, reply: Reply) -> (r: Command)
        requires
            old(self).wf(),
            phase_awaits(old(self).phase, reply),
        ensures
            final(self).wf(),
            final(self).same_session(old(self)),
            (final(self).phase, r) == step(old(self).phase, reply),
    {
        let mut phase = Phase::Idle;
        std::mem::swap(&mut self.phase, &mut phase);
        match phase {
            Phase::Uploading => {
                let res = match reply {
                    Reply::Uploaded(res) => res,
                    _ => unreached(),
                };
                match res {
                    Err(_) => Command::Done(Err(SynchronizerError::UploadError)),
                    Ok(None) => Command::Done(Ok(Outcome::Submitted)),
                    Ok(Some(m)) => {
                        self.phase = Phase::Settling {
                            uuid: m.uuid,
                            state: m.state,
                            waited: INITIAL_DELAY_MILLIS,
                        };
                        Command::Pause { millis: INITIAL_DELAY_MILLIS }
                    },
                }
            },
            Phase::Settling { uuid, state, waited } => {
                let elapsed = match reply {
                    Reply::Paused { elapsed_millis } => elapsed_millis,
                    _ => unreached(),
                };
                if is_settled(&state) {
                    return Command::Done(Ok(Outcome::Settled { uuid, state }));
                }
                let now = if elapsed > waited {
                    elapsed
                } else {
                    waited
                };
                if now >= POLL_TIMEOUT_MILLIS {
                    Command::Done(Ok(Outcome::TimedOut { uuid }))
                } else {
                    self.phase = Phase::Checking { uuid, waited: now };
                    Command::GetModel { uuid }
                }
            },
            Phase::Checking { uuid, waited } => {
                let res = match reply {
                    Reply::Model(res) => res,
                    _ => unreached(),
                };
                match res {
                    Err(_) => Command::Done(Ok(Outcome::Unconfirmed { uuid })),
                    Ok(m) => {
                        self.phase = Phase::Settling {
                            uuid,
                            state: m.state,
                            waited: waited + RETRY_INTERVAL_MILLIS,
                        };
                        Command::Pause { millis: RETRY_INTERVAL_MILLIS }
                    },
                }
            },
            Phase::Searching => {
                let res = match reply {
                    Reply::Found(res) => res,
                    _ => unreached(),
                };
                match res {
                    Err(e) => Command::Done(Err(SynchronizerError::PcliError(e))),
                    Ok(found) => {
                        if found.len() == 0 {
                            Command::Done(Ok(Outcome::Removed { count: 0 }))
                        } else {
                            let uuid = found[0].uuid;
                            self.phase = Phase::Deleting {
                                found,
                                next: 0,
                                deleted: 0,
                                failure: None,
                            };
                            Command::DeleteModel { uuid }
                        }
                    },
                }
            },
            Phase::Deleting { found, next, deleted, failure } => {
                let res = match reply {
                    Reply::Deleted(res) => res,
                    _ => unreached(),
                };
                let n = found.len();
                let deleted2 = if res.is_ok() {
                    deleted + 1
                } else {
                    deleted
                };
                let failure2 = match failure {
                    Some(f) => Some(f),
                    None => match res {
                        Err(e) => Some(e),
                        Ok(_) => None,
                    },
                };
                if next + 1 < n {
                    let uuid = found[next + 1].uuid;
                    self.phase = Phase::Deleting {
                        found,
                        next: next + 1,
                        deleted: deleted2,
                        failure: failure2,
                    };
                    Command::DeleteModel { uuid }
                } else {
                    match failure2 {
                        Some(e) => Command::Done(Err(SynchronizerError::PcliError(e))),
                        None => Command::Done(Ok(Outcome::Removed { count: deleted2 })),
                    }
                }
            },
            _ => unreached(),
        }
    }
}

} // verus!

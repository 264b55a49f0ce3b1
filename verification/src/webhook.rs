//! The transfer of published files, told as steps: for each file download, verify,
//! store, mirror, persist and clean up; after the last file of a batch, prune once.
//!
//! Nothing here touches the network, the disk or the database. The caller performs the
//! step that the state asks for and reports how it went; the state then says what comes
//! next, and keeps count of what has been done.

use crate::artifact::Artifact;
use crate::integrity::{content_hash, content_verified, remote_hash_text};
use crate::text::{
    decimal, last_dot, lemma_decimal_injective, lemma_decimal_shape, lemma_last_dot_before_dotless,
    push_decimal,
};
use vstd::prelude::*;
use vstd::string::StringExecFns;

verus! {

/// Why a transfer came to nothing.
#[derive(Clone, Copy, Debug, PartialEq, Eq, Structural)]
pub enum TransferError {
    /// The network or the file system failed.
    Transport,
    /// The bundle is not what the server declared.
    IntegrityMismatch,
    /// The release host refused the upload.
    UploadProvider,
    /// The database refused the record.
    Persistence,
}

/// How a transfer ended.
#[derive(Clone, Copy, Debug, PartialEq, Eq, Structural)]
pub enum Outcome {
    /// The file is in the local store and its record in the database.
    Published,
    Failed(TransferError),
}

/// The step of a transfer whose result is awaited.
#[derive(Clone, Copy, Debug, PartialEq, Eq, Structural)]
pub enum Step {
    /// Fetch the bundle into the staging file and flush it.
    Download,
    /// Put the staged bundle into the local store.
    Store,
    /// Upload the bundle to the release host.
    Mirror,
    /// Insert the record into the database.
    Persist,
    /// Remove the staging file of a published bundle.
    Cleanup,
    /// Remove the staging file of a bundle that failed the check.
    Discard,
    /// Nothing: the transfer has ended.
    Done,
}

/// How the awaited step went.
#[derive(Clone, Copy, Debug, PartialEq, Eq, Structural)]
pub enum Signal {
    /// The bundle is staged; `matches` says whether it passed the integrity check.
    Fetched { matches: bool },
    Succeeded,
    Failed,
}

/// How the awaited step went, with what it brought.
#[derive(Debug)]
pub enum Event {
    /// The bundle is staged: its bytes, and the `ETag` header of the response.
    Downloaded { content: Vec<u8>, etag: Option<String> },
    Succeeded,
    Failed,
}

/// The name of the staging file for the attempt numbered `attempt` to transfer the
/// file called `file_name`: the file name, a `'.'`, and the number.
pub open spec fn staging_name_text(file_name: Seq<char>, attempt: nat) -> Seq<char> {
    file_name + seq!['.'] + decimal(attempt)
}

/// The name of the staging file for one attempt to transfer a file. Transfers that
/// run side by side do not share a staging file as long as their attempts are numbered
/// apart, even where they transfer files of the same name.
pub fn staging_name(file_name: &str, attempt: u64) -> (name: String)
    ensures
        name@ == staging_name_text(file_name@, attempt as nat),
{
    let mut name = String::from_str(file_name);
    name.push('.');
    push_decimal(&mut name, attempt);
    proof {
        assert(name@ =~= staging_name_text(file_name@, attempt as nat));
    }
    name
}

/// Attempts with different numbers have different staging files, whatever the files
/// are called.
pub proof fn lemma_staging_names_differ(
    file_a: Seq<char>,
    attempt_a: nat,
    file_b: Seq<char>,
    attempt_b: nat,
)
    requires
        attempt_a != attempt_b,
    ensures
        staging_name_text(file_a, attempt_a) != staging_name_text(file_b, attempt_b),
{
    let name_a = staging_name_text(file_a, attempt_a);
    let name_b = staging_name_text(file_b, attempt_b);
    lemma_decimal_shape(attempt_a);
    lemma_decimal_shape(attempt_b);
    lemma_last_dot_before_dotless(file_a, decimal(attempt_a));
    lemma_last_dot_before_dotless(file_b, decimal(attempt_b));
    if name_a == name_b {
        assert(last_dot(name_a) == file_a.len());
        assert(last_dot(name_b) == file_b.len());
        assert(name_a.skip(file_a.len() as int + 1) =~= decimal(attempt_a));
        assert(name_b.skip(file_b.len() as int + 1) =~= decimal(attempt_b));
        lemma_decimal_injective(attempt_a, attempt_b);
    }
}

/// One more, as far as the type goes.
pub open spec fn bump(n: u8) -> u8 {
    if n < u8::MAX {
        (n + 1) as u8
    } else {
        n
    }
}

pub(crate) fn bumped(n: u8) -> (m: u8)
    ensures
        m == bump(n),
{
    if n < u8::MAX {
        n + 1
    } else {
        n
    }
}

impl Event {
    /// Whether the event is a download that came without an `ETag` header.
    pub open spec fn lacks_etag(&self) -> bool {
        match self {
            Event::Downloaded { content, etag } => etag is None,
            _ => false,
        }
    }

    /// The signal that the event amounts to. A download passes the check where the MD5
    /// digest of its bytes is the digest that the `ETag` header declares.
    pub open spec fn signal_of(&self) -> Signal {
        match self {
            Event::Downloaded { content, etag } => Signal::Fetched {
                matches: content_hash(content@) == remote_hash_text(
                    match etag {
                        Some(tag) => Some(tag@),
                        None => None,
                    },
                ),
            },
            Event::Succeeded => Signal::Succeeded,
            Event::Failed => Signal::Failed,
        }
    }

    /// Checks a download and reduces the event to its signal. A download that came
    /// without an `ETag` header fails the check.
    pub fn signal(&self) -> (signal: Signal)
        ensures
            signal == self.signal_of(),
            self.lacks_etag() ==> signal == (Signal::Fetched { matches: false }),
    {
        match self {
            Event::Downloaded { content, etag } => {
                let matches = match etag {
                    Some(tag) => content_verified(content.as_slice(), Some(tag.as_str())),
                    None => content_verified(content.as_slice(), None),
                };
                Signal::Fetched { matches }
            },
            Event::Succeeded => Signal::Succeeded,
            Event::Failed => Signal::Failed,
        }
    }
}

/// The state of one transfer: the step awaited, and what has been done so far.
#[derive(Clone, Copy, Debug, PartialEq, Eq, Structural)]
pub struct Transfer {
    pub step: Step,
    /// The bundle passed the integrity check.
    pub verified: bool,
    /// How many files the transfer has put into the local store.
    pub stored: u8,
    /// The bundle reached the release host.
    pub mirrored: bool,
    /// How many records the transfer has inserted into the database.
    pub rows: u8,
    /// The staging file exists.
    pub staged: bool,
    pub outcome: Option<Outcome>,
}

impl Transfer {
    /// A transfer that has not begun: it awaits the download.
    pub open spec fn initial() -> Transfer {
        Transfer {
            step: Step::Download,
            verified: false,
            stored: 0,
            mirrored: false,
            rows: 0,
            staged: false,
            outcome: None,
        }
    }

    /// The transfer, ended with `outcome`.
    pub open spec fn ended(self, outcome: Outcome) -> Transfer {
        Transfer { step: Step::Done, outcome: Some(outcome), ..self }
    }

    /// The state after the awaited step went as `signal` says.
    ///
    /// A download that passes the check leads to the store, one that fails it to the
    /// removal of the staging file and then to `IntegrityMismatch`. After the store
    /// comes the mirror, whose failure changes nothing but `mirrored`; then the record,
    /// then the removal of the staging file. Any other failure ends the transfer. A
    /// signal that does not answer the awaited step counts as its failure: a download
    /// is answered by `Fetched` alone, every other step by `Succeeded` alone.
    pub open spec fn after(self, signal: Signal) -> Transfer {
        match self.step {
            Step::Download => match signal {
                Signal::Fetched { matches } => if matches {
                    Transfer { step: Step::Store, verified: true, staged: true, ..self }
                } else {
                    Transfer { step: Step::Discard, staged: true, ..self }
                },
                _ => self.ended(Outcome::Failed(TransferError::Transport)),
            },
            Step::Store => match signal {
                Signal::Succeeded => Transfer {
                    step: Step::Mirror,
                    stored: bump(self.stored),
                    ..self
                },
                _ => self.ended(Outcome::Failed(TransferError::Transport)),
            },
            Step::Mirror => match signal {
                Signal::Succeeded => Transfer { step: Step::Persist, mirrored: true, ..self },
                _ => Transfer { step: Step::Persist, ..self },
            },
            Step::Persist => match signal {
                Signal::Succeeded => Transfer { step: Step::Cleanup, rows: bump(self.rows), ..self },
                Signal::Failed => self.ended(Outcome::Failed(TransferError::Persistence)),
                _ => self.ended(Outcome::Failed(TransferError::Transport)),
            },
            Step::Cleanup => match signal {
                Signal::Succeeded => Transfer { staged: false, ..self }.ended(Outcome::Published),
                _ => self.ended(Outcome::Failed(TransferError::Transport)),
            },
            Step::Discard => match signal {
                Signal::Succeeded => Transfer { staged: false, ..self }.ended(
                    Outcome::Failed(TransferError::IntegrityMismatch),
                ),
                _ => self.ended(Outcome::Failed(TransferError::Transport)),
            },
            Step::Done => self,
        }
    }

    /// The state after each of `signals` in turn.
    pub open spec fn run(self, signals: Seq<Signal>) -> Transfer
        decreases signals.len(),
    {
        if signals.len() == 0 {
            self
        } else {
            self.run(signals.drop_last()).after(signals.last())
        }
    }

    /// Whether the counts fit the step: what must have happened before it has, and
    /// nothing that comes after it.
    pub open spec fn wf(self) -> bool {
        match self.step {
            Step::Download => !self.verified && self.stored == 0 && !self.mirrored && self.rows
                == 0 && !self.staged && self.outcome is None,
            Step::Store => self.verified && self.stored == 0 && !self.mirrored && self.rows == 0
                && self.staged && self.outcome is None,
            Step::Mirror => self.verified && self.stored == 1 && !self.mirrored && self.rows == 0
                && self.staged && self.outcome is None,
            Step::Persist => self.verified && self.stored == 1 && self.rows == 0 && self.staged
                && self.outcome is None,
            Step::Cleanup => self.verified && self.stored == 1 && self.rows == 1 && self.staged
                && self.outcome is None,
            Step::Discard => !self.verified && self.stored == 0 && !self.mirrored && self.rows
                == 0 && self.staged && self.outcome is None,
            Step::Done => match self.outcome {
                Some(Outcome::Published) => self.verified && self.stored == 1 && self.rows == 1
                    && !self.staged,
                Some(Outcome::Failed(TransferError::IntegrityMismatch)) => !self.verified
                    && self.stored == 0 && !self.mirrored && self.rows == 0 && !self.staged,
                Some(Outcome::Failed(TransferError::Persistence)) => self.verified && self.stored
                    == 1 && self.rows == 0 && self.staged,
                Some(Outcome::Failed(TransferError::Transport)) => self.stored <= 1 && self.rows
                    <= self.stored && (self.stored == 1 ==> self.verified) && (self.verified
                    ==> self.staged),
                Some(Outcome::Failed(TransferError::UploadProvider)) => false,
                None => false,
            },
        }
    }

    /// Begins a transfer.
    pub fn new() -> (transfer: Transfer)
        ensures
            transfer == Transfer::initial(),
            transfer.wf(),
    {
        Transfer {
            step: Step::Download,
            verified: false,
            stored: 0,
            mirrored: false,
            rows: 0,
            staged: false,
            outcome: None,
        }
    }

    /// Takes in how the awaited step went, and says which step is awaited next.
    pub fn step(&mut self, signal: Signal) -> (next: Step)
        ensures
            *final(self) == old(self).after(signal),
            next == final(self).step,
            old(self).wf() ==> final(self).wf(),
    {
        let before = *self;
        let succeeded = match signal {
            Signal::Succeeded => true,
            _ => false,
        };
        let transport = Transfer {
            step: Step::Done,
            outcome: Some(Outcome::Failed(TransferError::Transport)),
            ..before
        };
        match before.step {
            Step::Download => match signal {
                Signal::Fetched { matches } => {
                    if matches {
                        *self = Transfer {
                            step: Step::Store,
                            verified: true,
                            staged: true,
                            ..before
                        };
                    } else {
                        *self = Transfer { step: Step::Discard, staged: true, ..before };
                    }
                },
                _ => {
                    *self = transport;
                },
            },
            Step::Store => {
                if succeeded {
                    *self = Transfer { step: Step::Mirror, stored: bumped(before.stored), ..before };
                } else {
                    *self = transport;
                }
            },
            Step::Mirror => {
                if succeeded {
                    *self = Transfer { step: Step::Persist, mirrored: true, ..before };
                } else {
                    *self = Transfer { step: Step::Persist, ..before };
                }
            },
            Step::Persist => match signal {
                Signal::Succeeded => {
                    *self = Transfer { step: Step::Cleanup, rows: bumped(before.rows), ..before };
                },
                Signal::Failed => {
                    *self = Transfer {
                        step: Step::Done,
                        outcome: Some(Outcome::Failed(TransferError::Persistence)),
                        ..before
                    };
                },
                _ => {
                    *self = transport;
                },
            },
            Step::Cleanup => {
                if succeeded {
                    *self = Transfer {
                        step: Step::Done,
                        staged: false,
                        outcome: Some(Outcome::Published),
                        ..before
                    };
                } else {
                    *self = transport;
                }
            },
            Step::Discard => {
                if succeeded {
                    *self = Transfer {
                        step: Step::Done,
                        staged: false,
                        outcome: Some(Outcome::Failed(TransferError::IntegrityMismatch)),
                        ..before
                    };
                } else {
                    *self = transport;
                }
            },
            Step::Done => {},
        }
        self.step
    }

    /// Takes in what the awaited step brought, checks a download against its declared
    /// digest, and says which step is awaited next. A download without an `ETag` header
    /// is discarded.
    pub fn advance(&mut self, event: &Event) -> (next: Step)
        ensures
            *final(self) == old(self).after(event.signal_of()),
            next == final(self).step,
            old(self).wf() ==> final(self).wf(),
            old(self).step == Step::Download && event.lacks_etag() ==> next == Step::Discard,
    {
        let signal = event.signal();
        self.step(signal)
    }
}

/// A step keeps the counts fitting.
pub proof fn lemma_after_keeps_wf(transfer: Transfer, signal: Signal)
    requires
        transfer.wf(),
    ensures
        transfer.after(signal).wf(),
{
}

/// Whatever is reported, in whatever order, the counts of a transfer fit its step.
pub proof fn lemma_run_wf(signals: Seq<Signal>)
    ensures
        Transfer::initial().run(signals).wf(),
    decreases signals.len(),
{
    if signals.len() > 0 {
        lemma_run_wf(signals.drop_last());
        lemma_after_keeps_wf(Transfer::initial().run(signals.drop_last()), signals.last());
    }
}

/// What a transfer leaves behind, whatever was reported to it.
///
/// A published file passed the check, is in the local store exactly once, has exactly
/// one record, and its staging file is gone. A bundle that failed the check has no
/// record, is not in the store, and its staging file is gone. And at every moment there
/// is at most one record, and one only where the file is stored and verified.
pub proof fn lemma_transfer_effects(signals: Seq<Signal>)
    ensures
        ({
            let end = Transfer::initial().run(signals);
            &&& end.outcome == Some(Outcome::Published) ==> end.verified && end.stored == 1
                && end.rows == 1 && !end.staged
            &&& end.outcome == Some(Outcome::Failed(TransferError::IntegrityMismatch))
                ==> !end.verified && end.stored == 0 && end.rows == 0 && !end.staged
            &&& end.rows <= 1 && end.stored <= 1
            &&& end.rows == 1 ==> end.stored == 1 && end.verified
            &&& end.stored == 1 ==> end.verified
            &&& end.outcome is Some <==> end.step == Step::Done
        }),
{
    lemma_run_wf(signals);
}

/// A bundle that passes the check is published when the steps after the download
/// succeed, whether or not the mirror took it: one stored file, one record, no staging
/// file.
pub proof fn lemma_match_publishes(mirror: Signal)
    ensures
        ({
            let end = Transfer::initial().after(Signal::Fetched { matches: true }).after(
                Signal::Succeeded,
            ).after(mirror).after(Signal::Succeeded).after(Signal::Succeeded);
            &&& end.step == Step::Done
            &&& end.outcome == Some(Outcome::Published)
            &&& end.stored == 1
            &&& end.rows == 1
            &&& !end.staged
            &&& end.mirrored == (mirror == Signal::Succeeded)
        }),
{
}

/// A bundle that fails the check is discarded: once its staging file is removed the
/// transfer ends with `IntegrityMismatch`, nothing stored and no record.
pub proof fn lemma_mismatch_discards()
    ensures
        ({
            let end = Transfer::initial().after(Signal::Fetched { matches: false }).after(
                Signal::Succeeded,
            );
            &&& end.step == Step::Done
            &&& end.outcome == Some(Outcome::Failed(TransferError::IntegrityMismatch))
            &&& end.stored == 0
            &&& end.rows == 0
            &&& !end.staged
        }),
{
}

/// What a batch is busy with.
#[derive(Clone, Copy, Debug, PartialEq, Eq, Structural)]
pub enum Phase {
    /// The files are transferred, one after the other.
    Transferring,
    /// Every transfer has ended, and the pruner has been asked to run.
    Pruning,
    /// The pruner has run.
    Finished,
}

/// What a batch asks its caller to do next.
#[derive(Clone, Copy, Debug, PartialEq, Eq, Structural)]
pub enum Task {
    /// Perform `step` for the file at position `index` of the batch.
    Transfer { index: usize, step: Step },
    /// Run the pruner.
    Prune,
    /// Nothing: the batch is done.
    Nothing,
}

/// The files that one pipeline publishes, on their way through the transfer.
#[derive(Debug)]
pub struct Batch {
    pub artifacts: Vec<Artifact>,
    /// How many transfers have ended; while files are left, the position of the one
    /// in transfer.
    pub position: usize,
    /// The transfer under way; after the last one, how it ended.
    pub current: Transfer,
    pub phase: Phase,
    /// How often the pruner has been asked to run.
    pub prunes: u8,
    /// How many files were published.
    pub published: usize,
    /// How many transfers failed.
    pub failed: usize,
}

/// One more, as far as the type goes.
pub open spec fn count_up(n: usize) -> usize {
    if n < usize::MAX {
        (n + 1) as usize
    } else {
        n
    }
}

fn counted_up(n: usize) -> (m: usize)
    ensures
        m == count_up(n),
{
    if n < usize::MAX {
        n + 1
    } else {
        n
    }
}

impl Batch {
    /// The batch before anything was done. A batch without files goes straight to the
    /// pruner.
    pub open spec fn started(artifacts: Vec<Artifact>) -> Batch {
        Batch {
            artifacts,
            position: 0,
            current: Transfer::initial(),
            phase: if artifacts@.len() == 0 {
                Phase::Pruning
            } else {
                Phase::Transferring
            },
            prunes: if artifacts@.len() == 0 {
                1
            } else {
                0
            },
            published: 0,
            failed: 0,
        }
    }

    /// The batch after the transfer under way has ended as `ended` says: the next file
    /// is taken up, or after the last one the pruner is asked to run. How the transfer
    /// ended is counted, and changes nothing else.
    pub open spec fn settled(self, ended: Transfer) -> Batch {
        let published = if ended.outcome == Some(Outcome::Published) {
            count_up(self.published)
        } else {
            self.published
        };
        let failed = if ended.outcome == Some(Outcome::Published) {
            self.failed
        } else {
            count_up(self.failed)
        };
        let position = count_up(self.position);
        if position < self.artifacts@.len() {
            Batch { position, current: Transfer::initial(), published, failed, ..self }
        } else {
            Batch {
                position,
                current: ended,
                phase: Phase::Pruning,
                prunes: bump(self.prunes),
                published,
                failed,
                ..self
            }
        }
    }

    /// The batch after the awaited step went as `signal` says. While files are
    /// transferred the signal belongs to the transfer under way. The pruner's result is
    /// taken note of and changes nothing: the batch is finished either way.
    pub open spec fn after(self, signal: Signal) -> Batch {
        match self.phase {
            Phase::Transferring => {
                let moved = self.current.after(signal);
                if moved.step == Step::Done {
                    self.settled(moved)
                } else {
                    Batch { current: moved, ..self }
                }
            },
            Phase::Pruning => Batch { phase: Phase::Finished, ..self },
            Phase::Finished => self,
        }
    }

    /// The batch after each of `signals` in turn.
    pub open spec fn run(self, signals: Seq<Signal>) -> Batch
        decreases signals.len(),
    {
        if signals.len() == 0 {
            self
        } else {
            self.run(signals.drop_last()).after(signals.last())
        }
    }

    /// What the batch asks for next.
    pub open spec fn pending(self) -> Task {
        match self.phase {
            Phase::Transferring => Task::Transfer { index: self.position, step: self.current.step },
            Phase::Pruning => Task::Prune,
            Phase::Finished => Task::Nothing,
        }
    }

    /// Whether the counts fit the phase: the pruner has been asked to run once all
    /// transfers have ended, and not before.
    pub open spec fn wf(self) -> bool {
        &&& self.current.wf()
        &&& self.published + self.failed == self.position
        &&& self.position <= self.artifacts@.len() <= usize::MAX
        &&& match self.phase {
            Phase::Transferring => self.position < self.artifacts@.len() && self.prunes == 0
                && self.current.step != Step::Done,
            Phase::Pruning => self.position == self.artifacts@.len() && self.prunes == 1,
            Phase::Finished => self.position == self.artifacts@.len() && self.prunes == 1,
        }
    }

    /// What the batch asks for next.
    pub fn task(&self) -> (task: Task)
        ensures
            task == self.pending(),
    {
        match self.phase {
            Phase::Transferring => Task::Transfer { index: self.position, step: self.current.step },
            Phase::Pruning => Task::Prune,
            Phase::Finished => Task::Nothing,
        }
    }

    /// The file in transfer, while there is one.
    pub fn current_artifact(&self) -> (file: Option<&Artifact>)
        ensures
            file is Some <==> self.phase == Phase::Transferring && self.position
                < self.artifacts@.len(),
            file is Some ==> *file->0 == self.artifacts@[self.position as int],
    {
        match self.phase {
            Phase::Transferring => {
                if self.position < self.artifacts.len() {
                    Some(&self.artifacts[self.position])
                } else {
                    None
                }
            },
            _ => None,
        }
    }

    /// Takes in how the awaited step went, and says what to do next.
    pub fn step(&mut self, signal: Signal) -> (task: Task)
        ensures
            *final(self) == old(self).after(signal),
            task == final(self).pending(),
            old(self).wf() ==> final(self).wf(),
    {
        match self.phase {
            Phase::Transferring => {
                let mut moved = self.current;
                let next = moved.step(signal);
                let ended = match next {
                    Step::Done => true,
                    _ => false,
                };
                if ended {
                    let published = match moved.outcome {
                        Some(Outcome::Published) => true,
                        _ => false,
                    };
                    if published {
                        self.published = counted_up(self.published);
                    } else {
                        self.failed = counted_up(self.failed);
                    }
                    self.position = counted_up(self.position);
                    if self.position < self.artifacts.len() {
                        self.current = Transfer::new();
                    } else {
                        self.current = moved;
                        self.phase = Phase::Pruning;
                        self.prunes = bumped(self.prunes);
                    }
                } else {
                    self.current = moved;
                }
            },
            Phase::Pruning => {
                self.phase = Phase::Finished;
            },
            Phase::Finished => {},
        }
        self.task()
    }

    /// Takes in what the awaited step brought, and says what to do next.
    pub fn advance(&mut self, event: &Event) -> (task: Task)
        ensures
            *final(self) == old(self).after(event.signal_of()),
            task == final(self).pending(),
            old(self).wf() ==> final(self).wf(),
    {
        let signal = event.signal();
        self.step(signal)
    }
}

/// Takes up the files that a pipeline publishes. They are transferred one after the
/// other, in their order; when the last transfer has ended, however the transfers
/// went, the pruner runs once.
pub fn process(artifacts: Vec<Artifact>) -> (batch: Batch)
    ensures
        batch == Batch::started(artifacts),
        batch.wf(),
{
    let empty = artifacts.len() == 0;
    Batch {
        artifacts,
        position: 0,
        current: Transfer::new(),
        phase: if empty {
            Phase::Pruning
        } else {
            Phase::Transferring
        },
        prunes: if empty {
            1
        } else {
            0
        },
        published: 0,
        failed: 0,
    }
}

/// A step keeps the counts of a batch fitting.
pub proof fn lemma_batch_after_keeps_wf(batch: Batch, signal: Signal)
    requires
        batch.wf(),
    ensures
        batch.after(signal).wf(),
        batch.after(signal).artifacts == batch.artifacts,
{
    lemma_after_keeps_wf(batch.current, signal);
}

/// Whatever is reported, in whatever order, the counts of a batch fit its phase.
pub proof fn lemma_batch_run_wf(artifacts: Vec<Artifact>, signals: Seq<Signal>)
    requires
        artifacts@.len() <= usize::MAX,
    ensures
        Batch::started(artifacts).run(signals).wf(),
        Batch::started(artifacts).run(signals).artifacts == artifacts,
    decreases signals.len(),
{
    if signals.len() > 0 {
        lemma_batch_run_wf(artifacts, signals.drop_last());
        lemma_batch_after_keeps_wf(
            Batch::started(artifacts).run(signals.drop_last()),
            signals.last(),
        );
    }
}

/// The pruner runs once per batch: it is never asked to run twice, it is asked when
/// the last transfer has ended and not before, and how the transfers ended plays no part.
pub proof fn lemma_prune_once(artifacts: Vec<Artifact>, signals: Seq<Signal>)
    requires
        artifacts@.len() <= usize::MAX,
    ensures
        ({
            let end = Batch::started(artifacts).run(signals);
            &&& end.prunes <= 1
            &&& end.prunes == 1 <==> end.phase != Phase::Transferring
            &&& end.prunes == 1 <==> end.position == artifacts@.len()
            &&& end.phase == Phase::Finished ==> end.prunes == 1
            &&& end.published + end.failed == end.position
        }),
{
    lemma_batch_run_wf(artifacts, signals);
}

/// The signals of a batch in which every download fails: `count` failures.
pub open spec fn failures(count: int) -> Seq<Signal> {
    Seq::new(count as nat, |i: int| Signal::Failed)
}

/// As long as every download fails, each failure ends one transfer.
proof fn lemma_failures_settle(artifacts: Vec<Artifact>, count: int)
    requires
        0 <= count <= artifacts@.len(),
        artifacts@.len() <= usize::MAX,
    ensures
        ({
            let end = Batch::started(artifacts).run(failures(count));
            &&& end.artifacts == artifacts
            &&& end.position == count
            &&& end.failed == count
            &&& end.published == 0
            &&& count < artifacts@.len() ==> end.phase == Phase::Transferring && end.current
                == Transfer::initial() && end.prunes == 0
            &&& count == artifacts@.len() ==> end.phase == Phase::Pruning && end.prunes == 1
        }),
    decreases count,
{
    if count > 0 {
        lemma_failures_settle(artifacts, count - 1);
        assert(failures(count).drop_last() =~= failures(count - 1));
        assert(failures(count).last() == Signal::Failed);
    }
}

/// Even when every transfer of a batch fails, the pruner is asked to run, once, after
/// the last failure.
pub proof fn lemma_all_failed_still_prunes(artifacts: Vec<Artifact>)
    requires
        artifacts@.len() <= usize::MAX,
    ensures
        ({
            let end = Batch::started(artifacts).run(failures(artifacts@.len() as int));
            &&& end.phase == Phase::Pruning
            &&& end.pending() == Task::Prune
            &&& end.prunes == 1
            &&& end.failed == artifacts@.len()
            &&& end.published == 0
            &&& end.after(Signal::Failed).phase == Phase::Finished
            &&& end.after(Signal::Failed).prunes == 1
        }),
{
    lemma_failures_settle(artifacts, artifacts@.len() as int);
}

} // verus!

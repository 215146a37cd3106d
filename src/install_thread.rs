use vstd::prelude::*;
use vstd::string::*;

use crate::template::{mod_views, JsonModTemplate, ModView};
use crate::text::{decimal, decimal_string};

verus! {

/// The base of the address a mod archive is downloaded from.
pub open spec fn download_base() -> Seq<char> {
    "https://acsync.team8.pl/mod_management/download?hash="@
}

/// The address of the archive with checksum `md5_hash`.
pub fn get_download_link(md5_hash: &String) -> (r: String)
    ensures
        r@ == download_base() + md5_hash@,
{
    let mut link = String::from_str("https://acsync.team8.pl/mod_management/download?hash=");
    link.append(md5_hash.as_str());
    link
}

/// Status text while a stage works on mod `i` (counted from 1) of `n`.
pub open spec fn status_line(verb: Seq<char>, name: Seq<char>, i: nat, n: nat) -> Seq<char> {
    verb + name + " ("@ + decimal(i) + "/"@ + decimal(n) + ")"@
}

/// Error text of a mod whose download does not have the expected size.
pub open spec fn size_mismatch_message(name: Seq<char>) -> Seq<char> {
    "mod "@ + name + ": size mismatch"@
}

/// Error text of a mod whose `stage` failed with `cause`.
pub open spec fn stage_error_message(name: Seq<char>, stage: Seq<char>, cause: Seq<char>) -> Seq<
    char,
> {
    "Mod "@ + name + ", "@ + stage + " error: "@ + cause
}

/// Error text of a run that could not create its download directory.
pub open spec fn scratch_error_message(cause: Seq<char>) -> Seq<char> {
    "Cannot create download temporary dir, error: "@ + cause
}

/// The checksums of the mods that succeeded, in task order: `outcomes[k]`
/// tells whether mod `k` succeeded.
pub open spec fn successes(tasks: Seq<ModView>, outcomes: Seq<bool>) -> Seq<Seq<char>>
    decreases outcomes.len(),
{
    if outcomes.len() == 0 {
        seq![]
    } else {
        let k = outcomes.len() - 1;
        let before = successes(tasks, outcomes.drop_last());
        if outcomes[k] {
            before.push(tasks[k].checksum)
        } else {
            before
        }
    }
}

/// The errors one per line, each ended by a line break.
pub open spec fn error_lines(errors: Seq<Seq<char>>) -> Seq<char>
    decreases errors.len(),
{
    if errors.len() == 0 {
        seq![]
    } else {
        error_lines(errors.drop_last()) + errors.last() + "\n"@
    }
}

/// The report shown once a run is over: how many mods were installed and,
/// when there were any, the errors.
pub open spec fn summary_text(installed: nat, errors: Seq<Seq<char>>) -> Seq<char> {
    if errors.len() == 0 {
        decimal(installed) + " mods installed successfully."@
    } else {
        decimal(installed) + " mods installed successfully.\nErrors:\n"@ + error_lines(errors)
    }
}

/// Writes the report of a finished run.
pub fn install_summary(installed: usize, errors: &Vec<String>) -> (r: String)
    ensures
        r@ == summary_text(installed as nat, errors.deep_view()),
{
    let mut summary = decimal_string(installed);
    if errors.len() == 0 {
        summary.append(" mods installed successfully.");
        return summary;
    }
    summary.append(" mods installed successfully.\nErrors:\n");
    let ghost head = summary@;
    let mut i: usize = 0;
    while i < errors.len()
        invariant
            i <= errors.len(),
            summary@ == head + error_lines(errors.deep_view().take(i as int)),
        decreases errors.len() - i,
    {
        assert(errors.deep_view().take(i + 1).drop_last() =~= errors.deep_view().take(i as int));
        summary.append(errors[i].as_str());
        summary.append("\n");
        i = i + 1;
    }
    assert(errors.deep_view().take(i as int) =~= errors.deep_view());
    summary
}

/// Where the run stands.
#[derive(PartialEq, Eq, Structural, Clone, Copy, Debug)]
pub enum Stage {
    /// Not started.
    Idle,
    /// Waiting for the run's download directory.
    CreatingScratch,
    /// Waiting for the current mod's archive.
    Downloading,
    /// Waiting for the current mod's archive to be unpacked.
    Extracting,
    /// Waiting for the placement instructions of the unpacked archive.
    Resolving,
    /// Waiting for instruction `done` of `total` to be applied.
    Placing { done: usize, total: usize },
    /// The run is over.
    Finished,
}

/// What the outside world reports after performing an action.
#[derive(Debug)]
pub enum Event {
    ScratchCreated,
    ScratchFailed(String),
    /// The archive was written; this many bytes.
    Downloaded(u64),
    DownloadFailed(String),
    Extracted,
    ExtractFailed(String),
    /// The unpacked archive gives this many placement instructions.
    Resolved(usize),
    ResolveFailed(String),
    Placed,
    PlaceFailed(String),
}

/// What the run asks the outside world to do next.
#[derive(PartialEq, Eq, Structural, Clone, Copy, Debug)]
pub enum Action {
    /// Create the run's download directory.
    CreateScratch,
    /// Download the archive of this mod into the download directory.
    Download(usize),
    /// Unpack the archive of this mod into a fresh directory.
    Extract(usize),
    /// List the unpacked tree of this mod and work out where its parts go.
    Resolve(usize),
    /// Apply placement instruction `.1` of mod `.0`.
    Place(usize, usize),
    /// Nothing is left to do.
    Stop,
}

/// Whether a run at `stage` takes `event`.
pub open spec fn accepts(stage: Stage, event: Event) -> bool {
    match stage {
        Stage::CreatingScratch => event is ScratchCreated || event is ScratchFailed,
        Stage::Downloading => event is Downloaded || event is DownloadFailed,
        Stage::Extracting => event is Extracted || event is ExtractFailed,
        Stage::Resolving => event is Resolved || event is ResolveFailed,
        Stage::Placing { .. } => event is Placed || event is PlaceFailed,
        _ => false,
    }
}

/// One run of the install pipeline over a task list: the mods are taken one
/// after the other through download, size check, unpacking, resolution and
/// placement; a failing mod is recorded and the run goes on with the next.
pub struct InstallThread {
    pub task_list: Vec<JsonModTemplate>,
    pub current_status: String,
    pub error_list: Vec<String>,
    pub finished: bool,
    pub successful_mods_md5: Vec<String>,
    pub stage: Stage,
    /// The mod being worked on; those before it are done.
    pub current: usize,
    /// For each mod done, whether it succeeded.
    pub outcomes: Ghost<Seq<bool>>,
    /// Whether the run ended because its download directory could not be made.
    pub aborted: Ghost<bool>,
}

impl InstallThread {
    pub open spec fn tasks(&self) -> Seq<ModView> {
        mod_views(self.task_list@)
    }

    pub open spec fn errors(&self) -> Seq<Seq<char>> {
        self.error_list.deep_view()
    }

    pub open spec fn successful(&self) -> Seq<Seq<char>> {
        self.successful_mods_md5.deep_view()
    }

    pub open spec fn name_of(&self, k: int) -> Seq<char> {
        self.tasks()[k].filename
    }

    pub open spec fn working(&self) -> bool {
        self.stage is Downloading || self.stage is Extracting || self.stage is Resolving
            || self.stage is Placing
    }

    pub open spec fn wf(&self) -> bool {
        &&& self.current <= self.task_list.len()
        &&& self.outcomes@.len() == self.current
        &&& self.successful() == successes(self.tasks(), self.outcomes@)
        &&& self.finished <==> self.stage is Finished
        &&& self.finished ==> self.current_status@ == "Finished"@
        &&& self.finished && !self.aborted@ ==> self.current == self.task_list.len()
        &&& self.aborted@ ==> self.finished && self.current == 0 && self.errors().len() == 1
        &&& (self.stage is Idle || self.stage is CreatingScratch) ==> self.current == 0
            && self.errors().len() == 0 && !self.aborted@
        &&& self.working() ==> self.current < self.task_list.len() && !self.aborted@
        &&& self.stage matches Stage::Placing { done, total } ==> done < total
    }

    /// Nothing but the stage, the status and the latch differ from `prev`.
    pub open spec fn same_record(&self, prev: Self) -> bool {
        &&& self.task_list@ == prev.task_list@
        &&& self.errors() == prev.errors()
        &&& self.successful() == prev.successful()
        &&& self.current == prev.current
        &&& self.outcomes@ == prev.outcomes@
        &&& self.aborted@ == prev.aborted@
    }

    /// The run has moved to mod `k`, or has finished when there is none.
    pub open spec fn moved_to(&self, k: int, a: Action) -> bool {
        if k < self.task_list.len() {
            &&& self.stage == Stage::Downloading
            &&& !self.finished
            &&& self.current_status@ == status_line(
                "Downloading mod "@,
                self.name_of(k),
                (k + 1) as nat,
                self.task_list.len() as nat,
            )
            &&& a == Action::Download(k as usize)
        } else {
            &&& self.stage == Stage::Finished
            &&& self.finished
            &&& self.current_status@ == "Finished"@
            &&& a == Action::Stop
        }
    }

    /// The current mod of `prev` is done, with outcome `ok` and the error
    /// texts `err`, and the run has moved on to the next one.
    pub open spec fn ended_mod(&self, prev: Self, ok: bool, err: Seq<Seq<char>>, a: Action) -> bool {
        &&& self.task_list@ == prev.task_list@
        &&& self.aborted@ == prev.aborted@
        &&& self.outcomes@ == prev.outcomes@.push(ok)
        &&& self.current == prev.current + 1
        &&& self.successful() == if ok {
            prev.successful().push(prev.tasks()[prev.current as int].checksum)
        } else {
            prev.successful()
        }
        &&& self.errors() == prev.errors() + err
        &&& self.moved_to(prev.current + 1, a)
    }

    /// A run over `task_list` that has not started.
    pub fn new(task_list: Vec<JsonModTemplate>) -> (r: Self)
        ensures
            r.wf(),
            r.task_list@ == task_list@,
            r.stage == Stage::Idle,
            r.current_status@ == Seq::<char>::empty(),
            r.errors().len() == 0,
            r.successful().len() == 0,
            !r.finished,
    {
        let r = InstallThread {
            task_list,
            current_status: String::new(),
            error_list: Vec::new(),
            finished: false,
            successful_mods_md5: Vec::new(),
            stage: Stage::Idle,
            current: 0,
            outcomes: Ghost(Seq::empty()),
            aborted: Ghost(false),
        };
        assert(r.errors() =~= Seq::<Seq<char>>::empty());
        assert(r.successful() =~= successes(r.tasks(), Seq::empty()));
        r
    }

    /// Starts the run: its first action is to create the download directory.
    pub fn start(&mut self) -> (a: Action)
        requires
            old(self).wf(),
            old(self).stage == Stage::Idle,
        ensures
            final(self).wf(),
            final(self).same_record(*old(self)),
            final(self).stage == Stage::CreatingScratch,
            final(self).current_status@ == "starting workers"@,
            !final(self).finished,
            a == Action::CreateScratch,
    {
        self.current_status = String::from_str("starting workers");
        self.stage = Stage::CreatingScratch;
        Action::CreateScratch
    }

    /// Whether the run, as it stands, takes `event`.
    pub fn expects(&self, event: &Event) -> (r: bool)
        ensures
            r == accepts(self.stage, *event),
    {
        match self.stage {
            Stage::CreatingScratch => matches!(event, Event::ScratchCreated | Event::ScratchFailed(_)),
            Stage::Downloading => matches!(event, Event::Downloaded(_) | Event::DownloadFailed(_)),
            Stage::Extracting => matches!(event, Event::Extracted | Event::ExtractFailed(_)),
            Stage::Resolving => matches!(event, Event::Resolved(_) | Event::ResolveFailed(_)),
            Stage::Placing { .. } => matches!(event, Event::Placed | Event::PlaceFailed(_)),
            _ => false,
        }
    }

    fn status_for(verb: &str, name: &String, i: usize, n: usize) -> (r: String)
        ensures
            r@ == status_line(verb@, name@, i as nat, n as nat),
    {
        let mut s = String::from_str(verb);
        s.append(name.as_str());
        s.append(" (");
        s.append(decimal_string(i).as_str());
        s.append("/");
        s.append(decimal_string(n).as_str());
        s.append(")");
        s
    }

    /// Moves to mod `self.current`, or finishes the run when there is none.
    fn begin_current(&mut self) -> (a: Action)
        requires
            old(self).current <= old(self).task_list.len(),
            !old(self).aborted@,
            !old(self).finished,
        ensures
            final(self).same_record(*old(self)),
            final(self).moved_to(old(self).current as int, a),
    {
        let n = self.task_list.len();
        if self.current < n {
            assert(self.tasks()[self.current as int] == self.task_list@[self.current as int]@);
            let status = InstallThread::status_for(
                "Downloading mod ",
                &self.task_list[self.current].filename,
                self.current + 1,
                n,
            );
            self.current_status = status;
            self.stage = Stage::Downloading;
            Action::Download(self.current)
        } else {
            self.current_status = String::from_str("Finished");
            self.stage = Stage::Finished;
            self.finished = true;
            Action::Stop
        }
    }

    /// Records the outcome of the current mod and moves on to the next.
    fn end_current(&mut self, ok: bool, error: Option<String>) -> (a: Action)
        requires
            old(self).wf(),
            old(self).working(),
        ensures
            final(self).wf(),
            final(self).ended_mod(
                *old(self),
                ok,
                match error {
                    Some(e) => seq![e@],
                    None => seq![],
                },
                a,
            ),
    {
        let ghost prev = *self;
        if ok {
            let checksum = self.task_list[self.current].checksum_md5.clone();
            self.successful_mods_md5.push(checksum);
        }
        match error {
            Some(e) => {
                self.error_list.push(e);
            },
            None => {},
        }
        proof {
            self.outcomes@ = prev.outcomes@.push(ok);
            assert(self.outcomes@.drop_last() =~= prev.outcomes@);
        }
        self.current = self.current + 1;
        assert(self.successful() =~= successes(self.tasks(), self.outcomes@));
        assert(self.errors() =~= prev.errors() + match error {
            Some(e) => seq![e@],
            None => seq![],
        });
        self.begin_current()
    }

    fn fail_current(&mut self, stage: &str, cause: &String) -> (a: Action)
        requires
            old(self).wf(),
            old(self).working(),
        ensures
            final(self).wf(),
            final(self).ended_mod(
                *old(self),
                false,
                seq![stage_error_message(old(self).name_of(old(self).current as int), stage@, cause@)],
                a,
            ),
    {
        let mut msg = String::from_str("Mod ");
        msg.append(self.task_list[self.current].filename.as_str());
        msg.append(", ");
        msg.append(stage);
        msg.append(" error: ");
        msg.append(cause.as_str());
        self.end_current(false, Some(msg))
    }

    /// Takes the report of the action last asked for and decides what comes
    /// next. A failing stage ends the current mod with an error and moves on to
    /// the next mod; a mod counts as installed only once its last placement
    /// instruction has been applied.
    pub fn handle(&mut self, event: Event) -> (a: Action)
        requires
            old(self).wf(),
            accepts(old(self).stage, event),
        ensures
            final(self).wf(),
            final(self).task_list@ == old(self).task_list@,
            old(self).errors().is_prefix_of(final(self).errors()),
            old(self).successful().is_prefix_of(final(self).successful()),
            a != Action::CreateScratch,
            match event {
                Event::ScratchCreated => final(self).same_record(*old(self)) && final(self).moved_to(
                    0,
                    a,
                ),
                Event::ScratchFailed(cause) => {
                    &&& final(self).errors() == seq![scratch_error_message(cause@)]
                    &&& final(self).successful().len() == 0
                    &&& final(self).stage == Stage::Finished
                    &&& final(self).finished
                    &&& final(self).current_status@ == "Finished"@
                    &&& final(self).aborted@
                    &&& a == Action::Stop
                },
                Event::Downloaded(n) => if n == old(self).tasks()[old(self).current as int].size {
                    &&& final(self).same_record(*old(self))
                    &&& final(self).stage == Stage::Extracting
                    &&& !final(self).finished
                    &&& final(self).current_status@ == status_line(
                        "Extracting mod "@,
                        old(self).name_of(old(self).current as int),
                        (old(self).current + 1) as nat,
                        old(self).task_list.len() as nat,
                    )
                    &&& a == Action::Extract(old(self).current)
                } else {
                    &&& final(self).ended_mod(
                        *old(self),
                        false,
                        seq![size_mismatch_message(old(self).name_of(old(self).current as int))],
                        a,
                    )
                    &&& a != Action::Extract(old(self).current)
                },
                Event::DownloadFailed(cause) => final(self).ended_mod(
                    *old(self),
                    false,
                    seq![
                        stage_error_message(
                            old(self).name_of(old(self).current as int),
                            "download"@,
                            cause@,
                        ),
                    ],
                    a,
                ),
                Event::Extracted => {
                    &&& final(self).same_record(*old(self))
                    &&& final(self).stage == Stage::Resolving
                    &&& !final(self).finished
                    &&& final(self).current_status@ == old(self).current_status@
                    &&& a == Action::Resolve(old(self).current)
                },
                Event::ExtractFailed(cause) => final(self).ended_mod(
                    *old(self),
                    false,
                    seq![
                        stage_error_message(
                            old(self).name_of(old(self).current as int),
                            "extract"@,
                            cause@,
                        ),
                    ],
                    a,
                ),
                Event::Resolved(k) => if k == 0 {
                    final(self).ended_mod(*old(self), true, seq![], a)
                } else {
                    &&& final(self).same_record(*old(self))
                    &&& final(self).stage == (Stage::Placing { done: 0, total: k })
                    &&& !final(self).finished
                    &&& final(self).current_status@ == status_line(
                        "Placing mod "@,
                        old(self).name_of(old(self).current as int),
                        (old(self).current + 1) as nat,
                        old(self).task_list.len() as nat,
                    )
                    &&& a == Action::Place(old(self).current, 0)
                },
                Event::ResolveFailed(cause) => final(self).ended_mod(
                    *old(self),
                    false,
                    seq![
                        stage_error_message(
                            old(self).name_of(old(self).current as int),
                            "resolve"@,
                            cause@,
                        ),
                    ],
                    a,
                ),
                Event::Placed => match old(self).stage {
                    Stage::Placing { done, total } => if done + 1 < total {
                        &&& final(self).same_record(*old(self))
                        &&& final(self).stage == (Stage::Placing { done: (done + 1) as usize, total })
                        &&& !final(self).finished
                        &&& final(self).current_status@ == old(self).current_status@
                        &&& a == Action::Place(old(self).current, (done + 1) as usize)
                    } else {
                        final(self).ended_mod(*old(self), true, seq![], a)
                    },
                    _ => false,
                },
                Event::PlaceFailed(cause) => final(self).ended_mod(
                    *old(self),
                    false,
                    seq![
                        stage_error_message(
                            old(self).name_of(old(self).current as int),
                            "placement"@,
                            cause@,
                        ),
                    ],
                    a,
                ),
            },
    {
        let ghost prev = *self;
        let cur = self.current;
        let n = self.task_list.len();
        proof {
            if self.working() {
                assert(self.tasks()[cur as int] == self.task_list@[cur as int]@);
            }
        }
        match event {
            Event::ScratchCreated => self.begin_current(),
            Event::ScratchFailed(cause) => {
                let mut msg = String::from_str("Cannot create download temporary dir, error: ");
                msg.append(cause.as_str());
                self.error_list.push(msg);
                self.current_status = String::from_str("Finished");
                self.stage = Stage::Finished;
                self.finished = true;
                proof {
                    self.aborted@ = true;
                }
                assert(self.errors() =~= seq![scratch_error_message(cause@)]);
                Action::Stop
            },
            Event::Downloaded(size) => {
                if size == self.task_list[cur].size_in_bytes {
                    let status = InstallThread::status_for(
                        "Extracting mod ",
                        &self.task_list[cur].filename,
                        cur + 1,
                        n,
                    );
                    self.current_status = status;
                    self.stage = Stage::Extracting;
                    Action::Extract(cur)
                } else {
                    let mut msg = String::from_str("mod ");
                    msg.append(self.task_list[cur].filename.as_str());
                    msg.append(": size mismatch");
                    self.end_current(false, Some(msg))
                }
            },
            Event::DownloadFailed(cause) => self.fail_current("download", &cause),
            Event::Extracted => {
                self.stage = Stage::Resolving;
                Action::Resolve(cur)
            },
            Event::ExtractFailed(cause) => self.fail_current("extract", &cause),
            Event::Resolved(count) => {
                if count == 0 {
                    self.end_current(true, None)
                } else {
                    let status = InstallThread::status_for(
                        "Placing mod ",
                        &self.task_list[cur].filename,
                        cur + 1,
                        n,
                    );
                    self.current_status = status;
                    self.stage = Stage::Placing { done: 0, total: count };
                    Action::Place(cur, 0)
                }
            },
            Event::ResolveFailed(cause) => self.fail_current("resolve", &cause),
            Event::Placed => {
                match self.stage {
                    Stage::Placing { done, total } => {
                        if done + 1 < total {
                            self.stage = Stage::Placing { done: done + 1, total };
                            Action::Place(cur, done + 1)
                        } else {
                            self.end_current(true, None)
                        }
                    },
                    _ => Action::Stop,
                }
            },
            Event::PlaceFailed(cause) => self.fail_current("placement", &cause),
        }
    }

    /// The errors recorded so far, in the order they occurred.
    pub fn get_error_list(&self) -> (r: Vec<String>)
        ensures
            r.deep_view() == self.errors(),
    {
        self.error_list.clone()
    }

    /// The current status text.
    pub fn get_status(&self) -> (r: String)
        ensures
            r@ == self.current_status@,
    {
        self.current_status.clone()
    }

    /// The checksums of the mods installed so far, in task order.
    pub fn get_successfully_installed_mods(&self) -> (r: Vec<String>)
        ensures
            r.deep_view() == self.successful(),
    {
        self.successful_mods_md5.clone()
    }

    /// Whether the run is over.
    pub fn is_finished(&self) -> (r: bool)
        ensures
            r == self.finished,
    {
        self.finished
    }
}

/// Each mod that succeeded has its checksum among the successes.
proof fn lemma_successes_exact(tasks: Seq<ModView>, outcomes: Seq<bool>)
    requires
        outcomes.len() <= tasks.len(),
    ensures
        forall|j: int|
            0 <= j < outcomes.len() && outcomes[j] ==> successes(tasks, outcomes).contains(
                #[trigger] tasks[j].checksum,
            ),
    decreases outcomes.len(),
{
    if outcomes.len() > 0 {
        let k = outcomes.len() - 1;
        let head = outcomes.drop_last();
        lemma_successes_exact(tasks, head);
        let before = successes(tasks, head);
        let all = successes(tasks, outcomes);
        assert forall|j: int| 0 <= j < outcomes.len() && outcomes[j] implies all.contains(
            #[trigger] tasks[j].checksum,
        ) by {
            if j < k {
                assert(head[j] == outcomes[j]);
                let w = choose|w: int| 0 <= w < before.len() && before[w] == tasks[j].checksum;
                assert(all[w] == before[w]);
            } else {
                assert(all[all.len() - 1] == tasks[j].checksum);
            }
        }
    }
}

/// `checksum` is that of a mod whose outcome is success.
pub open spec fn is_success_of(tasks: Seq<ModView>, outcomes: Seq<bool>, checksum: Seq<char>) -> bool {
    exists|j: int| 0 <= j < outcomes.len() && outcomes[j] && #[trigger] tasks[j].checksum == checksum
}

/// Each success is the checksum of a mod that succeeded.
proof fn lemma_successes_sound(tasks: Seq<ModView>, outcomes: Seq<bool>, i: int)
    requires
        outcomes.len() <= tasks.len(),
        0 <= i < successes(tasks, outcomes).len(),
    ensures
        is_success_of(tasks, outcomes, successes(tasks, outcomes)[i]),
    decreases outcomes.len(),
{
    let k = outcomes.len() - 1;
    let head = outcomes.drop_last();
    let before = successes(tasks, head);
    let all = successes(tasks, outcomes);
    if i < before.len() {
        lemma_successes_sound(tasks, head, i);
        let j = choose|j: int| 0 <= j < head.len() && head[j] && #[trigger] tasks[j].checksum == before[i];
        assert(all[i] == before[i]);
        assert(outcomes[j] == head[j]);
        assert(tasks[j].checksum == all[i]);
    } else {
        assert(outcomes[k]);
        assert(tasks[k].checksum == all[i]);
    }
}

/// A run that ended without a fatal error has taken every mod of its task
/// list to an outcome, one failing mod not keeping the later ones from their
/// turn, and its successful checksums are exactly those of the mods that did
/// not fail, in task order.
pub proof fn lemma_failures_isolated(t: InstallThread)
    requires
        t.wf(),
        t.finished,
        !t.aborted@,
    ensures
        t.outcomes@.len() == t.task_list.len(),
        t.successful() == successes(t.tasks(), t.outcomes@),
        forall|j: int|
            0 <= j < t.task_list.len() && t.outcomes@[j] ==> t.successful().contains(
                #[trigger] t.tasks()[j].checksum,
            ),
        forall|i: int|
            0 <= i < t.successful().len() ==> is_success_of(
                t.tasks(),
                t.outcomes@,
                #[trigger] t.successful()[i],
            ),
{
    lemma_successes_exact(t.tasks(), t.outcomes@);
    assert forall|i: int| 0 <= i < t.successful().len() implies is_success_of(
        t.tasks(),
        t.outcomes@,
        #[trigger] t.successful()[i],
    ) by {
        lemma_successes_sound(t.tasks(), t.outcomes@, i);
    }
}

/// Once a run has finished it stays finished: it takes no further event, so
/// its latch, its errors and its successes can no longer change.
pub proof fn lemma_finished_is_terminal(t: InstallThread, event: Event)
    requires
        t.wf(),
        t.finished,
    ensures
        t.stage == Stage::Finished,
        !accepts(t.stage, event),
{
}

} // verus!

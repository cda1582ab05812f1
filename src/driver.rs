use vstd::prelude::*;
use crate::plan::{calculate_num_files, folder_plan};

verus! {

/// Sum of a sequence of sizes.
pub open spec fn total(s: Seq<nat>) -> nat
    decreases s.len(),
{
    if s.len() == 0 {
        0
    } else {
        total(s.drop_last()) + s.last()
    }
}

/// What the caller is to do next.
#[derive(Debug, Clone, Copy, PartialEq, Eq, Structural)]
pub enum Action {
    /// Create a new folder under the root folder.
    CreateFolder,
    /// Create a file in the current folder; `index` prefixes its name.
    CreateFile { index: usize },
    /// Nothing more is to be created.
    Finished,
}

/// Running totals of one generation run.
#[derive(Debug, Clone, Copy, PartialEq, Eq, Structural)]
pub struct RunCounters {
    pub files_count: u64,
    pub bytes_written: usize,
    pub complete_folder_size: usize,
}

/// Decides, one step at a time, which folders and files a run creates.
///
/// The caller asks for the next action, performs it, and reports back with
/// `folder_created` or `file_written`.
pub struct Driver {
    pub num_folders: usize,
    pub disk_size: usize,
    pub avg_folder_size: usize,
    pub files_per_folder: usize,
    pub folders_created: usize,
    pub in_folder: bool,
    pub file_index: usize,
    pub current_folder_size: usize,
    pub counters: RunCounters,
    /// On-disk size of every file written so far, in order.
    pub sizes: Ghost<Seq<nat>>,
    /// Number of files written in each folder created so far, in order.
    pub folder_files: Ghost<Seq<nat>>,
}

impl Driver {
    /// The driver's invariant.
    pub open spec fn wf(&self) -> bool {
        &&& self.num_folders > 0
        &&& (self.avg_folder_size as nat, self.files_per_folder as nat) == folder_plan(
            self.num_folders as nat,
            self.disk_size as nat,
        )
        &&& self.folders_created <= self.num_folders
        &&& self.file_index <= self.files_per_folder
        &&& !self.in_folder ==> self.current_folder_size == 0
        &&& self.counters.complete_folder_size + self.current_folder_size
            == self.counters.bytes_written
        &&& self.counters.files_count as nat == self.sizes@.len()
        &&& self.counters.bytes_written as nat == total(self.sizes@)
        &&& self.folder_files@.len() == self.folders_created as nat
        &&& forall|i: int|
            0 <= i < self.folder_files@.len() ==> #[trigger] self.folder_files@[i]
                <= self.files_per_folder as nat
        &&& self.in_folder ==> self.folder_files@.len() > 0 && self.folder_files@.last()
            == self.file_index as nat
        &&& total(self.folder_files@) == self.sizes@.len()
    }

    /// Both states belong to one run: same request, same plan.
    pub open spec fn same_run(&self, other: &Driver) -> bool {
        &&& self.num_folders == other.num_folders
        &&& self.disk_size == other.disk_size
        &&& self.avg_folder_size == other.avg_folder_size
        &&& self.files_per_folder == other.files_per_folder
    }

    /// The file loop of the current folder goes on.
    pub open spec fn folder_open(&self) -> bool {
        self.in_folder && self.file_index < self.files_per_folder && self.current_folder_size
            < self.avg_folder_size
    }

    /// Another folder may be created.
    pub open spec fn folder_allowed(&self) -> bool {
        self.folders_created < self.num_folders && self.counters.complete_folder_size
            <= self.disk_size
    }

    /// The action that a state between two steps asks for.
    pub open spec fn action_of(&self) -> Action {
        if self.in_folder {
            Action::CreateFile { index: self.file_index }
        } else if self.folder_allowed() {
            Action::CreateFolder
        } else {
            Action::Finished
        }
    }

    /// A bound on the steps left in the run: every reported event lowers
    /// it, and `next_action` never raises it.
    pub open spec fn steps_left(&self) -> nat {
        let f = self.files_per_folder as nat;
        let open_files: nat = if self.in_folder {
            (f - self.file_index as nat + 1) as nat
        } else {
            0
        };
        ((self.num_folders - self.folders_created) as nat) * (f + 2) + open_files
    }

    /// A state from which `file_written` may be reported.
    pub open spec fn awaiting_file(&self) -> bool {
        self.folder_open()
    }

    /// A state from which `folder_created` may be reported.
    pub open spec fn awaiting_folder(&self) -> bool {
        !self.in_folder && self.folder_allowed()
    }

    /// Starts a run over `num_folders` folders and a budget of `disk_size` bytes.
    pub fn new(num_folders: usize, disk_size: usize) -> (r: Driver)
        requires
            num_folders > 0,
        ensures
            r.wf(),
            r.num_folders == num_folders,
            r.disk_size == disk_size,
            (r.avg_folder_size as nat, r.files_per_folder as nat) == folder_plan(
                num_folders as nat,
                disk_size as nat,
            ),
            r.folders_created == 0,
            !r.in_folder,
            r.counters == (RunCounters { files_count: 0, bytes_written: 0, complete_folder_size: 0 }),
            r.sizes@ == Seq::<nat>::empty(),
    {
        let (avg_folder_size, files_per_folder) = calculate_num_files(num_folders, &disk_size);
        Driver {
            num_folders,
            disk_size,
            avg_folder_size,
            files_per_folder,
            folders_created: 0,
            in_folder: false,
            file_index: 0,
            current_folder_size: 0,
            counters: RunCounters { files_count: 0, bytes_written: 0, complete_folder_size: 0 },
            sizes: Ghost(Seq::empty()),
            folder_files: Ghost(Seq::empty()),
        }
    }

    /// Decides the next action. When the current folder's file loop is over
    /// (its file count or its byte budget reached) the folder's size is added
    /// to the completed total first. No folder is asked for once that total
    /// exceeds the budget, nor beyond `num_folders`; no file beyond
    /// `files_per_folder` in one folder.
    pub fn next_action(&mut self) -> (r: Action)
        requires
            old(self).wf(),
        ensures
            final(self).wf(),
            r == final(self).action_of(),
            final(self).in_folder == old(self).folder_open(),
            final(self).same_run(old(self)),
            old(self).in_folder && !old(self).folder_open() ==> final(self).counters
                == (RunCounters {
                    complete_folder_size: (old(self).counters.complete_folder_size
                        + old(self).current_folder_size) as usize,
                    ..old(self).counters
                }),
            !(old(self).in_folder && !old(self).folder_open()) ==> *final(self) == *old(self),
            final(self).counters.files_count == old(self).counters.files_count,
            final(self).counters.bytes_written == old(self).counters.bytes_written,
            final(self).counters.complete_folder_size >= old(self).counters.complete_folder_size,
            final(self).folders_created == old(self).folders_created,
            final(self).sizes@ == old(self).sizes@,
            final(self).counters.complete_folder_size > final(self).disk_size ==> r
                != Action::CreateFolder,
            r == Action::CreateFolder ==> final(self).folders_created < final(self).num_folders,
            r is CreateFile ==> final(self).awaiting_file(),
            r == Action::CreateFolder ==> final(self).awaiting_folder(),
            final(self).steps_left() <= old(self).steps_left(),
    {
        if self.in_folder && !(self.file_index < self.files_per_folder && self.current_folder_size
            < self.avg_folder_size) {
            self.counters.complete_folder_size = self.counters.complete_folder_size
                + self.current_folder_size;
            self.current_folder_size = 0;
            self.in_folder = false;
        }
        if self.in_folder {
            Action::CreateFile { index: self.file_index }
        } else if self.folders_created < self.num_folders && self.counters.complete_folder_size
            <= self.disk_size {
            Action::CreateFolder
        } else {
            Action::Finished
        }
    }

    /// Records that the folder asked for has been created; its file loop starts.
    pub fn folder_created(&mut self)
        requires
            old(self).wf(),
            old(self).awaiting_folder(),
        ensures
            final(self).wf(),
            final(self).folders_created == old(self).folders_created + 1,
            final(self).same_run(old(self)),
            final(self).in_folder,
            final(self).file_index == 0,
            final(self).current_folder_size == 0,
            final(self).counters == old(self).counters,
            final(self).sizes@ == old(self).sizes@,
            final(self).folder_files@ == old(self).folder_files@.push(0),
            final(self).steps_left() < old(self).steps_left(),
    {
        let ghost left = (self.num_folders - self.folders_created) as nat;
        let ghost f = self.files_per_folder as nat;
        self.folders_created = self.folders_created + 1;
        self.in_folder = true;
        self.file_index = 0;
        self.current_folder_size = 0;
        proof {
            let ff = self.folder_files@.push(0);
            assert(ff.drop_last() =~= self.folder_files@);
            self.folder_files = Ghost(ff);
            assert(left * (f + 2) == ((left - 1) as nat) * (f + 2) + f + 2) by (nonlinear_arith)
                requires
                    left >= 1,
            ;
        }
    }

    /// The byte counters can take a file of `actual_size` more bytes.
    pub open spec fn fits(&self, actual_size: usize) -> bool {
        self.counters.bytes_written + actual_size <= usize::MAX && self.counters.files_count
            < u64::MAX
    }

    /// Tells whether the counters can take a file of `actual_size` more bytes.
    pub fn can_record(&self, actual_size: usize) -> (r: bool)
        ensures
            r == self.fits(actual_size),
    {
        self.counters.files_count < u64::MAX && actual_size <= usize::MAX
            - self.counters.bytes_written
    }

    /// Records a file written with `actual_size` bytes on disk: one more file,
    /// and exactly that many more bytes, in the run and in the current folder.
    pub fn file_written(&mut self, actual_size: usize)
        requires
            old(self).wf(),
            old(self).awaiting_file(),
            old(self).fits(actual_size),
        ensures
            final(self).wf(),
            final(self).counters.files_count == old(self).counters.files_count + 1,
            final(self).same_run(old(self)),
            final(self).counters.bytes_written == old(self).counters.bytes_written + actual_size,
            final(self).counters.complete_folder_size == old(self).counters.complete_folder_size,
            final(self).current_folder_size == old(self).current_folder_size + actual_size,
            final(self).file_index == old(self).file_index + 1,
            final(self).in_folder,
            final(self).folders_created == old(self).folders_created,
            final(self).sizes@ == old(self).sizes@.push(actual_size as nat),
            final(self).counters.bytes_written as nat == total(final(self).sizes@),
            final(self).steps_left() < old(self).steps_left(),
    {
        self.counters.files_count = self.counters.files_count + 1;
        self.counters.bytes_written = self.counters.bytes_written + actual_size;
        self.current_folder_size = self.current_folder_size + actual_size;
        self.file_index = self.file_index + 1;
        proof {
            let s = self.sizes@.push(actual_size as nat);
            assert(s.drop_last() =~= self.sizes@);
            self.sizes = Ghost(s);
            let old_ff = self.folder_files@;
            let last = old_ff.len() - 1;
            let ff = old_ff.update(last, old_ff[last] + 1);
            assert(ff.drop_last() =~= old_ff.drop_last());
            assert forall|i: int| 0 <= i < ff.len() implies #[trigger] ff[i]
                <= self.files_per_folder as nat by {
                if i != last {
                    assert(ff[i] == old_ff[i]);
                }
            }
            self.folder_files = Ghost(ff);
        }
    }

    /// Running totals of the run so far.
    pub fn counters(&self) -> (r: RunCounters)
        ensures
            r == self.counters,
    {
        self.counters
    }

    /// The folder plan of this run: `(avg_folder_size, files_per_folder)`.
    pub fn plan(&self) -> (r: (usize, usize))
        ensures
            r == (self.avg_folder_size, self.files_per_folder),
    {
        (self.avg_folder_size, self.files_per_folder)
    }
}

/// The counters agree with what was written: `files_count` is the number of
/// files written, `bytes_written` the sum of their on-disk sizes, and the
/// files of all folders together are exactly those files.
pub proof fn lemma_counters_match_files(d: Driver)
    requires
        d.wf(),
    ensures
        d.counters.files_count as nat == d.sizes@.len(),
        d.counters.bytes_written as nat == total(d.sizes@),
        total(d.folder_files@) == d.counters.files_count as nat,
{
}

/// No more than `num_folders` folders are created, and no folder holds more
/// than `files_per_folder` files.
pub proof fn lemma_creation_bounded(d: Driver)
    requires
        d.wf(),
    ensures
        d.folders_created <= d.num_folders,
        d.folder_files@.len() == d.folders_created as nat,
        forall|i: int|
            0 <= i < d.folder_files@.len() ==> #[trigger] d.folder_files@[i]
                <= d.files_per_folder as nat,
{
}

/// Once the completed folders exceed the budget no further folder is asked
/// for or accepted; the completed total never shrinks, so this lasts for
/// the rest of the run.
pub proof fn lemma_over_budget_no_folder(d: Driver)
    requires
        d.wf(),
        d.counters.complete_folder_size > d.disk_size,
    ensures
        !d.awaiting_folder(),
        d.action_of() != Action::CreateFolder,
{
}

} // verus!

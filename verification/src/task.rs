//! Task descriptors: staged inputs, wire-level options, and computed outputs.
//!
//! A task is described once by [`TaskBuilder::build`]; the files and
//! directories it needs on disk are listed by [`TaskBuilder::staging_plan`]
//! so that the caller can create them. After a successful remote run,
//! [`materialize`] pairs each declared output path with the handle the
//! caller opened for it.

use vstd::prelude::*;
use vstd::slice::slice_to_vec;

use crate::error::Error;
use crate::text::{push_decimal, spec_decimal};
use crate::timeout::Timeout;

verus! {

/// The two Emscripten-produced artifacts a task executes.
#[derive(Debug)]
pub struct GWasmBinary {
    /// Contents of the JavaScript file.
    pub js: &'static [u8],
    /// Contents of the Wasm binary.
    pub wasm: &'static [u8],
}

/// One subtask of a task: the arguments its execution receives and the
/// output file paths it declares, both relative to the subtask's own
/// directories.
#[derive(Debug, Clone)]
pub struct Subtask {
    /// Execution arguments handed to the binary for this subtask.
    pub exec_args: Vec<String>,
    /// Output files the remote computation must deliver for this subtask.
    pub output_file_paths: Vec<String>,
}

/// The options substructure of a task: artifact names, the staging
/// directories, and the subtasks in staging order.
#[derive(Debug, Clone)]
pub struct Options {
    /// Name of the JavaScript file inside the input directory.
    pub js_name: String,
    /// Name of the Wasm binary inside the input directory.
    pub wasm_name: String,
    /// Directory that holds all staged inputs.
    pub input_dir_path: String,
    /// Directory the remote outputs are delivered under.
    pub output_dir_path: String,
    /// Subtasks by name, in staging order.
    pub subtasks: Vec<(String, Subtask)>,
}

/// An immutable description of one task: identity, price, timeouts and
/// its options. Built once by [`TaskBuilder::build`]; the same value is
/// used to submit the task and, after success, to collect its outputs.
#[derive(Debug, Clone)]
pub struct Task {
    /// The task's name.
    pub name: String,
    /// The price offered for the computation, in thousandths of the
    /// payment unit.
    pub bid: u64,
    /// Timeout for the whole task.
    pub timeout: Timeout,
    /// Timeout for each subtask.
    pub subtask_timeout: Timeout,
    /// Artifact names, staging directories and subtasks.
    pub options: Options,
}

/// One step of the on-disk staging a task needs before submission.
/// The caller performs the steps in the listed order.
#[derive(Debug)]
pub enum StagingStep {
    /// Create the directory at this path.
    CreateDir(String),
    /// Write a file at this path with these contents.
    WriteFile(String, Vec<u8>),
}

/// Builder of a [`Task`]: collects name, bid, timeouts and per-subtask
/// input data, and derives the task description and its staging plan.
#[derive(Debug)]
pub struct TaskBuilder {
    /// The artifacts the task executes.
    pub binary: GWasmBinary,
    /// Task name, if set; a default is used otherwise.
    pub name: Option<String>,
    /// Bid in thousandths of the payment unit, if set.
    pub bid: Option<u64>,
    /// Task timeout, if set.
    pub timeout: Option<Timeout>,
    /// Subtask timeout, if set.
    pub subtask_timeout: Option<Timeout>,
    /// The directory staged inputs go under.
    pub input_dir_path: String,
    /// The directory outputs are delivered under.
    pub output_dir_path: String,
    /// One chunk of input data per subtask, in staging order.
    pub subtask_data: Vec<Vec<u8>>,
}

/// Task name used when the builder was given none.
pub const DEFAULT_NAME: &'static str = "unknown";

/// Bid used when the builder was given none: one payment unit.
pub const DEFAULT_BID: u64 = 1000;

/// Two paths joined with a single separator.
pub open spec fn spec_join(a: Seq<char>, b: Seq<char>) -> Seq<char> {
    a + seq!['/'] + b
}

/// The generated name of the subtask at index `i`.
pub open spec fn spec_subtask_name(i: nat) -> Seq<char> {
    "subtask_"@ + spec_decimal(i)
}

/// The fixed shape every staged subtask has: the input file and the output
/// file as execution arguments, and the output file as the one declared
/// output path.
pub open spec fn spec_default_subtask(st: Subtask) -> bool {
    &&& st.exec_args@.len() == 2
    &&& st.exec_args@[0]@ == "in.txt"@
    &&& st.exec_args@[1]@ == "in.wav"@
    &&& st.output_file_paths@.len() == 1
    &&& st.output_file_paths@[0]@ == "in.wav"@
}

impl TaskBuilder {
    /// Timeouts that were set are valid; holds of every builder this
    /// module hands out, since [`Timeout`] construction validates.
    pub open spec fn wf(self) -> bool {
        &&& self.timeout matches Some(t) ==> t.wf()
        &&& self.subtask_timeout matches Some(t) ==> t.wf()
    }

    /// The task name the builder will use.
    pub open spec fn spec_task_name(self) -> Seq<char> {
        match self.name {
            Some(n) => n@,
            None => DEFAULT_NAME@,
        }
    }

    /// The bid the builder will use.
    pub open spec fn spec_task_bid(self) -> u64 {
        match self.bid {
            Some(b) => b,
            None => DEFAULT_BID,
        }
    }

    /// The task timeout the builder will use: ten minutes if none was set.
    pub open spec fn spec_task_timeout(self) -> Timeout {
        match self.timeout {
            Some(t) => t,
            None => Timeout { hours: 0, minutes: 10, seconds: 0 },
        }
    }

    /// The subtask timeout the builder will use: ten minutes if none was set.
    pub open spec fn spec_task_subtask_timeout(self) -> Timeout {
        match self.subtask_timeout {
            Some(t) => t,
            None => Timeout { hours: 0, minutes: 10, seconds: 0 },
        }
    }

    /// What [`TaskBuilder::build`] produces from this builder: every field
    /// of the task and of its options, and the name and shape of every
    /// subtask, pinned exactly.
    pub open spec fn spec_built(self, t: Task) -> bool {
        &&& t.name@ == self.spec_task_name()
        &&& t.bid == self.spec_task_bid()
        &&& t.timeout == self.spec_task_timeout()
        &&& t.subtask_timeout == self.spec_task_subtask_timeout()
        &&& t.options.js_name@ == self.spec_task_name() + ".js"@
        &&& t.options.wasm_name@ == self.spec_task_name() + ".wasm"@
        &&& t.options.input_dir_path@ == self.input_dir_path@
        &&& t.options.output_dir_path@ == self.output_dir_path@
        &&& t.options.subtasks@.len() == self.subtask_data@.len()
        &&& forall|i: int|
            0 <= i < t.options.subtasks@.len() ==> #[trigger] t.options.subtasks@[i].0@
                == spec_subtask_name(i as nat)
        &&& forall|i: int|
            0 <= i < t.options.subtasks@.len() ==> spec_default_subtask(
                #[trigger] t.options.subtasks@[i].1,
            )
    }

    /// Creates a builder whose staging directories are `in` and `out`
    /// under the given workspace.
    pub fn new(workspace: &str, binary: GWasmBinary) -> (r: TaskBuilder)
        ensures
            r.binary == binary,
            r.name is None,
            r.bid is None,
            r.timeout is None,
            r.subtask_timeout is None,
            r.input_dir_path@ == spec_join(workspace@, "in"@),
            r.output_dir_path@ == spec_join(workspace@, "out"@),
            r.subtask_data@.len() == 0,
            r.wf(),
    {
        TaskBuilder {
            binary,
            name: None,
            bid: None,
            timeout: None,
            subtask_timeout: None,
            input_dir_path: join_path(workspace, "in"),
            output_dir_path: join_path(workspace, "out"),
            subtask_data: Vec::new(),
        }
    }

    /// Sets the task's name.
    pub fn name(self, name: String) -> (r: TaskBuilder)
        ensures
            r == (TaskBuilder { name: Some(name), ..self }),
    {
        TaskBuilder { name: Some(name), ..self }
    }

    /// Sets the task's bid, in thousandths of the payment unit.
    pub fn bid(self, bid: u64) -> (r: TaskBuilder)
        ensures
            r == (TaskBuilder { bid: Some(bid), ..self }),
    {
        TaskBuilder { bid: Some(bid), ..self }
    }

    /// Sets the task's timeout.
    pub fn timeout(self, timeout: Timeout) -> (r: TaskBuilder)
        requires
            timeout.wf(),
        ensures
            r == (TaskBuilder { timeout: Some(timeout), ..self }),
    {
        TaskBuilder { timeout: Some(timeout), ..self }
    }

    /// Sets the timeout of each subtask.
    pub fn subtask_timeout(self, subtask_timeout: Timeout) -> (r: TaskBuilder)
        requires
            subtask_timeout.wf(),
        ensures
            r == (TaskBuilder { subtask_timeout: Some(subtask_timeout), ..self }),
    {
        TaskBuilder { subtask_timeout: Some(subtask_timeout), ..self }
    }

    /// Appends one chunk of input data; each chunk becomes one subtask.
    pub fn push_subtask_data(self, data: Vec<u8>) -> (r: TaskBuilder)
        ensures
            r.subtask_data@ == self.subtask_data@.push(data),
            r.binary == self.binary,
            r.name == self.name,
            r.bid == self.bid,
            r.timeout == self.timeout,
            r.subtask_timeout == self.subtask_timeout,
            r.input_dir_path == self.input_dir_path,
            r.output_dir_path == self.output_dir_path,
    {
        let mut b = self;
        b.subtask_data.push(data);
        b
    }

    /// Derives the task description: defaults filled in, one subtask of
    /// the fixed shape per pushed data chunk, named `subtask_<index>`.
    ///
    /// Building never fails; the fallible part of staging is the plan of
    /// [`TaskBuilder::staging_plan`], which the caller performs on disk.
    pub fn build(self) -> (r: Result<Task, Error>)
        requires
            self.wf(),
        ensures
            r matches Result::Ok(t) && self.spec_built(t) && t.wf(),
    {
        let default_timeout = Timeout { hours: 0, minutes: 10, seconds: 0 };
        let name: String = match self.name {
            Some(n) => n,
            None => DEFAULT_NAME.to_owned(),
        };
        let bid: u64 = match self.bid {
            Some(b) => b,
            None => DEFAULT_BID,
        };
        let timeout: Timeout = match self.timeout {
            Some(t) => t,
            None => default_timeout,
        };
        let subtask_timeout: Timeout = match self.subtask_timeout {
            Some(t) => t,
            None => default_timeout,
        };
        let js_name = name.clone().concat(".js");
        let wasm_name = name.clone().concat(".wasm");

        let n = self.subtask_data.len();
        let mut subtasks: Vec<(String, Subtask)> = Vec::new();
        let mut i: usize = 0;
        while i < n
            invariant
                i <= n,
                subtasks@.len() == i,
                forall|k: int|
                    0 <= k < i as int ==> #[trigger] subtasks@[k].0@ == spec_subtask_name(k as nat),
                forall|k: int|
                    0 <= k < i as int ==> spec_default_subtask(#[trigger] subtasks@[k].1),
            decreases n - i,
        {
            let sname = subtask_name(i as u64);
            let mut exec_args: Vec<String> = Vec::new();
            exec_args.push("in.txt".to_owned());
            exec_args.push("in.wav".to_owned());
            let mut output_file_paths: Vec<String> = Vec::new();
            output_file_paths.push("in.wav".to_owned());
            let st = Subtask { exec_args, output_file_paths };
            subtasks.push((sname, st));
            i = i + 1;
        }

        let options = Options {
            js_name,
            wasm_name,
            input_dir_path: self.input_dir_path,
            output_dir_path: self.output_dir_path,
            subtasks,
        };
        Result::Ok(Task { name, bid, timeout, subtask_timeout, options })
    }
}

impl Task {
    /// Both timeouts of the task are valid.
    pub open spec fn wf(self) -> bool {
        self.timeout.wf() && self.subtask_timeout.wf()
    }

    /// The task's name.
    pub fn name(&self) -> (r: &str)
        ensures
            r@ == self.name@,
    {
        self.name.as_str()
    }

    /// The task's bid, in thousandths of the payment unit.
    pub fn bid(&self) -> (r: u64)
        ensures
            r == self.bid,
    {
        self.bid
    }

    /// The task's timeout.
    pub fn timeout(&self) -> (r: &Timeout)
        ensures
            r == self.timeout,
    {
        &self.timeout
    }

    /// The timeout of each subtask.
    pub fn subtask_timeout(&self) -> (r: &Timeout)
        ensures
            r == self.subtask_timeout,
    {
        &self.subtask_timeout
    }

    /// The task's options substructure.
    pub fn options(&self) -> (r: &Options)
        ensures
            r == self.options,
    {
        &self.options
    }

    /// The full path of every declared output, per subtask in staging
    /// order: `<output_dir>/<subtask_name>/<declared path>`. These are
    /// the files the caller opens after a finished run, row by row, to
    /// hand [`materialize`] its handles.
    pub fn output_paths(&self) -> (r: Vec<Vec<String>>)
        ensures
            r@.len() == self.options.subtasks@.len(),
            forall|i: int|
                0 <= i < r@.len() ==> #[trigger] r@[i]@.len()
                    == self.options.subtasks@[i].1.output_file_paths@.len(),
            forall|i: int, j: int|
                0 <= i < r@.len() && 0 <= j < r@[i]@.len() ==> #[trigger] r@[i]@[j]@ == spec_join(
                    spec_join(self.options.output_dir_path@, self.options.subtasks@[i].0@),
                    self.options.subtasks@[i].1.output_file_paths@[j]@,
                ),
    {
        let n = self.options.subtasks.len();
        let mut r: Vec<Vec<String>> = Vec::new();
        let mut i: usize = 0;
        while i < n
            invariant
                i <= n,
                n == self.options.subtasks@.len(),
                r@.len() == i,
                forall|a: int|
                    0 <= a < i as int ==> #[trigger] r@[a]@.len()
                        == self.options.subtasks@[a].1.output_file_paths@.len(),
                forall|a: int, j: int|
                    0 <= a < i as int && 0 <= j < r@[a]@.len() ==> #[trigger] r@[a]@[j]@
                        == spec_join(
                        spec_join(self.options.output_dir_path@, self.options.subtasks@[a].0@),
                        self.options.subtasks@[a].1.output_file_paths@[j]@,
                    ),
            decreases n - i,
        {
            let sub_dir = join_path(
                self.options.output_dir_path.as_str(),
                self.options.subtasks[i].0.as_str(),
            );
            let paths = &self.options.subtasks[i].1.output_file_paths;
            let m = paths.len();
            let mut row: Vec<String> = Vec::new();
            let mut j: usize = 0;
            while j < m
                invariant
                    j <= m,
                    i < n,
                    n == self.options.subtasks@.len(),
                    m == self.options.subtasks@[i as int].1.output_file_paths@.len(),
                    sub_dir@ == spec_join(
                        self.options.output_dir_path@,
                        self.options.subtasks@[i as int].0@,
                    ),
                    row@.len() == j,
                    forall|b: int|
                        0 <= b < j as int ==> #[trigger] row@[b]@ == spec_join(
                            spec_join(
                                self.options.output_dir_path@,
                                self.options.subtasks@[i as int].0@,
                            ),
                            self.options.subtasks@[i as int].1.output_file_paths@[b]@,
                        ),
                decreases m - j,
            {
                let full = join_path(
                    sub_dir.as_str(),
                    self.options.subtasks[i].1.output_file_paths[j].as_str(),
                );
                row.push(full);
                j = j + 1;
            }
            r.push(row);
            i = i + 1;
        }
        r
    }
}

impl Options {
    /// Name of the JavaScript file.
    pub fn js_name(&self) -> (r: &str)
        ensures
            r@ == self.js_name@,
    {
        self.js_name.as_str()
    }

    /// Name of the Wasm binary.
    pub fn wasm_name(&self) -> (r: &str)
        ensures
            r@ == self.wasm_name@,
    {
        self.wasm_name.as_str()
    }

    /// Path of the task's input directory.
    pub fn input_dir_path(&self) -> (r: &str)
        ensures
            r@ == self.input_dir_path@,
    {
        self.input_dir_path.as_str()
    }

    /// Path of the task's output directory.
    pub fn output_dir_path(&self) -> (r: &str)
        ensures
            r@ == self.output_dir_path@,
    {
        self.output_dir_path.as_str()
    }

    /// The subtasks by name, in staging order.
    pub fn subtasks(&self) -> (r: &Vec<(String, Subtask)>)
        ensures
            r == self.subtasks,
    {
        &self.subtasks
    }
}

impl Subtask {
    /// Execution arguments of this subtask.
    pub fn exec_args(&self) -> (r: &Vec<String>)
        ensures
            r == self.exec_args,
    {
        &self.exec_args
    }

    /// Declared output file paths of this subtask.
    pub fn output_file_paths(&self) -> (r: &Vec<String>)
        ensures
            r == self.output_file_paths,
    {
        &self.output_file_paths
    }
}

/// Step `s` creates the directory at path `p`.
pub open spec fn is_create_dir(s: StagingStep, p: Seq<char>) -> bool {
    s matches StagingStep::CreateDir(q) && q@ == p
}

/// Step `s` writes the file at path `p` with contents `c`.
pub open spec fn is_write_file(s: StagingStep, p: Seq<char>, c: Seq<u8>) -> bool {
    s matches StagingStep::WriteFile(q, d) && q@ == p && d@ == c
}

/// What step `k` of a builder's staging plan must be, for `k >= 4`:
/// steps come in threes per subtask — its input directory, its output
/// directory, and its staged input file.
pub open spec fn spec_subtask_step(b: TaskBuilder, s: StagingStep, k: int) -> bool {
    let i = (k - 4) / 3;
    let r = (k - 4) % 3;
    let sub_in = spec_join(b.input_dir_path@, spec_subtask_name(i as nat));
    let sub_out = spec_join(b.output_dir_path@, spec_subtask_name(i as nat));
    if r == 0 {
        is_create_dir(s, sub_in)
    } else if r == 1 {
        is_create_dir(s, sub_out)
    } else {
        is_write_file(s, spec_join(sub_in, "in.txt"@), b.subtask_data@[i]@)
    }
}

impl TaskBuilder {
    /// The exact staging plan of this builder: the input directory with
    /// the two artifacts and the output directory first, then, per
    /// subtask, its two directories and its staged input file.
    pub open spec fn spec_staging_plan(self, plan: Seq<StagingStep>) -> bool {
        &&& plan.len() == 4 + 3 * self.subtask_data@.len()
        &&& is_create_dir(plan[0], self.input_dir_path@)
        &&& is_write_file(
            plan[1],
            spec_join(self.input_dir_path@, self.spec_task_name() + ".js"@),
            self.binary.js@,
        )
        &&& is_write_file(
            plan[2],
            spec_join(self.input_dir_path@, self.spec_task_name() + ".wasm"@),
            self.binary.wasm@,
        )
        &&& is_create_dir(plan[3], self.output_dir_path@)
        &&& forall|k: int| 4 <= k < plan.len() ==> spec_subtask_step(self, #[trigger] plan[k], k)
    }

    /// The on-disk steps this builder's task needs before submission, in
    /// the order the caller must perform them.
    pub fn staging_plan(&self) -> (plan: Vec<StagingStep>)
        ensures
            self.spec_staging_plan(plan@),
    {
        let name: String = match &self.name {
            Some(n) => n.clone(),
            None => DEFAULT_NAME.to_owned(),
        };
        let js_name = name.clone().concat(".js");
        let wasm_name = name.clone().concat(".wasm");

        let mut plan: Vec<StagingStep> = Vec::new();
        plan.push(StagingStep::CreateDir(self.input_dir_path.clone()));
        plan.push(
            StagingStep::WriteFile(
                join_path(self.input_dir_path.as_str(), js_name.as_str()),
                slice_to_vec(self.binary.js),
            ),
        );
        plan.push(
            StagingStep::WriteFile(
                join_path(self.input_dir_path.as_str(), wasm_name.as_str()),
                slice_to_vec(self.binary.wasm),
            ),
        );
        plan.push(StagingStep::CreateDir(self.output_dir_path.clone()));

        let n = self.subtask_data.len();
        let mut i: usize = 0;
        while i < n
            invariant
                i <= n,
                n == self.subtask_data@.len(),
                plan@.len() == 4 + 3 * i,
                is_create_dir(plan@[0], self.input_dir_path@),
                is_write_file(
                    plan@[1],
                    spec_join(self.input_dir_path@, self.spec_task_name() + ".js"@),
                    self.binary.js@,
                ),
                is_write_file(
                    plan@[2],
                    spec_join(self.input_dir_path@, self.spec_task_name() + ".wasm"@),
                    self.binary.wasm@,
                ),
                is_create_dir(plan@[3], self.output_dir_path@),
                forall|k: int|
                    4 <= k < plan@.len() ==> spec_subtask_step(*self, #[trigger] plan@[k], k),
            decreases n - i,
        {
            let sname = subtask_name(i as u64);
            let sub_in = join_path(self.input_dir_path.as_str(), sname.as_str());
            let sub_out = join_path(self.output_dir_path.as_str(), sname.as_str());
            let in_file = join_path(sub_in.as_str(), "in.txt");
            let data = slice_to_vec(self.subtask_data[i].as_slice());
            plan.push(StagingStep::CreateDir(sub_in));
            plan.push(StagingStep::CreateDir(sub_out));
            plan.push(StagingStep::WriteFile(in_file, data));
            proof {
                let m = 4 + 3 * i as int;
                assert((m - 4) / 3 == i as int && (m - 4) % 3 == 0);
                assert((m + 1 - 4) / 3 == i as int && (m + 1 - 4) % 3 == 1);
                assert((m + 2 - 4) / 3 == i as int && (m + 2 - 4) % 3 == 2);
            }
            i = i + 1;
        }
        plan
    }
}

/// One computed subtask: each declared output path of the subtask paired
/// with the open handle the caller obtained for it, in declared order.
#[derive(Debug)]
pub struct ComputedSubtask<H> {
    /// Declared output path and its open handle, in declared order.
    pub data: Vec<(String, H)>,
}

/// A computed task: name, bid and timeouts carried through unchanged from
/// the [`Task`], and one computed subtask per staged subtask, in staging
/// order.
#[derive(Debug)]
pub struct ComputedTask<H> {
    /// The task's name.
    pub name: String,
    /// The task's bid, in thousandths of the payment unit.
    pub bid: u64,
    /// Timeout of the whole task.
    pub timeout: Timeout,
    /// Timeout of each subtask.
    pub subtask_timeout: Timeout,
    /// One entry per staged subtask, in staging order.
    pub subtasks: Vec<ComputedSubtask<H>>,
}

/// Every declared output of every subtask was opened: the handle table has
/// one row per subtask and one open handle per declared output path.
pub open spec fn spec_outputs_available<H>(task: Task, opened: Seq<Vec<Option<H>>>) -> bool {
    &&& opened.len() == task.options.subtasks@.len()
    &&& forall|i: int|
        0 <= i < opened.len() ==> #[trigger] opened[i]@.len()
            == task.options.subtasks@[i].1.output_file_paths@.len()
    &&& forall|i: int, j: int|
        0 <= i < opened.len() && 0 <= j < opened[i]@.len() ==> #[trigger] opened[i]@[j] is Some
}

/// The computed task `ct` pairs, subtask by subtask and in declared order,
/// each declared output path of `task` with the handle opened for it, and
/// carries name, bid and both timeouts through unchanged.
pub open spec fn spec_materialized<H>(
    task: Task,
    opened: Seq<Vec<Option<H>>>,
    ct: ComputedTask<H>,
) -> bool {
    &&& ct.name@ == task.name@
    &&& ct.bid == task.bid
    &&& ct.timeout == task.timeout
    &&& ct.subtask_timeout == task.subtask_timeout
    &&& ct.subtasks@.len() == task.options.subtasks@.len()
    &&& forall|i: int|
        0 <= i < ct.subtasks@.len() ==> #[trigger] ct.subtasks@[i].data@.len()
            == task.options.subtasks@[i].1.output_file_paths@.len()
    &&& forall|i: int, j: int|
        0 <= i < ct.subtasks@.len() && 0 <= j < ct.subtasks@[i].data@.len() ==> {
            &&& (#[trigger] ct.subtasks@[i].data@[j]).0@
                == task.options.subtasks@[i].1.output_file_paths@[j]@
            &&& ct.subtasks@[i].data@[j].1 == opened[i]@[j]->Some_0
        }
}

/// Builds the computed task from a finished run's opened output handles.
///
/// `opened` holds, per subtask and declared output path in order, the
/// handle the caller managed to open, or `None` where the file was
/// missing. The whole materialization fails with `OutputUnavailable` if
/// and only if any single declared output is missing — an absent output
/// means the remote side did not deliver what the protocol promised.
pub fn materialize<H>(task: Task, opened: Vec<Vec<Option<H>>>) -> (r: Result<
    ComputedTask<H>,
    Error,
>)
    ensures
        r is Ok <==> spec_outputs_available(task, opened@),
        r matches Result::Ok(ct) ==> spec_materialized(task, opened@, ct),
        r is Err ==> r == Result::<ComputedTask<H>, Error>::Err(Error::OutputUnavailable),
{
    let n = task.options.subtasks.len();
    let mut rows = opened;
    if rows.len() != n {
        return Result::Err(Error::OutputUnavailable);
    }
    let mut subtasks_out: Vec<ComputedSubtask<H>> = Vec::new();
    let mut i: usize = 0;
    while i < n
        invariant
            i <= n,
            n == task.options.subtasks@.len(),
            rows@ =~= opened@.skip(i as int),
            opened@.len() == n,
            subtasks_out@.len() == i,
            forall|a: int|
                0 <= a < i as int ==> #[trigger] subtasks_out@[a].data@.len()
                    == task.options.subtasks@[a].1.output_file_paths@.len()
                    && subtasks_out@[a].data@.len() == opened@[a]@.len(),
            forall|a: int, j: int|
                0 <= a < i as int && 0 <= j < subtasks_out@[a].data@.len() ==> {
                    &&& (#[trigger] subtasks_out@[a].data@[j]).0@
                        == task.options.subtasks@[a].1.output_file_paths@[j]@
                    &&& opened@[a]@[j] is Some
                    &&& subtasks_out@[a].data@[j].1 == opened@[a]@[j]->Some_0
                },
        decreases n - i,
    {
        let mut row = rows.remove(0);
        let paths = &task.options.subtasks[i].1.output_file_paths;
        if row.len() != paths.len() {
            return Result::Err(Error::OutputUnavailable);
        }
        let m = paths.len();
        let mut data: Vec<(String, H)> = Vec::new();
        let mut j: usize = 0;
        while j < m
            invariant
                j <= m,
                i < n,
                n == task.options.subtasks@.len(),
                m == task.options.subtasks@[i as int].1.output_file_paths@.len(),
                m == opened@[i as int]@.len(),
                opened@.len() == n,
                row@ =~= opened@[i as int]@.skip(j as int),
                data@.len() == j,
                forall|b: int|
                    0 <= b < j as int ==> {
                        &&& (#[trigger] data@[b]).0@
                            == task.options.subtasks@[i as int].1.output_file_paths@[b]@
                        &&& opened@[i as int]@[b] is Some
                        &&& data@[b].1 == opened@[i as int]@[b]->Some_0
                    },
            decreases m - j,
        {
            let h = match row.remove(0) {
                Some(h) => h,
                None => { return Result::Err(Error::OutputUnavailable) },
            };
            let path = task.options.subtasks[i].1.output_file_paths[j].clone();
            data.push((path, h));
            j = j + 1;
        }
        subtasks_out.push(ComputedSubtask { data });
        i = i + 1;
    }
    proof {
        assert forall|a: int| 0 <= a < opened@.len() implies #[trigger] opened@[a]@.len()
            == task.options.subtasks@[a].1.output_file_paths@.len() by {
            assert(subtasks_out@[a].data@.len() == opened@[a]@.len());
        };
        assert forall|a: int, j: int|
            0 <= a < opened@.len() && 0 <= j < opened@[a]@.len() implies #[trigger] opened@[a]@[j]
            is Some by {
            assert(subtasks_out@[a].data@[j].1 == opened@[a]@[j]->Some_0);
        };
    }
    Result::Ok(
        ComputedTask {
            name: task.name,
            bid: task.bid,
            timeout: task.timeout,
            subtask_timeout: task.subtask_timeout,
            subtasks: subtasks_out,
        },
    )
}

/// A task staged from `N` input chunks materializes, on the success path,
/// into a computed task with exactly `N` subtask entries, in staging
/// order: no subtask is dropped or duplicated.
pub proof fn lemma_staged_counts_carry_through<H>(
    b: TaskBuilder,
    t: Task,
    opened: Seq<Vec<Option<H>>>,
    ct: ComputedTask<H>,
)
    requires
        b.spec_built(t),
        spec_materialized(t, opened, ct),
    ensures
        ct.subtasks@.len() == b.subtask_data@.len(),
        forall|i: int|
            0 <= i < ct.subtasks@.len() ==> #[trigger] ct.subtasks@[i].data@.len()
                == t.options.subtasks@[i].1.output_file_paths@.len(),
{
}

/// Joins two paths with a single separator.
pub(crate) fn join_path(a: &str, b: &str) -> (r: String)
    ensures
        r@ == spec_join(a@, b@),
{
    let mut s = a.to_owned();
    crate::text::push_char(&mut s, '/');
    s.append(b);
    proof {
        assert(s@ =~= spec_join(a@, b@));
    }
    s
}

/// The generated name of the subtask at index `i`.
pub(crate) fn subtask_name(i: u64) -> (r: String)
    ensures
        r@ == spec_subtask_name(i as nat),
{
    let mut s = "subtask_".to_owned();
    push_decimal(&mut s, i);
    s
}

} // verus!

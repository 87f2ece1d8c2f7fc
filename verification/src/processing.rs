//! Planning a download run: how many workers to start for the files found,
//! where each file is saved, what is reported while the run goes on, and
//! when the run is over.

use vstd::prelude::*;
use crate::text::{
    append_decimal, decimal, is_decimal_of, last_path_segment, last_segment,
    law_decimal_writes_the_number, lemma_last_segment_shape,
};

verus! {

/// Number of workers for a run over `file_count` files.
pub open spec fn pool_size(file_count: nat) -> nat {
    if file_count < 20 {
        5
    } else if file_count < 50 {
        10
    } else {
        20
    }
}

/// Number of workers for a run over `file_count` files: 5 below 20 files,
/// 10 below 50 files, 20 otherwise.
pub fn pool_size_for(file_count: usize) -> (n: usize)
    ensures
        n == pool_size(file_count as nat),
{
    if file_count < 20 {
        5
    } else if file_count < 50 {
        10
    } else {
        20
    }
}

/// How a run goes on once the file list is known.
pub enum ProcessingPlan {
    /// The directory is empty: the run ends at once with a warning.
    NothingToProcess,
    /// Start a pool of `threads` workers and hand each file to it.
    Process { threads: usize },
}

/// What to do with a file list of `file_count` entries.
pub fn plan_processing(file_count: usize) -> (p: ProcessingPlan)
    ensures
        file_count == 0 ==> p is NothingToProcess,
        file_count > 0 ==> p == (ProcessingPlan::Process { threads: pool_size(file_count as nat) as usize }),
{
    if file_count == 0 {
        ProcessingPlan::NothingToProcess
    } else {
        ProcessingPlan::Process { threads: pool_size_for(file_count) }
    }
}

/// The local directory that receives the downloaded files.
pub open spec fn local_dir_prefix() -> Seq<char> {
    "./tmp/"@
}

/// Where a file of the server is saved: its name, after the last `/`,
/// inside `./tmp/`.
pub open spec fn destination(origin: Seq<char>) -> Seq<char> {
    local_dir_prefix() + last_segment(origin)
}

/// Where the file at `file_origin_path` on the server is saved locally.
pub fn destination_path(file_origin_path: &str) -> (r: String)
    ensures
        r@ == destination(file_origin_path@),
{
    let name = last_path_segment(file_origin_path);
    let mut out = String::from_str("./tmp/");
    out.append(name.as_str());
    out
}

/// Law: every file is saved directly inside `./tmp/`: the destination is
/// the prefix followed by a name without `/`, and that name ends the
/// server path.
pub proof fn law_destination_inside_tmp(origin: Seq<char>)
    ensures
        destination(origin).subrange(0, local_dir_prefix().len() as int) == local_dir_prefix(),
        forall|i: int|
            local_dir_prefix().len() <= i < destination(origin).len() ==> #[trigger] destination(origin)[i] != '/',
        origin.subrange(origin.len() - last_segment(origin).len(), origin.len() as int) == last_segment(origin),
{
    lemma_last_segment_shape(origin);
    let d = destination(origin);
    let p = local_dir_prefix();
    assert(d.subrange(0, p.len() as int) =~= p);
    assert forall|i: int| p.len() <= i < d.len() implies #[trigger] d[i] != '/' by {
        assert(d[i] == last_segment(origin)[i - p.len()]);
    }
}

/// Law: a file is saved under its whole name. The destination is
/// `./tmp/` followed by a name that holds no `/`, that ends the server
/// path, and that reaches back to the last `/` of the path (or to its
/// start when it holds none): nothing of the file name is cut.
pub proof fn law_destination_keeps_whole_name(origin: Seq<char>)
    ensures
        destination(origin).len() >= 6,
        destination(origin).subrange(0, 6) == "./tmp/"@,
        ({
            let name = destination(origin).subrange(6, destination(origin).len() as int);
            &&& forall|i: int| 0 <= i < name.len() ==> #[trigger] name[i] != '/'
            &&& name.len() <= origin.len()
            &&& name == origin.subrange(origin.len() - name.len(), origin.len() as int)
            &&& (name.len() == origin.len() || origin[origin.len() - name.len() - 1] == '/')
        }),
{
    reveal_strlit("./tmp/");
    lemma_last_segment_shape(origin);
    let d = destination(origin);
    let seg = last_segment(origin);
    assert(d.subrange(0, 6) =~= "./tmp/"@);
    assert(d.subrange(6, d.len() as int) =~= seg);
}

/// One file to download: its number in the run (from 1), where it is on
/// the server and where it is saved.
pub struct FileJob {
    pub number: usize,
    pub origin_path: String,
    pub destination: String,
}

/// The jobs of a run over `files`, in the order of the list.
pub fn plan_jobs(files: &Vec<String>) -> (jobs: Vec<FileJob>)
    ensures
        jobs.len() == files.len(),
        forall|i: int|
            0 <= i < jobs.len() ==> {
                &&& #[trigger] jobs@[i].number == i + 1
                &&& jobs@[i].origin_path@ == files@[i]@
                &&& jobs@[i].destination@ == destination(files@[i]@)
            },
{
    let mut jobs: Vec<FileJob> = Vec::with_capacity(files.len());
    let mut i: usize = 0;
    while i < files.len()
        invariant
            i <= files.len(),
            jobs.len() == i,
            forall|k: int|
                0 <= k < i ==> {
                    &&& #[trigger] jobs@[k].number == k + 1
                    &&& jobs@[k].origin_path@ == files@[k]@
                    &&& jobs@[k].destination@ == destination(files@[k]@)
                },
        decreases files.len() - i,
    {
        let origin = &files[i];
        let job = FileJob {
            number: i + 1,
            origin_path: origin.clone(),
            destination: destination_path(origin.as_str()),
        };
        jobs.push(job);
        i = i + 1;
    }
    jobs
}

/// What the run reports when a worker signals that a file is done.
#[derive(Debug, Clone, Copy, PartialEq, Eq)]
pub enum ProgressEvent {
    /// This many files are done; more remain.
    Processed(usize),
    /// The last file is done: stop waiting.
    Finished,
}

/// The event after the `processed`-th completion out of `total`.
pub open spec fn completion_event(processed: usize, total: usize) -> ProgressEvent {
    if processed == total {
        ProgressEvent::Finished
    } else {
        ProgressEvent::Processed(processed)
    }
}

/// Counts the files reported done during a run.
pub struct ProgressTracker {
    pub total: usize,
    pub processed: usize,
}

impl ProgressTracker {
    pub open spec fn wf(&self) -> bool {
        self.processed <= self.total
    }

    /// A run over `total` files with none done yet.
    pub fn new(total: usize) -> (t: ProgressTracker)
        ensures
            t.total == total,
            t.processed == 0,
            t.wf(),
    {
        ProgressTracker { total, processed: 0 }
    }

    /// Counts one more file done. Once every file is counted the run is
    /// over and no further signal is awaited.
    pub fn record_completion(&mut self) -> (e: ProgressEvent)
        requires
            old(self).processed < old(self).total,
        ensures
            final(self).total == old(self).total,
            final(self).processed == old(self).processed + 1,
            final(self).wf(),
            e == completion_event(final(self).processed, final(self).total),
    {
        self.processed = self.processed + 1;
        if self.processed == self.total {
            ProgressEvent::Finished
        } else {
            ProgressEvent::Processed(self.processed)
        }
    }
}

/// The events of a run from `start` files done until all `total` are done.
pub open spec fn events_from(start: usize, total: usize) -> Seq<ProgressEvent>
    decreases total - start,
{
    if start >= total {
        Seq::empty()
    } else {
        seq![completion_event((start + 1) as usize, total)] + events_from((start + 1) as usize, total)
    }
}

/// Law: a run that has `start` of `total` files done reports, on the
/// remaining completions, the counts `start + 1`, `start + 2`, ... and
/// finishes exactly on the last one.
pub proof fn law_run_finishes_on_last_file(start: usize, total: usize)
    requires
        start < total,
    ensures
        events_from(start, total).len() == total - start,
        events_from(start, total).last() == ProgressEvent::Finished,
        forall|i: int|
            0 <= i < total - start - 1 ==> #[trigger] events_from(start, total)[i]
                == ProgressEvent::Processed((start + i + 1) as usize),
    decreases total - start,
{
    if start + 1 < total {
        law_run_finishes_on_last_file((start + 1) as usize, total);
        let rest = events_from((start + 1) as usize, total);
        assert forall|i: int| 0 <= i < total - start - 1 implies #[trigger] events_from(start, total)[i]
            == ProgressEvent::Processed((start + i + 1) as usize) by {
            if i > 0 {
                assert(events_from(start, total)[i] == rest[i - 1]);
            }
        }
    } else {
        assert(events_from((start + 1) as usize, total) =~= Seq::empty());
    }
}

/// Law: every run gets a pool with workers: the pool size is 5, 10 or 20,
/// never falls when there are more files, and is never zero.
pub proof fn law_pool_size_positive_and_monotone(a: nat, b: nat)
    requires
        a <= b,
    ensures
        pool_size(a) == 5 || pool_size(a) == 10 || pool_size(a) == 20,
        pool_size(a) > 0,
        pool_size(a) <= pool_size(b),
{
}

/// `"{number}) {time} Inicia procesamiento de archivo {path}."`
pub open spec fn start_text(number: nat, time: Seq<char>, path: Seq<char>) -> Seq<char> {
    decimal(number) + ") "@ + time + " Inicia procesamiento de archivo "@ + path + "."@
}

/// The line shown when a worker takes a file.
pub fn start_message(number: usize, time: &str, path: &str) -> (r: String)
    ensures
        r@ == start_text(number as nat, time@, path@),
{
    let mut out = String::new();
    append_decimal(&mut out, number as u64);
    out.append(") ");
    out.append(time);
    out.append(" Inicia procesamiento de archivo ");
    out.append(path);
    out.append(".");
    assert(out@ =~= start_text(number as nat, time@, path@));
    out
}

/// `"{number}) {time} Archivo {path} guardado en {destination}."`
pub open spec fn saved_text(number: nat, time: Seq<char>, path: Seq<char>, dest: Seq<char>) -> Seq<char> {
    decimal(number) + ") "@ + time + " Archivo "@ + path + " guardado en "@ + dest + "."@
}

/// The line shown when a file has been saved.
pub fn saved_message(number: usize, time: &str, path: &str, dest: &str) -> (r: String)
    ensures
        r@ == saved_text(number as nat, time@, path@, dest@),
{
    let mut out = String::new();
    append_decimal(&mut out, number as u64);
    out.append(") ");
    out.append(time);
    out.append(" Archivo ");
    out.append(path);
    out.append(" guardado en ");
    out.append(dest);
    out.append(".");
    assert(out@ =~= saved_text(number as nat, time@, path@, dest@));
    out
}

/// `"Error {error}. <Posible causa del error: el archivo es una carpeta>"`
pub open spec fn failure_text(error: Seq<char>) -> Seq<char> {
    "Error "@ + error + ". <Posible causa del error: el archivo es una carpeta>"@
}

/// The line shown when a file could not be retrieved.
pub fn failure_message(error: &str) -> (r: String)
    ensures
        r@ == failure_text(error@),
{
    let mut out = String::from_str("Error ");
    out.append(error);
    out.append(". <Posible causa del error: el archivo es una carpeta>");
    out
}

/// `"Se inicia procesamiento de {count} archivo(s): "`
pub open spec fn files_found_text(count: nat) -> Seq<char> {
    "Se inicia procesamiento de "@ + decimal(count) + " archivo(s): "@
}

/// The line announcing how many files the run will process.
pub fn files_found_message(count: usize) -> (r: String)
    ensures
        r@ == files_found_text(count as nat),
{
    let mut out = String::from_str("Se inicia procesamiento de ");
    append_decimal(&mut out, count as u64);
    out.append(" archivo(s): ");
    out
}

/// `"Archivo procesado {processed} de {processed}"`: the count is written
/// in both places.
pub open spec fn progress_text(processed: nat) -> Seq<char> {
    "Archivo procesado "@ + decimal(processed) + " de "@ + decimal(processed)
}

/// The line printed after each completion that is not the last.
pub fn progress_message(processed: usize) -> (r: String)
    ensures
        r@ == progress_text(processed as nat),
{
    let mut out = String::from_str("Archivo procesado ");
    append_decimal(&mut out, processed as u64);
    out.append(" de ");
    append_decimal(&mut out, processed as u64);
    out
}

/// Law: the line shown when a worker takes a file starts with the file's
/// number written in ordinary decimal, then the time and the server path.
pub proof fn law_start_line_shows_number(number: nat, time: Seq<char>, path: Seq<char>)
    ensures
        exists|d: Seq<char>|
            #![trigger is_decimal_of(d, number as int)]
            is_decimal_of(d, number as int) && start_text(number, time, path) == d + ") "@
                + time + " Inicia procesamiento de archivo "@ + path + "."@,
{
    law_decimal_writes_the_number(number);
    assert(is_decimal_of(decimal(number), number as int));
}

/// Law: the saved-file line starts with the file's number in ordinary decimal.
pub proof fn law_saved_line_shows_number(number: nat, time: Seq<char>, path: Seq<char>, dest: Seq<char>)
    ensures
        exists|d: Seq<char>|
            #![trigger is_decimal_of(d, number as int)]
            is_decimal_of(d, number as int) && saved_text(number, time, path, dest) == d
                + ") "@ + time + " Archivo "@ + path + " guardado en "@ + dest + "."@,
{
    law_decimal_writes_the_number(number);
    assert(is_decimal_of(decimal(number), number as int));
}

/// Law: the announcement names the whole number of files found, in
/// ordinary decimal.
pub proof fn law_files_found_line_shows_count(count: nat)
    ensures
        exists|d: Seq<char>|
            #![trigger is_decimal_of(d, count as int)]
            is_decimal_of(d, count as int) && files_found_text(count)
                == "Se inicia procesamiento de "@ + d + " archivo(s): "@,
{
    law_decimal_writes_the_number(count);
    assert(is_decimal_of(decimal(count), count as int));
}

/// Law: the progress line names the count of files done, in ordinary
/// decimal, in both places.
pub proof fn law_progress_line_shows_count(processed: nat)
    ensures
        exists|d: Seq<char>|
            #![trigger is_decimal_of(d, processed as int)]
            is_decimal_of(d, processed as int) && progress_text(processed)
                == "Archivo procesado "@ + d + " de "@ + d,
{
    law_decimal_writes_the_number(processed);
    assert(is_decimal_of(decimal(processed), processed as int));
}

} // verus!

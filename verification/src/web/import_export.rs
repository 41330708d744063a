//! Exporting a user's streams and importing them back: the import is a
//! sequence of decisions between lookups, deletions and insertions that
//! the caller makes in the store.
use vstd::prelude::*;

use crate::text::{decimal, join3, join_str, str_is, string_of, u64_decimal, string_from_chars};
use crate::web::json::JsonValue;
use crate::web::streams::StoredStream;

verus! {

/// A stream as exports carry it.
#[derive(Debug)]
pub struct StreamExport {
    pub name: String,
    pub description: Option<String>,
    pub config: JsonValue,
    pub is_default: bool,
}

/// The export of a stored stream whose configuration parsed to `config`
/// (`None` when it did not parse, which exports an empty object).
pub fn stream_export_of(stream: &StoredStream, config: Option<JsonValue>) -> (r: StreamExport)
    ensures
        r.name@ == stream.name@,
        r.description == stream.description,
        r.is_default == stream.is_default,
        match config {
            Some(c) => r.config == c,
            None => r.config matches JsonValue::Object(es) && es@.len() == 0,
        },
{
    let config = match config {
        Some(c) => c,
        None => JsonValue::empty_object(),
    };
    StreamExport {
        name: stream.name.clone(),
        description: stream.description.clone(),
        config,
        is_default: stream.is_default,
    }
}

/// What to do with a stream whose name is taken.
#[derive(Debug, Clone, Copy, PartialEq, Eq, Structural)]
pub enum ImportMode {
    /// Leave the existing one and skip the import.
    Skip,
    /// Delete the existing one, then import.
    Overwrite,
    /// Import under `<name> (<n>)` for the first free `n`.
    CreateNew,
    /// Import anyway.
    Other,
}

/// The mode a request names (`skip` when it names none).
pub open spec fn mode_named(m: Option<Seq<char>>) -> ImportMode {
    match m {
        None => ImportMode::Skip,
        Some(s) => if s == "skip"@ {
            ImportMode::Skip
        } else if s == "overwrite"@ {
            ImportMode::Overwrite
        } else if s == "create_new"@ {
            ImportMode::CreateNew
        } else {
            ImportMode::Other
        },
    }
}

/// A request that names no mode imports in skip mode, as one naming
/// `skip` does; `overwrite` and `create_new` are the only names that
/// replace or rename taken streams, and any other name is neither of these
/// nor skip.
pub proof fn import_mode_laws(m: Option<Seq<char>>)
    ensures
        mode_named(None) == ImportMode::Skip,
        mode_named(None) == mode_named(Some("skip"@)),
        mode_named(Some("overwrite"@)) == ImportMode::Overwrite,
        mode_named(Some("create_new"@)) == ImportMode::CreateNew,
        mode_named(m) == ImportMode::Skip <==> (m is None || m == Some("skip"@)),
        mode_named(m) == ImportMode::Overwrite <==> m == Some("overwrite"@),
        mode_named(m) == ImportMode::CreateNew <==> m == Some("create_new"@),
{
    reveal_strlit("skip");
    reveal_strlit("overwrite");
    reveal_strlit("create_new");
    assert("skip"@ != "overwrite"@) by {
        assert("skip"@.len() != "overwrite"@.len());
    }
    assert("skip"@ != "create_new"@) by {
        assert("skip"@.len() != "create_new"@.len());
    }
    assert("overwrite"@ != "create_new"@) by {
        assert("overwrite"@.len() != "create_new"@.len());
    }
}

/// The mode a request names (see `mode_named`).
pub fn import_mode(m: Option<&str>) -> (r: ImportMode)
    ensures
        r == mode_named(
            match m {
                Some(s) => Some(s@),
                None => None,
            },
        ),
{
    match m {
        None => ImportMode::Skip,
        Some(s) => if str_is(s, "skip") {
            ImportMode::Skip
        } else if str_is(s, "overwrite") {
            ImportMode::Overwrite
        } else if str_is(s, "create_new") {
            ImportMode::CreateNew
        } else {
            ImportMode::Other
        },
    }
}

/// Which endpoint imports: the API, or the settings page.  They word their
/// errors differently, and when no free name is found within a hundred
/// tries the API keeps looking while the page imports under the original
/// name.
#[derive(Debug, Clone, Copy, PartialEq, Eq, Structural)]
pub enum ImportFlavor {
    Api,
    Page,
}

/// The candidate name `<name> (<n>)`.
pub open spec fn candidate_name(name: Seq<char>, n: u64) -> Seq<char> {
    name + " ("@ + decimal(n as nat) + ")"@
}

fn candidate(name: &str, n: u64) -> (r: String)
    ensures
        r@ == candidate_name(name@, n),
{
    let digits = u64_decimal(n);
    let d = string_from_chars(digits.as_slice());
    let a = join3(name, " (", d.as_str());
    join_str(a.as_str(), ")")
}

/// Where an import stands with the current stream.
#[derive(Debug, Clone, Copy, PartialEq, Eq, Structural)]
pub enum ImportStage {
    /// Waiting to learn whether the name is taken.
    Lookup,
    /// Waiting for the deletion of the stream that had the name.
    Deleting,
    /// Waiting to learn whether the candidate name is taken.
    Probing,
    /// Waiting for the insertion.
    Creating,
    /// All streams are handled.
    Done,
}

/// What the caller reports back.
#[derive(Debug)]
pub enum ImportEvent {
    /// The stream of that name (its id), if one exists; a failed lookup
    /// counts as none.
    Found(Option<String>),
    Deleted(Result<(), String>),
    Created(Result<(), String>),
}

/// What the caller is to do next.
#[derive(Debug, PartialEq, Eq)]
pub enum ImportAction {
    /// Look up the user's stream of this name.
    Lookup(String),
    /// Delete the stream of this id.
    Delete(String),
    /// Insert stream `index` of the request under this name.
    Create(usize, String),
    /// Answer the request.
    Finish,
}

/// Whether an action looks up the name `n`.
pub open spec fn looks_up(r: ImportAction, n: Seq<char>) -> bool {
    r matches ImportAction::Lookup(x) && x@ == n
}

/// Whether an action inserts stream `k` under the name `n`.
pub open spec fn creates(r: ImportAction, k: int, n: Seq<char>) -> bool {
    r matches ImportAction::Create(j, x) && j == k && x@ == n
}

/// An import in progress.
#[derive(Debug)]
pub struct ImportRun {
    names: Vec<String>,
    mode: ImportMode,
    flavor: ImportFlavor,
    index: usize,
    stage: ImportStage,
    counter: u64,
    imported: u64,
    skipped: u64,
    /// Streams that ended with an error.
    failed: u64,
    errors: Vec<String>,
}

impl ImportRun {
    /// The names of the streams to import, in order.
    pub closed spec fn spec_names(&self) -> Seq<Seq<char>> {
        self.names@.map_values(|s: String| s@)
    }

    pub closed spec fn spec_mode(&self) -> ImportMode {
        self.mode
    }

    pub closed spec fn spec_flavor(&self) -> ImportFlavor {
        self.flavor
    }

    /// The stream being handled.
    pub closed spec fn spec_index(&self) -> int {
        self.index as int
    }

    pub closed spec fn spec_stage(&self) -> ImportStage {
        self.stage
    }

    /// The number of the candidate name being tried.
    pub closed spec fn spec_counter(&self) -> u64 {
        self.counter
    }

    pub closed spec fn spec_imported(&self) -> u64 {
        self.imported
    }

    pub closed spec fn spec_skipped(&self) -> u64 {
        self.skipped
    }

    /// The streams that ended with an error.
    pub closed spec fn spec_failed(&self) -> u64 {
        self.failed
    }

    pub closed spec fn spec_errors(&self) -> Seq<Seq<char>> {
        self.errors@.map_values(|s: String| s@)
    }

    /// The run is past the streams exactly when it is done; every stream
    /// handled is counted once, as imported, skipped or failed; each failed
    /// stream has its error, and through the API the errors are exactly
    /// those of the failed streams (the pages also note a stream whose
    /// renaming gave up and that was then created under its own name);
    /// streams are skipped only in the skip mode.
    pub closed spec fn wf(&self) -> bool {
        &&& self.index <= self.names@.len()
        &&& (self.stage == ImportStage::Done) == (self.index == self.names@.len())
        &&& self.imported + self.skipped + self.failed == self.index
        &&& self.failed <= self.errors@.len()
        &&& self.flavor == ImportFlavor::Api ==> self.errors@.len() == self.failed
        &&& self.mode != ImportMode::Skip ==> self.skipped == 0
        &&& self.names@.len() <= u64::MAX
    }

    /// The number of streams.
    pub fn total(&self) -> (r: usize)
        ensures
            r == self.spec_names().len(),
    {
        self.names.len()
    }

    pub fn imported(&self) -> (r: u64)
        ensures
            r == self.spec_imported(),
    {
        self.imported
    }

    pub fn skipped(&self) -> (r: u64)
        ensures
            r == self.spec_skipped(),
    {
        self.skipped
    }

    /// The streams that ended with an error.
    pub fn failed(&self) -> (r: u64)
        ensures
            r == self.spec_failed(),
    {
        self.failed
    }

    /// The HTTP status of the import's answer: 200 when nothing went wrong,
    /// 206 (partial content) when there are errors.
    pub fn reply_status(&self) -> (r: u16)
        ensures
            r == if self.spec_errors().len() == 0 {
                200u16
            } else {
                206u16
            },
    {
        if self.errors.len() == 0 {
            200
        } else {
            206
        }
    }

    pub fn errors(&self) -> (r: &Vec<String>)
        ensures
            r@.map_values(|s: String| s@) == self.spec_errors(),
    {
        &self.errors
    }

    /// The action that starts on stream `index`: its lookup, or the end.
    fn begin_stream(&self) -> (r: ImportAction)
        requires
            self.index <= self.names@.len(),
        ensures
            self.index < self.names@.len() ==> looks_up(r, self.spec_names()[self.spec_index()]),
            self.index == self.names@.len() ==> r is Finish,
    {
        if self.index < self.names.len() {
            ImportAction::Lookup(self.names[self.index].clone())
        } else {
            ImportAction::Finish
        }
    }

    /// Starts an import of streams with these names.
    pub fn start(names: Vec<String>, mode: ImportMode, flavor: ImportFlavor) -> (r: (ImportRun, ImportAction))
        requires
            names@.len() <= u64::MAX,
        ensures
            r.0.wf(),
            r.0.spec_names() == names@.map_values(|s: String| s@),
            r.0.spec_mode() == mode,
            r.0.spec_flavor() == flavor,
            r.0.spec_index() == 0,
            r.0.spec_imported() == 0,
            r.0.spec_skipped() == 0,
            r.0.spec_failed() == 0,
            r.0.spec_errors().len() == 0,
            names@.len() == 0 ==> r.0.spec_stage() == ImportStage::Done && r.1 is Finish,
            names@.len() > 0 ==> r.0.spec_stage() == ImportStage::Lookup && looks_up(r.1, names@[0]@),
    {
        let stage = if names.len() == 0 {
            ImportStage::Done
        } else {
            ImportStage::Lookup
        };
        let run = ImportRun {
            names,
            mode,
            flavor,
            index: 0,
            stage,
            counter: 0,
            imported: 0,
            skipped: 0,
            failed: 0,
            errors: Vec::new(),
        };
        let action = run.begin_stream();
        proof {
            assert(run.spec_errors() =~= Seq::<Seq<char>>::empty());
        }
        (run, action)
    }

    fn next_stream(&mut self) -> (r: ImportAction)
        requires
            old(self).index < old(self).names@.len(),
            old(self).imported + old(self).skipped + old(self).failed == old(self).index + 1,
            old(self).failed <= old(self).errors@.len(),
            old(self).flavor == ImportFlavor::Api ==> old(self).errors@.len() == old(self).failed,
            old(self).mode != ImportMode::Skip ==> old(self).skipped == 0,
            old(self).names@.len() <= u64::MAX,
        ensures
            final(self).wf(),
            final(self).index == old(self).index + 1,
            final(self).names == old(self).names,
            final(self).mode == old(self).mode,
            final(self).flavor == old(self).flavor,
            final(self).imported == old(self).imported,
            final(self).skipped == old(self).skipped,
            final(self).failed == old(self).failed,
            final(self).errors == old(self).errors,
            final(self).index < final(self).names@.len() ==> final(self).stage == ImportStage::Lookup
                && looks_up(r, final(self).spec_names()[final(self).spec_index()]),
            final(self).index == final(self).names@.len() ==> final(self).stage == ImportStage::Done
                && r is Finish,
    {
        let n = self.names.len();
        assert(self.index < n);
        self.index = self.index + 1;
        self.stage = if self.index < self.names.len() {
            ImportStage::Lookup
        } else {
            ImportStage::Done
        };
        self.begin_stream()
    }

    /// Takes the caller's report on the current stream and decides the
    /// next step: a taken name is skipped, replaced, or renamed as the mode
    /// says; each stream ends imported, skipped, or with one error, and the
    /// run moves to the next stream.
    pub fn advance(&mut self, event: ImportEvent) -> (r: ImportAction)
        requires
            old(self).wf(),
            old(self).spec_stage() != ImportStage::Done,
            match event {
                ImportEvent::Found(_) => old(self).spec_stage() == ImportStage::Lookup
                    || old(self).spec_stage() == ImportStage::Probing,
                ImportEvent::Deleted(_) => old(self).spec_stage() == ImportStage::Deleting,
                ImportEvent::Created(_) => old(self).spec_stage() == ImportStage::Creating,
            },
        ensures
            final(self).wf(),
            final(self).spec_names() == old(self).spec_names(),
            final(self).spec_mode() == old(self).spec_mode(),
            final(self).spec_flavor() == old(self).spec_flavor(),
            ({
                let name = old(self).spec_names()[old(self).spec_index()];
                let i = old(self).spec_index();
                match event {
                    ImportEvent::Found(existing) => if old(self).spec_stage() == ImportStage::Lookup {
                        match existing {
                            Some(id) => match old(self).spec_mode() {
                                ImportMode::Skip => final(self).spec_skipped() == old(
                                    self,
                                ).spec_skipped() + 1 && final(self).spec_index() == i + 1
                                    && final(self).spec_imported() == old(self).spec_imported()
                                    && final(self).spec_failed() == old(self).spec_failed()
                                    && final(self).spec_errors() == old(self).spec_errors(),
                                ImportMode::Overwrite => final(self).spec_stage()
                                    == ImportStage::Deleting && r == ImportAction::Delete(id)
                                    && tallies_kept(*old(self), *final(self)),
                                ImportMode::CreateNew => final(self).spec_stage()
                                    == ImportStage::Probing && final(self).spec_counter() == 1
                                    && looks_up(r, candidate_name(name, 1)) && tallies_kept(*old(self), *final(self)),
                                ImportMode::Other => final(self).spec_stage()
                                    == ImportStage::Creating && creates(r, i, name) && tallies_kept(*old(self), *final(self)),
                            },
                            None => final(self).spec_stage() == ImportStage::Creating
                                && creates(r, i, name) && tallies_kept(*old(self), *final(self)),
                        }
                    } else {
                        match existing {
                            None => final(self).spec_stage() == ImportStage::Creating
                                && creates(r, i, candidate_name(name, old(self).spec_counter()))
                                && tallies_kept(*old(self), *final(self)),
                            Some(_) => old(self).spec_counter() < u64::MAX ==> {
                                let c = (old(self).spec_counter() + 1) as u64;
                                if c > 100 && old(self).spec_flavor() == ImportFlavor::Page {
                                    &&& final(self).spec_stage() == ImportStage::Creating
                                    &&& creates(r, i, name)
                                    &&& final(self).spec_index() == i
                                    &&& final(self).spec_imported() == old(self).spec_imported()
                                    &&& final(self).spec_skipped() == old(self).spec_skipped()
                                    &&& final(self).spec_failed() == old(self).spec_failed()
                                    &&& final(self).spec_errors() == old(self).spec_errors().push(
                                        "Could not create unique name for stream '"@ + name + "'"@,
                                    )
                                } else if c > 100 {
                                    &&& final(self).spec_index() == i + 1
                                    &&& final(self).spec_failed() == old(self).spec_failed() + 1
                                    &&& final(self).spec_imported() == old(self).spec_imported()
                                    &&& final(self).spec_skipped() == old(self).spec_skipped()
                                    &&& final(self).spec_errors() == old(self).spec_errors().push(
                                        "Could not find unique name for stream '"@ + name + "'"@,
                                    )
                                } else {
                                    &&& final(self).spec_stage() == ImportStage::Probing
                                    &&& final(self).spec_counter() == c
                                    &&& looks_up(r, candidate_name(name, c))
                                    &&& tallies_kept(*old(self), *final(self))
                                }
                            },
                        }
                    },
                    ImportEvent::Deleted(Ok(())) => final(self).spec_stage() == ImportStage::Creating
                        && creates(r, i, name) && tallies_kept(*old(self), *final(self)),
                    ImportEvent::Deleted(Err(e)) => final(self).spec_index() == i + 1
                        && final(self).spec_errors() == old(self).spec_errors().push(
                        "Failed to delete existing stream '"@ + name + "': "@ + e@,
                    ) && final(self).spec_imported() == old(self).spec_imported()
                        && final(self).spec_skipped() == old(self).spec_skipped()
                        && final(self).spec_failed() == old(self).spec_failed() + 1,
                    ImportEvent::Created(Ok(())) => final(self).spec_index() == i + 1
                        && final(self).spec_imported() == old(self).spec_imported() + 1
                        && final(self).spec_skipped() == old(self).spec_skipped()
                        && final(self).spec_failed() == old(self).spec_failed()
                        && final(self).spec_errors() == old(self).spec_errors(),
                    ImportEvent::Created(Err(e)) => final(self).spec_index() == i + 1
                        && final(self).spec_errors() == old(self).spec_errors().push(
                        if old(self).spec_flavor() == ImportFlavor::Api {
                            "Failed to import stream '"@ + name + "': "@ + e@
                        } else {
                            "Failed to create stream '"@ + name + "': "@ + e@
                        },
                    ) && final(self).spec_imported() == old(self).spec_imported()
                        && final(self).spec_skipped() == old(self).spec_skipped()
                        && final(self).spec_failed() == old(self).spec_failed() + 1,
                }
            }),
            final(self).spec_index() == old(self).spec_index() ==> final(self).spec_imported()
                == old(self).spec_imported() && final(self).spec_skipped() == old(self).spec_skipped()
                && final(self).spec_failed() == old(self).spec_failed(),
            final(self).spec_index() == old(self).spec_index() + 1 && final(self).spec_index()
                < final(self).spec_names().len() ==> final(self).spec_stage() == ImportStage::Lookup
                && (looks_up(r, final(self).spec_names()[final(self).spec_index()])),
            final(self).spec_index() == old(self).spec_index() + 1 && final(self).spec_index()
                == final(self).spec_names().len() ==> r is Finish,
    {
        let ghost errs = self.spec_errors();
        let i = self.index;
        let name = self.names[i].clone();
        match event {
            ImportEvent::Found(existing) => {
                if self.stage == ImportStage::Lookup {
                    match existing {
                        Some(id) => match self.mode {
                            ImportMode::Skip => {
                                self.skipped = self.skipped + 1;
                                self.next_stream()
                            },
                            ImportMode::Overwrite => {
                                self.stage = ImportStage::Deleting;
                                ImportAction::Delete(id)
                            },
                            ImportMode::CreateNew => {
                                self.stage = ImportStage::Probing;
                                self.counter = 1;
                                ImportAction::Lookup(candidate(name.as_str(), 1))
                            },
                            ImportMode::Other => {
                                self.stage = ImportStage::Creating;
                                ImportAction::Create(i, name)
                            },
                        },
                        None => {
                            self.stage = ImportStage::Creating;
                            ImportAction::Create(i, name)
                        },
                    }
                } else {
                    match existing {
                        None => {
                            self.stage = ImportStage::Creating;
                            ImportAction::Create(i, candidate(name.as_str(), self.counter))
                        },
                        Some(_) => {
                            if self.counter == u64::MAX {
                                return ImportAction::Lookup(candidate(name.as_str(), self.counter));
                            }
                            self.counter = self.counter + 1;
                            if self.counter > 100 {
                                match self.flavor {
                                    ImportFlavor::Page => {
                                        self.errors.push(
                                            join3(
                                                "Could not create unique name for stream '",
                                                name.as_str(),
                                                "'",
                                            ),
                                        );
                                        proof {
                                            assert(self.spec_errors() =~= errs.push(
                                                "Could not create unique name for stream '"@ + name@ + "'"@,
                                            ));
                                        }
                                        self.stage = ImportStage::Creating;
                                        ImportAction::Create(i, name)
                                    },
                                    ImportFlavor::Api => {
                                        self.errors.push(
                                            join3(
                                                "Could not find unique name for stream '",
                                                name.as_str(),
                                                "'",
                                            ),
                                        );
                                        proof {
                                            assert(self.spec_errors() =~= errs.push(
                                                "Could not find unique name for stream '"@ + name@ + "'"@,
                                            ));
                                        }
                                        self.failed = self.failed + 1;
                                        self.next_stream()
                                    },
                                }
                            } else {
                                ImportAction::Lookup(candidate(name.as_str(), self.counter))
                            }
                        },
                    }
                }
            },
            ImportEvent::Deleted(Ok(())) => {
                self.stage = ImportStage::Creating;
                ImportAction::Create(i, name)
            },
            ImportEvent::Deleted(Err(e)) => {
                let a = join3("Failed to delete existing stream '", name.as_str(), "': ");
                self.errors.push(join_str(a.as_str(), e.as_str()));
                proof {
                    assert(self.spec_errors() =~= errs.push(
                        "Failed to delete existing stream '"@ + name@ + "': "@ + e@,
                    ));
                }
                self.failed = self.failed + 1;
                self.next_stream()
            },
            ImportEvent::Created(Ok(())) => {
                self.imported = self.imported + 1;
                self.next_stream()
            },
            ImportEvent::Created(Err(e)) => {
                let a = match self.flavor {
                    ImportFlavor::Api => join3("Failed to import stream '", name.as_str(), "': "),
                    ImportFlavor::Page => join3("Failed to create stream '", name.as_str(), "': "),
                };
                self.errors.push(join_str(a.as_str(), e.as_str()));
                proof {
                    assert(self.spec_errors() =~= errs.push(
                        if self.flavor == ImportFlavor::Api {
                            "Failed to import stream '"@ + name@ + "': "@ + e@
                        } else {
                            "Failed to create stream '"@ + name@ + "': "@ + e@
                        },
                    ));
                }
                self.failed = self.failed + 1;
                self.next_stream()
            },
        }
    }
}

/// A step that finishes no stream: the run stays on the same stream with
/// the same counts and errors.
pub open spec fn tallies_kept(before: ImportRun, after: ImportRun) -> bool {
    &&& after.spec_index() == before.spec_index()
    &&& after.spec_imported() == before.spec_imported()
    &&& after.spec_skipped() == before.spec_skipped()
    &&& after.spec_failed() == before.spec_failed()
    &&& after.spec_errors() == before.spec_errors()
}

/// Every stream of a finished import is counted once, as imported,
/// skipped or failed; through the API the errors are exactly one per failed
/// stream, so imported + skipped + errors is the number of streams; and
/// nothing is skipped unless the mode is to skip taken names.
pub proof fn import_counts_each_stream_once(run: ImportRun)
    requires
        run.wf(),
        run.spec_stage() == ImportStage::Done,
    ensures
        run.spec_mode() != ImportMode::Skip ==> run.spec_skipped() == 0,
        run.spec_imported() + run.spec_skipped() + run.spec_failed() == run.spec_names().len(),
        run.spec_failed() <= run.spec_errors().len(),
        run.spec_flavor() == ImportFlavor::Api ==> run.spec_imported() + run.spec_skipped()
            + run.spec_errors().len() == run.spec_names().len(),
{
}

} // verus!

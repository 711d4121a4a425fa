use crate::cli::{has_name, Commands, NameRecord, WriteArgs};
use crate::name::{all_named, appended, filtered, records_of, rendered_names, Names};
use std::path::PathBuf;
use vstd::prelude::*;

verus! {

/// The error that decoding a stored document ends with. Nothing is known of
/// what such a value holds.
#[verifier::external_type_specification]
#[verifier::external_body]
pub struct ExDecodeError(serde_json::Error);

/// The name of the file that holds the store, inside its directory.
pub const STORE_FILE: &'static str = "namenotes.json";

/// Why the names that are stored cannot be had. Each of these ends the run.
#[derive(Debug, Clone, Copy, PartialEq, Eq, Structural)]
pub enum StoreError {
    /// No directory was given and the user has no home directory.
    HomeNotFound,
    /// The store could not be opened.
    OpenFailed,
    /// The store holds something other than a list of names.
    DecodeFailed,
}

/// The home directory of the user, from `dirs::home_dir`. It depends on the
/// variable `HOME` and on the user database, so nothing is claimed of it.
#[verifier::external_body]
fn home_dir() -> (home: Option<PathBuf>) {
    dirs::home_dir()
}

/// Whether decoding stopped because the input ended before the document
/// was complete: what `serde_json::Error::is_eof` answers for `error`. The
/// answer depends on the error alone.
pub uninterp spec fn eof_reached(error: serde_json::Error) -> bool;

/// Asks `serde_json::Error::is_eof` whether decoding stopped because the
/// input ended too early. The answer is taken on trust to be
/// [`eof_reached`] of the error, which says no more than that the same
/// error always gives the same answer.
#[verifier::external_body]
fn ended_early(error: &serde_json::Error) -> (early: bool)
    ensures
        early == eof_reached(*error),
{
    error.is_eof()
}

/// The directory of the store: the one that was given, else the home
/// directory; without either there is none.
pub open spec fn chosen_directory(given: Option<PathBuf>, home: Option<PathBuf>) -> Result<
    PathBuf,
    StoreError,
> {
    match given {
        Some(directory) => Ok(directory),
        None => match home {
            Some(directory) => Ok(directory),
            None => Err(StoreError::HomeNotFound),
        },
    }
}

/// Chooses the directory of the store from the one that was given and the
/// home directory: see [`chosen_directory`].
pub fn choose_directory(given: Option<PathBuf>, home: Option<PathBuf>) -> (chosen: Result<
    PathBuf,
    StoreError,
>)
    ensures
        chosen == chosen_directory(given, home),
{
    match given {
        Some(directory) => Ok(directory),
        None => match home {
            Some(directory) => Ok(directory),
            None => Err(StoreError::HomeNotFound),
        },
    }
}

/// The directory of the store. A directory that was given is taken as it
/// is, and the home directory is not asked for. Without one, the result is
/// what [`chosen_directory`] gives for the home directory that was found.
pub fn get_path(optional_path: Option<PathBuf>) -> (chosen: Result<PathBuf, StoreError>)
    ensures
        optional_path matches Some(directory) ==> chosen == Ok::<PathBuf, StoreError>(directory),
        optional_path is None ==> exists|home: Option<PathBuf>|
            chosen == #[trigger] chosen_directory(None, home),
{
    match optional_path {
        Some(directory) => Ok(directory),
        None => {
            let home = home_dir();
            choose_directory(None, home)
        },
    }
}

/// Whether the store has been created in this run.
#[derive(Debug, Clone, Copy, PartialEq, Eq, Structural)]
pub enum LoadState {
    Fresh,
    Created,
}

/// What came of opening the store for reading.
#[derive(Debug, Clone, Copy, PartialEq, Eq, Structural)]
pub enum OpenOutcome {
    Opened,
    Missing,
    Refused,
}

/// What to do after the store was opened for reading.
#[derive(Debug, Clone, Copy, PartialEq, Eq, Structural)]
pub enum LoadStep {
    /// Read the document and decode it.
    Decode,
    /// Create the store with an empty list of names, then open it again.
    CreateEmpty,
    /// Give up.
    Abort(StoreError),
}

/// The step that follows an attempt to open the store. A store that is
/// missing is created, once: if it is still missing after that, or cannot
/// be opened for another reason, the run ends.
pub open spec fn step_after_open(state: LoadState, outcome: OpenOutcome) -> LoadStep {
    match outcome {
        OpenOutcome::Opened => LoadStep::Decode,
        OpenOutcome::Missing => match state {
            LoadState::Fresh => LoadStep::CreateEmpty,
            LoadState::Created => LoadStep::Abort(StoreError::OpenFailed),
        },
        OpenOutcome::Refused => LoadStep::Abort(StoreError::OpenFailed),
    }
}

/// Decides what follows an attempt to open the store: see
/// [`step_after_open`].
pub fn after_open(state: LoadState, outcome: OpenOutcome) -> (step: LoadStep)
    ensures
        step == step_after_open(state, outcome),
{
    match outcome {
        OpenOutcome::Opened => LoadStep::Decode,
        OpenOutcome::Missing => match state {
            LoadState::Fresh => LoadStep::CreateEmpty,
            LoadState::Created => LoadStep::Abort(StoreError::OpenFailed),
        },
        OpenOutcome::Refused => LoadStep::Abort(StoreError::OpenFailed),
    }
}

impl Names {
    /// The collection to work with, from what decoding the store gave.
    /// Names that were decoded are taken as they are. A document that ended
    /// too early stands for an empty collection. Any other failure is an
    /// error, so that a later save cannot overwrite what could not be read.
    pub fn settle(decoded: Option<Names>, ended_early: bool) -> (settled: Result<Names, StoreError>)
        ensures
            decoded matches Some(names) ==> settled == Ok::<Names, StoreError>(names),
            decoded is None && ended_early ==> (settled matches Ok(names) && names@
                == Seq::<NameRecord>::empty()),
            decoded is None && !ended_early ==> settled == Err::<Names, StoreError>(
                StoreError::DecodeFailed,
            ),
    {
        match decoded {
            Some(names) => Ok(names),
            None => if ended_early {
                Ok(Names(Vec::new()))
            } else {
                Err(StoreError::DecodeFailed)
            },
        }
    }

    /// The collection to work with, from the result of decoding the store.
    /// Names that were decoded are taken as they are. A failure because the
    /// document ended too early (see [`eof_reached`]) gives an empty
    /// collection. Any other failure gives [`StoreError::DecodeFailed`], so
    /// that a later save cannot overwrite what could not be read.
    pub fn new_from_decoded(decoded: Result<Names, serde_json::Error>) -> (settled: Result<
        Names,
        StoreError,
    >)
        ensures
            decoded matches Ok(names) ==> settled == Ok::<Names, StoreError>(names),
            decoded matches Err(error) ==> (if eof_reached(error) {
                settled matches Ok(names) && names@ == Seq::<NameRecord>::empty()
            } else {
                settled == Err::<Names, StoreError>(StoreError::DecodeFailed)
            }),
    {
        match decoded {
            Ok(names) => Names::settle(Some(names), false),
            Err(error) => {
                let early = ended_early(&error);
                Names::settle(None, early)
            },
        }
    }

    /// The collection that holds `record` alone.
    pub fn new_from_args(record: WriteArgs) -> (names: Names)
        ensures
            names@ == seq![record@],
    {
        let mut only: Vec<WriteArgs> = Vec::new();
        only.push(record);
        assert(records_of(only@) =~= seq![record@]);
        Names(only)
    }
}

/// What a command comes to, once the store is loaded.
#[derive(Debug)]
pub enum Outcome {
    /// The report to print.
    Report(String),
    /// The collection to store in place of the old one.
    Save(Names),
}

/// Carries out `command` on the names that are stored. Looking names up
/// gives the report on those that meet the constraints, in their stored
/// order. Noting a name down gives the stored names followed by the new
/// one, to be saved.
pub fn run(command: Commands, stored: Names) -> (outcome: Outcome)
    ensures
        match command {
            Commands::Read(args) => (outcome matches Outcome::Report(report) && report@
                == rendered_names(filtered(stored@, args@))),
            Commands::Write(record) => (outcome matches Outcome::Save(names) && names@
                == appended(stored@, seq![record@])),
        },
        (command matches Commands::Write(record) && all_named(stored@) && has_name(record@))
            ==> (outcome matches Outcome::Save(names) && all_named(names@)),
{
    match command {
        Commands::Read(args) => Outcome::Report(stored.filtered_list(args).to_string()),
        Commands::Write(record) => {
            let new_names = Names::new_from_args(record);
            Outcome::Save(stored.append_new_names(new_names))
        },
    }
}

} // verus!

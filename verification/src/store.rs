//! The rules of loading the settings. The file system and the decoder are
//! not reached from here: a load is a chain of steps, each a request to the
//! caller, and the caller's answer decides the next one.
//!
//! A file that is missing is healed: the defaults are written, then
//! returned. A file that is there is read and decoded, and whatever fails is
//! returned as the failure it is; defaults never stand in for it.

use crate::config::{default_config, Config};
use vstd::prelude::*;

verus! {

/// Why a load failed. `E` is the caller's own error value, carried as it came.
#[derive(Debug)]
pub enum LoadError<E> {
    /// The file system failed: the file could not be written or read.
    Filesystem(E),
    /// The file's text is not a settings value.
    Decode(E),
}

/// What a load asks of its caller next.
#[derive(Debug)]
pub enum LoadStep<E> {
    /// Say whether the settings file exists.
    Probe,
    /// Write these settings to the file, which did not exist.
    Persist(Config),
    /// Read the text of the file.
    Read,
    /// Decode this text, the file's.
    Decode(String),
    /// Nothing more: this is the result of the load.
    Finish(Result<Config, LoadError<E>>),
}

/// The caller's answer to a step.
#[derive(Debug)]
pub enum LoadEvent<E> {
    /// To `Probe`: whether the file exists.
    Probed(bool),
    /// To `Persist`: whether the settings were written.
    Persisted(Result<(), E>),
    /// To `Read`: the text of the file.
    ReadBack(Result<String, E>),
    /// To `Decode`: the settings that the text holds.
    Decoded(Result<Config, E>),
}

/// Whether `next` is the step that follows `step` on the answer `event`. An
/// answer to another step than `step` leaves the load where it is.
pub open spec fn load_follows<E>(step: LoadStep<E>, event: LoadEvent<E>, next: LoadStep<E>) -> bool {
    match (step, event) {
        (LoadStep::Probe, LoadEvent::Probed(exists)) => if exists {
            next == LoadStep::<E>::Read
        } else {
            next matches LoadStep::Persist(config) && config@ == default_config()
        },
        (LoadStep::Persist(config), LoadEvent::Persisted(Ok(_))) => next == LoadStep::<E>::Finish(
            Ok(config),
        ),
        (LoadStep::Persist(_), LoadEvent::Persisted(Err(e))) => next == LoadStep::Finish(
            Err(LoadError::Filesystem(e)),
        ),
        (LoadStep::Read, LoadEvent::ReadBack(Ok(text))) => next == LoadStep::<E>::Decode(text),
        (LoadStep::Read, LoadEvent::ReadBack(Err(e))) => next == LoadStep::Finish(
            Err(LoadError::Filesystem(e)),
        ),
        (LoadStep::Decode(_), LoadEvent::Decoded(Ok(config))) => next == LoadStep::<E>::Finish(
            Ok(config),
        ),
        (LoadStep::Decode(_), LoadEvent::Decoded(Err(e))) => next == LoadStep::Finish(
            Err(LoadError::Decode(e)),
        ),
        _ => next == step,
    }
}

/// The first step of a load: to ask whether the file exists.
pub fn begin_load<E>() -> (step: LoadStep<E>)
    ensures
        step == LoadStep::<E>::Probe,
{
    LoadStep::Probe
}

/// The step that follows `step` on the caller's answer `event`.
pub fn advance_load<E>(step: LoadStep<E>, event: LoadEvent<E>) -> (next: LoadStep<E>)
    ensures
        load_follows(step, event, next),
{
    match step {
        LoadStep::Probe => match event {
            LoadEvent::Probed(exists) => if exists {
                LoadStep::Read
            } else {
                LoadStep::Persist(Config::default())
            },
            _ => LoadStep::Probe,
        },
        LoadStep::Persist(config) => match event {
            LoadEvent::Persisted(Ok(_)) => LoadStep::Finish(Ok(config)),
            LoadEvent::Persisted(Err(e)) => LoadStep::Finish(Err(LoadError::Filesystem(e))),
            _ => LoadStep::Persist(config),
        },
        LoadStep::Read => match event {
            LoadEvent::ReadBack(Ok(text)) => LoadStep::Decode(text),
            LoadEvent::ReadBack(Err(e)) => LoadStep::Finish(Err(LoadError::Filesystem(e))),
            _ => LoadStep::Read,
        },
        LoadStep::Decode(text) => match event {
            LoadEvent::Decoded(Ok(config)) => LoadStep::Finish(Ok(config)),
            LoadEvent::Decoded(Err(e)) => LoadStep::Finish(Err(LoadError::Decode(e))),
            _ => LoadStep::Decode(text),
        },
        LoadStep::Finish(result) => LoadStep::Finish(result),
    }
}

/// A missing file is healed: the load asks for the defaults to be written,
/// and once they are written it returns them.
pub proof fn lemma_missing_file_is_healed<E>(asked: LoadStep<E>, done: LoadStep<E>)
    requires
        load_follows(LoadStep::Probe, LoadEvent::Probed(false), asked),
        load_follows(asked, LoadEvent::Persisted(Ok(())), done),
    ensures
        asked matches LoadStep::Persist(config) && config@ == default_config(),
        done matches LoadStep::Finish(Ok(config)) && config@ == default_config(),
{
}

/// Where the defaults cannot be written, the load fails with the file
/// system's failure and returns no settings.
pub proof fn lemma_unwritten_defaults_fail<E>(asked: LoadStep<E>, done: LoadStep<E>, failure: E)
    requires
        load_follows(LoadStep::Probe, LoadEvent::Probed(false), asked),
        load_follows(asked, LoadEvent::Persisted(Err(failure)), done),
    ensures
        done == LoadStep::Finish(Err(LoadError::Filesystem(failure))),
{
}

/// A file that is there and does not decode fails the load with the
/// decoder's failure: defaults do not stand in for it.
pub proof fn lemma_corrupt_file_is_surfaced<E>(
    text: String,
    failure: E,
    asked: LoadStep<E>,
    read: LoadStep<E>,
    done: LoadStep<E>,
)
    requires
        load_follows(LoadStep::Probe, LoadEvent::Probed(true), asked),
        load_follows(asked, LoadEvent::ReadBack(Ok(text)), read),
        load_follows(read, LoadEvent::Decoded(Err(failure)), done),
    ensures
        asked == LoadStep::<E>::Read,
        read == LoadStep::<E>::Decode(text),
        done == LoadStep::Finish(Err(LoadError::Decode(failure))),
{
}

/// A file that is there and cannot be read fails the load with the file
/// system's failure.
pub proof fn lemma_unreadable_file_is_surfaced<E>(failure: E, asked: LoadStep<E>, done: LoadStep<E>)
    requires
        load_follows(LoadStep::Probe, LoadEvent::Probed(true), asked),
        load_follows(asked, LoadEvent::ReadBack(Err(failure)), done),
    ensures
        done == LoadStep::Finish(Err(LoadError::Filesystem(failure))),
{
}

/// A file that is there and decodes gives the settings decoded from it, unchanged.
pub proof fn lemma_stored_settings_are_returned<E>(
    text: String,
    config: Config,
    asked: LoadStep<E>,
    read: LoadStep<E>,
    done: LoadStep<E>,
)
    requires
        load_follows(LoadStep::Probe, LoadEvent::Probed(true), asked),
        load_follows(asked, LoadEvent::ReadBack(Ok(text)), read),
        load_follows(read, LoadEvent::Decoded(Ok(config)), done),
    ensures
        done == LoadStep::<E>::Finish(Ok(config)),
{
}

/// A load that has finished keeps its result, whatever it is told.
pub proof fn lemma_finished_load_stays<E>(
    result: Result<Config, LoadError<E>>,
    event: LoadEvent<E>,
    next: LoadStep<E>,
)
    requires
        load_follows(LoadStep::Finish(result), event, next),
    ensures
        next == LoadStep::Finish(result),
{
}

} // verus!

//! The queue that serializes the commands the daemon runs against its
//! Ghidra project.
//!
//! A submitted command is answered from the result cache when a live
//! entry holds it; otherwise it waits, behind the commands submitted
//! before it, until the runner takes it. The runner executes one command
//! at a time, caches each successful result and counts what it finished.
//! Waiting for the answer and running the bridge are the caller's; this
//! type holds what is decided.

use vstd::prelude::*;
use std::path::PathBuf;
use crate::cli::Commands;
use crate::daemon::cache::{Cache, CacheMap, cache_lookup};
use crate::command_text::commands_text;

verus! {

/// How a submitted command is answered.
pub enum Submission {
    /// From the cache, with this result.
    Cached(String),
    /// By the runner, once the commands ahead of it are done.
    Queued,
}

/// Serializes the commands run against one project.
pub struct CommandQueue {
    project_path: PathBuf,
    pending: Vec<Commands>,
    completed: u64,
    cache: Cache,
}

impl CommandQueue {
    /// The commands waiting, first to run first.
    pub closed spec fn waiting(&self) -> Seq<Commands> {
        self.pending@
    }

    /// How many commands the runner has finished.
    pub closed spec fn finished(&self) -> u64 {
        self.completed
    }

    /// The cached results.
    pub closed spec fn cached(&self) -> CacheMap {
        self.cache@
    }

    /// How long cached results live, in milliseconds.
    pub closed spec fn lifetime(&self) -> u64 {
        self.cache.time_to_live()
    }

    /// The project the queue serves.
    pub closed spec fn project(&self) -> PathBuf {
        self.project_path
    }

    /// An empty queue for the project at `project_path`, with an empty
    /// cache whose entries live five minutes.
    pub fn new(project_path: PathBuf) -> (r: Self)
        ensures
            r.waiting() == Seq::<Commands>::empty(),
            r.finished() == 0,
            r.cached() == CacheMap::empty(),
            r.lifetime() == 300_000,
            r.project() == project_path,
    {
        CommandQueue { project_path, pending: Vec::new(), completed: 0, cache: Cache::new() }
    }

    /// Submits `command` at time `now` (milliseconds): the cached result
    /// when a live entry holds one, otherwise the command joins the end
    /// of the queue.
    pub fn submit(&mut self, command: Commands, now: u64) -> (r: Submission)
        ensures
            final(self).finished() == old(self).finished(),
            final(self).cached() == old(self).cached(),
            final(self).lifetime() == old(self).lifetime(),
            final(self).project() == old(self).project(),
            match cache_lookup(old(self).cached(), commands_text(command), now, old(self).lifetime()) {
                Some(v) => r matches Submission::Cached(s) && s@ == v && final(self).waiting() == old(self).waiting(),
                None => r is Queued && final(self).waiting() == old(self).waiting().push(command),
            },
    {
        match self.cache.get(&command, now) {
            Some(v) => Submission::Cached(v),
            None => {
                self.pending.push(command);
                Submission::Queued
            },
        }
    }

    /// Takes the command to run next: the one submitted first.
    pub fn next_command(&mut self) -> (r: Option<Commands>)
        ensures
            final(self).finished() == old(self).finished(),
            final(self).cached() == old(self).cached(),
            final(self).lifetime() == old(self).lifetime(),
            final(self).project() == old(self).project(),
            old(self).waiting().len() == 0 ==> r is None && final(self).waiting() == old(self).waiting(),
            old(self).waiting().len() > 0 ==> r == Some(old(self).waiting()[0]) && final(self).waiting()
                == old(self).waiting().drop_first(),
    {
        if self.pending.len() == 0 {
            None
        } else {
            Some(self.pending.remove(0))
        }
    }

    /// Records that `command` finished at time `now` with `result`: a
    /// successful result is cached, and the command is counted.
    pub fn finish(&mut self, command: &Commands, result: &Result<String, String>, now: u64)
        requires
            old(self).finished() < u64::MAX,
        ensures
            final(self).finished() == old(self).finished() + 1,
            final(self).waiting() == old(self).waiting(),
            final(self).lifetime() == old(self).lifetime(),
            final(self).project() == old(self).project(),
            final(self).cached() == match result {
                Ok(v) => old(self).cached().insert(commands_text(*command), (v@, now)),
                Err(_) => old(self).cached(),
            },
    {
        if let Ok(v) = result {
            self.cache.set(command, v.clone(), now);
        }
        self.completed = self.completed + 1;
    }

    /// How many commands are waiting.
    pub fn queue_depth(&self) -> (r: usize)
        ensures
            r == self.waiting().len(),
    {
        self.pending.len()
    }

    /// How many commands the runner has finished.
    pub fn completed_count(&self) -> (r: u64)
        ensures
            r == self.finished(),
    {
        self.completed
    }

    /// The project the queue serves. It is handed out as the `PathBuf`
    /// the queue holds (a `Path` borrowed from it is opaque to the
    /// contracts here).
    pub fn project_path(&self) -> (r: &PathBuf)
        ensures
            *r == self.project(),
    {
        &self.project_path
    }
}

/// A command that finished successfully is answered from the cache when
/// submitted again before its result expires: the cache that
/// [`CommandQueue::finish`] leaves answers the lookup that
/// [`CommandQueue::submit`] makes with the command's result.
pub proof fn lemma_success_is_served_from_cache(
    cached: CacheMap,
    command: Commands,
    output: Seq<char>,
    finished_at: u64,
    now: u64,
    ttl: u64,
)
    requires
        now >= finished_at,
        now - finished_at <= ttl,
    ensures
        cache_lookup(cached.insert(commands_text(command), (output, finished_at)), commands_text(command), now, ttl)
            == Some(output),
{
    crate::daemon::cache::lemma_read_after_write(
        cached,
        commands_text(command),
        output,
        finished_at,
        commands_text(command),
        now,
        ttl,
    );
}

} // verus!

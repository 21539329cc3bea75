//! Saving a clip: from the recorder's file to a row in the index.
//!
//! The pipeline says what to do next and takes what came of it. A clip whose
//! name is taken gets a number; one that is to be smaller than recorded is
//! scaled, and kept as it is where that fails; then it is measured, gets a
//! thumbnail and goes into the index.

use vstd::prelude::*;

use crate::engine::{PlanModel, SavePlan};
use crate::names::{numbered, numbered_name, thumb_name, thumbnail_name};
use crate::text::{opt_text, same_text, texts};

verus! {

/// The highest number that a clip's name gets.
pub const LAST_NUMBER: u32 = 999;

/// A clip shorter than this, in milliseconds, gets a second try at its thumbnail.
pub const SHORT_MS: i64 = 1500;

/// Where the thumbnail is taken from, in milliseconds.
pub const SEEK_MS: u32 = 1000;

/// Where it is taken from at the second try.
pub const HEAD_SEEK_MS: u32 = 50;

/// The extension that the scaled file has until it takes the clip's place.
pub const SCALED_EXTENSION: &'static str = "scaled.mp4";

/// What the pipeline waits for.
#[derive(Debug, Clone, Copy, PartialEq, Eq, Structural)]
pub enum SavePhase {
    /// The recorder's file.
    Flushing,
    /// Whether a name is free on disk.
    Probing,
    /// The outcome of a rename.
    Renaming,
    /// The clips folder, the tools and the plan.
    Preparing,
    /// The outcome of scaling.
    Scaling,
    /// The outcome of putting the scaled file in place.
    Replacing,
    /// The scaled file to be gone.
    Discarding,
    /// The size of the file.
    Sizing,
    /// The duration and the thumbnail.
    Measuring,
    /// The thumbnail, at the second try.
    Retrying,
    /// The row in the index.
    Inserting,
    /// Nothing: the clip is saved, or it failed.
    Ended,
}

/// What happened.
#[derive(Debug)]
pub enum SaveEvent {
    /// The recorder's file, by name (none where that is no text), with the names
    /// that the index holds; or why there is none.
    Flushed(Result<(Option<String>, Vec<String>), String>),
    /// Whether the name that was asked about is on disk.
    Probed(bool),
    Renamed(Result<(), String>),
    /// How the clip is to be scaled, if at all; or what is missing.
    Prepared(Result<Option<SavePlan>, String>),
    /// Whether the clip was scaled.
    Scaled(bool),
    /// Whether the scaled file was put in place.
    Replaced(bool),
    Discarded,
    Sized(Result<i64, String>),
    /// The duration, if it could be measured, the thumbnail's outcome, and the
    /// buffer length.
    Measured { probe_ms: Option<i64>, thumbnail: Result<(), String>, buffer_secs: u32 },
    Retried(Result<(), String>),
    Inserted(Result<(), String>),
}

/// What to do next.
#[derive(Debug)]
pub enum SaveStep {
    /// Let the recorder write its file.
    Flush,
    /// See whether this name is on disk.
    Probe(String),
    /// Give the clip this name.
    Rename(String),
    /// Find the clips folder, the tools and the plan.
    Prepare,
    /// Scale the clip by this plan, with this encoder, into a file beside it.
    Scale { plan: SavePlan, encoder: String },
    /// Put the scaled file in the clip's place.
    Replace,
    /// Remove the scaled file.
    Discard,
    /// Read the size of the file.
    Size,
    /// Measure the duration, and take a thumbnail from this many milliseconds.
    Measure { thumbnail: String, seek_ms: u32 },
    /// Take the thumbnail from this many milliseconds.
    Retry { thumbnail: String, seek_ms: u32 },
    /// Put the clip into the index, as one of this game.
    Insert { name: String, thumbnail: String, game: String, duration_ms: i64, size: i64 },
    /// Sound the cue and announce the clip.
    Announce,
    /// The clip could not be saved.
    Failed(String),
}

/// What a step says.
pub enum SaveStepModel {
    Flush,
    Probe(Seq<char>),
    Rename(Seq<char>),
    Prepare,
    Scale { plan: PlanModel, encoder: Seq<char> },
    Replace,
    Discard,
    Size,
    Measure { thumbnail: Seq<char>, seek_ms: u32 },
    Retry { thumbnail: Seq<char>, seek_ms: u32 },
    Insert { name: Seq<char>, thumbnail: Seq<char>, game: Seq<char>, duration_ms: i64, size: i64 },
    Announce,
    Failed(Seq<char>),
}

impl View for SaveStep {
    type V = SaveStepModel;

    open spec fn view(&self) -> SaveStepModel {
        match self {
            SaveStep::Flush => SaveStepModel::Flush,
            SaveStep::Probe(n) => SaveStepModel::Probe(n@),
            SaveStep::Rename(n) => SaveStepModel::Rename(n@),
            SaveStep::Prepare => SaveStepModel::Prepare,
            SaveStep::Scale { plan, encoder } => SaveStepModel::Scale {
                plan: plan@,
                encoder: encoder@,
            },
            SaveStep::Replace => SaveStepModel::Replace,
            SaveStep::Discard => SaveStepModel::Discard,
            SaveStep::Size => SaveStepModel::Size,
            SaveStep::Measure { thumbnail, seek_ms } => SaveStepModel::Measure {
                thumbnail: thumbnail@,
                seek_ms: *seek_ms,
            },
            SaveStep::Retry { thumbnail, seek_ms } => SaveStepModel::Retry {
                thumbnail: thumbnail@,
                seek_ms: *seek_ms,
            },
            SaveStep::Insert { name, thumbnail, game, duration_ms, size } => SaveStepModel::Insert {
                name: name@,
                thumbnail: thumbnail@,
                game: game@,
                duration_ms: *duration_ms,
                size: *size,
            },
            SaveStep::Announce => SaveStepModel::Announce,
            SaveStep::Failed(e) => SaveStepModel::Failed(e@),
        }
    }
}

/// The state of the pipeline.
pub struct SaveModel {
    pub phase: SavePhase,
    /// The clip's name, none where it is no text.
    pub name: Option<Seq<char>>,
    /// The names that the index holds.
    pub taken: Seq<Seq<char>>,
    /// The number that is tried.
    pub number: nat,
    pub size: i64,
    pub duration_ms: i64,
}

/// The pipeline that saves a clip.
#[derive(Debug)]
pub struct SavePipeline {
    phase: SavePhase,
    name: Option<String>,
    taken: Vec<String>,
    number: u32,
    size: i64,
    duration_ms: i64,
}

impl View for SavePipeline {
    type V = SaveModel;

    closed spec fn view(&self) -> SaveModel {
        SaveModel {
            phase: self.phase,
            name: opt_text(self.name),
            taken: texts(self.taken@),
            number: self.number as nat,
            size: self.size,
            duration_ms: self.duration_ms,
        }
    }
}

/// Whether the pipeline waits for this event in this phase.
pub open spec fn save_awaits(phase: SavePhase, event: SaveEvent) -> bool {
    match phase {
        SavePhase::Flushing => event is Flushed,
        SavePhase::Probing => event is Probed,
        SavePhase::Renaming => event is Renamed,
        SavePhase::Preparing => event is Prepared,
        SavePhase::Scaling => event is Scaled,
        SavePhase::Replacing => event is Replaced,
        SavePhase::Discarding => event is Discarded,
        SavePhase::Sizing => event is Sized,
        SavePhase::Measuring => event is Measured,
        SavePhase::Retrying => event is Retried,
        SavePhase::Inserting => event is Inserted,
        SavePhase::Ended => false,
    }
}

/// The first number from `n` on whose name the index does not hold.
pub open spec fn next_number(taken: Seq<Seq<char>>, name: Seq<char>, n: nat) -> Option<nat>
    decreases 1000 - n,
{
    if n > LAST_NUMBER {
        None
    } else if taken.contains(numbered(name, n)) {
        next_number(taken, name, n + 1)
    } else {
        Some(n)
    }
}

/// A pipeline that goes on.
pub open spec fn on_to(m: SaveModel, phase: SavePhase, step: SaveStepModel) -> (
    SaveModel,
    SaveStepModel,
) {
    (SaveModel { phase, ..m }, step)
}

/// A pipeline that failed.
pub open spec fn failing(m: SaveModel, why: Seq<char>) -> (SaveModel, SaveStepModel) {
    on_to(m, SavePhase::Ended, SaveStepModel::Failed(why))
}

/// A pipeline that looks for a free name from number `n` on.
pub open spec fn naming(m: SaveModel, n: nat) -> (SaveModel, SaveStepModel) {
    match next_number(m.taken, m.name->0, n) {
        Some(k) => (
            SaveModel { number: k, phase: SavePhase::Probing, ..m },
            SaveStepModel::Probe(numbered(m.name->0, k)),
        ),
        None => failing(m, "cannot find a free clip name"@),
    }
}

/// A pipeline that has all it needs for the index; which game it was is not known.
pub open spec fn indexing(m: SaveModel) -> (SaveModel, SaveStepModel) {
    on_to(
        m,
        SavePhase::Inserting,
        SaveStepModel::Insert {
            name: m.name->0,
            thumbnail: thumbnail_name(m.name->0),
            game: "Unknown"@,
            duration_ms: m.duration_ms,
            size: m.size,
        },
    )
}

/// The pipeline and what it does after an event that it waited for.
pub open spec fn save_after(m: SaveModel, event: SaveEvent) -> (SaveModel, SaveStepModel) {
    match event {
        SaveEvent::Flushed(Err(e)) => failing(m, e@),
        SaveEvent::Flushed(Ok((name, taken))) => {
            let named = SaveModel { name: opt_text(name), taken: texts(taken@), ..m };
            match named.name {
                Some(text) => if named.taken.contains(text) {
                    naming(named, 2)
                } else {
                    on_to(named, SavePhase::Preparing, SaveStepModel::Prepare)
                },
                None => on_to(named, SavePhase::Preparing, SaveStepModel::Prepare),
            }
        },
        SaveEvent::Probed(true) => naming(m, m.number + 1),
        SaveEvent::Probed(false) => on_to(
            m,
            SavePhase::Renaming,
            SaveStepModel::Rename(numbered(m.name->0, m.number)),
        ),
        SaveEvent::Renamed(Err(e)) => failing(m, "cannot dedupe clip name: "@ + e@),
        SaveEvent::Renamed(Ok(_)) => on_to(
            SaveModel { name: Some(numbered(m.name->0, m.number)), ..m },
            SavePhase::Preparing,
            SaveStepModel::Prepare,
        ),
        SaveEvent::Prepared(Err(e)) => failing(m, e@),
        SaveEvent::Prepared(Ok(plan)) => match plan {
            None => on_to(m, SavePhase::Sizing, SaveStepModel::Size),
            Some(p) => match p.encoder {
                Some(encoder) => on_to(
                    m,
                    SavePhase::Scaling,
                    SaveStepModel::Scale { plan: p@, encoder: encoder@ },
                ),
                None => on_to(m, SavePhase::Discarding, SaveStepModel::Discard),
            },
        },
        SaveEvent::Scaled(true) => on_to(m, SavePhase::Replacing, SaveStepModel::Replace),
        SaveEvent::Scaled(false) => on_to(m, SavePhase::Discarding, SaveStepModel::Discard),
        SaveEvent::Replaced(true) => on_to(m, SavePhase::Sizing, SaveStepModel::Size),
        SaveEvent::Replaced(false) => on_to(m, SavePhase::Discarding, SaveStepModel::Discard),
        SaveEvent::Discarded => on_to(m, SavePhase::Sizing, SaveStepModel::Size),
        SaveEvent::Sized(Err(e)) => failing(m, "cannot stat clip: "@ + e@),
        SaveEvent::Sized(Ok(size)) => match m.name {
            Some(text) => on_to(
                SaveModel { size, ..m },
                SavePhase::Measuring,
                SaveStepModel::Measure { thumbnail: thumbnail_name(text), seek_ms: SEEK_MS },
            ),
            None => failing(m, "bad clip file name"@),
        },
        SaveEvent::Measured { probe_ms, thumbnail, buffer_secs } => {
            let duration_ms: i64 = match probe_ms {
                Some(ms) => ms,
                None => (buffer_secs * 1000) as i64,
            };
            let measured = SaveModel { duration_ms, ..m };
            match thumbnail {
                Ok(_) => indexing(measured),
                Err(e) => if duration_ms < SHORT_MS {
                    on_to(
                        measured,
                        SavePhase::Retrying,
                        SaveStepModel::Retry {
                            thumbnail: thumbnail_name(m.name->0),
                            seek_ms: HEAD_SEEK_MS,
                        },
                    )
                } else {
                    failing(measured, e@)
                },
            }
        },
        SaveEvent::Retried(Ok(_)) => indexing(m),
        SaveEvent::Retried(Err(e)) => failing(m, e@),
        SaveEvent::Inserted(Ok(_)) => on_to(m, SavePhase::Ended, SaveStepModel::Announce),
        SaveEvent::Inserted(Err(e)) => failing(m, e@),
    }
}

/// Whether a state of the pipeline can occur.
pub open spec fn save_ok(m: SaveModel) -> bool {
    &&& m.phase == SavePhase::Probing || m.phase == SavePhase::Renaming ==> m.name is Some && 2
        <= m.number <= LAST_NUMBER && !m.taken.contains(numbered(m.name->0, m.number))
    &&& m.phase == SavePhase::Measuring || m.phase == SavePhase::Retrying || m.phase
        == SavePhase::Inserting ==> m.name is Some
    &&& m.phase != SavePhase::Flushing && m.phase != SavePhase::Probing && m.phase
        != SavePhase::Renaming && m.phase != SavePhase::Ended ==> (m.name matches Some(text)
        ==> !m.taken.contains(text))
}

/// A pipeline that has just begun.
pub open spec fn fresh_save(m: SaveModel) -> bool {
    m.phase == SavePhase::Flushing && m.name is None && m.taken.len() == 0
}

proof fn lemma_next_number(taken: Seq<Seq<char>>, name: Seq<char>, n: nat)
    ensures
        next_number(taken, name, n) matches Some(k) ==> n <= k <= LAST_NUMBER && !taken.contains(
            numbered(name, k),
        ) && forall|j: nat| n <= j < k ==> taken.contains(#[trigger] numbered(name, j)),
        next_number(taken, name, n) is None ==> forall|j: nat|
            n <= j <= LAST_NUMBER ==> taken.contains(#[trigger] numbered(name, j)),
    decreases 1000 - n,
{
    if n <= LAST_NUMBER && taken.contains(numbered(name, n)) {
        lemma_next_number(taken, name, n + 1);
    }
}

fn is_taken(taken: &Vec<String>, name: &str) -> (r: bool)
    ensures
        r == texts(taken@).contains(name@),
{
    let ghost t = texts(taken@);
    for i in 0..taken.len()
        invariant
            t == texts(taken@),
            forall|j: int| 0 <= j < i ==> t[j] != name@,
    {
        if same_text(taken[i].as_str(), name) {
            assert(t[i as int] == name@);
            return true;
        }
    }
    false
}

impl SavePipeline {
    /// A pipeline that has just begun, and what it does first: without a
    /// recorder that runs there is nothing to save.
    pub fn begin(running: bool) -> (r: (Self, SaveStep))
        ensures
            save_ok(r.0@),
            running ==> fresh_save(r.0@) && r.1@ == SaveStepModel::Flush,
            !running ==> r.0@.phase == SavePhase::Ended && r.1@ == SaveStepModel::Failed(
                "buffer not running"@,
            ),
    {
        let phase: SavePhase = if running {
            SavePhase::Flushing
        } else {
            SavePhase::Ended
        };
        let pipeline: Self = SavePipeline {
            phase,
            name: None,
            taken: Vec::new(),
            number: 0,
            size: 0,
            duration_ms: 0,
        };
        if running {
            (pipeline, SaveStep::Flush)
        } else {
            (pipeline, SaveStep::Failed("buffer not running".to_owned()))
        }
    }

    /// Whether the pipeline waits for this event.
    pub fn is_awaited(&self, event: &SaveEvent) -> (r: bool)
        ensures
            r == save_awaits(self@.phase, *event),
    {
        match event {
            SaveEvent::Flushed(_) => self.phase == SavePhase::Flushing,
            SaveEvent::Probed(_) => self.phase == SavePhase::Probing,
            SaveEvent::Renamed(_) => self.phase == SavePhase::Renaming,
            SaveEvent::Prepared(_) => self.phase == SavePhase::Preparing,
            SaveEvent::Scaled(_) => self.phase == SavePhase::Scaling,
            SaveEvent::Replaced(_) => self.phase == SavePhase::Replacing,
            SaveEvent::Discarded => self.phase == SavePhase::Discarding,
            SaveEvent::Sized(_) => self.phase == SavePhase::Sizing,
            SaveEvent::Measured { .. } => self.phase == SavePhase::Measuring,
            SaveEvent::Retried(_) => self.phase == SavePhase::Retrying,
            SaveEvent::Inserted(_) => self.phase == SavePhase::Inserting,
        }
    }

    /// The clip's name, where it is a text.
    pub fn file_name(&self) -> (r: Option<&str>)
        ensures
            r is Some <==> self@.name is Some,
            r matches Some(n) ==> self@.name == Some(n@),
    {
        match &self.name {
            Some(n) => Some(n.as_str()),
            None => None,
        }
    }

    fn fail(&mut self, why: String) -> (r: SaveStep)
        ensures
            (final(self)@, r@) == failing(old(self)@, why@),
    {
        self.phase = SavePhase::Ended;
        SaveStep::Failed(why)
    }

    fn fail_with(&mut self, what: &str, why: &str) -> (r: SaveStep)
        ensures
            (final(self)@, r@) == failing(old(self)@, what@ + why@),
    {
        let mut text: String = what.to_owned();
        text.append(why);
        self.fail(text)
    }

    fn clip_name(&self) -> (r: String)
        requires
            self@.name is Some,
        ensures
            r@ == self@.name->0,
    {
        match &self.name {
            Some(n) => n.clone(),
            None => String::new(),
        }
    }

    fn find_name(&mut self, from: u32) -> (r: SaveStep)
        requires
            old(self)@.name is Some,
            from <= LAST_NUMBER + 1,
        ensures
            (final(self)@, r@) == naming(old(self)@, from as nat),
    {
        let name: String = self.clip_name();
        let mut n: u32 = from;
        while n <= LAST_NUMBER
            invariant
                *self == *old(self),
                name@ == self@.name->0,
                n <= LAST_NUMBER + 1,
                next_number(self@.taken, name@, from as nat) == next_number(
                    self@.taken,
                    name@,
                    n as nat,
                ),
            decreases LAST_NUMBER + 1 - n,
        {
            let candidate: String = numbered_name(name.as_str(), n);
            if !is_taken(&self.taken, candidate.as_str()) {
                self.number = n;
                self.phase = SavePhase::Probing;
                return SaveStep::Probe(candidate);
            }
            n = n + 1;
        }
        self.fail("cannot find a free clip name".to_owned())
    }

    fn index(&mut self) -> (r: SaveStep)
        requires
            old(self)@.name is Some,
        ensures
            (final(self)@, r@) == indexing(old(self)@),
    {
        let name: String = self.clip_name();
        let thumbnail: String = thumb_name(name.as_str());
        self.phase = SavePhase::Inserting;
        SaveStep::Insert {
            name,
            thumbnail,
            game: "Unknown".to_owned(),
            duration_ms: self.duration_ms,
            size: self.size,
        }
    }

    fn flushed(&mut self, name: Option<String>, taken: Vec<String>) -> (r: SaveStep)
        requires
            old(self)@.phase == SavePhase::Flushing,
        ensures
            (final(self)@, r@) == save_after(
                old(self)@,
                SaveEvent::Flushed(Ok::<(Option<String>, Vec<String>), String>((name, taken))),
            ),
    {
        let again: bool = match &name {
            Some(n) => is_taken(&taken, n.as_str()),
            None => false,
        };
        self.name = name;
        self.taken = taken;
        if again {
            self.find_name(2)
        } else {
            self.phase = SavePhase::Preparing;
            SaveStep::Prepare
        }
    }

    fn prepared(&mut self, plan: Option<SavePlan>) -> (r: SaveStep)
        requires
            old(self)@.phase == SavePhase::Preparing,
        ensures
            (final(self)@, r@) == save_after(
                old(self)@,
                SaveEvent::Prepared(Ok::<Option<SavePlan>, String>(plan)),
            ),
    {
        match plan {
            None => {
                self.phase = SavePhase::Sizing;
                SaveStep::Size
            },
            Some(p) => {
                let encoder: Option<String> = match &p.encoder {
                    Some(e) => Some(e.clone()),
                    None => None,
                };
                match encoder {
                    Some(encoder) => {
                        self.phase = SavePhase::Scaling;
                        SaveStep::Scale { plan: p, encoder }
                    },
                    None => {
                        self.phase = SavePhase::Discarding;
                        SaveStep::Discard
                    },
                }
            },
        }
    }

    fn measured(
        &mut self,
        probe_ms: Option<i64>,
        thumbnail: Result<(), String>,
        buffer_secs: u32,
    ) -> (r: SaveStep)
        requires
            old(self)@.name is Some,
        ensures
            (final(self)@, r@) == save_after(
                old(self)@,
                SaveEvent::Measured { probe_ms, thumbnail, buffer_secs },
            ),
    {
        let duration_ms: i64 = match probe_ms {
            Some(ms) => ms,
            None => buffer_secs as i64 * 1000,
        };
        self.duration_ms = duration_ms;
        match thumbnail {
            Ok(_) => self.index(),
            Err(e) => if duration_ms < SHORT_MS {
                let name: String = self.clip_name();
                self.phase = SavePhase::Retrying;
                SaveStep::Retry {
                    thumbnail: thumb_name(name.as_str()),
                    seek_ms: HEAD_SEEK_MS,
                }
            } else {
                self.fail(e)
            },
        }
    }

    /// One step: takes the event that the last step brought and gives the next
    /// step.
    pub fn step(&mut self, event: SaveEvent) -> (r: SaveStep)
        requires
            save_ok(old(self)@),
            save_awaits(old(self)@.phase, event),
        ensures
            (final(self)@, r@) == save_after(old(self)@, event),
            save_ok(final(self)@),
    {
        proof {
            law_pipeline_stays_ok(self@, event);
        }
        match event {
            SaveEvent::Flushed(Err(e)) => self.fail(e),
            SaveEvent::Flushed(Ok((name, taken))) => self.flushed(name, taken),
            SaveEvent::Probed(there) => if there {
                self.find_name(self.number + 1)
            } else {
                let name: String = self.clip_name();
                self.phase = SavePhase::Renaming;
                SaveStep::Rename(numbered_name(name.as_str(), self.number))
            },
            SaveEvent::Renamed(Err(e)) => self.fail_with("cannot dedupe clip name: ", e.as_str()),
            SaveEvent::Renamed(Ok(_)) => {
                let name: String = self.clip_name();
                self.name = Some(numbered_name(name.as_str(), self.number));
                self.phase = SavePhase::Preparing;
                SaveStep::Prepare
            },
            SaveEvent::Prepared(Err(e)) => self.fail(e),
            SaveEvent::Prepared(Ok(plan)) => self.prepared(plan),
            SaveEvent::Scaled(done) => if done {
                self.phase = SavePhase::Replacing;
                SaveStep::Replace
            } else {
                self.phase = SavePhase::Discarding;
                SaveStep::Discard
            },
            SaveEvent::Replaced(done) => if done {
                self.phase = SavePhase::Sizing;
                SaveStep::Size
            } else {
                self.phase = SavePhase::Discarding;
                SaveStep::Discard
            },
            SaveEvent::Discarded => {
                self.phase = SavePhase::Sizing;
                SaveStep::Size
            },
            SaveEvent::Sized(Err(e)) => self.fail_with("cannot stat clip: ", e.as_str()),
            SaveEvent::Sized(Ok(size)) => {
                if self.name.is_none() {
                    return self.fail("bad clip file name".to_owned());
                }
                let name: String = self.clip_name();
                self.size = size;
                self.phase = SavePhase::Measuring;
                SaveStep::Measure { thumbnail: thumb_name(name.as_str()), seek_ms: SEEK_MS }
            },
            SaveEvent::Measured { probe_ms, thumbnail, buffer_secs } => self.measured(
                probe_ms,
                thumbnail,
                buffer_secs,
            ),
            SaveEvent::Retried(Ok(_)) => self.index(),
            SaveEvent::Retried(Err(e)) => self.fail(e),
            SaveEvent::Inserted(Ok(_)) => {
                self.phase = SavePhase::Ended;
                SaveStep::Announce
            },
            SaveEvent::Inserted(Err(e)) => self.fail(e),
        }
    }
}

/// Whatever happens, the pipeline stays in a state that can occur; above all the
/// name that it works with is never one that the index holds.
pub proof fn law_pipeline_stays_ok(m: SaveModel, event: SaveEvent)
    requires
        save_ok(m),
        save_awaits(m.phase, event),
    ensures
        save_ok(save_after(m, event).0),
{
    match event {
        SaveEvent::Flushed(Ok((name, taken))) => {
            if name is Some {
                lemma_next_number(texts(taken@), opt_text(name)->0, 2);
            }
        },
        SaveEvent::Probed(_) => {
            lemma_next_number(m.taken, m.name->0, m.number + 1);
        },
        _ => {},
    }
}

/// No clip is lost to a name: the name that is tried is the lowest number whose
/// name the index does not hold, and the save fails on names only when all of
/// them up to the last are used up.
pub proof fn law_lowest_free_number(m: SaveModel, from: nat)
    requires
        m.name is Some,
        from >= 2,
    ensures
        ({
            let (n, step) = naming(m, from);
            &&& step is Probe || step is Failed
            &&& step is Probe ==> from <= n.number <= 999 && forall|j: nat|
                from <= j < n.number ==> m.taken.contains(#[trigger] numbered(m.name->0, j))
            &&& step is Probe ==> step == SaveStepModel::Probe(numbered(m.name->0, n.number))
                && !m.taken.contains(numbered(m.name->0, n.number))
            &&& step is Failed ==> step == SaveStepModel::Failed("cannot find a free clip name"@)
                && forall|j: nat|
                from <= j <= 999 ==> m.taken.contains(#[trigger] numbered(m.name->0, j))
        }),
{
    lemma_next_number(m.taken, m.name->0, from);
}

/// Scaling never costs the clip: whatever comes of it, the save goes on with the
/// file that is there.
pub proof fn law_scaling_never_fails_a_save(m: SaveModel, event: SaveEvent)
    requires
        save_ok(m),
        save_awaits(m.phase, event),
        m.phase == SavePhase::Scaling || m.phase == SavePhase::Replacing || m.phase
            == SavePhase::Discarding,
    ensures
        !(save_after(m, event).1 is Failed),
        save_after(m, event).0.name == m.name,
{
}

/// The index gets a row only after the clip was sized and measured and has its
/// thumbnail, and the clip is announced only once it is in the index.
pub proof fn law_index_comes_last(m: SaveModel, event: SaveEvent)
    requires
        save_ok(m),
        save_awaits(m.phase, event),
    ensures
        save_after(m, event).1 is Insert ==> {
            ||| (event matches SaveEvent::Measured { thumbnail, .. } && thumbnail is Ok)
            ||| (event matches SaveEvent::Retried(thumbnail) && thumbnail is Ok)
        },
        save_after(m, event).1 is Announce ==> (event matches SaveEvent::Inserted(row) && row is Ok),
        save_after(m, event).0.phase == SavePhase::Ended <==> save_after(m, event).1 is Failed
            || save_after(m, event).1 is Announce,
{
}

/// A name that the index does not hold stays; one that it holds is numbered from 2
/// on, and from the next number on where that one is on disk. A name that is no text
/// cannot be held.
pub proof fn law_only_taken_names_are_numbered(
    m: SaveModel,
    name: Option<String>,
    taken: Vec<String>,
    k: nat,
)
    ensures
        ({
            let (n, step) = save_after(m, SaveEvent::Flushed(Ok((name, taken))));
            let held = exists|i: int|
                0 <= i < taken@.len() && name is Some && (#[trigger] taken@[i])@ == name->0@;
            &&& n.name == opt_text(name)
            &&& !held ==> step is Prepare && n.phase == SavePhase::Preparing
            &&& held ==> step is Probe || step is Failed
            &&& held && step is Probe ==> 2 <= n.number <= 999 && step == SaveStepModel::Probe(
                numbered(name->0@, n.number),
            )
            &&& held && step is Probe && 2 <= k < n.number ==> texts(taken@).contains(
                numbered(name->0@, k),
            )
        }),
        m.phase == SavePhase::Probing && m.name is Some ==> {
            let (n, step) = save_after(m, SaveEvent::Probed(true));
            &&& step is Probe ==> n.number > m.number && n.name == m.name
            &&& step is Probe && m.number < k < n.number ==> m.taken.contains(
                numbered(m.name->0, k),
            )
            &&& save_after(m, SaveEvent::Probed(false)).1 == SaveStepModel::Rename(
                numbered(m.name->0, m.number),
            )
        },
{
    let t = texts(taken@);
    if name is Some {
        lemma_next_number(t, name->0@, 2);
        if t.contains(name->0@) {
            let i = choose|i: int| 0 <= i < t.len() && t[i] == name->0@;
            assert(taken@[i]@ == name->0@);
        }
        if exists|i: int|
            0 <= i < taken@.len() && name is Some && (#[trigger] taken@[i])@ == name->0@ {
            let i = choose|i: int| 0 <= i < taken@.len() && (#[trigger] taken@[i])@ == name->0@;
            assert(t[i] == name->0@);
        }
    }
    if m.name is Some {
        lemma_next_number(m.taken, m.name->0, m.number + 1);
    }
}

/// A clip that was renamed goes on under the name that it was given.
pub proof fn law_renamed_clips_keep_the_new_name(m: SaveModel, ok: (), e: String)
    requires
        save_ok(m),
        m.phase == SavePhase::Renaming,
    ensures
        ({
            let (n, step) = save_after(m, SaveEvent::Renamed(Ok::<(), String>(ok)));
            n.name == Some(numbered(m.name->0, m.number)) && step is Prepare
        }),
        save_after(m, SaveEvent::Renamed(Err::<(), String>(e))).1 == SaveStepModel::Failed(
            "cannot dedupe clip name: "@ + e@,
        ),
{
}

/// A clip is scaled exactly where there is a plan and an encoder for it; the scaled
/// file takes its place once that worked, and is removed wherever it did not.
pub proof fn law_when_a_clip_is_scaled(m: SaveModel, plan: Option<SavePlan>)
    ensures
        ({
            let step = save_after(m, SaveEvent::Prepared(Ok::<Option<SavePlan>, String>(plan))).1;
            &&& plan is None ==> step is Size
            &&& plan is Some && plan->0.encoder is None ==> step is Discard
            &&& plan is Some && plan->0.encoder is Some ==> step == (SaveStepModel::Scale {
                plan: plan->0@,
                encoder: plan->0.encoder->0@,
            })
        }),
        save_after(m, SaveEvent::Scaled(true)).1 is Replace,
        save_after(m, SaveEvent::Scaled(false)).1 is Discard,
        save_after(m, SaveEvent::Replaced(true)).1 is Size,
        save_after(m, SaveEvent::Replaced(false)).1 is Discard,
        save_after(m, SaveEvent::Discarded).1 is Size,
{
}

/// The index gets the clip as it is: the name it has, its thumbnail, the size that was
/// read, and the duration that was measured, or the whole buffer length where it could
/// not be.
pub proof fn law_index_gets_the_clip_as_it_is(
    m: SaveModel,
    size: i64,
    probe_ms: Option<i64>,
    buffer_secs: u32,
    name: Seq<char>,
    ok: (),
)
    requires
        m.name == Some(name),
    ensures
        ({
            let (sized, step) = save_after(m, SaveEvent::Sized(Ok::<i64, String>(size)));
            let (measured, insert) = save_after(
                sized,
                SaveEvent::Measured { probe_ms, thumbnail: Ok::<(), String>(ok), buffer_secs },
            );
            &&& step == (SaveStepModel::Measure {
                thumbnail: thumbnail_name(name),
                seek_ms: 1000,
            })
            &&& insert is Insert
            &&& insert->Insert_name == name
            &&& insert->Insert_thumbnail == thumbnail_name(name)
            &&& insert->game == "Unknown"@
            &&& insert->size == size
            &&& probe_ms matches Some(ms) ==> insert->duration_ms == ms
            &&& probe_ms is None ==> insert->duration_ms == buffer_secs * 1000
        }),
{
}

/// A thumbnail that failed is taken again, from near the head, where the clip is
/// shorter than a second and a half; then the clip goes into the index with what was
/// measured. Elsewhere, and where it fails again, the save fails with that reason.
pub proof fn law_short_clips_get_a_second_try(
    m: SaveModel,
    ms: i64,
    buffer_secs: u32,
    e: String,
    ok: (),
)
    requires
        m.name is Some,
    ensures
        ({
            let (n, step) = save_after(
                m,
                SaveEvent::Measured {
                    probe_ms: Some(ms),
                    thumbnail: Err::<(), String>(e),
                    buffer_secs,
                },
            );
            let (_, again) = save_after(n, SaveEvent::Retried(Ok::<(), String>(ok)));
            &&& ms < 1500 ==> step == (SaveStepModel::Retry {
                thumbnail: thumbnail_name(m.name->0),
                seek_ms: 50,
            })
            &&& ms >= 1500 ==> step == SaveStepModel::Failed(e@)
            &&& again is Insert && again->duration_ms == ms && again->size == m.size
                && again->Insert_name == m.name->0
            &&& save_after(n, SaveEvent::Retried(Err::<(), String>(e))).1 == SaveStepModel::Failed(
                e@,
            )
        }),
{
}

/// Every other step that fails ends the save with its own reason.
pub proof fn law_save_says_why_it_failed(m: SaveModel, e: String, size: i64)
    ensures
        save_after(
            m,
            SaveEvent::Flushed(Err::<(Option<String>, Vec<String>), String>(e)),
        ).1 == SaveStepModel::Failed(e@),
        save_after(m, SaveEvent::Prepared(Err::<Option<SavePlan>, String>(e))).1
            == SaveStepModel::Failed(e@),
        save_after(m, SaveEvent::Sized(Err::<i64, String>(e))).1 == SaveStepModel::Failed(
            "cannot stat clip: "@ + e@,
        ),
        m.name is None ==> save_after(m, SaveEvent::Sized(Ok::<i64, String>(size))).1
            == SaveStepModel::Failed("bad clip file name"@),
        save_after(m, SaveEvent::Inserted(Err::<(), String>(e))).1 == SaveStepModel::Failed(e@),
{
}

/// Each step waits for its own event, and a save that is over waits for none.
pub proof fn law_steps_of_a_save(m: SaveModel, event: SaveEvent)
    requires
        save_ok(m),
        save_awaits(m.phase, event),
    ensures
        ({
            let (n, step) = save_after(m, event);
            &&& step is Probe <==> n.phase == SavePhase::Probing
            &&& step is Rename <==> n.phase == SavePhase::Renaming
            &&& step is Prepare <==> n.phase == SavePhase::Preparing
            &&& step is Scale <==> n.phase == SavePhase::Scaling
            &&& step is Replace <==> n.phase == SavePhase::Replacing
            &&& step is Discard <==> n.phase == SavePhase::Discarding
            &&& step is Size <==> n.phase == SavePhase::Sizing
            &&& step is Measure <==> n.phase == SavePhase::Measuring
            &&& step is Retry <==> n.phase == SavePhase::Retrying
            &&& step is Insert <==> n.phase == SavePhase::Inserting
            &&& (event matches SaveEvent::Inserted(row) ==> (row is Ok <==> step is Announce))
            &&& !(event is Flushed) ==> n.taken == m.taken
            &&& !(event is Flushed) && !(event is Renamed) ==> n.name == m.name
            &&& !(event is Sized) ==> n.size == m.size
            &&& !(event is Measured) ==> n.duration_ms == m.duration_ms
        }),
{
}

} // verus!

//! The cache layer as a machine of requests and answers.
//!
//! The glyph of a host is kept in one file, so that it is worked out once.
//! What is done to that file is the caller's part; what follows from each
//! answer is decided here. A [`Resolver`] is at every moment one request to
//! the caller, or the outcome. The caller carries the request out, reports
//! what came of it as an [`Event`], and gets the next request from
//! [`Resolver::advance`].

use crate::error::{CacheOp, Failure, FontLogoError};
use crate::resolve::{font_logo, get_font_logo, outcome_view};
use vstd::prelude::*;

verus! {

/// The name of the cache file below the cache directory.
pub const CACHE_FILE: &'static str = "font_logo";

/// Where a resolution stands: what the caller is asked to do next, or how it
/// ended.
#[derive(Debug, PartialEq, Eq)]
pub enum Resolver {
    /// Say whether the cache file exists.
    CheckCache,
    /// Read the cache file as text.
    ReadCache,
    /// Get the name of the host's distribution.
    FetchName,
    /// Create the directories above the cache file, where they are missing.
    /// The glyph is found and will be written next.
    CreateDir { glyph: String },
    /// Write the glyph as the whole content of the cache file.
    WriteCache { glyph: String },
    /// Nothing is left to do.
    Done { outcome: Result<String, FontLogoError> },
}

/// What came of a request.
#[derive(Debug, Clone, PartialEq, Eq)]
pub enum Event {
    /// There is no cache file.
    CacheAbsent,
    /// There is a cache file.
    CachePresent,
    /// The cache file was read and held this text.
    CacheText { text: String },
    /// The host's distribution goes by this name.
    Name { name: String },
    /// The directories are there, or the file is written.
    Completed,
    /// The file system refused, with this account of it.
    Failed { cause: String },
}

/// A [`Resolver`] with its strings as sequences of characters.
pub enum Stage {
    CheckCache,
    ReadCache,
    FetchName,
    CreateDir { glyph: Seq<char> },
    WriteCache { glyph: Seq<char> },
    Done { outcome: Result<Seq<char>, Failure> },
}

/// An [`Event`] with its strings as sequences of characters.
pub enum Answer {
    CacheAbsent,
    CachePresent,
    CacheText { text: Seq<char> },
    Name { name: Seq<char> },
    Completed,
    Failed { cause: Seq<char> },
}

impl View for Resolver {
    type V = Stage;

    open spec fn view(&self) -> Stage {
        match self {
            Resolver::CheckCache => Stage::CheckCache,
            Resolver::ReadCache => Stage::ReadCache,
            Resolver::FetchName => Stage::FetchName,
            Resolver::CreateDir { glyph } => Stage::CreateDir { glyph: glyph@ },
            Resolver::WriteCache { glyph } => Stage::WriteCache { glyph: glyph@ },
            Resolver::Done { outcome } => Stage::Done { outcome: outcome_view(*outcome) },
        }
    }
}

impl View for Event {
    type V = Answer;

    open spec fn view(&self) -> Answer {
        match self {
            Event::CacheAbsent => Answer::CacheAbsent,
            Event::CachePresent => Answer::CachePresent,
            Event::CacheText { text } => Answer::CacheText { text: text@ },
            Event::Name { name } => Answer::Name { name: name@ },
            Event::Completed => Answer::Completed,
            Event::Failed { cause } => Answer::Failed { cause: cause@ },
        }
    }
}

/// The stage that ends a resolution with a refusal of the file system.
pub open spec fn refused(op: CacheOp, cause: Seq<char>) -> Stage {
    Stage::Done { outcome: Err(Failure::CacheIo { op, cause }) }
}

/// The stage that follows `stage` on `answer`, with the icon table in
/// `source`. An answer that does not belong to the request changes nothing.
pub open spec fn step(stage: Stage, answer: Answer, source: Seq<char>) -> Stage {
    match (stage, answer) {
        (Stage::CheckCache, Answer::CachePresent) => Stage::ReadCache,
        (Stage::CheckCache, Answer::CacheAbsent) => Stage::FetchName,
        (Stage::CheckCache, Answer::Failed { cause }) => refused(CacheOp::Read, cause),
        (Stage::ReadCache, Answer::CacheText { text }) => Stage::Done { outcome: Ok(text) },
        (Stage::ReadCache, Answer::Failed { cause }) => refused(CacheOp::Read, cause),
        (Stage::FetchName, Answer::Name { name }) => match font_logo(source, name) {
            Ok(glyph) => Stage::CreateDir { glyph },
            Err(failure) => Stage::Done { outcome: Err(failure) },
        },
        (Stage::CreateDir { glyph }, Answer::Completed) => Stage::WriteCache { glyph },
        (Stage::CreateDir { glyph }, Answer::Failed { cause }) => refused(
            CacheOp::CreateDir,
            cause,
        ),
        (Stage::WriteCache { glyph }, Answer::Completed) => Stage::Done { outcome: Ok(glyph) },
        (Stage::WriteCache { glyph }, Answer::Failed { cause }) => refused(CacheOp::Write, cause),
        (stage, _) => stage,
    }
}

/// What an environment that refuses nothing answers to the request of
/// `stage`, where `slot` is the text of the cache file, if there is one, and
/// `name` the name of the host's distribution.
pub open spec fn faultless_answer(stage: Stage, slot: Option<Seq<char>>, name: Seq<char>) -> Answer {
    match stage {
        Stage::CheckCache => if slot is Some {
            Answer::CachePresent
        } else {
            Answer::CacheAbsent
        },
        Stage::ReadCache => match slot {
            Some(text) => Answer::CacheText { text },
            None => Answer::Failed { cause: Seq::empty() },
        },
        Stage::FetchName => Answer::Name { name },
        Stage::CreateDir { glyph } => Answer::Completed,
        Stage::WriteCache { glyph } => Answer::Completed,
        Stage::Done { outcome } => Answer::Completed,
    }
}

/// The cache file after the request of `stage` was carried out.
pub open spec fn slot_after(stage: Stage, slot: Option<Seq<char>>) -> Option<Seq<char>> {
    match stage {
        Stage::WriteCache { glyph } => Some(glyph),
        _ => slot,
    }
}

/// The stage and the cache file after at most `steps` requests were carried
/// out by an environment that refuses nothing.
pub open spec fn run(
    stage: Stage,
    slot: Option<Seq<char>>,
    source: Seq<char>,
    name: Seq<char>,
    steps: nat,
) -> (Stage, Option<Seq<char>>)
    decreases steps,
{
    if steps == 0 || stage is Done {
        (stage, slot)
    } else {
        run(
            step(stage, faultless_answer(stage, slot, name), source),
            slot_after(stage, slot),
            source,
            name,
            (steps - 1) as nat,
        )
    }
}

/// A whole resolution in an environment that refuses nothing: the last stage,
/// and the cache file as it is left.
pub open spec fn session(slot: Option<Seq<char>>, source: Seq<char>, name: Seq<char>) -> (
    Stage,
    Option<Seq<char>>,
) {
    run(Stage::CheckCache, slot, source, name, 4)
}

/// A resolution ends after at most four requests. With a cache file the
/// outcome is its text, whatever the table and the name are, and the file stays
/// as it is. Without one the outcome is that of resolving the name; a glyph
/// that was found is then the content of the cache file, and a failure leaves
/// no file.
pub proof fn lemma_session(slot: Option<Seq<char>>, source: Seq<char>, name: Seq<char>)
    ensures
        session(slot, source, name) == match slot {
            Some(text) => (Stage::Done { outcome: Ok(text) }, slot),
            None => match font_logo(source, name) {
                Ok(glyph) => (Stage::Done { outcome: Ok(glyph) }, Some(glyph)),
                Err(failure) => (Stage::Done { outcome: Err(failure) }, None),
            },
        },
{
    reveal_with_fuel(run, 5);
}

/// What one resolution found, every later one returns: after a resolution
/// that ended with a glyph, a resolution over the cache file that it left ends
/// with the same glyph and leaves the file as it is, for every table, also one
/// that does not parse, and every name.
pub proof fn lemma_cache_short_circuit(
    slot: Option<Seq<char>>,
    source: Seq<char>,
    name: Seq<char>,
    later_source: Seq<char>,
    later_name: Seq<char>,
)
    requires
        session(slot, source, name).0 matches Stage::Done { outcome: Ok(glyph) },
    ensures
        session(session(slot, source, name).1, later_source, later_name) == (
            session(slot, source, name).0,
            session(slot, source, name).1,
        ),
        session(slot, source, name).0 == (Stage::Done {
            outcome: Ok(session(slot, source, name).1->0),
        }),
{
    lemma_session(slot, source, name);
    lemma_session(session(slot, source, name).1, later_source, later_name);
}

/// The stage asks for something to be done to the cache file.
pub open spec fn touches_cache(stage: Stage) -> bool {
    stage is CheckCache || stage is ReadCache || stage is CreateDir || stage is WriteCache
}

/// The operation on the cache that the stage asks for.
pub open spec fn cache_op(stage: Stage) -> CacheOp {
    match stage {
        Stage::CreateDir { glyph } => CacheOp::CreateDir,
        Stage::WriteCache { glyph } => CacheOp::Write,
        _ => CacheOp::Read,
    }
}

/// A refusal of the file system is never passed over: at every stage that
/// touches the cache it ends the resolution with a failure that names the
/// operation and carries the cause. So a glyph that could not be stored is not
/// returned as if it had been.
pub proof fn lemma_refusal_surfaces(stage: Stage, cause: Seq<char>, source: Seq<char>)
    requires
        touches_cache(stage),
    ensures
        step(stage, Answer::Failed { cause }, source) == refused(cache_op(stage), cause),
{
}

/// An outcome is final: no answer changes a resolution that is done.
pub proof fn lemma_done_is_final(stage: Stage, answer: Answer, source: Seq<char>)
    requires
        stage is Done,
    ensures
        step(stage, answer, source) == stage,
{
}

impl Resolver {
    /// A resolution at its beginning: the cache is looked at first.
    pub fn start() -> (r: Resolver)
        ensures
            r@ == Stage::CheckCache,
    {
        Resolver::CheckCache
    }

    /// Takes what came of the pending request and gives the next one.
    ///
    /// A cache file that exists is read and its text is the outcome, whatever
    /// it holds. Without one the name is asked for and resolved against the
    /// table in `source`; the glyph is then written to the cache before it is
    /// the outcome. A refusal of the file system ends the resolution with
    /// [`FontLogoError::CacheIo`], also when the glyph is already known.
    pub fn advance(self, event: Event, source: &str) -> (next: Resolver)
        ensures
            next@ == step(self@, event@, source@),
    {
        match self {
            Resolver::CheckCache => match event {
                Event::CachePresent => Resolver::ReadCache,
                Event::CacheAbsent => Resolver::FetchName,
                Event::Failed { cause } => Resolver::Done {
                    outcome: Err(FontLogoError::CacheIo { op: CacheOp::Read, cause }),
                },
                _ => Resolver::CheckCache,
            },
            Resolver::ReadCache => match event {
                Event::CacheText { text } => Resolver::Done { outcome: Ok(text) },
                Event::Failed { cause } => Resolver::Done {
                    outcome: Err(FontLogoError::CacheIo { op: CacheOp::Read, cause }),
                },
                _ => Resolver::ReadCache,
            },
            Resolver::FetchName => match event {
                Event::Name { name } => match get_font_logo(source, name.as_str()) {
                    Ok(glyph) => Resolver::CreateDir { glyph },
                    Err(e) => Resolver::Done { outcome: Err(e) },
                },
                _ => Resolver::FetchName,
            },
            Resolver::CreateDir { glyph } => match event {
                Event::Completed => Resolver::WriteCache { glyph },
                Event::Failed { cause } => Resolver::Done {
                    outcome: Err(FontLogoError::CacheIo { op: CacheOp::CreateDir, cause }),
                },
                _ => Resolver::CreateDir { glyph },
            },
            Resolver::WriteCache { glyph } => match event {
                Event::Completed => Resolver::Done { outcome: Ok(glyph) },
                Event::Failed { cause } => Resolver::Done {
                    outcome: Err(FontLogoError::CacheIo { op: CacheOp::Write, cause }),
                },
                _ => Resolver::WriteCache { glyph },
            },
            Resolver::Done { outcome } => Resolver::Done { outcome },
        }
    }
}

} // verus!

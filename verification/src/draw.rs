//! The consistency checks the draw-call issuer must enforce over a
//! composed sequence of vertex sources, and the conditions under which a
//! draw is aborted.
//!
//! The instance-count check is unconditional: every per-instance source
//! must report the same count. The vertex-count check applies only to
//! unindexed drawing: without indices, every per-vertex source must report
//! the same count. A marker source contributes its declared length without
//! needing a real buffer, and a draw whose only per-vertex entries are
//! markers is legal.

use vstd::prelude::*;

use crate::program::Program;
use crate::source::VerticesSource;
use crate::transform_feedback::TransformFeedbackSession;

verus! {

/// Why a draw call is aborted. All of these are recoverable, reported
/// conditions: the draw issues no partial GPU work.
#[derive(Clone, Copy, Debug, PartialEq, Eq, Structural)]
pub enum DrawError {
    /// Unindexed draw where the per-vertex sources disagree in count.
    VerticesSourcesLengthMismatch,
    /// The per-instance sources disagree in count.
    InstancesCountMismatch,
    /// The draw references a transform-feedback session created with a
    /// different program.
    TransformFeedbackProgramMismatch,
}

/// Whether the sequence holds at least one source whose per-instance flag
/// equals `per_instance`.
pub open spec fn has_source_kind<'a>(ss: Seq<VerticesSource<'a>>, per_instance: bool) -> bool {
    exists|i: int| 0 <= i < ss.len() && (#[trigger] ss[i]).spec_per_instance() == per_instance
}

/// Whether all sources whose per-instance flag equals `per_instance`
/// report the same count.
pub open spec fn counts_agree<'a>(ss: Seq<VerticesSource<'a>>, per_instance: bool) -> bool {
    forall|i: int, j: int|
        0 <= i < ss.len() && 0 <= j < ss.len() && (#[trigger] ss[i]).spec_per_instance()
            == per_instance && (#[trigger] ss[j]).spec_per_instance() == per_instance
            ==> ss[i].spec_count() == ss[j].spec_count()
}

/// Whether every per-instance source reports the same instance count.
pub open spec fn instance_counts_agree<'a>(ss: Seq<VerticesSource<'a>>) -> bool {
    counts_agree(ss, true)
}

/// Whether every per-vertex source reports the same vertex count.
pub open spec fn vertex_counts_agree<'a>(ss: Seq<VerticesSource<'a>>) -> bool {
    counts_agree(ss, false)
}

/// The number of instances the composed sources ask to draw: `Ok(Some(n))`
/// when some source is per-instance and every per-instance source reports
/// `n`; `Ok(None)` when no source is per-instance; the instance-mismatch
/// condition as soon as two per-instance sources disagree.
pub fn instances_count<'a>(sources: &Vec<VerticesSource<'a>>) -> (r: Result<
    Option<usize>,
    DrawError,
>)
    ensures
        match r {
            Result::Ok(found) => instance_counts_agree(sources@) && match found {
                Option::Some(n) => has_source_kind(sources@, true) && forall|i: int|
                    0 <= i < sources@.len() && (#[trigger] sources@[i]).spec_per_instance()
                        ==> sources@[i].spec_count() == n,
                Option::None => !has_source_kind(sources@, true),
            },
            Result::Err(e) => e == DrawError::InstancesCountMismatch && !instance_counts_agree(
                sources@,
            ),
        },
{
    let mut i: usize = 0;
    let mut found: Option<usize> = None;
    while i < sources.len()
        invariant
            0 <= i <= sources@.len(),
            match found {
                Option::Some(n) => (exists|j: int|
                    0 <= j < i && (#[trigger] sources@[j]).spec_per_instance()
                        && sources@[j].spec_count() == n) && forall|j: int|
                    0 <= j < i && (#[trigger] sources@[j]).spec_per_instance()
                        ==> sources@[j].spec_count() == n,
                Option::None => forall|j: int|
                    0 <= j < i ==> !(#[trigger] sources@[j]).spec_per_instance(),
            },
        decreases sources@.len() - i,
    {
        let s = &sources[i];
        if s.is_per_instance() {
            let c = s.count();
            match found {
                Some(n) => {
                    if n != c {
                        proof {
                            let j = choose|j: int|
                                0 <= j < i && (#[trigger] sources@[j]).spec_per_instance()
                                    && sources@[j].spec_count() == n;
                            assert(sources@[j].spec_count() != sources@[i as int].spec_count());
                            assert(!instance_counts_agree(sources@));
                        }
                        return Err(DrawError::InstancesCountMismatch);
                    }
                },
                None => {
                    found = Some(c);
                },
            }
        }
        i = i + 1;
    }
    Ok(found)
}

/// The number of vertices the composed sources ask to draw without
/// indices: `Ok(Some(n))` when some source is per-vertex and every
/// per-vertex source reports `n`; `Ok(None)` when no source is per-vertex;
/// the length-mismatch condition as soon as two per-vertex sources
/// disagree.
pub fn vertices_count<'a>(sources: &Vec<VerticesSource<'a>>) -> (r: Result<
    Option<usize>,
    DrawError,
>)
    ensures
        match r {
            Result::Ok(found) => vertex_counts_agree(sources@) && match found {
                Option::Some(n) => has_source_kind(sources@, false) && forall|i: int|
                    0 <= i < sources@.len() && !(#[trigger] sources@[i]).spec_per_instance()
                        ==> sources@[i].spec_count() == n,
                Option::None => !has_source_kind(sources@, false),
            },
            Result::Err(e) => e == DrawError::VerticesSourcesLengthMismatch && !vertex_counts_agree(
                sources@,
            ),
        },
{
    let mut i: usize = 0;
    let mut found: Option<usize> = None;
    while i < sources.len()
        invariant
            0 <= i <= sources@.len(),
            match found {
                Option::Some(n) => (exists|j: int|
                    0 <= j < i && !(#[trigger] sources@[j]).spec_per_instance()
                        && sources@[j].spec_count() == n) && forall|j: int|
                    0 <= j < i && !(#[trigger] sources@[j]).spec_per_instance()
                        ==> sources@[j].spec_count() == n,
                Option::None => forall|j: int|
                    0 <= j < i ==> (#[trigger] sources@[j]).spec_per_instance(),
            },
        decreases sources@.len() - i,
    {
        let s = &sources[i];
        if !s.is_per_instance() {
            let c = s.count();
            match found {
                Some(n) => {
                    if n != c {
                        proof {
                            let j = choose|j: int|
                                0 <= j < i && !(#[trigger] sources@[j]).spec_per_instance()
                                    && sources@[j].spec_count() == n;
                            assert(sources@[j].spec_count() != sources@[i as int].spec_count());
                            assert(!vertex_counts_agree(sources@));
                        }
                        return Err(DrawError::VerticesSourcesLengthMismatch);
                    }
                },
                None => {
                    found = Some(c);
                },
            }
        }
        i = i + 1;
    }
    Ok(found)
}

/// Checks the composed sources for one draw call. The instance-count check
/// runs in all situations; the vertex-count check runs only when the draw
/// is unindexed. The instance check is reported first when both fail.
pub fn validate_vertices_sources<'a>(sources: &Vec<VerticesSource<'a>>, indexed: bool) -> (r:
    Result<(), DrawError>)
    ensures
        (r is Ok) <==> (instance_counts_agree(sources@) && (indexed || vertex_counts_agree(
            sources@,
        ))),
        r == Err::<(), DrawError>(DrawError::InstancesCountMismatch) <==> !instance_counts_agree(
            sources@,
        ),
        r == Err::<(), DrawError>(DrawError::VerticesSourcesLengthMismatch) <==> (
        instance_counts_agree(sources@) && !indexed && !vertex_counts_agree(sources@)),
{
    match instances_count(sources) {
        Err(e) => {
            return Err(e);
        },
        Ok(_) => {},
    }
    if !indexed {
        match vertices_count(sources) {
            Err(e) => {
                return Err(e);
            },
            Ok(_) => {},
        }
    }
    Ok(())
}

/// Whether the draw's program is acceptable for the session it references:
/// no session, or a session created with that very program.
pub open spec fn session_program_matches<'a>(
    session: Option<&'a TransformFeedbackSession>,
    program: Program,
) -> bool {
    match session {
        Option::Some(s) => s.spec_program_id() == program.id,
        Option::None => true,
    }
}

/// Runs every draw-time check of this layer: the unconditional
/// instance-count check, the vertex-count check when the draw is
/// unindexed, and — when the draw records into a transform-feedback
/// session — that the session was created with the very program that is
/// drawing. Count mismatches are reported before a program mismatch.
pub fn validate_draw<'a>(
    sources: &Vec<VerticesSource<'a>>,
    indexed: bool,
    program: &Program,
    session: Option<&TransformFeedbackSession>,
) -> (r: Result<(), DrawError>)
    ensures
        (r is Ok) <==> (instance_counts_agree(sources@) && (indexed || vertex_counts_agree(
            sources@,
        )) && session_program_matches(session, *program)),
        r == Err::<(), DrawError>(DrawError::InstancesCountMismatch) <==> !instance_counts_agree(
            sources@,
        ),
        r == Err::<(), DrawError>(DrawError::VerticesSourcesLengthMismatch) <==> (
        instance_counts_agree(sources@) && !indexed && !vertex_counts_agree(sources@)),
        r == Err::<(), DrawError>(DrawError::TransformFeedbackProgramMismatch) <==> (
        instance_counts_agree(sources@) && (indexed || vertex_counts_agree(sources@))
            && !session_program_matches(session, *program)),
{
    match validate_vertices_sources(sources, indexed) {
        Err(e) => {
            return Err(e);
        },
        Ok(_) => {},
    }
    match session {
        Some(s) => {
            if s.program_id() != program.id {
                return Err(DrawError::TransformFeedbackProgramMismatch);
            }
        },
        None => {},
    }
    Ok(())
}

} // verus!

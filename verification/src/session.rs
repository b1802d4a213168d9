//! The one draw that follows a registration, as a sequence of steps. The
//! session says which step is due; the caller performs it against the GL
//! context and reports how it went. A step that fails ends the draw: the
//! caller is told to abort.

use vstd::prelude::*;

verus! {

/// One step of the draw.
#[derive(Clone, Copy, Debug, PartialEq, Eq, Structural)]
pub enum DrawStep {
    /// Create the display on the registered surface context.
    CreateDisplay,
    /// Upload the three vertices of the triangle.
    BuildVertexBuffer,
    /// Upload the three indices of the triangle.
    BuildIndexBuffer,
    /// Compile and link the program, in the first shader version that fits.
    CompileProgram,
    /// Take a frame from the display.
    BeginFrame,
    /// Clear the frame to the background colour.
    ClearColor,
    /// Draw the triangle into the frame.
    DrawTriangle,
    /// Submit the frame.
    FinishFrame,
}

/// What the caller is to do next.
#[derive(Clone, Copy, Debug, PartialEq, Eq, Structural)]
pub enum Directive {
    /// Perform this step and report its outcome.
    Perform(DrawStep),
    /// Every step was performed: there is nothing more to draw.
    Finished,
    /// This step failed: end the program.
    Abort(DrawStep),
}

/// How far a draw has come.
pub struct Progress {
    /// The number of steps performed with success.
    pub completed: nat,
    /// Whether the step after those has failed.
    pub failed: bool,
}

/// The number of steps in the draw.
pub const SCRIPT_LEN: usize = 8;

/// The steps of the draw, in the order in which they are performed.
pub open spec fn draw_script() -> Seq<DrawStep> {
    seq![
        DrawStep::CreateDisplay,
        DrawStep::BuildVertexBuffer,
        DrawStep::BuildIndexBuffer,
        DrawStep::CompileProgram,
        DrawStep::BeginFrame,
        DrawStep::ClearColor,
        DrawStep::DrawTriangle,
        DrawStep::FinishFrame,
    ]
}

/// The indices of the triangle's corners in the vertex buffer.
pub open spec fn triangle_index_list() -> Seq<u16> {
    seq![0u16, 1u16, 2u16]
}

/// What is due at a given progress.
pub open spec fn directive_at(progress: Progress) -> Directive {
    if progress.completed >= draw_script().len() {
        Directive::Finished
    } else if progress.failed {
        Directive::Abort(draw_script()[progress.completed as int])
    } else {
        Directive::Perform(draw_script()[progress.completed as int])
    }
}

/// The progress after the outcome of the step that was due. Once the draw is
/// finished or has failed, a report changes nothing.
pub open spec fn advance(progress: Progress, succeeded: bool) -> Progress {
    if progress.completed >= draw_script().len() || progress.failed {
        progress
    } else if succeeded {
        Progress { completed: progress.completed + 1, failed: false }
    } else {
        Progress { completed: progress.completed, failed: true }
    }
}

/// The progress of a new session after the given outcomes, reported in order.
pub open spec fn run(outcomes: Seq<bool>) -> Progress
    decreases outcomes.len(),
{
    if outcomes.len() == 0 {
        Progress { completed: 0, failed: false }
    } else {
        advance(run(outcomes.drop_last()), outcomes.last())
    }
}

/// The number of steps handed out for performing at a given progress: those
/// that succeeded and, where one failed, that one.
pub open spec fn attempted(progress: Progress) -> nat {
    if progress.failed {
        progress.completed + 1
    } else {
        progress.completed
    }
}

/// The steps that a new session hands out for performing, in order, while the
/// given outcomes are reported to it.
pub open spec fn performed(outcomes: Seq<bool>) -> Seq<DrawStep>
    decreases outcomes.len(),
{
    if outcomes.len() == 0 {
        Seq::<DrawStep>::empty()
    } else {
        match directive_at(run(outcomes.drop_last())) {
            Directive::Perform(step) => performed(outcomes.drop_last()).push(step),
            _ => performed(outcomes.drop_last()),
        }
    }
}

/// The step at a place in the script, if the script is that long.
pub fn step_at(index: usize) -> (step: Option<DrawStep>)
    ensures
        index < draw_script().len() ==> step == Some(draw_script()[index as int]),
        index >= draw_script().len() ==> step is None,
{
    match index {
        0 => Some(DrawStep::CreateDisplay),
        1 => Some(DrawStep::BuildVertexBuffer),
        2 => Some(DrawStep::BuildIndexBuffer),
        3 => Some(DrawStep::CompileProgram),
        4 => Some(DrawStep::BeginFrame),
        5 => Some(DrawStep::ClearColor),
        6 => Some(DrawStep::DrawTriangle),
        7 => Some(DrawStep::FinishFrame),
        _ => None,
    }
}

/// The indices of the triangle, for the index buffer.
pub fn triangle_indices() -> (indices: Vec<u16>)
    ensures
        indices@ == triangle_index_list(),
{
    let indices: Vec<u16> = vec![0u16, 1u16, 2u16];
    assert(indices@ =~= triangle_index_list());
    indices
}

/// One draw in progress.
#[derive(Clone, Copy, Debug, PartialEq, Eq)]
pub struct DrawSession {
    completed: usize,
    failed: bool,
}

impl View for DrawSession {
    type V = Progress;

    closed spec fn view(&self) -> Progress {
        Progress { completed: self.completed as nat, failed: self.failed }
    }
}

impl DrawSession {
    #[verifier::type_invariant]
    spec fn within_script(self) -> bool {
        self.completed <= draw_script().len()
    }

    /// A session with no step performed yet.
    pub fn new() -> (session: DrawSession)
        ensures
            session@ == run(Seq::<bool>::empty()),
            session@.completed == 0,
            !session@.failed,
    {
        DrawSession { completed: 0, failed: false }
    }

    /// What the caller is to do next.
    pub fn next(&self) -> (directive: Directive)
        ensures
            directive == directive_at(self@),
    {
        match step_at(self.completed) {
            None => Directive::Finished,
            Some(step) => if self.failed {
                Directive::Abort(step)
            } else {
                Directive::Perform(step)
            },
        }
    }

    /// Whether every step was performed.
    pub fn is_finished(&self) -> (finished: bool)
        ensures
            finished == (directive_at(self@) == Directive::Finished),
            finished == (self@.completed == draw_script().len()),
    {
        proof {
            use_type_invariant(self);
        }
        self.completed == SCRIPT_LEN
    }

    /// Takes the outcome of the step that was due.
    pub fn report(&mut self, succeeded: bool)
        ensures
            final(self)@ == advance(old(self)@, succeeded),
    {
        proof {
            use_type_invariant(&*self);
        }
        if self.completed < SCRIPT_LEN && !self.failed {
            if succeeded {
                self.completed = self.completed + 1;
            } else {
                self.failed = true;
            }
        }
    }
}

/// No run goes through the script more than once: the steps performed are
/// never more than the script holds, nor more than the outcomes reported.
pub proof fn lemma_run_stays_within_script(outcomes: Seq<bool>)
    ensures
        run(outcomes).completed <= draw_script().len(),
        run(outcomes).completed <= outcomes.len(),
    decreases outcomes.len(),
{
    if outcomes.len() > 0 {
        lemma_run_stays_within_script(outcomes.drop_last());
    }
}

/// One more outcome takes a run one report further.
pub proof fn lemma_run_push(outcomes: Seq<bool>, succeeded: bool)
    ensures
        run(outcomes.push(succeeded)) == advance(run(outcomes), succeeded),
{
    assert(outcomes.push(succeeded).drop_last() =~= outcomes);
}

/// Whatever is reported, the steps performed are the script from its start,
/// as far as the draw has come: no step is performed twice, none out of its
/// turn, and none after the last.
pub proof fn lemma_performed_is_script_prefix(outcomes: Seq<bool>)
    ensures
        attempted(run(outcomes)) <= draw_script().len(),
        performed(outcomes) == draw_script().take(attempted(run(outcomes)) as int),
    decreases outcomes.len(),
{
    if outcomes.len() == 0 {
        assert(performed(outcomes) =~= draw_script().take(0));
    } else {
        let before = outcomes.drop_last();
        lemma_performed_is_script_prefix(before);
        let at = run(before);
        match directive_at(at) {
            Directive::Perform(step) => {
                assert(draw_script().take(at.completed as int).push(step)
                    =~= draw_script().take(at.completed as int + 1));
            },
            _ => {},
        }
        assert(performed(outcomes) =~= draw_script().take(attempted(run(outcomes)) as int));
    }
}

/// A draw in which every step succeeds performs the whole script, once.
pub proof fn lemma_complete_run_performs_script(outcomes: Seq<bool>)
    requires
        forall|i: int| 0 <= i < outcomes.len() ==> outcomes[i],
        outcomes.len() >= draw_script().len(),
    ensures
        performed(outcomes) == draw_script(),
{
    lemma_run_of_successes(outcomes);
    lemma_performed_is_script_prefix(outcomes);
    lemma_run_stays_within_script(outcomes);
    assert(draw_script().take(draw_script().len() as int) =~= draw_script());
}

/// Where every step succeeds, each report performs one step until the script
/// is through; from then on the draw is finished, whatever is reported.
pub proof fn lemma_run_of_successes(outcomes: Seq<bool>)
    requires
        forall|i: int| 0 <= i < outcomes.len() ==> outcomes[i],
    ensures
        !run(outcomes).failed,
        outcomes.len() <= draw_script().len() ==> run(outcomes).completed == outcomes.len(),
        outcomes.len() >= draw_script().len() ==> directive_at(run(outcomes))
            == Directive::Finished,
    decreases outcomes.len(),
{
    if outcomes.len() > 0 {
        lemma_run_of_successes(outcomes.drop_last());
    }
}

/// A finished draw stays finished: no report brings a step back.
pub proof fn lemma_finished_is_final(progress: Progress, succeeded: bool)
    requires
        directive_at(progress) == Directive::Finished,
    ensures
        advance(progress, succeeded) == progress,
        directive_at(advance(progress, succeeded)) == Directive::Finished,
{
}

/// A failed draw stays failed at the step that failed.
pub proof fn lemma_abort_is_final(progress: Progress, succeeded: bool)
    requires
        directive_at(progress) is Abort,
    ensures
        advance(progress, succeeded) == progress,
{
}

/// The script clears, draws and submits once each, in that order, as its last
/// three steps.
pub proof fn lemma_script_submits_once()
    ensures
        draw_script().len() == SCRIPT_LEN,
        forall|i: int|
            0 <= i < draw_script().len() ==> (draw_script()[i] == DrawStep::ClearColor <==> i
                == 5),
        forall|i: int|
            0 <= i < draw_script().len() ==> (draw_script()[i] == DrawStep::DrawTriangle <==> i
                == 6),
        forall|i: int|
            0 <= i < draw_script().len() ==> (draw_script()[i] == DrawStep::FinishFrame <==> i
                == 7),
{
}

} // verus!

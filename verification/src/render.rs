//! The course of a render: the path of one ray through its bounces, the
//! scanlines of one sample pass, and the steps of a pass between the polls
//! of the cancellation flag.

use vstd::prelude::*;
use crate::util::{Color, Ray};

verus! {

/// The seed of the first sample pass; pass `s` is seeded with this plus `s`.
pub const BASE_SEED: u64 = 232008239771;

/// The bit pattern of 0.001: a hit counts from there on, so that a scattered
/// ray does not hit the surface that it leaves.
pub const NEAREST_BITS: u64 = 0x3f50_624d_d2f1_a9fc;

/// The bit pattern of 1000.0: a hit counts up to there.
pub const FARTHEST_BITS: u64 = 0x408f_4000_0000_0000;

/// What a ray met: nothing, a surface that absorbed it, or a surface that
/// sent it on, with the given attenuation, as the given ray.
#[derive(Clone, Copy, Debug, PartialEq, Eq, Structural)]
pub enum Bounce {
    Miss,
    Absorbed,
    Scattered(Color, Ray),
}

/// How a path ended. Only `Background` brings light: the other two are black.
#[derive(Clone, Copy, Debug, PartialEq, Eq, Structural)]
pub enum PathEnd {
    /// The bounce budget ran out.
    Exhausted,
    /// The ray left the scene.
    Background,
    /// A surface absorbed the ray.
    Absorbed,
}

/// A path as a mathematical value: the ray that it has come to, the bounces
/// that are left to it, the attenuations that it has gathered, first bounce
/// first, and how it ended, if it has.
pub struct PathState {
    pub ray: Ray,
    pub budget: nat,
    pub attenuation: Seq<Color>,
    pub end: Option<PathEnd>,
}

/// The path of a ray that may bounce `depth` times: with no budget at all it
/// has ended before it began.
pub open spec fn path_start(ray: Ray, depth: nat) -> PathState {
    PathState {
        ray,
        budget: depth,
        attenuation: Seq::empty(),
        end: if depth == 0 {
            Some(PathEnd::Exhausted)
        } else {
            None
        },
    }
}

/// The path after one more bounce. A path that has ended stays as it is.
pub open spec fn path_step(state: PathState, bounce: Bounce) -> PathState {
    if state.end is Some || state.budget == 0 {
        state
    } else {
        match bounce {
            Bounce::Miss => PathState { end: Some(PathEnd::Background), ..state },
            Bounce::Absorbed => PathState { end: Some(PathEnd::Absorbed), ..state },
            Bounce::Scattered(color, ray) => PathState {
                ray,
                budget: (state.budget - 1) as nat,
                attenuation: state.attenuation.push(color),
                end: if state.budget == 1 {
                    Some(PathEnd::Exhausted)
                } else {
                    None
                },
            },
        }
    }
}

/// The path after the given bounces, in turn.
pub open spec fn path_after(ray: Ray, depth: nat, bounces: Seq<Bounce>) -> PathState
    decreases bounces.len(),
{
    if bounces.len() == 0 {
        path_start(ray, depth)
    } else {
        path_step(path_after(ray, depth, bounces.drop_last()), bounces.last())
    }
}

/// The path of one ray. Its color is the color of its end, which for the
/// background is the color of the sky where the last ray points, multiplied by
/// the attenuations from the last back to the first.
pub struct Path {
    ray: Ray,
    budget: u32,
    attenuation: Vec<Color>,
    end: Option<PathEnd>,
}

impl View for Path {
    type V = PathState;

    closed spec fn view(&self) -> PathState {
        PathState {
            ray: self.ray,
            budget: self.budget as nat,
            attenuation: self.attenuation@,
            end: self.end,
        }
    }
}

impl Path {
    /// The path of a ray that may bounce `depth` times.
    pub fn new(ray: Ray, depth: u32) -> (path: Path)
        ensures
            path@ == path_start(ray, depth as nat),
    {
        Path {
            ray,
            budget: depth,
            attenuation: Vec::new(),
            end: if depth == 0 {
                Some(PathEnd::Exhausted)
            } else {
                None
            },
        }
    }

    /// The ray that the path has come to: the one to follow next, or the last
    /// one where the path has ended.
    pub fn ray(&self) -> (ray: Ray)
        ensures
            ray == self@.ray,
    {
        self.ray
    }

    /// How the path ended; nothing while the ray is still to be followed.
    pub fn end(&self) -> (end: Option<PathEnd>)
        ensures
            end == self@.end,
    {
        self.end
    }

    /// The attenuations gathered so far, first bounce first.
    pub fn attenuation(&self) -> (colors: &Vec<Color>)
        ensures
            colors@ == self@.attenuation,
    {
        &self.attenuation
    }

    /// Records what the ray met.
    pub fn bounce(&mut self, bounce: Bounce)
        ensures
            final(self)@ == path_step(old(self)@, bounce),
    {
        if self.end.is_some() || self.budget == 0 {
            return;
        }
        match bounce {
            Bounce::Miss => {
                self.end = Some(PathEnd::Background);
            },
            Bounce::Absorbed => {
                self.end = Some(PathEnd::Absorbed);
            },
            Bounce::Scattered(color, ray) => {
                self.ray = ray;
                self.attenuation.push(color);
                self.budget = self.budget - 1;
                if self.budget == 0 {
                    self.end = Some(PathEnd::Exhausted);
                }
            },
        }
    }
}

/// A ray that misses every primitive shows the background where it points,
/// with nothing taken from it.
pub proof fn lemma_miss_shows_background(ray: Ray, depth: nat)
    requires
        depth > 0,
    ensures
        path_step(path_start(ray, depth), Bounce::Miss).end == Some(PathEnd::Background),
        path_step(path_start(ray, depth), Bounce::Miss).ray == ray,
        path_step(path_start(ray, depth), Bounce::Miss).attenuation == Seq::<Color>::empty(),
{
}

/// Whatever a path meets, it scatters at most `depth` times; it goes on
/// exactly while it has not ended, and then budget is left to it; and once the
/// whole budget is spent it has ended exhausted.
pub proof fn lemma_path_is_bounded(ray: Ray, depth: nat, bounces: Seq<Bounce>)
    ensures
        path_after(ray, depth, bounces).attenuation.len() + path_after(ray, depth, bounces).budget
            == depth,
        path_after(ray, depth, bounces).end is None ==> path_after(ray, depth, bounces).budget > 0,
        path_after(ray, depth, bounces).budget == 0 ==> path_after(ray, depth, bounces).end
            == Some(PathEnd::Exhausted),
    decreases bounces.len(),
{
    if bounces.len() > 0 {
        lemma_path_is_bounded(ray, depth, bounces.drop_last());
    }
}

/// One scanline of a sample pass: `y` counts from the bottom of the picture,
/// as the camera does, and `row` from the top, as the image is stored.
#[derive(Clone, Copy, Debug, PartialEq, Eq, Structural)]
pub struct Scanline {
    pub y: u32,
    pub row: u32,
}

/// The row of the stored picture that holds scanline `y`: the picture is
/// stored top row first, and the camera counts from the bottom.
pub open spec fn row_of(height: u32, y: u32) -> int {
    height - 1 - y
}

/// The scanline that a sample pass renders next, after `done` scanlines, where
/// `stopped` is the cancellation flag as it was polled after the last of them.
/// A pass renders its scanlines from the bottom up. It always renders the
/// first, and goes on until the picture is full or the flag is found set.
pub open spec fn next_scanline_spec(height: u32, done: u32, stopped: bool) -> Option<Scanline> {
    if done < height && (done == 0 || !stopped) {
        Some(Scanline { y: done, row: row_of(height, done) as u32 })
    } else {
        None
    }
}

/// The scanline that a sample pass renders next.
pub fn next_scanline(height: u32, done: u32, stopped: bool) -> (r: Option<Scanline>)
    ensures
        r == next_scanline_spec(height, done, stopped),
{
    if done < height && (done == 0 || !stopped) {
        Some(Scanline { y: done, row: height - 1 - done })
    } else {
        None
    }
}

/// Turning the picture upside down keeps every scanline inside the picture
/// and is its own inverse, so that every row is filled by one scanline.
pub proof fn lemma_rows_are_flipped(height: u32, y: u32)
    requires
        y < height,
    ensures
        0 <= row_of(height, y) < height,
        row_of(height, row_of(height, y) as u32) == y,
{
}

/// How far a sample pass has come.
#[derive(Clone, Copy, Debug, PartialEq, Eq, Structural)]
pub enum PassPhase {
    /// Nothing done yet.
    Pending,
    /// The sample image is rendered.
    Rendered,
    /// The sample image is added to the sum.
    Accumulated,
    /// The pass is over: reported, or given up.
    Done,
}

/// What a sample pass does next.
#[derive(Clone, Copy, Debug, PartialEq, Eq, Structural)]
pub enum PassAction {
    /// Render one image of the scene, with a random source seeded by `seed`.
    Render { seed: u64 },
    /// Add the rendered image to the sum of the samples.
    Accumulate,
    /// Report one unit of progress.
    Report,
    /// Nothing more.
    Stop,
}

/// One sample pass of a render: one of `samples_per_pixel` images of the
/// scene, which are summed. Before each of its three steps the pass polls the
/// cancellation flag, and gives up once it finds the flag set.
#[derive(Clone, Copy, Debug, PartialEq, Eq, Structural)]
pub struct SamplePass {
    pub index: u32,
    pub phase: PassPhase,
}

impl SamplePass {
    /// The seed of the pass's random source.
    pub open spec fn seed_spec(self) -> u64 {
        (BASE_SEED + self.index) as u64
    }

    /// The pass after a poll of the flag, and what it does next.
    pub open spec fn step(self, stopped: bool) -> (SamplePass, PassAction) {
        if stopped {
            (SamplePass { phase: PassPhase::Done, ..self }, PassAction::Stop)
        } else {
            match self.phase {
                PassPhase::Pending => (
                    SamplePass { phase: PassPhase::Rendered, ..self },
                    PassAction::Render { seed: self.seed_spec() },
                ),
                PassPhase::Rendered => (
                    SamplePass { phase: PassPhase::Accumulated, ..self },
                    PassAction::Accumulate,
                ),
                PassPhase::Accumulated => (
                    SamplePass { phase: PassPhase::Done, ..self },
                    PassAction::Report,
                ),
                PassPhase::Done => (self, PassAction::Stop),
            }
        }
    }

    /// What the pass does, step by step, as the flag is polled with the given
    /// outcomes.
    pub open spec fn actions(self, polls: Seq<bool>) -> Seq<PassAction>
        decreases polls.len(),
    {
        if polls.len() == 0 {
            Seq::empty()
        } else {
            seq![self.step(polls[0]).1] + self.step(polls[0]).0.actions(polls.drop_first())
        }
    }

    /// Sample pass number `index`, with nothing done yet.
    pub fn new(index: u32) -> (pass: SamplePass)
        ensures
            pass == (SamplePass { index, phase: PassPhase::Pending }),
    {
        SamplePass { index, phase: PassPhase::Pending }
    }

    /// The seed of the pass's random source: the same for the same pass in
    /// every render.
    pub fn seed(&self) -> (seed: u64)
        ensures
            seed == self.seed_spec(),
            seed == BASE_SEED + self.index,
    {
        BASE_SEED + self.index as u64
    }

    /// Takes the outcome of a poll of the cancellation flag and says what the
    /// pass does next.
    pub fn next(&mut self, stopped: bool) -> (action: PassAction)
        ensures
            (*final(self), action) == old(self).step(stopped),
    {
        if stopped {
            self.phase = PassPhase::Done;
            return PassAction::Stop;
        }
        match self.phase {
            PassPhase::Pending => {
                self.phase = PassPhase::Rendered;
                PassAction::Render { seed: self.seed() }
            },
            PassPhase::Rendered => {
                self.phase = PassPhase::Accumulated;
                PassAction::Accumulate
            },
            PassPhase::Accumulated => {
                self.phase = PassPhase::Done;
                PassAction::Report
            },
            PassPhase::Done => PassAction::Stop,
        }
    }
}

/// A pass takes one step for each poll: the first follows from the first
/// poll, and the others are the steps of the pass that the first has left.
pub proof fn lemma_actions_unfold(pass: SamplePass, polls: Seq<bool>)
    ensures
        pass.actions(polls).len() == polls.len(),
        polls.len() > 0 ==> pass.actions(polls)[0] == pass.step(polls[0]).1,
        forall|k: int|
            1 <= k < polls.len() ==> #[trigger] pass.actions(polls)[k] == pass.step(
                polls[0],
            ).0.actions(polls.drop_first())[k - 1],
    decreases polls.len(),
{
    if polls.len() > 0 {
        lemma_actions_unfold(pass.step(polls[0]).0, polls.drop_first());
    }
}

/// A pass that is over does nothing more, whatever the flag shows.
pub proof fn lemma_done_pass_stops(pass: SamplePass, polls: Seq<bool>)
    requires
        pass.phase == PassPhase::Done,
    ensures
        pass.actions(polls).len() == polls.len(),
        forall|k: int| 0 <= k < polls.len() ==> pass.actions(polls)[k] == PassAction::Stop,
    decreases polls.len(),
{
    lemma_actions_unfold(pass, polls);
    if polls.len() > 0 {
        lemma_done_pass_stops(pass.step(polls[0]).0, polls.drop_first());
    }
}

/// Cancelled before anything is done: a pass that finds the flag set at its
/// first poll renders nothing and adds nothing to the sum.
pub proof fn lemma_cancelled_pass_adds_nothing(index: u32, polls: Seq<bool>)
    requires
        polls.len() > 0,
        polls[0],
    ensures
        (SamplePass { index, phase: PassPhase::Pending }).actions(polls).len() == polls.len(),
        forall|k: int|
            0 <= k < polls.len() ==> (SamplePass { index, phase: PassPhase::Pending }).actions(
                polls,
            )[k] == PassAction::Stop,
{
    let pass = SamplePass { index, phase: PassPhase::Pending };
    lemma_actions_unfold(pass, polls);
    lemma_done_pass_stops(pass.step(true).0, polls.drop_first());
}

/// A pass adds its image to the sum at its second step and at no other, and
/// only where neither of its first two polls found the flag set.
pub proof fn lemma_pass_adds_once(index: u32, polls: Seq<bool>, k: int)
    requires
        0 <= k < polls.len(),
        (SamplePass { index, phase: PassPhase::Pending }).actions(polls)[k]
            == PassAction::Accumulate,
    ensures
        k == 1,
        !polls[0],
        !polls[1],
{
    let pass = SamplePass { index, phase: PassPhase::Pending };
    let second = pass.step(polls[0]).0;
    let later = polls.drop_first();
    lemma_actions_unfold(pass, polls);
    lemma_actions_unfold(second, later);
    if polls[0] {
        lemma_done_pass_stops(second, later);
    } else if k >= 1 {
        let third = second.step(later[0]).0;
        let later_still = later.drop_first();
        lemma_actions_unfold(third, later_still);
        if later[0] {
            lemma_done_pass_stops(third, later_still);
        } else if k >= 2 {
            let fourth = third.step(later_still[0]).0;
            lemma_done_pass_stops(fourth, later_still.drop_first());
        }
    }
}

/// Not cancelled: a pass whose first three polls find the flag clear renders
/// with its own seed, adds its image and reports, in this order; and the flag
/// has no effect on it afterwards.
pub proof fn lemma_finished_pass_ignores_flag(index: u32, polls: Seq<bool>)
    requires
        polls.len() >= 3,
        !polls[0],
        !polls[1],
        !polls[2],
    ensures
        (SamplePass { index, phase: PassPhase::Pending }).actions(polls).len() == polls.len(),
        (SamplePass { index, phase: PassPhase::Pending }).actions(polls)[0] == (PassAction::Render {
            seed: (BASE_SEED + index) as u64,
        }),
        (SamplePass { index, phase: PassPhase::Pending }).actions(polls)[1]
            == PassAction::Accumulate,
        (SamplePass { index, phase: PassPhase::Pending }).actions(polls)[2] == PassAction::Report,
        forall|k: int|
            3 <= k < polls.len() ==> (SamplePass { index, phase: PassPhase::Pending }).actions(
                polls,
            )[k] == PassAction::Stop,
{
    let pass = SamplePass { index, phase: PassPhase::Pending };
    let second = pass.step(false).0;
    let third = second.step(false).0;
    let fourth = third.step(false).0;
    let later = polls.drop_first();
    let later_still = later.drop_first();
    let last = later_still.drop_first();
    lemma_actions_unfold(pass, polls);
    lemma_actions_unfold(second, later);
    lemma_actions_unfold(third, later_still);
    lemma_done_pass_stops(fourth, last);
}

/// The sample passes of a render, one for each sample of a pixel.
pub fn sample_passes(samples_per_pixel: u32) -> (passes: Vec<SamplePass>)
    ensures
        passes@.len() == samples_per_pixel,
        forall|s: int|
            0 <= s < samples_per_pixel ==> #[trigger] passes@[s] == (SamplePass {
                index: s as u32,
                phase: PassPhase::Pending,
            }),
{
    let mut passes: Vec<SamplePass> = Vec::new();
    let mut s: u32 = 0;
    while s < samples_per_pixel
        invariant
            s <= samples_per_pixel,
            passes@.len() == s,
            forall|k: int|
                0 <= k < s ==> #[trigger] passes@[k] == (SamplePass {
                    index: k as u32,
                    phase: PassPhase::Pending,
                }),
        decreases samples_per_pixel - s,
    {
        passes.push(SamplePass::new(s));
        s += 1;
    }
    passes
}

} // verus!

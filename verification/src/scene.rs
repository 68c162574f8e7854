//! The scene stack and the game's states.
//!
//! A [`Scene`] is one discrete state of the game's top-level state machine:
//! the start screen, the waiting phase, the live target, or the finish
//! screen. Each logical tick the [`SceneStack`] runs the top scene's update
//! against the shared [`Data`] world and an [`InputSnapshot`], receives a
//! [`SceneSwitch`] directive, and applies it atomically; each render frame
//! it asks the top scene for its [`DrawCmd`] list. The transition relation
//! of one tick is written down as [`scene_step`], which every update
//! contract states exactly; random draws appear in it as existentials over
//! the range the generator is asked for.
//!
//! A fresh target's wedge follows the wedge model throughout: both bounds
//! are normalized into `[0°, 360°)`, and a wedge crossing the 0°/360° seam
//! is written `min > max`, so the containment test takes its wrap branch
//! there and a click just across the seam still hits. For these ten-degree
//! wedges the wrap branch's 180° split is exact modular containment.

use crate::rng::gen_range_u32;
use crate::wedge::normalize_angle_mdeg;
use crate::wedge::norm_mdeg;
use crate::wedge::wedge_contains;
use crate::wedge::wedge_hit;
use crate::wedge::MDEG_360;
use vstd::prelude::*;

verus! {

/// Logical ticks per second: the fixed update rate, and the unit the scene
/// timers are written in.
pub const FPS: u32 = 60;

/// Ticks of the first waiting phase (one second).
pub const START_WAIT_TICKS: u32 = 60;

/// Ticks a target stays up (one second).
pub const TARGET_TICKS: u32 = 60;

/// Attempts after which the waiting phase hands over to the finish screen.
pub const ATTEMPT_LIMIT: u32 = 50;

/// Half the angular width of a target wedge, in millidegrees: wedges span
/// ten degrees around a random whole-degree center.
pub const WEDGE_HALF_WIDTH_MDEG: i64 = 5_000;

/// The background cue a waiting phase is drawn with: white after a start or
/// a hit, red after a miss.
#[derive(Clone, Copy, Debug, PartialEq, Eq, Structural)]
pub enum Background {
    White,
    Red,
}

/// The shared world record, read and mutated by whichever scene is on top:
/// the running score, the attempt count, and the edge-detection flag that
/// keeps a held button from counting twice.
#[derive(Clone, Copy, Debug, PartialEq, Eq, Structural)]
pub struct Data {
    pub score: u32,
    pub count: u32,
    pub was_pressed: bool,
}

/// The world a new game starts from.
pub open spec fn initial_data() -> Data {
    Data { score: 0, count: 0, was_pressed: false }
}

impl Default for Data {
    /// Zero score, zero attempts, button not held.
    fn default() -> (d: Data)
        ensures
            d == initial_data(),
    {
        Data { score: 0, count: 0, was_pressed: false }
    }
}

/// What the host sampled for one logical tick: the primary-button press
/// signal, and the pointer's angle around the screen center in
/// millidegrees, as the host's degree-valued arctangent reports it (any
/// value within one full turn of `[0°, 360°)` is accepted and normalized).
#[derive(Clone, Copy, Debug, PartialEq, Eq, Structural)]
pub struct InputSnapshot {
    pub pressed: bool,
    pub cursor_angle_mdeg: i64,
}

impl InputSnapshot {
    /// The angle range the snapshot must stay in.
    pub open spec fn wf(self) -> bool {
        -MDEG_360 <= self.cursor_angle_mdeg < 2 * MDEG_360
    }
}

/// The start screen: waits for the first press.
#[derive(Clone, Copy, Debug, PartialEq, Eq, Structural)]
pub struct Start;

/// The waiting phase between targets: counts its ticks down, then raises a
/// fresh target — or hands over to the finish screen once enough attempts
/// were made.
#[derive(Clone, Copy, Debug, PartialEq, Eq, Structural)]
pub struct Waiting {
    pub ticks: u32,
    pub background: Background,
}

/// The live target: a wedge the player must hit before the timer runs out.
#[derive(Clone, Copy, Debug, PartialEq, Eq, Structural)]
pub struct Target {
    pub ticks: u32,
    pub min: i64,
    pub max: i64,
}

/// The finish screen: shows the result and waits for a press to restart.
#[derive(Clone, Copy, Debug, PartialEq, Eq, Structural)]
pub struct Fin;

/// One discrete state of the game, the tagged sum the scene stack holds.
#[derive(Clone, Copy, Debug, PartialEq, Eq, Structural)]
pub enum Scene {
    Start(Start),
    Waiting(Waiting),
    Target(Target),
    Fin(Fin),
}

impl Scene {
    /// Scenes with a countdown always hold at least one tick, so an update
    /// may decrement without wrapping.
    pub open spec fn wf(self) -> bool {
        match self {
            Scene::Start(_) => true,
            Scene::Waiting(w) => 1 <= w.ticks,
            Scene::Target(t) => 1 <= t.ticks,
            Scene::Fin(_) => true,
        }
    }
}

/// The directive a scene's update returns, applied by the stack exactly
/// once, atomically, before the next tick: hold the stack as it is, replace
/// the top scene, push a new scene above it, or pop it.
#[derive(Clone, Copy, Debug, PartialEq, Eq, Structural)]
pub enum SceneSwitch {
    Hold,
    Replace(Scene),
    Push(Scene),
    Pop,
}

/// An abstract draw intent; the host decides how each is rasterized.
#[derive(Clone, Copy, Debug, PartialEq, Eq, Structural)]
pub enum DrawCmd {
    /// Fill the frame with the waiting phase's cue color.
    ClearBackground(Background),
    /// The running "score / attempts" line, top-left.
    ScoreText { score: u32, count: u32 },
    /// The centered "click to start" prompt.
    StartPrompt,
    /// The target wedge: a filled triangle from the screen center to the rim
    /// at the two bounding angles.
    WedgeTriangle { min_mdeg: i64, max_mdeg: i64 },
    /// The centered final tally, inviting a restart.
    FinPrompt { score: u32, attempts: u32 },
}

/// The waiting scene both the start screen and the finish screen hand over
/// to: a one-second wait on a white background.
pub open spec fn fresh_waiting() -> Scene {
    Scene::Waiting(Waiting { ticks: START_WAIT_TICKS, background: Background::White })
}

/// A target wedge of the fixed width, centered on the whole degree `v`:
/// both bounds normalized into `[0°, 360°)`, so a wedge crossing the
/// 0°/360° seam comes out written `min > max` and wraps.
pub open spec fn centered_target(t: Target, v: int) -> bool {
    &&& t.ticks == TARGET_TICKS
    &&& t.min == norm_mdeg(1000 * v - WEDGE_HALF_WIDTH_MDEG)
    &&& t.max == norm_mdeg(1000 * v + WEDGE_HALF_WIDTH_MDEG)
}

/// The directive a waiting phase expires into: replace the top with a fresh
/// target centered on some uniformly drawn whole degree.
pub open spec fn is_fresh_target(sw: SceneSwitch) -> bool {
    match sw {
        SceneSwitch::Replace(s) => match s {
            Scene::Target(t) => exists|v: int| 0 <= v < 360 && #[trigger] centered_target(t, v),
            _ => false,
        },
        _ => false,
    }
}

/// A waiting phase of `k` half-seconds.
pub open spec fn waiting_round_ticks(w: Waiting, k: int) -> bool {
    w.ticks == k * (FPS as int) / 2
}

/// The directive a target round ends with: replace the top with a waiting
/// phase of one to six random half-seconds, cued with `bg`.
pub open spec fn is_round_waiting(sw: SceneSwitch, bg: Background) -> bool {
    match sw {
        SceneSwitch::Replace(s) => match s {
            Scene::Waiting(w) => {
                &&& w.background == bg
                &&& exists|k: int| 1 <= k <= 6 && #[trigger] waiting_round_ticks(w, k)
            },
            _ => false,
        },
        _ => false,
    }
}

/// The transition relation of one logical update: from the scene `pre` on
/// top of the stack and the world `w0`, under input `inp`, the update turns
/// the scene in place into `post`, leaves the world as `w1`, and returns
/// the directive `sw`. Where a random draw feeds the outcome, the relation
/// holds for exactly the values the generator can return.
pub open spec fn scene_step(
    pre: Scene,
    w0: Data,
    inp: InputSnapshot,
    post: Scene,
    w1: Data,
    sw: SceneSwitch,
) -> bool {
    match pre {
        Scene::Start(_) => {
            &&& post == pre
            &&& w1 == w0
            &&& sw == if inp.pressed {
                SceneSwitch::Replace(fresh_waiting())
            } else {
                SceneSwitch::Hold
            }
        },
        Scene::Waiting(s) => {
            &&& w1 == w0
            &&& if w0.count > ATTEMPT_LIMIT {
                post == pre && sw == SceneSwitch::Replace(Scene::Fin(Fin))
            } else if s.ticks > 1 {
                &&& post == Scene::Waiting(
                    Waiting { ticks: (s.ticks - 1) as u32, background: s.background },
                )
                &&& sw == SceneSwitch::Hold
            } else {
                &&& post == Scene::Waiting(Waiting { ticks: 0, background: s.background })
                &&& is_fresh_target(sw)
            }
        },
        Scene::Target(t) => {
            &&& post == Scene::Target(Target { ticks: (t.ticks - 1) as u32, min: t.min, max: t.max })
            &&& if t.ticks == 1 {
                &&& w1 == Data {
                    score: w0.score,
                    count: (w0.count + 1) as u32,
                    was_pressed: w0.was_pressed,
                }
                &&& is_round_waiting(sw, Background::Red)
            } else if inp.pressed && !w0.was_pressed {
                let hit = wedge_hit(norm_mdeg(inp.cursor_angle_mdeg as int), t.min as int, t.max as int);
                &&& w1 == Data {
                    score: if hit { (w0.score + 1) as u32 } else { w0.score },
                    count: (w0.count + 1) as u32,
                    was_pressed: true,
                }
                &&& is_round_waiting(sw, if hit { Background::White } else { Background::Red })
            } else {
                &&& w1 == Data { score: w0.score, count: w0.count, was_pressed: inp.pressed }
                &&& sw == SceneSwitch::Hold
            }
        },
        Scene::Fin(_) => {
            &&& post == pre
            &&& if inp.pressed {
                &&& w1 == Data { score: 0, count: 0, was_pressed: w0.was_pressed }
                &&& sw == SceneSwitch::Replace(fresh_waiting())
            } else {
                &&& w1 == w0
                &&& sw == SceneSwitch::Hold
            }
        },
    }
}

/// The draw commands one scene issues against one world.
pub open spec fn scene_draw(s: Scene, w: Data) -> Seq<DrawCmd> {
    match s {
        Scene::Start(_) => seq![DrawCmd::StartPrompt],
        Scene::Waiting(wt) => seq![
            DrawCmd::ClearBackground(wt.background),
            DrawCmd::ScoreText { score: w.score, count: w.count },
        ],
        Scene::Target(t) => seq![
            DrawCmd::ScoreText { score: w.score, count: w.count },
            DrawCmd::WedgeTriangle { min_mdeg: t.min, max_mdeg: t.max },
        ],
        Scene::Fin(_) => seq![DrawCmd::FinPrompt { score: w.score, attempts: (w.count - 1) as u32 }],
    }
}

impl Start {
    /// Start screen: a press begins the first waiting phase; anything else
    /// holds.
    pub fn update(&mut self, world: &mut Data, input: &InputSnapshot) -> (sw: SceneSwitch)
        ensures
            scene_step(
                Scene::Start(*old(self)),
                *old(world),
                *input,
                Scene::Start(*final(self)),
                *final(world),
                sw,
            ),
    {
        if input.pressed {
            SceneSwitch::Replace(
                Scene::Waiting(Waiting { ticks: START_WAIT_TICKS, background: Background::White }),
            )
        } else {
            SceneSwitch::Hold
        }
    }

    /// The start prompt.
    pub fn draw(&self, world: &Data) -> (cmds: Vec<DrawCmd>)
        ensures
            cmds@ == scene_draw(Scene::Start(*self), *world),
    {
        let mut cmds: Vec<DrawCmd> = Vec::new();
        cmds.push(DrawCmd::StartPrompt);
        proof {
            assert(cmds@ =~= scene_draw(Scene::Start(*self), *world));
        }
        cmds
    }
}

impl Waiting {
    /// Waiting phase: once the attempt limit is exceeded, hands over to the
    /// finish screen regardless of the timer; otherwise counts down and, on
    /// expiry, raises a fresh target at a random angle.
    pub fn update(&mut self, world: &mut Data, input: &InputSnapshot) -> (sw: SceneSwitch)
        requires
            1 <= old(self).ticks,
        ensures
            scene_step(
                Scene::Waiting(*old(self)),
                *old(world),
                *input,
                Scene::Waiting(*final(self)),
                *final(world),
                sw,
            ),
    {
        if world.count > ATTEMPT_LIMIT {
            return SceneSwitch::Replace(Scene::Fin(Fin));
        }
        self.ticks = self.ticks - 1;
        if self.ticks == 0 {
            let v = gen_range_u32(0, 360);
            let center: i64 = (v as i64) * 1000;
            let fresh = Target {
                ticks: TARGET_TICKS,
                min: normalize_angle_mdeg(center - WEDGE_HALF_WIDTH_MDEG),
                max: normalize_angle_mdeg(center + WEDGE_HALF_WIDTH_MDEG),
            };
            let sw = SceneSwitch::Replace(Scene::Target(fresh));
            proof {
                assert(centered_target(fresh, v as int));
                assert(match sw {
                    SceneSwitch::Replace(Scene::Target(t2)) => t2 == fresh,
                    _ => false,
                });
                assert(is_fresh_target(sw));
            }
            sw
        } else {
            SceneSwitch::Hold
        }
    }

    /// The cue background and the running score line.
    pub fn draw(&self, world: &Data) -> (cmds: Vec<DrawCmd>)
        ensures
            cmds@ == scene_draw(Scene::Waiting(*self), *world),
    {
        let mut cmds: Vec<DrawCmd> = Vec::new();
        cmds.push(DrawCmd::ClearBackground(self.background));
        cmds.push(DrawCmd::ScoreText { score: world.score, count: world.count });
        proof {
            assert(cmds@ =~= scene_draw(Scene::Waiting(*self), *world));
        }
        cmds
    }
}

impl Target {
    /// Target phase: on expiry, counts a miss and falls back to a waiting
    /// phase cued red. On a rising press edge, judges the click against the
    /// wedge — a hit scores — counts the attempt, and falls back to a
    /// waiting phase cued white on a hit, red on a miss. A held button does
    /// not count twice.
    pub fn update(&mut self, world: &mut Data, input: &InputSnapshot) -> (sw: SceneSwitch)
        requires
            1 <= old(self).ticks,
            old(world).count < u32::MAX,
            old(world).score < u32::MAX,
            input.wf(),
        ensures
            scene_step(
                Scene::Target(*old(self)),
                *old(world),
                *input,
                Scene::Target(*final(self)),
                *final(world),
                sw,
            ),
    {
        self.ticks = self.ticks - 1;
        if self.ticks == 0 {
            world.count = world.count + 1;
            let k = gen_range_u32(1, 7);
            let round = Waiting { ticks: k * FPS / 2, background: Background::Red };
            proof {
                assert(waiting_round_ticks(round, k as int));
            }
            SceneSwitch::Replace(Scene::Waiting(round))
        } else {
            let is_pressed = input.pressed;
            if is_pressed && !world.was_pressed {
                world.was_pressed = true;
                let angle = normalize_angle_mdeg(input.cursor_angle_mdeg);
                let hit = wedge_contains(angle, self.min, self.max);
                let background = if hit {
                    Background::White
                } else {
                    Background::Red
                };
                if hit {
                    world.score = world.score + 1;
                }
                world.count = world.count + 1;
                let k = gen_range_u32(1, 7);
                let round = Waiting { ticks: k * FPS / 2, background };
                proof {
                    assert(waiting_round_ticks(round, k as int));
                }
                return SceneSwitch::Replace(Scene::Waiting(round));
            }
            if !is_pressed {
                world.was_pressed = false;
            }
            SceneSwitch::Hold
        }
    }

    /// The running score line and the wedge triangle.
    pub fn draw(&self, world: &Data) -> (cmds: Vec<DrawCmd>)
        ensures
            cmds@ == scene_draw(Scene::Target(*self), *world),
    {
        let mut cmds: Vec<DrawCmd> = Vec::new();
        cmds.push(DrawCmd::ScoreText { score: world.score, count: world.count });
        cmds.push(DrawCmd::WedgeTriangle { min_mdeg: self.min, max_mdeg: self.max });
        proof {
            assert(cmds@ =~= scene_draw(Scene::Target(*self), *world));
        }
        cmds
    }
}

impl Fin {
    /// Finish screen: a press resets the score and the attempt count and
    /// starts over with a waiting phase.
    pub fn update(&mut self, world: &mut Data, input: &InputSnapshot) -> (sw: SceneSwitch)
        ensures
            scene_step(
                Scene::Fin(*old(self)),
                *old(world),
                *input,
                Scene::Fin(*final(self)),
                *final(world),
                sw,
            ),
    {
        if input.pressed {
            world.score = 0;
            world.count = 0;
            SceneSwitch::Replace(
                Scene::Waiting(Waiting { ticks: START_WAIT_TICKS, background: Background::White }),
            )
        } else {
            SceneSwitch::Hold
        }
    }

    /// The final tally. The finish screen is only ever reached after at
    /// least one attempt, so the shown attempt count does not wrap.
    pub fn draw(&self, world: &Data) -> (cmds: Vec<DrawCmd>)
        requires
            1 <= world.count,
        ensures
            cmds@ == scene_draw(Scene::Fin(*self), *world),
    {
        let mut cmds: Vec<DrawCmd> = Vec::new();
        cmds.push(DrawCmd::FinPrompt { score: world.score, attempts: world.count - 1 });
        proof {
            assert(cmds@ =~= scene_draw(Scene::Fin(*self), *world));
        }
        cmds
    }
}

/// What a directive does to the stack, once the top scene has been updated
/// in place to `post`: hold keeps the updated scene, replace swaps it for
/// the new one, push stacks the new one above it, pop removes it.
pub open spec fn apply_switch(scenes: Seq<Scene>, post: Scene, sw: SceneSwitch) -> Seq<Scene> {
    match sw {
        SceneSwitch::Hold => scenes.drop_last().push(post),
        SceneSwitch::Replace(s) => scenes.drop_last().push(s),
        SceneSwitch::Push(s) => scenes.drop_last().push(post).push(s),
        SceneSwitch::Pop => scenes.drop_last(),
    }
}

/// The scene stack: the shared world and the ordered stack of scenes, the
/// last element being the top — the one scene that is updated each tick
/// and drawn each frame.
#[derive(Debug)]
pub struct SceneStack {
    pub world: Data,
    pub scenes: Vec<Scene>,
}

impl SceneStack {
    /// Every held scene keeps its shape.
    pub open spec fn wf(self) -> bool {
        forall|i: int| 0 <= i < self.scenes@.len() ==> (#[trigger] self.scenes@[i]).wf()
    }

    /// An empty stack over a fresh world. The host pushes the initial scene
    /// before the first tick.
    pub fn new() -> (s: SceneStack)
        ensures
            s.wf(),
            s.scenes@.len() == 0,
            s.world == initial_data(),
    {
        SceneStack { world: Data::default(), scenes: Vec::new() }
    }

    /// Places `scene` on top: it becomes the update and draw target.
    pub fn push(&mut self, scene: Scene)
        ensures
            final(self).scenes@ == old(self).scenes@.push(scene),
            final(self).world == old(self).world,
    {
        self.scenes.push(scene);
    }

    /// Removes and returns the top scene. Popping an empty stack is a
    /// programming error, excluded by contract rather than recovered from.
    pub fn pop(&mut self) -> (top: Scene)
        requires
            1 <= old(self).scenes@.len(),
        ensures
            final(self).scenes@ == old(self).scenes@.drop_last(),
            top == old(self).scenes@.last(),
            final(self).world == old(self).world,
    {
        match self.scenes.pop() {
            Option::Some(s) => s,
            Option::None => vstd::pervasive::unreached(),
        }
    }

    /// Pops the current top, if any, and pushes `scene`, as one atomic
    /// directive: no intermediate stack is ever observable.
    pub fn replace(&mut self, scene: Scene)
        ensures
            old(self).scenes@.len() == 0 ==> final(self).scenes@ =~= seq![scene],
            1 <= old(self).scenes@.len() ==> final(self).scenes@ == old(
                self,
            ).scenes@.drop_last().push(scene),
            final(self).world == old(self).world,
    {
        if self.scenes.len() > 0 {
            let _ = self.pop();
        }
        self.push(scene);
    }

    /// One logical tick: runs the top scene's update against the shared
    /// world and the input snapshot, and applies the directive it returned,
    /// strictly after the update has fully run. Old and new state are
    /// related by [`scene_step`] and [`apply_switch`].
    pub fn update(&mut self, input: &InputSnapshot)
        requires
            old(self).wf(),
            1 <= old(self).scenes@.len(),
            old(self).world.count < u32::MAX,
            old(self).world.score < u32::MAX,
            input.wf(),
        ensures
            final(self).wf(),
            exists|post: Scene, sw: SceneSwitch|
                #[trigger] scene_step(
                    old(self).scenes@.last(),
                    old(self).world,
                    *input,
                    post,
                    final(self).world,
                    sw,
                ) && final(self).scenes@ == apply_switch(old(self).scenes@, post, sw),
    {
        let ghost pre_scene = self.scenes@.last();
        let mut top = self.pop();
        let sw = match &mut top {
            Scene::Start(s) => s.update(&mut self.world, input),
            Scene::Waiting(s) => s.update(&mut self.world, input),
            Scene::Target(s) => s.update(&mut self.world, input),
            Scene::Fin(s) => s.update(&mut self.world, input),
        };
        proof {
            assert(scene_step(pre_scene, old(self).world, *input, top, self.world, sw));
        }
        match sw {
            SceneSwitch::Hold => {
                self.push(top);
            },
            SceneSwitch::Replace(s) => {
                self.push(s);
            },
            SceneSwitch::Push(s) => {
                self.push(top);
                self.push(s);
            },
            SceneSwitch::Pop => {},
        }
    }

    /// One render frame: the draw commands of the top scene alone. The
    /// stack is taken by shared reference and the commands are a function
    /// of its state, so repeated draws between ticks return the same
    /// commands and can mutate neither the world nor any scene.
    pub fn draw(&self) -> (cmds: Vec<DrawCmd>)
        requires
            1 <= self.scenes@.len(),
            self.scenes@.last() is Fin ==> 1 <= self.world.count,
        ensures
            cmds@ == scene_draw(self.scenes@.last(), self.world),
    {
        let n = self.scenes.len();
        match &self.scenes[n - 1] {
            Scene::Start(s) => s.draw(&self.world),
            Scene::Waiting(s) => s.draw(&self.world),
            Scene::Target(s) => s.draw(&self.world),
            Scene::Fin(s) => s.draw(&self.world),
        }
    }
}

impl Default for SceneStack {
    /// Same as `SceneStack::new`.
    fn default() -> (s: SceneStack)
        ensures
            s.wf(),
            s.scenes@.len() == 0,
            s.world == initial_data(),
    {
        SceneStack::new()
    }
}

/// The game root: the scene stack, seeded with the start screen.
#[derive(Debug)]
pub struct MyGame {
    pub state: SceneStack,
}

impl MyGame {
    /// A new game: exactly one scene, the start screen, over a fresh world.
    pub fn new() -> (g: MyGame)
        ensures
            g.state.wf(),
            g.state.scenes@ =~= seq![Scene::Start(Start)],
            g.state.world == initial_data(),
    {
        let mut g = MyGame { state: SceneStack::default() };
        g.state.push(Scene::Start(Start));
        g
    }
}

impl Default for MyGame {
    /// Same as `MyGame::new`.
    fn default() -> (g: MyGame)
        ensures
            g.state.wf(),
            g.state.scenes@ =~= seq![Scene::Start(Start)],
            g.state.world == initial_data(),
    {
        MyGame::new()
    }
}

/// Law: a replace directive is atomic. Applied to a non-empty stack it
/// yields a stack of the same depth whose top is exactly the new scene,
/// with every scene below untouched; a draw of the resulting stack renders
/// the new scene alone, so no draw can observe the scene that the replace
/// popped in the same update cycle.
pub proof fn lemma_replace_atomic(scenes: Seq<Scene>, post: Scene, s: Scene, world: Data)
    requires
        1 <= scenes.len(),
    ensures
        apply_switch(scenes, post, SceneSwitch::Replace(s)).len() == scenes.len(),
        apply_switch(scenes, post, SceneSwitch::Replace(s)).last() == s,
        forall|i: int|
            0 <= i < scenes.len() - 1 ==> apply_switch(scenes, post, SceneSwitch::Replace(s))[i]
                == scenes[i],
        scene_draw(apply_switch(scenes, post, SceneSwitch::Replace(s)).last(), world)
            == scene_draw(s, world),
{
}

} // verus!

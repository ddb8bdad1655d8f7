use vstd::prelude::*;

verus! {

/// Window width in pixels.
pub const WIDTH: u32 = 800;
/// Window height in pixels.
pub const HEIGHT: u32 = 600;
/// Half of the paddle's catch width in pixels; also the margin the paddle
/// keeps from either side of the window.
pub const CATCH_HALF_WIDTH: u32 = 35;
/// Leftmost paddle position.
pub const PADDLE_MIN_X: u32 = CATCH_HALF_WIDTH;
/// Rightmost paddle position.
pub const PADDLE_MAX_X: u32 = WIDTH - CATCH_HALF_WIDTH;
/// How far one key press moves the paddle, in pixels.
pub const PADDLE_STEP: u32 = 10;
/// Lives the player starts with, and the cap a green catch cannot exceed.
pub const MAX_LIVES: u8 = 3;

/// The fall speed is a fixed-point number in units of 1/SPEED_SCALE.
pub const SPEED_SCALE: u64 = 1_000_000;
/// A ball falls `fall_speed / FALL_DIVISOR` pixels per tick, i.e. ten times
/// the fall speed, rounded down.
pub const FALL_DIVISOR: u64 = SPEED_SCALE / 10;
/// Each tick adds `dt_micros / RAMP_DIVISOR` to the fall speed, i.e. one
/// hundredth of the elapsed time.
pub const RAMP_DIVISOR: u64 = 100;
/// The fall speed at the start: two tenths.
pub const INITIAL_FALL_SPEED: u64 = SPEED_SCALE / 5;

/// Spawn draws are taken modulo this.
pub const SPAWN_MODULUS: u64 = 10_000;
/// A red ball spawns on a tick with probability 50/10000.
pub const RED_SPAWN_PERMYRIAD: u64 = 50;
/// A green ball spawns on a tick with probability 5/10000.
pub const GREEN_SPAWN_PERMYRIAD: u64 = 5;

/// One falling ball, by its top-left pixel position.
#[derive(Clone, Copy, Debug, PartialEq, Eq, Structural)]
pub struct Ball {
    pub x: u32,
    pub y: u32,
}

/// The two pools of falling balls, each in spawn order.
pub struct Entities {
    pub red_balls: Vec<Ball>,
    pub green_balls: Vec<Ball>,
}

/// The game state: whether the game still runs, the paddle position, the
/// current fall speed (fixed point, units of 1/SPEED_SCALE) and the lives
/// left.
#[derive(Clone, Copy, Debug, PartialEq, Eq, Structural)]
pub struct App {
    pub run: bool,
    pub position: u32,
    pub fall_speed: u64,
    pub lives: u8,
}

/// Where the paddle stands after one step to the left: ten pixels over,
/// clamped at the left bound.
pub open spec fn stepped_left(p: u32) -> u32 {
    if p >= PADDLE_MIN_X + PADDLE_STEP {
        (p - PADDLE_STEP) as u32
    } else {
        PADDLE_MIN_X
    }
}

/// Where the paddle stands after one step to the right: ten pixels over,
/// clamped at the right bound.
pub open spec fn stepped_right(p: u32) -> u32 {
    if p + PADDLE_STEP <= PADDLE_MAX_X {
        (p + PADDLE_STEP) as u32
    } else {
        PADDLE_MAX_X
    }
}

/// A ball after falling `dy` pixels. The vertical position saturates rather
/// than wraps: a saturated ball is far below the window and is culled.
pub open spec fn fallen(b: Ball, dy: u32) -> Ball {
    if b.y + dy > u32::MAX {
        Ball { x: b.x, y: u32::MAX }
    } else {
        Ball { x: b.x, y: (b.y + dy) as u32 }
    }
}

/// A ball the paddle catches: inside the catch zone at the bottom of the
/// window and within the catch width of the paddle.
pub open spec fn is_caught(b: Ball, pos: u32) -> bool {
    &&& b.y > HEIGHT - CATCH_HALF_WIDTH
    &&& pos - CATCH_HALF_WIDTH <= b.x <= pos + CATCH_HALF_WIDTH
}

/// A ball that stays in its pool: not caught, and not yet below the window.
pub open spec fn is_kept(b: Ball, pos: u32) -> bool {
    !is_caught(b, pos) && b.y < HEIGHT
}

/// The pool with the spawned ball appended, where one spawns this tick.
pub open spec fn with_spawn(s: Seq<Ball>, spawn_x: Option<u32>) -> Seq<Ball> {
    match spawn_x {
        Some(x) => s.push(Ball { x, y: 0 }),
        None => s,
    }
}

/// The balls of `s` that are still in the pool after falling `dy` pixels
/// with the paddle at `pos`, in their old order.
pub open spec fn surviving(s: Seq<Ball>, pos: u32, dy: u32) -> Seq<Ball>
    decreases s.len(),
{
    if s.len() == 0 {
        Seq::empty()
    } else {
        let rest = surviving(s.drop_last(), pos, dy);
        let b = fallen(s.last(), dy);
        if is_kept(b, pos) {
            rest.push(b)
        } else {
            rest
        }
    }
}

/// How many balls of `s` the paddle at `pos` catches when they fall `dy`
/// pixels: each caught ball counts exactly once.
pub open spec fn catches(s: Seq<Ball>, pos: u32, dy: u32) -> nat
    decreases s.len(),
{
    if s.len() == 0 {
        0
    } else {
        catches(s.drop_last(), pos, dy) + if is_caught(fallen(s.last(), dy), pos) {
            1nat
        } else {
            0nat
        }
    }
}

/// How many balls of `s` fall out of the window uncaught.
pub open spec fn misses(s: Seq<Ball>, pos: u32, dy: u32) -> nat
    decreases s.len(),
{
    if s.len() == 0 {
        0
    } else {
        misses(s.drop_last(), pos, dy) + if !is_caught(fallen(s.last(), dy), pos) && fallen(
            s.last(),
            dy,
        ).y >= HEIGHT {
            1nat
        } else {
            0nat
        }
    }
}

/// The spawn two random draws decide: when `draw % SPAWN_MODULUS` falls
/// under the threshold, a ball spawns at `xdraw % WIDTH`, at the top.
pub open spec fn spawn_of(draw: u64, xdraw: u64, threshold: u64) -> Option<u32> {
    if draw % SPAWN_MODULUS < threshold {
        Some((xdraw % (WIDTH as u64)) as u32)
    } else {
        None
    }
}

/// Pixels a ball falls in one tick: ten times the fall speed, rounded down,
/// saturating at the largest pixel coordinate.
pub open spec fn dy_of(speed: u64) -> u32 {
    if speed / FALL_DIVISOR > u32::MAX {
        u32::MAX
    } else {
        (speed / FALL_DIVISOR) as u32
    }
}

/// The fall speed after one tick of `dt_micros` microseconds: a hundredth of
/// the elapsed time is added, saturating at the largest representable speed.
pub open spec fn speed_after(speed: u64, dt_micros: u64) -> u64 {
    if speed + dt_micros / RAMP_DIVISOR > u64::MAX {
        u64::MAX
    } else {
        (speed + dt_micros / RAMP_DIVISOR) as u64
    }
}

/// Lives after `hits` red catches: each takes one life, stopping at zero.
pub open spec fn lives_after_red(lives: int, hits: int) -> int {
    if hits >= lives {
        0
    } else {
        lives - hits
    }
}

/// Lives after `hits` green catches: each gives one life while under the
/// cap, and none above it.
pub open spec fn lives_after_green(lives: int, hits: int) -> int {
    if lives + hits >= MAX_LIVES {
        MAX_LIVES as int
    } else {
        lives + hits
    }
}

/// Where the renderer draws the life indicator with index `i`: small squares
/// fifteen pixels apart, starting at x = 15.
pub fn life_marker_x(i: u8) -> (x: u32)
    ensures
        x == 15 + 15 * (i as int),
{
    15 + 15 * (i as u32)
}

/// Relies on rand::random: a draw from the thread-local generator, uniform
/// over all of u64. Nothing is promised of the value.
#[verifier::external_body]
fn random_u64() -> u64 {
    rand::random::<u64>()
}

/// The spawn two draws decide, as executable code.
fn decide_spawn(draw: u64, xdraw: u64, threshold: u64) -> (s: Option<u32>)
    ensures
        s == spawn_of(draw, xdraw, threshold),
{
    if draw % SPAWN_MODULUS < threshold {
        Some((xdraw % (WIDTH as u64)) as u32)
    } else {
        None
    }
}

/// Law: the fall speed never decreases, whatever the tick length.
pub proof fn lemma_speed_never_decreases(speed: u64, dt_micros: u64)
    ensures
        speed_after(speed, dt_micros) >= speed,
{
}

/// Law: one step in either direction keeps the paddle inside its bounds.
pub proof fn lemma_paddle_stays_in_bounds(p: u32)
    requires
        PADDLE_MIN_X <= p <= PADDLE_MAX_X,
    ensures
        PADDLE_MIN_X <= stepped_left(p) <= PADDLE_MAX_X,
        PADDLE_MIN_X <= stepped_right(p) <= PADDLE_MAX_X,
{
}

/// Law: lives never leave [0, MAX_LIVES], whatever a tick's catches.
pub proof fn lemma_lives_stay_bounded(lives: int, red_hits: int, green_hits: int)
    requires
        0 <= lives <= MAX_LIVES,
        red_hits >= 0,
        green_hits >= 0,
    ensures
        0 <= lives_after_green(lives_after_red(lives, red_hits), green_hits) <= MAX_LIVES,
{
}

/// Law: over one tick of a pool every ball has exactly one fate — caught
/// (counted exactly once), fallen out of the window uncaught (not counted),
/// or still in the pool — and every ball still in the pool is uncaught and
/// above the bottom of the window.
pub proof fn lemma_each_ball_one_fate(s: Seq<Ball>, pos: u32, dy: u32)
    ensures
        catches(s, pos, dy) + misses(s, pos, dy) + surviving(s, pos, dy).len() == s.len(),
        forall|j: int|
            0 <= j < surviving(s, pos, dy).len() ==> is_kept(
                #[trigger] surviving(s, pos, dy)[j],
                pos,
            ),
    decreases s.len(),
{
    if s.len() == 0 {
    } else {
        lemma_each_ball_one_fate(s.drop_last(), pos, dy);
    }
}

impl Entities {
    /// Both pools empty.
    pub fn new() -> (e: Entities)
        ensures
            e.red_balls@ == Seq::<Ball>::empty(),
            e.green_balls@ == Seq::<Ball>::empty(),
    {
        Entities { red_balls: Vec::new(), green_balls: Vec::new() }
    }
}

impl App {
    /// The state invariant: the paddle inside its bounds, lives capped, and
    /// at least one life left while the game runs.
    pub open spec fn wf(self) -> bool {
        &&& PADDLE_MIN_X <= self.position <= PADDLE_MAX_X
        &&& self.lives <= MAX_LIVES
        &&& self.run ==> self.lives >= 1
    }

    /// The starting state: running, paddle in the middle, slow fall, full
    /// lives.
    pub fn new() -> (app: App)
        ensures
            app.wf(),
            app.run,
            app.position == WIDTH / 2,
            app.fall_speed == INITIAL_FALL_SPEED,
            app.lives == MAX_LIVES,
    {
        App { run: true, position: WIDTH / 2, fall_speed: INITIAL_FALL_SPEED, lives: MAX_LIVES }
    }

    /// Pixels every ball falls this tick, at the current fall speed.
    pub fn fall_px(&self) -> (dy: u32)
        ensures
            dy == dy_of(self.fall_speed),
    {
        let q = self.fall_speed / FALL_DIVISOR;
        if q > u32::MAX as u64 {
            u32::MAX
        } else {
            q as u32
        }
    }

    /// One tick of one pool: append the spawned ball if one spawns, let every
    /// ball (the spawned one included) fall, remove the caught and the
    /// fallen-out, and report how many the paddle caught.
    pub fn update_balls(&self, balls: &mut Vec<Ball>, spawn_x: Option<u32>) -> (hits: usize)
        requires
            self.wf(),
        ensures
            final(balls)@ == surviving(
                with_spawn(old(balls)@, spawn_x),
                self.position,
                dy_of(self.fall_speed),
            ),
            hits as nat == catches(
                with_spawn(old(balls)@, spawn_x),
                self.position,
                dy_of(self.fall_speed),
            ),
    {
        let dy = self.fall_px();
        if let Some(x) = spawn_x {
            balls.push(Ball { x, y: 0 });
        }
        let ghost s = with_spawn(old(balls)@, spawn_x);
        let mut out: Vec<Ball> = Vec::new();
        let mut hits: usize = 0;
        let mut i: usize = 0;
        while i < balls.len()
            invariant
                balls@ == s,
                i <= s.len(),
                self.wf(),
                dy == dy_of(self.fall_speed),
                out@ == surviving(s.take(i as int), self.position, dy),
                hits as nat == catches(s.take(i as int), self.position, dy),
                hits <= i,
            decreases s.len() - i,
        {
            let b = balls[i];
            let ny = b.y.saturating_add(dy);
            let nb = Ball { x: b.x, y: ny };
            proof {
                assert(nb == fallen(s[i as int], dy));
                assert(s.take(i as int + 1).drop_last() =~= s.take(i as int));
                assert(s.take(i as int + 1).last() == s[i as int]);
            }
            if ny > HEIGHT - CATCH_HALF_WIDTH && b.x >= self.position - CATCH_HALF_WIDTH && b.x
                <= self.position + CATCH_HALF_WIDTH {
                hits = hits + 1;
            } else if ny < HEIGHT {
                out.push(nb);
            }
            i = i + 1;
        }
        proof {
            assert(s.take(s.len() as int) =~= s);
        }
        *balls = out;
        hits
    }

    /// One full tick with the four random draws given by the caller: red
    /// balls first (each catch costs a life; at zero lives the game stops),
    /// then green balls (each catch restores a life while under the cap),
    /// then the speed ramp. A tick after the game has stopped changes
    /// nothing.
    pub fn update_with_draws(
        &mut self,
        entities: &mut Entities,
        dt_micros: u64,
        red_draw: u64,
        red_xdraw: u64,
        green_draw: u64,
        green_xdraw: u64,
    )
        requires
            old(self).wf(),
        ensures
            final(self).wf(),
            final(self).position == old(self).position,
            final(self).fall_speed >= old(self).fall_speed,
            final(self).run ==> old(self).run,
            !old(self).run ==> *final(self) == *old(self) && final(entities).red_balls@ == old(
                entities,
            ).red_balls@ && final(entities).green_balls@ == old(entities).green_balls@,
            old(self).run ==> ({
                let pos = old(self).position;
                let dy = dy_of(old(self).fall_speed);
                let reds = with_spawn(
                    old(entities).red_balls@,
                    spawn_of(red_draw, red_xdraw, RED_SPAWN_PERMYRIAD),
                );
                let greens = with_spawn(
                    old(entities).green_balls@,
                    spawn_of(green_draw, green_xdraw, GREEN_SPAWN_PERMYRIAD),
                );
                &&& final(entities).red_balls@ == surviving(reds, pos, dy)
                &&& final(entities).green_balls@ == surviving(greens, pos, dy)
                &&& final(self).lives as int == lives_after_green(
                    lives_after_red(old(self).lives as int, catches(reds, pos, dy) as int),
                    catches(greens, pos, dy) as int,
                )
                &&& final(self).run == (lives_after_red(
                    old(self).lives as int,
                    catches(reds, pos, dy) as int,
                ) > 0)
                &&& final(self).fall_speed == speed_after(old(self).fall_speed, dt_micros)
            }),
    {
        if !self.run {
            return ;
        }
        let red_spawn = decide_spawn(red_draw, red_xdraw, RED_SPAWN_PERMYRIAD);
        let green_spawn = decide_spawn(green_draw, green_xdraw, GREEN_SPAWN_PERMYRIAD);

        let red_hits = self.update_balls(&mut entities.red_balls, red_spawn);
        if red_hits as u64 >= self.lives as u64 {
            self.lives = 0;
            self.run = false;
        } else {
            self.lives = self.lives - (red_hits as u8);
        }

        let green_hits = self.update_balls(&mut entities.green_balls, green_spawn);
        let deficit = MAX_LIVES - self.lives;
        if green_hits as u64 >= deficit as u64 {
            self.lives = MAX_LIVES;
        } else {
            self.lives = self.lives + (green_hits as u8);
        }

        self.fall_speed = self.fall_speed.saturating_add(dt_micros / RAMP_DIVISOR);
    }

    /// One full tick of the simulation, drawing the spawn randomness from
    /// the thread's generator. Whatever the draws come back as, the state
    /// invariant holds afterwards, the paddle does not move, the fall speed
    /// never drops (and ramps by exactly a hundredth of `dt_micros` while
    /// the game runs), a stopped game never restarts, and a tick after the
    /// game has stopped changes nothing.
    pub fn update(&mut self, entities: &mut Entities, dt_micros: u64)
        requires
            old(self).wf(),
        ensures
            final(self).wf(),
            final(self).position == old(self).position,
            final(self).fall_speed >= old(self).fall_speed,
            final(self).run ==> old(self).run,
            old(self).run ==> final(self).fall_speed == speed_after(
                old(self).fall_speed,
                dt_micros,
            ),
            !old(self).run ==> *final(self) == *old(self) && final(entities).red_balls@ == old(
                entities,
            ).red_balls@ && final(entities).green_balls@ == old(entities).green_balls@,
    {
        let red_draw = random_u64();
        let red_xdraw = random_u64();
        let green_draw = random_u64();
        let green_xdraw = random_u64();
        self.update_with_draws(entities, dt_micros, red_draw, red_xdraw, green_draw, green_xdraw);
    }

    /// Move the paddle one step left, never past the left bound. Nothing
    /// else changes.
    pub fn move_left(&mut self)
        requires
            old(self).wf(),
        ensures
            final(self).wf(),
            final(self).position == stepped_left(old(self).position),
            final(self).run == old(self).run,
            final(self).lives == old(self).lives,
            final(self).fall_speed == old(self).fall_speed,
    {
        if self.position >= PADDLE_MIN_X + PADDLE_STEP {
            self.position = self.position - PADDLE_STEP;
        } else {
            self.position = PADDLE_MIN_X;
        }
    }

    /// Move the paddle one step right, never past the right bound. Nothing
    /// else changes.
    pub fn move_right(&mut self)
        requires
            old(self).wf(),
        ensures
            final(self).wf(),
            final(self).position == stepped_right(old(self).position),
            final(self).run == old(self).run,
            final(self).lives == old(self).lives,
            final(self).fall_speed == old(self).fall_speed,
    {
        if self.position + PADDLE_STEP <= PADDLE_MAX_X {
            self.position = self.position + PADDLE_STEP;
        } else {
            self.position = PADDLE_MAX_X;
        }
    }
}

} // verus!


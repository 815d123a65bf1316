//! The rules of a round: the screens the game moves through, when the bird
//! flaps, how the score and the best score change, and which sprites a round
//! uses.  Positions, speeds and timers are measured by the caller, which hands
//! in what they decide as a `Frame`.
use vstd::prelude::*;
use crate::random::random_index;

verus! {

/// Number of background pictures.
pub const BACKGROUNDS: usize = 2;
/// Number of pipe colours.
pub const PIPE_COLOURS: usize = 2;
/// Number of bird colours.
pub const BIRD_COLOURS: usize = 3;
/// Number of wing pictures in the flapping animation.
pub const WING_FRAMES: usize = 3;

/// The screens of the game, in the order a round goes through them.
#[derive(Clone, Copy, PartialEq, Eq, Structural, Debug)]
pub enum State {
    Intro,
    Menu,
    Transition,
    Ready,
    Playing,
    Dying,
    Over,
}

/// What the caller measured in one frame.
#[derive(Clone, Copy, Debug)]
pub struct Frame {
    /// A mouse button or a touch went down this frame.
    pub press: bool,
    /// The start button of the menu was released over it this frame.
    pub start_clicked: bool,
    /// The intro fade has run its time.
    pub intro_done: bool,
    /// The menu has moved away and the message has blinked its time.
    pub transition_done: bool,
    /// The input lock that follows a screen change has run out.
    pub lock_open: bool,
    /// Pipes whose right edge went past the bird this frame.
    pub newly_passed: u32,
    /// The bird's box meets a pipe.
    pub hit_pipe: bool,
    /// The bird has come down to the ground.
    pub on_ground: bool,
}

/// What a frame changed, for the caller to act on (sounds, timers, motion).
#[derive(Clone, Copy, PartialEq, Eq, Structural, Debug)]
pub enum Outcome {
    /// Nothing changed screens.
    Stay,
    /// Intro to menu.
    ShowMenu,
    /// Menu to transition: the start button was clicked.
    Start,
    /// Transition to the get-ready screen.
    GetReady,
    /// Get-ready to playing: the first flap.
    TakeOff,
    /// Playing to dying: the bird hit a pipe.
    Crash,
    /// To game over, from flight (`from_flight`) or from the fall after a
    /// crash; `new_best` when the score beat the best score.
    Landed { from_flight: bool, new_best: bool },
    /// Game over to get-ready: a new round.
    Restart,
}

/// The rules' view of a game.
pub struct GameView {
    pub state: State,
    pub score: u32,
    pub bg_i: usize,
    pub pipe_i: usize,
    pub bird_i: usize,
}

/// Whether the sprite choices are within the sprite sets.
pub open spec fn sprites_valid(v: GameView) -> bool {
    &&& v.bg_i < BACKGROUNDS
    &&& v.pipe_i < PIPE_COLOURS
    &&& v.bird_i < BIRD_COLOURS
}

/// The screen after a frame.
pub open spec fn next_state(s: State, f: Frame) -> State {
    match s {
        State::Intro => if f.intro_done { State::Menu } else { State::Intro },
        State::Menu => if f.start_clicked { State::Transition } else { State::Menu },
        State::Transition => if f.transition_done { State::Ready } else { State::Transition },
        State::Ready => if f.press && f.lock_open { State::Playing } else { State::Ready },
        State::Playing => if f.hit_pipe {
            State::Dying
        } else if f.on_ground {
            State::Over
        } else {
            State::Playing
        },
        State::Dying => if f.on_ground { State::Over } else { State::Dying },
        State::Over => if f.press && f.lock_open { State::Ready } else { State::Over },
    }
}

/// The score after a frame: pipes count while playing, a new round starts
/// from zero.
pub open spec fn score_after(s: State, score: int, f: Frame) -> int {
    match s {
        State::Playing => score + f.newly_passed,
        State::Over => if f.press && f.lock_open { 0 } else { score },
        _ => score,
    }
}

/// Whether a frame ends in game over.
pub open spec fn lands(s: State, f: Frame) -> bool {
    s != State::Over && next_state(s, f) == State::Over
}

/// The best score after a frame.
pub open spec fn best_after(s: State, score: int, best: int, f: Frame) -> int {
    if lands(s, f) && score_after(s, score, f) > best {
        score_after(s, score, f)
    } else {
        best
    }
}

/// What a frame reports.
pub open spec fn outcome(s: State, score: u32, best: u32, f: Frame) -> Outcome {
    match s {
        State::Intro => if f.intro_done { Outcome::ShowMenu } else { Outcome::Stay },
        State::Menu => if f.start_clicked { Outcome::Start } else { Outcome::Stay },
        State::Transition => if f.transition_done { Outcome::GetReady } else { Outcome::Stay },
        State::Ready => if f.press && f.lock_open { Outcome::TakeOff } else { Outcome::Stay },
        State::Playing => if f.hit_pipe {
            Outcome::Crash
        } else if f.on_ground {
            Outcome::Landed {
                from_flight: true,
                new_best: score_after(s, score as int, f) > best,
            }
        } else {
            Outcome::Stay
        },
        State::Dying => if f.on_ground {
            Outcome::Landed { from_flight: false, new_best: score > best }
        } else {
            Outcome::Stay
        },
        State::Over => if f.press && f.lock_open { Outcome::Restart } else { Outcome::Stay },
    }
}

/// Whether the bird flaps in a frame: on a press while playing, and on the
/// press that starts play on the get-ready screen.
pub open spec fn flaps_spec(s: State, press: bool, lock_open: bool) -> bool {
    (s == State::Ready && press && lock_open) || (s == State::Playing && press)
}

/// Whether screen `b` may directly follow screen `a`.
pub open spec fn follows(a: State, b: State) -> bool {
    match a {
        State::Intro => b == State::Menu,
        State::Menu => b == State::Transition,
        State::Transition => b == State::Ready,
        State::Ready => b == State::Playing,
        State::Playing => b == State::Dying || b == State::Over,
        State::Dying => b == State::Over,
        State::Over => b == State::Ready,
    }
}

/// Law: a frame moves at most one screen along intro, menu, transition,
/// get-ready, playing, (dying,) game over and back to get-ready; it reports
/// `Stay` exactly when the screen does not change.
pub proof fn screens_move_in_order(s: State, score: u32, best: u32, f: Frame)
    ensures
        next_state(s, f) == s || follows(s, next_state(s, f)),
        (outcome(s, score, best, f) == Outcome::Stay) == (next_state(s, f) == s),
{
}

/// Law: the best score never goes down.
pub proof fn best_never_drops(s: State, score: int, best: int, f: Frame)
    ensures
        best_after(s, score, best, f) >= best,
{
}

/// Law: on the game-over screen the best score is at least the score shown;
/// every frame keeps this so.
pub proof fn game_over_shows_best(s: State, score: int, best: int, f: Frame)
    requires
        s == State::Over ==> best >= score,
    ensures
        next_state(s, f) == State::Over ==> best_after(s, score, best, f) >= score_after(
            s,
            score,
            f,
        ),
{
}

/// Law: during a round the score never goes down, and it goes up only by the
/// pipes passed while playing; only a new round sets it back to zero.
pub proof fn score_only_grows_in_a_round(s: State, score: u32, best: u32, f: Frame)
    ensures
        s != State::Over ==> score_after(s, score as int, f) >= score,
        s != State::Playing && s != State::Over ==> score_after(s, score as int, f) == score,
        s == State::Over ==> (score_after(s, score as int, f) == score || score_after(
            s,
            score as int,
            f,
        ) == 0),
        score_after(s, score as int, f) == 0 && score > 0 ==> outcome(s, score, best, f)
            == Outcome::Restart,
{
}

/// Law: on the get-ready screen the bird flaps exactly when play starts.
pub proof fn first_flap_starts_play(press: bool, lock_open: bool, f: Frame)
    requires
        f.press == press,
        f.lock_open == lock_open,
    ensures
        flaps_spec(State::Ready, press, lock_open) == (next_state(State::Ready, f)
            == State::Playing),
{
}

/// Whether a screen is one of those before the first round: intro, menu and
/// transition.
pub open spec fn before_play(s: State) -> bool {
    s == State::Intro || s == State::Menu || s == State::Transition
}

/// The screen after a run of frames.
pub open spec fn run_state(s: State, frames: Seq<Frame>) -> State
    decreases frames.len(),
{
    if frames.len() == 0 {
        s
    } else {
        run_state(next_state(s, frames[0]), frames.drop_first())
    }
}

/// The score after a run of frames.
pub open spec fn run_score(s: State, score: int, frames: Seq<Frame>) -> int
    decreases frames.len(),
{
    if frames.len() == 0 {
        score
    } else {
        run_score(next_state(s, frames[0]), score_after(s, score, frames[0]), frames.drop_first())
    }
}

/// The best score after a run of frames.
pub open spec fn run_best(s: State, score: int, best: int, frames: Seq<Frame>) -> int
    decreases frames.len(),
{
    if frames.len() == 0 {
        best
    } else {
        run_best(
            next_state(s, frames[0]),
            score_after(s, score, frames[0]),
            best_after(s, score, best, frames[0]),
            frames.drop_first(),
        )
    }
}

/// Whether a run of frames starts a new round from game over.
pub open spec fn restarts(s: State, frames: Seq<Frame>) -> bool
    decreases frames.len(),
{
    if frames.len() == 0 {
        false
    } else {
        (s == State::Over && frames[0].press && frames[0].lock_open) || restarts(
            next_state(s, frames[0]),
            frames.drop_first(),
        )
    }
}

/// The pipes passed in the frames of a run that are played.
pub open spec fn points(s: State, frames: Seq<Frame>) -> int
    decreases frames.len(),
{
    if frames.len() == 0 {
        0
    } else {
        (if s == State::Playing { frames[0].newly_passed as int } else { 0 }) + points(
            next_state(s, frames[0]),
            frames.drop_first(),
        )
    }
}

/// Law: once the first round is under way, intro, menu and transition never
/// come back, however many frames follow.
pub proof fn early_screens_never_return(s: State, frames: Seq<Frame>)
    requires
        !before_play(s),
    ensures
        !before_play(run_state(s, frames)),
    decreases frames.len(),
{
    if frames.len() > 0 {
        early_screens_never_return(next_state(s, frames[0]), frames.drop_first());
    }
}

/// Law: over a run of frames without a new round, the score grows by exactly
/// the pipes passed while playing.
pub proof fn round_score_counts_pipes(s: State, score: int, frames: Seq<Frame>)
    requires
        !restarts(s, frames),
    ensures
        run_score(s, score, frames) == score + points(s, frames),
    decreases frames.len(),
{
    if frames.len() > 0 {
        round_score_counts_pipes(
            next_state(s, frames[0]),
            score_after(s, score, frames[0]),
            frames.drop_first(),
        );
    }
}

/// Law: over any run of frames the best score never goes down.
pub proof fn best_never_drops_in_a_run(s: State, score: int, best: int, frames: Seq<Frame>)
    ensures
        run_best(s, score, best, frames) >= best,
    decreases frames.len(),
{
    if frames.len() > 0 {
        best_never_drops(s, score, best, frames[0]);
        best_never_drops_in_a_run(
            next_state(s, frames[0]),
            score_after(s, score, frames[0]),
            best_after(s, score, best, frames[0]),
            frames.drop_first(),
        );
    }
}

/// Law: the frame that ends a round makes the best score the larger of the
/// best score before and the round's final score.
pub proof fn landing_records_best(s: State, score: int, best: int, f: Frame)
    requires
        lands(s, f),
    ensures
        next_state(s, f) == State::Over,
        best_after(s, score, best, f) == if score_after(s, score, f) > best {
            score_after(s, score, f)
        } else {
            best
        },
{
}

/// The frame signal that lets a screen move on, if the screen is left.
pub open spec fn leaves_by(s: State, f: Frame) -> bool {
    match s {
        State::Intro => f.intro_done,
        State::Menu => f.start_clicked,
        State::Transition => f.transition_done,
        State::Ready => f.press && f.lock_open,
        State::Playing => f.hit_pipe || f.on_ground,
        State::Dying => f.on_ground,
        State::Over => f.press && f.lock_open,
    }
}

/// Whether two frames agree on everything that screen `s` reads.
pub open spec fn same_signals(s: State, f: Frame, g: Frame) -> bool {
    match s {
        State::Intro => f.intro_done == g.intro_done,
        State::Menu => f.start_clicked == g.start_clicked,
        State::Transition => f.transition_done == g.transition_done,
        State::Ready => (f.press && f.lock_open) == (g.press && g.lock_open),
        State::Playing => f.hit_pipe == g.hit_pipe && f.on_ground == g.on_ground
            && f.newly_passed == g.newly_passed,
        State::Dying => f.on_ground == g.on_ground,
        State::Over => (f.press && f.lock_open) == (g.press && g.lock_open),
    }
}

/// Law: each screen is left exactly on its own signal: the intro when its
/// fade has run, the menu on a click of the start button (a press anywhere
/// does not count), the transition when its time has run (a press does not
/// cut it short), get-ready and game over on a press with the lock open,
/// playing on a crash or on reaching the ground, dying on reaching the
/// ground.
pub proof fn screens_leave_on_their_signal(s: State, score: u32, best: u32, f: Frame)
    ensures
        (next_state(s, f) != s) == leaves_by(s, f),
        (outcome(s, score, best, f) != Outcome::Stay) == leaves_by(s, f),
{
}

/// Law: a screen reads nothing but its own signals: two frames that agree on
/// them lead to the same screen, score, best score and report, whatever else
/// (presses, clicks, timers of other screens) they differ in.
pub proof fn screens_ignore_other_input(s: State, score: u32, best: u32, f: Frame, g: Frame)
    requires
        same_signals(s, f, g),
    ensures
        next_state(s, f) == next_state(s, g),
        score_after(s, score as int, f) == score_after(s, score as int, g),
        best_after(s, score as int, best as int, f) == best_after(s, score as int, best as int, g),
        outcome(s, score, best, f) == outcome(s, score, best, g),
{
}

/// Law: a round's end reports a new best score exactly when the best score
/// changes, which is exactly when the final score beats the old best; that
/// is when the best score must be saved.
pub proof fn new_best_exactly_when_raised(s: State, score: u32, best: u32, f: Frame)
    ensures
        outcome(s, score, best, f) matches Outcome::Landed { new_best, .. } ==> new_best == (
        best_after(s, score as int, best as int, f) != best),
        outcome(s, score, best, f) matches Outcome::Landed { new_best, .. } ==> new_best == (
        score_after(s, score as int, f) > best),
        (outcome(s, score, best, f) is Landed) == lands(s, f),
{
}

/// Law: the bird flaps only on a press, and only on the get-ready and
/// playing screens: never while it falls after a crash, on game over, or
/// before the first round.
pub proof fn flaps_only_in_flight(s: State, press: bool, lock_open: bool)
    ensures
        flaps_spec(s, press, lock_open) ==> press,
        flaps_spec(s, press, lock_open) ==> s == State::Ready || s == State::Playing,
        s == State::Playing ==> flaps_spec(s, press, lock_open) == press,
{
}

/// The discrete state of a game: its screen, its score and the sprites that
/// the round uses.
pub struct Game {
    state: State,
    score: u32,
    bg_i: usize,
    pipe_i: usize,
    bird_i: usize,
}

impl View for Game {
    type V = GameView;

    closed spec fn view(&self) -> GameView {
        GameView {
            state: self.state,
            score: self.score,
            bg_i: self.bg_i,
            pipe_i: self.pipe_i,
            bird_i: self.bird_i,
        }
    }
}

impl Game {
    #[verifier::type_invariant]
    spec fn sprites_in_range(self) -> bool {
        &&& self.bg_i < BACKGROUNDS
        &&& self.pipe_i < PIPE_COLOURS
        &&& self.bird_i < BIRD_COLOURS
    }

    /// A game on its intro screen with score 0 and the first sprites.
    pub fn new() -> (g: Game)
        ensures
            g@ == (GameView { state: State::Intro, score: 0, bg_i: 0, pipe_i: 0, bird_i: 0 }),
    {
        Game { state: State::Intro, score: 0, bg_i: 0, pipe_i: 0, bird_i: 0 }
    }

    /// The current screen.
    pub fn state(&self) -> (s: State)
        ensures
            s == self@.state,
    {
        self.state
    }

    /// The current score.
    pub fn score(&self) -> (n: u32)
        ensures
            n == self@.score,
    {
        self.score
    }

    /// The background picture of this round.
    pub fn bg_index(&self) -> (i: usize)
        ensures
            i == self@.bg_i,
            i < BACKGROUNDS,
    {
        proof {
            use_type_invariant(self);
        }
        self.bg_i
    }

    /// The pipe colour of this round.
    pub fn pipe_index(&self) -> (i: usize)
        ensures
            i == self@.pipe_i,
            i < PIPE_COLOURS,
    {
        proof {
            use_type_invariant(self);
        }
        self.pipe_i
    }

    /// The bird colour of this round.
    pub fn bird_index(&self) -> (i: usize)
        ensures
            i == self@.bird_i,
            i < BIRD_COLOURS,
    {
        proof {
            use_type_invariant(self);
        }
        self.bird_i
    }

    /// Starts a round: score 0 and a random background, pipe colour and bird
    /// colour.  The screen is left as it is.
    pub fn new_round(&mut self)
        ensures
            final(self)@.state == old(self)@.state,
            final(self)@.score == 0,
            sprites_valid(final(self)@),
    {
        proof {
            use_type_invariant(&*self);
        }
        self.score = 0;
        self.bg_i = random_index(2);
        self.pipe_i = random_index(2);
        self.bird_i = random_index(3);
    }

    /// Ends the round: the screen becomes game over, and the best score is
    /// raised to the score where the score beats it.  Returns whether it was
    /// raised, which is when the best score must be saved.
    pub fn enter_over(&mut self, best: &mut u32) -> (raised: bool)
        ensures
            raised == (old(self)@.score > *old(best)),
            *final(best) == if raised { old(self)@.score } else { *old(best) },
            final(self)@ == (GameView { state: State::Over, ..old(self)@ }),
    {
        proof {
            use_type_invariant(&*self);
        }
        let raised = self.score > *best;
        if raised {
            *best = self.score;
        }
        self.state = State::Over;
        raised
    }

    /// Whether the bird flaps this frame; the caller sets its upward speed
    /// and plays the wing sound before it moves the bird.
    pub fn flaps(&self, press: bool, lock_open: bool) -> (r: bool)
        ensures
            r == flaps_spec(self@.state, press, lock_open),
            r ==> press,
            r ==> self@.state == State::Ready || self@.state == State::Playing,
    {
        match self.state {
            State::Ready => press && lock_open,
            State::Playing => press,
            _ => false,
        }
    }

    /// Which wing picture to draw: the middle one once the bird is down or
    /// falling, else the animation tick taken round the three pictures.
    pub fn wing_frame(&self, tick: usize) -> (i: usize)
        ensures
            i < WING_FRAMES,
            i == if self@.state == State::Dying || self@.state == State::Over {
                1
            } else {
                tick % 3
            },
    {
        if self.state == State::Dying || self.state == State::Over {
            1
        } else {
            tick % 3
        }
    }

    /// Applies one frame's measurements: counts the pipes passed while
    /// playing, moves between screens, ends the round (raising the best
    /// score) when the bird comes down, and starts a new round from game over.
    pub fn step(&mut self, best: &mut u32, f: Frame) -> (out: Outcome)
        requires
            old(self)@.state == State::Playing ==> old(self)@.score + f.newly_passed <= u32::MAX,
        ensures
            final(self)@.state == next_state(old(self)@.state, f),
            final(self)@.score == score_after(old(self)@.state, old(self)@.score as int, f),
            *final(best) == best_after(
                old(self)@.state,
                old(self)@.score as int,
                *old(best) as int,
                f,
            ),
            out == outcome(old(self)@.state, old(self)@.score, *old(best), f),
            out matches Outcome::Landed { new_best, .. } ==> new_best == (*final(best)
                != *old(best)),
            out matches Outcome::Landed { new_best, .. } ==> new_best == (final(self)@.score
                > *old(best)),
            old(self)@.state == State::Menu ==> (final(self)@.state != State::Menu)
                == f.start_clicked,
            old(self)@.state == State::Transition ==> (final(self)@.state != State::Transition)
                == f.transition_done,
            out != Outcome::Restart ==> final(self)@.bg_i == old(self)@.bg_i,
            out != Outcome::Restart ==> final(self)@.pipe_i == old(self)@.pipe_i,
            out != Outcome::Restart ==> final(self)@.bird_i == old(self)@.bird_i,
            sprites_valid(final(self)@),
    {
        proof {
            use_type_invariant(&*self);
        }
        match self.state {
            State::Intro => {
                if f.intro_done {
                    self.state = State::Menu;
                    Outcome::ShowMenu
                } else {
                    Outcome::Stay
                }
            },
            State::Menu => {
                if f.start_clicked {
                    self.state = State::Transition;
                    Outcome::Start
                } else {
                    Outcome::Stay
                }
            },
            State::Transition => {
                if f.transition_done {
                    self.state = State::Ready;
                    Outcome::GetReady
                } else {
                    Outcome::Stay
                }
            },
            State::Ready => {
                if f.press && f.lock_open {
                    self.state = State::Playing;
                    Outcome::TakeOff
                } else {
                    Outcome::Stay
                }
            },
            State::Playing => {
                self.score = self.score + f.newly_passed;
                if f.hit_pipe {
                    self.state = State::Dying;
                    Outcome::Crash
                } else if f.on_ground {
                    let new_best = self.enter_over(best);
                    Outcome::Landed { from_flight: true, new_best }
                } else {
                    Outcome::Stay
                }
            },
            State::Dying => {
                if f.on_ground {
                    let new_best = self.enter_over(best);
                    Outcome::Landed { from_flight: false, new_best }
                } else {
                    Outcome::Stay
                }
            },
            State::Over => {
                if f.press && f.lock_open {
                    self.new_round();
                    self.state = State::Ready;
                    Outcome::Restart
                } else {
                    Outcome::Stay
                }
            },
        }
    }
}

} // verus!

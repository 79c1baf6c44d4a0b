//! The session: one player, one obstacle, the score, and the mode that
//! decides which handler a tick runs.
use vstd::prelude::*;
use crate::draw::{put_all, spec_put_all, Caption, Cell, Colour, Command, Frame};
use crate::obstacle::{spec_gap_size, Obstacle};
use crate::player::Player;
use crate::{
    FLAP_VELOCITY, FRAME_DURATION, GAP_SIZE_MAX, GAP_Y_END, GAP_Y_MIN, GRAVITY, SCREEN_HEIGHT,
    SCREEN_WIDTH, START_X, START_Y, TERMINAL_VELOCITY,
};

verus! {

/// Which screen the session shows.
#[derive(Clone, Copy, Debug, PartialEq, Eq)]
pub enum GameMode {
    Menu,
    Playing,
    End,
}

/// The keys that the game tells apart.
#[derive(Clone, Copy, Debug, PartialEq, Eq)]
pub enum Key {
    /// Start a game, from the menu or after a game is over.
    Play,
    /// Leave the program.
    Quit,
    /// Flap, during play.
    Flap,
    /// Any other key.
    Other,
}

/// The session. `frame_time` is the time since the last physics step, in
/// microseconds.
#[derive(Clone, Copy, Debug, PartialEq, Eq)]
pub struct State {
    pub player: Player,
    pub frame_time: u32,
    pub obstacle: Obstacle,
    pub mode: GameMode,
    pub score: i32,
}

impl State {
    /// A session at its start in the given mode, with the first gap centred
    /// on `gap_y`.
    pub open spec fn spec_started(mode: GameMode, gap_y: i32) -> State {
        State {
            player: Player { x: START_X, y: START_Y, velocity: 0 },
            frame_time: 0,
            obstacle: Obstacle::spec_with_gap(SCREEN_WIDTH, gap_y, 0),
            mode,
            score: 0,
        }
    }

    /// What holds of every session that was started and then only changed by
    /// the handlers: the time since the last step is within one frame, the
    /// speed between the flap and the fastest fall, the player on the screen
    /// or one row under it (and on it unless the game is over), not past the
    /// obstacle, the score no more than the obstacles passed can account for,
    /// and the gap placed and sized as the score asks.
    pub open spec fn wf(&self) -> bool {
        &&& self.frame_time <= FRAME_DURATION
        &&& FLAP_VELOCITY <= self.player.velocity < TERMINAL_VELOCITY + GRAVITY
        &&& 0 <= self.player.y <= SCREEN_HEIGHT + 1
        &&& !(self.mode is End) ==> self.player.y <= SCREEN_HEIGHT
        &&& START_X <= self.player.x <= self.obstacle.x
        &&& 0 <= self.score
        &&& 81 * self.score + SCREEN_WIDTH <= self.obstacle.x
        &&& GAP_Y_MIN <= self.obstacle.gap_y < GAP_Y_END
        &&& self.obstacle.size == spec_gap_size(self.score as int)
    }

    /// Whether a physics step is due once `elapsed` microseconds more have
    /// passed.
    pub open spec fn step_due(&self, elapsed: u32) -> bool {
        self.frame_time + elapsed > FRAME_DURATION
    }

    /// The session after time has passed and the key was seen: where a step
    /// is due the clock starts again and the player moves; then a flap sets
    /// the speed.
    pub open spec fn spec_stepped(&self, elapsed: u32, key: Option<Key>) -> State {
        let due = self.step_due(elapsed);
        let moved = if due { self.player.spec_moved() } else { self.player };
        State {
            player: if key == Some(Key::Flap) { moved.spec_flapped() } else { moved },
            frame_time: if due { 0u32 } else { (self.frame_time + elapsed) as u32 },
            obstacle: self.obstacle,
            mode: self.mode,
            score: self.score,
        }
    }

    /// Whether the player has left the obstacle behind.
    pub open spec fn spec_passing(&self) -> bool {
        self.player.x > self.obstacle.x
    }

    /// The session after a passed obstacle was counted: one point more, and a
    /// new obstacle a screen's width ahead of the player, its gap centred on
    /// `gap_y`. A session whose player has not passed is unchanged.
    pub open spec fn spec_passed(&self, gap_y: i32) -> State {
        if self.spec_passing() {
            State {
                player: self.player,
                frame_time: self.frame_time,
                obstacle: Obstacle::spec_with_gap(
                    (self.player.x + SCREEN_WIDTH) as i32,
                    gap_y,
                    (self.score + 1) as i32,
                ),
                mode: self.mode,
                score: (self.score + 1) as i32,
            }
        } else {
            *self
        }
    }

    /// Whether the game is lost: the player is under the screen or in a wall.
    pub open spec fn spec_lost(&self) -> bool {
        self.player.y > SCREEN_HEIGHT || self.obstacle.spec_hit(self.player)
    }

    /// The session after the loss was looked for.
    pub open spec fn spec_judged(&self) -> State {
        if self.spec_lost() {
            State {
                player: self.player,
                frame_time: self.frame_time,
                obstacle: self.obstacle,
                mode: GameMode::End,
                score: self.score,
            }
        } else {
            *self
        }
    }

    /// The session after one tick of play, where a new obstacle, if one is
    /// due, has its gap centred on `gap_y`.
    pub open spec fn spec_play(&self, elapsed: u32, key: Option<Key>, gap_y: i32) -> State {
        self.spec_stepped(elapsed, key).spec_passed(gap_y).spec_judged()
    }

    /// What play draws for a session: the background, the player, the two
    /// lines of text, and the walls of the obstacle.
    pub open spec fn spec_play_commands(&self) -> Seq<Command> {
        seq![
            Command::ClearBackground(Colour::Navy),
            Command::Put(self.player.spec_cell()),
            Command::Print { x: 0, y: 0, text: Caption::PressSpace },
            Command::Print { x: 0, y: 1, text: Caption::Score(self.score) },
        ] + spec_put_all(self.obstacle.spec_walls(self.player.x))
    }

    /// What the menu draws.
    pub open spec fn spec_menu_commands() -> Seq<Command> {
        seq![
            Command::Clear,
            Command::PrintCentered { y: 5, text: Caption::Welcome },
            Command::PrintCentered { y: 8, text: Caption::PlayGame },
            Command::PrintCentered { y: 9, text: Caption::QuitGame },
        ]
    }

    /// What the game-over screen draws for a score.
    pub open spec fn spec_dead_commands(score: i32) -> Seq<Command> {
        seq![
            Command::Clear,
            Command::PrintCentered { y: 5, text: Caption::Dead },
            Command::PrintCentered { y: 6, text: Caption::Earned(score) },
            Command::PrintCentered { y: 8, text: Caption::PlayAgain },
            Command::PrintCentered { y: 9, text: Caption::QuitGame },
        ]
    }

    /// The session after a key on the menu or on the game-over screen: the
    /// play key starts a game with the first gap centred on `gap_y`, any
    /// other key and no key leave the session as it is.
    pub open spec fn spec_chosen(&self, key: Option<Key>, gap_y: i32) -> State {
        if key == Some(Key::Play) {
            State::spec_started(GameMode::Playing, gap_y)
        } else {
            *self
        }
    }

    /// Whether one tick of play stays within `i32`: the physics step if one
    /// is due, the obstacle's place on the screen, and, where the obstacle is
    /// passed, the next score and the next obstacle's column.
    pub open spec fn can_play(&self, elapsed: u32) -> bool {
        let stepped = self.spec_stepped(elapsed, None);
        &&& self.step_due(elapsed) ==> self.player.can_move()
        &&& self.obstacle.can_render(stepped.player.x)
        &&& stepped.spec_passing() ==> {
            &&& self.score < i32::MAX
            &&& GAP_SIZE_MAX - (self.score + 1) <= i32::MAX
            &&& stepped.player.x + SCREEN_WIDTH <= i32::MAX
        }
    }

    /// Whether a tick stays within `i32`; only play computes anything.
    pub open spec fn can_tick(&self, elapsed: u32) -> bool {
        self.mode is Playing ==> self.can_play(elapsed)
    }

    /// Tells whether a tick stays within `i32`, for callers that cannot show it.
    pub fn tick_fits(&self, elapsed: u32) -> (fits: bool)
        ensures
            fits == self.can_tick(elapsed),
    {
        match self.mode {
            GameMode::Playing => self.play_fits(elapsed),
            _ => true,
        }
    }

    /// Tells whether one tick of play stays within `i32`.
    pub fn play_fits(&self, elapsed: u32) -> (fits: bool)
        ensures
            fits == self.can_play(elapsed),
    {
        let due: bool = self.frame_time as u64 + elapsed as u64 > FRAME_DURATION;
        if due && !self.player.move_fits() {
            return false;
        }
        let x: i64 = if due { self.player.x as i64 + 1 } else { self.player.x as i64 };
        if !self.obstacle.render_fits(x) {
            return false;
        }
        if x > self.obstacle.x as i64 {
            self.score < i32::MAX && GAP_SIZE_MAX as i64 - (self.score as i64 + 1) <= i32::MAX as i64
                && x + SCREEN_WIDTH as i64 <= i32::MAX as i64
        } else {
            true
        }
    }

    /// A session on the menu, with a first obstacle at the right edge of the
    /// screen.
    pub fn new() -> (state: State)
        ensures
            state == State::spec_started(GameMode::Menu, state.obstacle.gap_y),
            GAP_Y_MIN <= state.obstacle.gap_y < GAP_Y_END,
            state.wf(),
    {
        State {
            player: Player::new(START_X, START_Y),
            frame_time: 0,
            obstacle: Obstacle::new(SCREEN_WIDTH, 0),
            mode: GameMode::Menu,
            score: 0,
        }
    }

    /// Starts a game from any session: the player at rest at the start, a
    /// first obstacle at the right edge of the screen, no time and no score.
    pub fn restart(&mut self)
        ensures
            *final(self) == State::spec_started(GameMode::Playing, final(self).obstacle.gap_y),
            GAP_Y_MIN <= final(self).obstacle.gap_y < GAP_Y_END,
            final(self).score == 0,
            final(self).mode == GameMode::Playing,
            final(self).player == (Player { x: START_X, y: START_Y, velocity: 0 }),
            final(self).wf(),
    {
        self.player = Player::new(START_X, START_Y);
        self.frame_time = 0;
        self.obstacle = Obstacle::new(SCREEN_WIDTH, 0);
        self.mode = GameMode::Playing;
        self.score = 0;
    }

    /// One tick on the menu.
    pub fn main_menu(&mut self, key: Option<Key>) -> (frame: Frame)
        ensures
            frame.commands@ == State::spec_menu_commands(),
            frame.quit == (key == Some(Key::Quit)),
            *final(self) == old(self).spec_chosen(key, final(self).obstacle.gap_y),
            key == Some(Key::Play) ==> GAP_Y_MIN <= final(self).obstacle.gap_y < GAP_Y_END,
            old(self).wf() ==> final(self).wf(),
    {
        let mut commands: Vec<Command> = Vec::new();
        commands.push(Command::Clear);
        commands.push(Command::PrintCentered { y: 5, text: Caption::Welcome });
        commands.push(Command::PrintCentered { y: 8, text: Caption::PlayGame });
        commands.push(Command::PrintCentered { y: 9, text: Caption::QuitGame });
        proof {
            assert(commands@ =~= State::spec_menu_commands());
        }
        let quit = self.choose_on_key(key);
        Frame { commands, quit }
    }

    /// One tick on the game-over screen, which shows the score of the game
    /// that ended.
    pub fn dead(&mut self, key: Option<Key>) -> (frame: Frame)
        ensures
            frame.commands@ == State::spec_dead_commands(old(self).score),
            frame.quit == (key == Some(Key::Quit)),
            *final(self) == old(self).spec_chosen(key, final(self).obstacle.gap_y),
            key == Some(Key::Play) ==> GAP_Y_MIN <= final(self).obstacle.gap_y < GAP_Y_END,
            old(self).wf() ==> final(self).wf(),
    {
        let mut commands: Vec<Command> = Vec::new();
        commands.push(Command::Clear);
        commands.push(Command::PrintCentered { y: 5, text: Caption::Dead });
        commands.push(Command::PrintCentered { y: 6, text: Caption::Earned(self.score) });
        commands.push(Command::PrintCentered { y: 8, text: Caption::PlayAgain });
        commands.push(Command::PrintCentered { y: 9, text: Caption::QuitGame });
        proof {
            assert(commands@ =~= State::spec_dead_commands(old(self).score));
        }
        let quit = self.choose_on_key(key);
        Frame { commands, quit }
    }

    /// What the menu and the game-over screen do with a key: the play key
    /// starts a game, the quit key asks to leave.
    pub fn choose_on_key(&mut self, key: Option<Key>) -> (quit: bool)
        ensures
            quit == (key == Some(Key::Quit)),
            *final(self) == old(self).spec_chosen(key, final(self).obstacle.gap_y),
            key == Some(Key::Play) ==> GAP_Y_MIN <= final(self).obstacle.gap_y < GAP_Y_END,
            old(self).wf() ==> final(self).wf(),
    {
        match key {
            Some(Key::Play) => {
                self.restart();
                false
            },
            Some(Key::Quit) => true,
            _ => false,
        }
    }

    /// The first part of a tick of play: the time is added up, a physics step
    /// is made if one is due, and a flap is taken.
    pub fn step(&mut self, elapsed: u32, key: Option<Key>)
        requires
            old(self).step_due(elapsed) ==> old(self).player.can_move(),
        ensures
            *final(self) == old(self).spec_stepped(elapsed, key),
    {
        let total: u64 = self.frame_time as u64 + elapsed as u64;
        if total > FRAME_DURATION {
            self.frame_time = 0;
            self.player.gravity_and_move();
        } else {
            self.frame_time = total as u32;
        }
        match key {
            Some(Key::Flap) => self.player.flap(),
            _ => {},
        }
    }

    /// The drawing commands of play for the session as it is.
    pub fn draw(&self) -> (commands: Vec<Command>)
        requires
            self.obstacle.can_render(self.player.x),
        ensures
            commands@ == self.spec_play_commands(),
    {
        let mut commands: Vec<Command> = Vec::new();
        commands.push(Command::ClearBackground(Colour::Navy));
        commands.push(Command::Put(self.player.render()));
        commands.push(Command::Print { x: 0, y: 0, text: Caption::PressSpace });
        commands.push(Command::Print { x: 0, y: 1, text: Caption::Score(self.score) });
        let walls: Vec<Cell> = self.obstacle.render(self.player.x);
        let ghost head = commands@;
        put_all(&mut commands, &walls);
        proof {
            assert(head =~= seq![
                Command::ClearBackground(Colour::Navy),
                Command::Put(self.player.spec_cell()),
                Command::Print { x: 0, y: 0, text: Caption::PressSpace },
                Command::Print { x: 0, y: 1, text: Caption::Score(self.score) },
            ]);
        }
        commands
    }

    /// Counts a passed obstacle and puts the next one a screen's width ahead,
    /// its gap centred on `gap_y`; does nothing while the player has not
    /// passed.
    pub fn pass_obstacle(&mut self, gap_y: i32)
        requires
            old(self).spec_passing() ==> {
                &&& old(self).score < i32::MAX
                &&& GAP_SIZE_MAX - (old(self).score + 1) <= i32::MAX
                &&& old(self).player.x + SCREEN_WIDTH <= i32::MAX
            },
        ensures
            *final(self) == old(self).spec_passed(gap_y),
    {
        if self.player.x > self.obstacle.x {
            self.score += 1;
            self.obstacle = Obstacle::with_gap(self.player.x + SCREEN_WIDTH, gap_y, self.score);
        }
    }

    /// Ends the game where the player is under the screen or in a wall.
    pub fn judge(&mut self)
        requires
            old(self).obstacle.gap_fits(),
        ensures
            *final(self) == old(self).spec_judged(),
            final(self).mode == GameMode::End <==> old(self).mode == GameMode::End
                || old(self).spec_lost(),
    {
        if self.player.y > SCREEN_HEIGHT || self.obstacle.hit_obstacle(&self.player) {
            self.mode = GameMode::End;
        }
    }

    /// One tick of play. The gap of a new obstacle is centred on a random
    /// row; all else is fixed by the session, the time and the key. The
    /// drawing shows the player after its move and the obstacle as it was
    /// before it was passed.
    pub fn play(&mut self, elapsed: u32, key: Option<Key>) -> (frame: Frame)
        requires
            old(self).can_play(elapsed),
        ensures
            frame.commands@ == old(self).spec_stepped(elapsed, key).spec_play_commands(),
            !frame.quit,
            *final(self) == old(self).spec_play(elapsed, key, final(self).obstacle.gap_y),
            old(self).spec_stepped(elapsed, key).spec_passing() ==> GAP_Y_MIN <= final(self).obstacle.gap_y
                < GAP_Y_END,
            old(self).wf() && !(old(self).mode is End) ==> final(self).wf(),
    {
        self.step(elapsed, key);
        let commands = self.draw();
        if self.player.x > self.obstacle.x {
            let gap_y: i32 = Obstacle::random_gap();
            self.pass_obstacle(gap_y);
        }
        self.judge();
        Frame { commands, quit: false }
    }

    /// One tick of play in which a new obstacle, if one is due, has its gap
    /// centred on the given row.
    pub fn play_with_gap(&mut self, elapsed: u32, key: Option<Key>, gap_y: i32) -> (frame: Frame)
        requires
            old(self).can_play(elapsed),
            GAP_Y_MIN <= gap_y < GAP_Y_END,
        ensures
            frame.commands@ == old(self).spec_stepped(elapsed, key).spec_play_commands(),
            !frame.quit,
            *final(self) == old(self).spec_play(elapsed, key, gap_y),
            old(self).wf() && !(old(self).mode is End) ==> final(self).wf(),
    {
        self.step(elapsed, key);
        let commands = self.draw();
        self.pass_obstacle(gap_y);
        self.judge();
        Frame { commands, quit: false }
    }

    /// One tick: the handler of the session's mode.
    pub fn tick(&mut self, elapsed: u32, key: Option<Key>) -> (frame: Frame)
        requires
            old(self).can_tick(elapsed),
        ensures
            old(self).mode is Menu ==> {
                &&& frame.commands@ == State::spec_menu_commands()
                &&& frame.quit == (key == Some(Key::Quit))
                &&& *final(self) == old(self).spec_chosen(key, final(self).obstacle.gap_y)
            },
            old(self).mode is End ==> {
                &&& frame.commands@ == State::spec_dead_commands(old(self).score)
                &&& frame.quit == (key == Some(Key::Quit))
                &&& *final(self) == old(self).spec_chosen(key, final(self).obstacle.gap_y)
            },
            old(self).mode is Playing ==> {
                &&& frame.commands@ == old(self).spec_stepped(elapsed, key).spec_play_commands()
                &&& !frame.quit
                &&& *final(self) == old(self).spec_play(elapsed, key, final(self).obstacle.gap_y)
            },
            final(self).obstacle != old(self).obstacle ==> GAP_Y_MIN <= final(self).obstacle.gap_y
                < GAP_Y_END,
            old(self).wf() ==> final(self).wf(),
    {
        match self.mode {
            GameMode::Menu => self.main_menu(key),
            GameMode::End => self.dead(key),
            GameMode::Playing => self.play(elapsed, key),
        }
    }
}

/// A session that the handlers have made can play another tick, whatever
/// time has passed, as long as the player is more than a screen's width from
/// the last column that `i32` can hold.
pub proof fn made_sessions_can_play(state: State, elapsed: u32)
    requires
        state.wf(),
        state.player.x < i32::MAX - SCREEN_WIDTH,
    ensures
        state.can_play(elapsed),
        state.can_tick(elapsed),
{
}

/// Starting a game forgets the session it starts from: from any two sessions
/// the same game comes out, and starting twice is starting once.
pub proof fn restart_forgets_the_past(a: State, b: State, gap_y: i32)
    ensures
        a.spec_chosen(Some(Key::Play), gap_y) == b.spec_chosen(Some(Key::Play), gap_y),
        a.spec_chosen(Some(Key::Play), gap_y).spec_chosen(Some(Key::Play), gap_y)
            == a.spec_chosen(Some(Key::Play), gap_y),
        a.spec_chosen(Some(Key::Play), gap_y).score == 0,
        a.spec_chosen(Some(Key::Play), gap_y).mode == GameMode::Playing,
        a.spec_chosen(Some(Key::Play), gap_y).player == (Player {
            x: START_X,
            y: START_Y,
            velocity: 0,
        }),
{
}

/// A tick of play never moves the player back, never takes a point away,
/// and leaves the mode as it was or ends the game.
pub proof fn play_only_goes_forward(state: State, elapsed: u32, key: Option<Key>, gap_y: i32)
    requires
        state.can_play(elapsed),
    ensures
        state.spec_play(elapsed, key, gap_y).player.x >= state.player.x,
        state.spec_play(elapsed, key, gap_y).score >= state.score,
        state.spec_play(elapsed, key, gap_y).mode == state.mode || state.spec_play(
            elapsed,
            key,
            gap_y,
        ).mode == GameMode::End,
{
}

/// A player under the screen ends the game, wherever the obstacle is.
pub proof fn falling_off_ends_the_game(state: State, elapsed: u32, key: Option<Key>, gap_y: i32)
    requires
        state.spec_stepped(elapsed, key).player.y > SCREEN_HEIGHT,
    ensures
        state.spec_play(elapsed, key, gap_y).mode == GameMode::End,
{
}

/// Passing an obstacle inside its gap gives exactly one point and a new
/// obstacle a screen's width ahead of the player, sized for the new score.
pub proof fn passing_scores_one(state: State, elapsed: u32, key: Option<Key>, gap_y: i32)
    requires
        state.can_play(elapsed),
        state.spec_stepped(elapsed, key).spec_passing(),
    ensures
        state.spec_play(elapsed, key, gap_y).score == state.score + 1,
        state.spec_play(elapsed, key, gap_y).obstacle.x == state.spec_stepped(
            elapsed,
            key,
        ).player.x + SCREEN_WIDTH,
        state.spec_play(elapsed, key, gap_y).obstacle.gap_y == gap_y,
        state.spec_play(elapsed, key, gap_y).obstacle.size == spec_gap_size(state.score + 1),
{
}

} // verus!

use crate::command_buffer::{
    command_views, frame_clear_color, Command, CommandBuffer, CommandView,
};
use crate::game_state::{wish_of, GameState, GameStateManager, StateCall};
use crate::window::{close_requested, Window, WindowEvent};
use vstd::prelude::*;

verus! {

/// A reading of the clock and the time that passed since the reading
/// before, both in nanoseconds.
#[derive(PartialEq, Eq, Clone, Copy, Debug, Structural)]
pub struct DeltaTime {
    pub new_time: u64,
    pub new_dt: u64,
}

/// The time from `old_time` to `new_time`; zero where the clock went
/// backwards.
pub open spec fn elapsed(old_time: u64, new_time: u64) -> u64 {
    if new_time >= old_time {
        (new_time - old_time) as u64
    } else {
        0
    }
}

/// `time + dt`, held at the largest value where the sum would pass it.
pub open spec fn advanced(time: u64, dt: u64) -> u64 {
    if time + dt > u64::MAX {
        u64::MAX
    } else {
        (time + dt) as u64
    }
}

/// Calls `time::precise_time_ns`: nanoseconds since an epoch that is not
/// specified. Nothing is claimed of the value.
#[verifier::external_body]
fn precise_time_ns() -> u64 {
    time::precise_time_ns()
}

/// The reading `new_time` against the reading before.
pub fn delta_between(old_time: u64, new_time: u64) -> (deltas: DeltaTime)
    ensures
        deltas == (DeltaTime { new_time, new_dt: elapsed(old_time, new_time) }),
{
    let new_dt: u64 = if new_time >= old_time {
        new_time - old_time
    } else {
        0
    };
    DeltaTime { new_time, new_dt }
}

/// Reads the clock and measures against `old_time`. Whatever the clock
/// says, the delta fits the reading.
pub fn calculate_delta_time(old_time: u64) -> (deltas: DeltaTime)
    ensures
        deltas.new_dt == elapsed(old_time, deltas.new_time),
{
    delta_between(old_time, precise_time_ns())
}

/// The timing of the loop: the last reading of the clock, the delta that
/// the next frame gets, and the time that has run since the first frame,
/// all in nanoseconds.
#[derive(PartialEq, Eq, Clone, Copy, Debug, Structural)]
pub struct FrameClock {
    pub old_time: u64,
    pub dt: u64,
    pub time: u64,
}

impl FrameClock {
    /// The clock of the first frame, which gets a delta and a time of 0.
    pub fn start_at(now: u64) -> (clock: FrameClock)
        ensures
            clock == (FrameClock { old_time: now, dt: 0, time: 0 }),
    {
        FrameClock { old_time: now, dt: 0, time: 0 }
    }

    /// Reads the clock and starts from that reading.
    pub fn start() -> (clock: FrameClock)
        ensures
            clock.dt == 0,
            clock.time == 0,
    {
        FrameClock::start_at(precise_time_ns())
    }

    /// The clock after a frame that ended at the reading `now`.
    pub open spec fn after_frame(self, now: u64) -> FrameClock {
        FrameClock {
            old_time: now,
            dt: elapsed(self.old_time, now),
            time: advanced(self.time, elapsed(self.old_time, now)),
        }
    }

    /// Ends a frame at the reading `now`: the next frame's delta is the
    /// time since the last reading, and the running time grows by it.
    pub fn advance_to(&mut self, now: u64)
        ensures
            *final(self) == old(self).after_frame(now),
    {
        let deltas = delta_between(self.old_time, now);
        self.dt = deltas.new_dt;
        self.old_time = deltas.new_time;
        self.time = if self.time > u64::MAX - self.dt {
            u64::MAX
        } else {
            self.time + self.dt
        };
    }

    /// Ends a frame now. Whatever the clock says, the result is that of
    /// [`FrameClock::advance_to`] for the reading taken.
    pub fn advance(&mut self)
        ensures
            *final(self) == old(self).after_frame(final(self).old_time),
    {
        self.advance_to(precise_time_ns());
    }
}


/// The frame loop: one window, the states, and the count of frames done.
pub struct GameLoop<S: GameState> {
    window: Window,
    game_state_manager: GameStateManager<S>,
    frame_count: u32,
}

impl<S: GameState> GameLoop<S> {
    /// The window as it stands.
    pub closed spec fn window_state(&self) -> Window {
        self.window
    }

    /// The state manager as it stands.
    pub closed spec fn manager_state(&self) -> GameStateManager<S> {
        self.game_state_manager
    }

    /// The number of frames done.
    pub closed spec fn frames(&self) -> u32 {
        self.frame_count
    }

    /// The directory that the program is to work in: the first argument
    /// after the program's name, if there is one.
    pub fn working_directory(args: &Vec<String>) -> (directory: Option<&String>)
        ensures
            args@.len() > 1 ==> directory == Some(&args@[1]),
            args@.len() <= 1 ==> directory is None,
    {
        if args.len() > 1 {
            Some(&args[1])
        } else {
            None
        }
    }

    /// A loop with a fresh window of the given size, no states and no
    /// frame done.
    pub fn new(window_width: u16, window_height: u16, window_title: &'static str, vsync: bool) -> (game_loop:
        GameLoop<S>)
        ensures
            game_loop.frames() == 0,
            game_loop.manager_state().names() == Seq::<Seq<char>>::empty(),
            game_loop.manager_state().states() == Seq::<S>::empty(),
            game_loop.manager_state().current() == Seq::<char>::empty(),
            game_loop.manager_state().calls() == Seq::<StateCall>::empty(),
            game_loop.manager_state().last_wish() is None,
            game_loop.manager_state().wf(),
            game_loop.window_state().fresh(window_width, window_height, window_title, vsync),
    {
        GameLoop {
            window: Window::new(window_width, window_height, window_title, vsync),
            game_state_manager: GameStateManager::new(),
            frame_count: 0,
        }
    }

    /// Lets the current state update with `dt` and the window, and then
    /// draw with `dt` into the recording that the window starts at `time`;
    /// hands out what the update returned with the frame as the draw left
    /// it. The state afterwards is what these two calls made of it. Without a
    /// current state there is no wish, and the frame holds the opening
    /// clear alone. The window, the names and the current state stay as
    /// they are; of the states only the current one may change.
    pub fn run_states(&mut self, time: u64, dt: u64) -> (outcome: (Option<String>, Vec<Command>))
        ensures
            final(self).frames() == old(self).frames(),
            final(self).window_state() == old(self).window_state(),
            final(self).manager_state().model() == old(self).manager_state().model().updated(
                dt,
                old(self).window_state(),
            ).drawn(old(self).window_state().frame_start(time), dt),
            final(self).manager_state().last_wish() == wish_of(outcome.0),
            final(self).manager_state().names() == old(self).manager_state().names(),
            final(self).manager_state().states().len() == old(self).manager_state().states().len(),
            forall|i: int|
                0 <= i < old(self).manager_state().states().len() && old(
                    self,
                ).manager_state().current_index() != Some(i)
                    ==> final(self).manager_state().states()[i] == old(
                    self,
                ).manager_state().states()[i],
            old(self).manager_state().current_index() is None ==> outcome.0 is None
                && command_views(outcome.1@) == seq![
                CommandView::Clear { target: None, color: frame_clear_color() },
            ] && final(self).manager_state().states() == old(self).manager_state().states(),
            old(self).manager_state().current_index() matches Some(i) ==> exists|
                updating: &mut S,
                drawing: &mut S,
                buffer: &mut CommandBuffer,
            |
                mut_ref_current(updating) == old(self).manager_state().states()[i]
                    && call_ensures(
                    S::update,
                    (updating, dt, &old(self).window_state()),
                    outcome.0,
                ) && mut_ref_future(updating) == mut_ref_current(drawing) && mut_ref_current(
                    buffer,
                )@ == old(self).window_state().frame_start(time) && call_ensures(
                    S::draw,
                    (drawing, buffer, dt),
                    (),
                ) && mut_ref_future(drawing) == final(self).manager_state().states()[i]
                    && mut_ref_future(buffer)@.commands == command_views(outcome.1@),
    {
        let next_state = self.game_state_manager.update_current(dt, &self.window);
        let mut target = self.window.begin_frame(time);
        self.game_state_manager.draw_current(&mut target, dt);
        let frame = target.end();
        (next_state, frame)
    }

    /// Ends a frame: switches to the state that the update asked for, if
    /// it asked for one, and counts the frame.
    pub fn finish_frame(&mut self, next_state: Option<String>)
        requires
            old(self).frames() < u32::MAX,
        ensures
            final(self).frames() == old(self).frames() + 1,
            final(self).window_state() == old(self).window_state(),
            final(self).manager_state().names() == old(self).manager_state().names(),
            final(self).manager_state().model() == (match next_state {
                Some(name) => old(self).manager_state().model().switched(name@),
                None => old(self).manager_state().model(),
            }),
            final(self).manager_state().last_wish() == old(self).manager_state().last_wish(),
            final(self).manager_state().states().len() == old(self).manager_state().states().len(),
            next_state is None ==> final(self).manager_state().states() == old(
                self,
            ).manager_state().states(),
            next_state matches Some(name) ==> forall|i: int|
                0 <= i < old(self).manager_state().states().len() && old(
                    self,
                ).manager_state().current_index() != Some(i) && old(
                    self,
                ).manager_state().index_of(name@) != Some(i)
                    ==> final(self).manager_state().states()[i] == old(
                    self,
                ).manager_state().states()[i],
            next_state matches Some(name) ==> old(self).manager_state().current_index() matches Some(
                i,
            ) ==> old(self).manager_state().index_of(name@) != Some(i) ==> exists|leaving: &mut S|
                mut_ref_current(leaving) == old(self).manager_state().states()[i]
                    && mut_ref_future(leaving) == final(self).manager_state().states()[i]
                    && call_ensures(S::on_leave, (leaving,), ()),
            next_state matches Some(name) ==> old(self).manager_state().index_of(name@) matches Some(
                i,
            ) ==> old(self).manager_state().current_index() != Some(i) ==> exists|
                entering: &mut S,
            |
                mut_ref_current(entering) == old(self).manager_state().states()[i]
                    && mut_ref_future(entering) == final(self).manager_state().states()[i]
                    && call_ensures(S::on_enter, (entering,), ()),
            next_state matches Some(name) ==> old(self).manager_state().current_index() matches Some(
                i,
            ) ==> old(self).manager_state().index_of(name@) == Some(i) ==> exists|
                leaving: &mut S,
                entering: &mut S,
            |
                mut_ref_current(leaving) == old(self).manager_state().states()[i]
                    && mut_ref_future(leaving) == mut_ref_current(entering) && mut_ref_future(
                    entering,
                ) == final(self).manager_state().states()[i] && call_ensures(
                    S::on_leave,
                    (leaving,),
                    (),
                ) && call_ensures(S::on_enter, (entering,), ()),
    {
        match next_state {
            Some(state_name) => {
                self.game_state_manager.switch(state_name.as_str());
            },
            None => {},
        }
        self.frame_count += 1;
    }

    /// One frame: the current state updates with `dt` and the window and
    /// draws with `dt` into the recording that the window starts at
    /// `time`; then the switch that the update asked for takes place, and
    /// the frame is counted. Returns the frame as the draw left it. Without a current state nothing is asked for and
    /// the frame holds the opening clear alone.
    pub fn tick(&mut self, time: u64, dt: u64) -> (frame: Vec<Command>)
        requires
            old(self).frames() < u32::MAX,
        ensures
            final(self).frames() == old(self).frames() + 1,
            final(self).window_state() == old(self).window_state(),
            final(self).manager_state().names() == old(self).manager_state().names(),
            final(self).manager_state().model() == old(self).manager_state().model().ticked(
                final(self).manager_state().last_wish(),
                time,
                dt,
                old(self).window_state(),
            ),
            old(self).manager_state().current_index() is None ==> final(self).manager_state().last_wish() is None,
            old(self).manager_state().current_index() is None ==> command_views(frame@) == seq![
                CommandView::Clear { target: None, color: frame_clear_color() },
            ] && final(self).manager_state().states() == old(self).manager_state().states(),
            old(self).manager_state().current_index() matches Some(i) ==> exists|
                updating: &mut S,
                wish: Option<String>,
                drawing: &mut S,
                buffer: &mut CommandBuffer,
            |
                mut_ref_current(updating) == old(self).manager_state().states()[i]
                    && call_ensures(S::update, (updating, dt, &old(self).window_state()), wish)
                    && wish_of(wish) == final(self).manager_state().last_wish()
                    && mut_ref_future(updating) == mut_ref_current(drawing)
                    && mut_ref_current(buffer)@ == old(self).window_state().frame_start(time)
                    && call_ensures(S::draw, (drawing, buffer, dt), ())
                    && mut_ref_future(buffer)@.commands == command_views(frame@)
                    && (wish is None ==> mut_ref_future(drawing)
                    == final(self).manager_state().states()[i]),
    {
        let (next_state, frame) = self.run_states(time, dt);
        self.finish_frame(next_state);
        frame
    }

    /// One turn of the loop. The window takes in the frame's events; if
    /// one of them asks to close, the loop is over and nothing else
    /// happens. Otherwise the frame is run with the time and the delta
    /// that the clock holds and with the window as the events left it;
    /// then the clock is read, and the recorded frame is handed out.
    pub fn run_frame(&mut self, events: &Vec<WindowEvent>, clock: &mut FrameClock) -> (frame:
        Option<Vec<Command>>)
        requires
            old(self).frames() < u32::MAX,
        ensures
            frame is None <==> close_requested(events@),
            final(self).window_state().follows(&old(self).window_state(), events@),
            final(self).manager_state().names() == old(self).manager_state().names(),
            frame is None ==> final(self).frames() == old(self).frames()
                && final(self).manager_state() == old(self).manager_state()
                && *final(clock) == *old(clock),
            frame is Some ==> final(self).frames() == old(self).frames() + 1 && *final(clock)
                == old(clock).after_frame(final(clock).old_time),
            frame is Some ==> final(self).manager_state().model() == old(
                self,
            ).manager_state().model().ticked(
                final(self).manager_state().last_wish(),
                old(clock).time,
                old(clock).dt,
                final(self).window_state(),
            ),
            frame is Some && old(self).manager_state().current_index() is None ==> final(self).manager_state().last_wish() is None,
            frame matches Some(commands) ==> (old(self).manager_state().current_index() is None
                ==> command_views(commands@) == seq![
                CommandView::Clear { target: None, color: frame_clear_color() },
            ] && final(self).manager_state().states() == old(self).manager_state().states()),
            frame matches Some(commands) ==> old(self).manager_state().current_index() matches Some(i) ==> exists|
                updating: &mut S,
                wish: Option<String>,
                drawing: &mut S,
                buffer: &mut CommandBuffer,
            |
                mut_ref_current(updating) == old(self).manager_state().states()[i]
                    && call_ensures(S::update, (updating, old(clock).dt, &final(self).window_state()), wish)
                    && wish_of(wish) == final(self).manager_state().last_wish()
                    && mut_ref_future(updating) == mut_ref_current(drawing)
                    && mut_ref_current(buffer)@ == final(self).window_state().frame_start(old(clock).time)
                    && call_ensures(S::draw, (drawing, buffer, old(clock).dt), ())
                    && mut_ref_future(buffer)@.commands == command_views(commands@)
                    && (wish is None ==> mut_ref_future(drawing)
                    == final(self).manager_state().states()[i]),
    {
        if !self.window.process_events(events) {
            return None;
        }
        let frame = self.tick(clock.time, clock.dt);
        clock.advance();
        Some(frame)
    }

    /// The window.
    pub fn window(&mut self) -> (window: &mut Window)
        ensures
            *window == old(self).window_state(),
            final(self).window_state() == *final(window),
            final(self).manager_state() == old(self).manager_state(),
            final(self).frames() == old(self).frames(),
    {
        &mut self.window
    }

    /// The state manager.
    pub fn game_state_manager(&mut self) -> (manager: &mut GameStateManager<S>)
        ensures
            *manager == old(self).manager_state(),
            final(self).manager_state() == *final(manager),
            final(self).window_state() == old(self).window_state(),
            final(self).frames() == old(self).frames(),
    {
        &mut self.game_state_manager
    }

    /// The number of frames done.
    pub fn frame_count(&self) -> (count: u32)
        ensures
            count == self.frames(),
    {
        self.frame_count
    }
}

} // verus!

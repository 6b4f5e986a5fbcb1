use vstd::prelude::*;
use crate::clips::{next_clip_index, ClipRegistry};

verus! {

/// Numerator and denominator of the factor that "speed up" applies (6/5).
pub const SPEED_UP_NUM: u32 = 6;
pub const SPEED_UP_DEN: u32 = 5;

/// Numerator and denominator of the factor that "speed down" applies (4/5).
pub const SPEED_DOWN_NUM: u32 = 4;
pub const SPEED_DOWN_DEN: u32 = 5;

/// Numerator and denominator of the step that a seek moves by (1/10 time unit).
pub const SEEK_STEP_NUM: u32 = 1;
pub const SEEK_STEP_DEN: u32 = 10;

/// Direction of a speed edit.
#[derive(Debug, Clone, Copy, PartialEq, Eq, Structural)]
pub enum SpeedStep {
    Up,
    Down,
}

/// Direction of a seek edit.
#[derive(Debug, Clone, Copy, PartialEq, Eq, Structural)]
pub enum SeekStep {
    Backward,
    Forward,
}

/// The factor of a speed edit, as (numerator, denominator).
pub open spec fn speed_factor(step: SpeedStep) -> (u32, u32) {
    match step {
        SpeedStep::Up => (SPEED_UP_NUM, SPEED_UP_DEN),
        SpeedStep::Down => (SPEED_DOWN_NUM, SPEED_DOWN_DEN),
    }
}

impl SpeedStep {
    /// The factor by which this edit multiplies the player's current speed,
    /// as (numerator, denominator).
    pub fn factor(&self) -> (r: (u32, u32))
        ensures
            r == speed_factor(*self),
    {
        match self {
            SpeedStep::Up => (SPEED_UP_NUM, SPEED_UP_DEN),
            SpeedStep::Down => (SPEED_DOWN_NUM, SPEED_DOWN_DEN),
        }
    }
}

/// What the caller must do to the animation player, in order.
#[derive(Debug, Clone, Copy, PartialEq, Eq, Structural)]
pub enum Command {
    /// One-time bind: set the player's speed to the state's speed, then play
    /// the clip at this index, repeating.
    Bind(usize),
    /// Set the player's speed to the state's speed.
    SetSpeed,
    /// Resume the player.
    Resume,
    /// Pause the player.
    Pause,
    /// Play the clip at this index, repeating.
    PlayRepeating(usize),
    /// Set the state's speed to the player's current speed times the step's factor.
    ScaleSpeed(SpeedStep),
    /// Set the state's elapsed offset to the player's current elapsed time
    /// moved by one seek step in the given direction.
    Seek(SeekStep),
}

/// The edge events of one frame: each is true when its key or control was
/// pressed during this frame (a press, not a hold).
#[derive(Debug, Clone, Copy, PartialEq, Eq, Structural)]
pub struct FrameInput {
    pub speed_up: bool,
    pub speed_down: bool,
    pub seek_backward: bool,
    pub seek_forward: bool,
    pub next_clip: bool,
    pub toggle_pause: bool,
}

impl FrameInput {
    /// A frame in which nothing was pressed.
    pub fn idle() -> (r: FrameInput)
        ensures
            r == idle_input(),
    {
        FrameInput {
            speed_up: false,
            speed_down: false,
            seek_backward: false,
            seek_forward: false,
            next_clip: false,
            toggle_pause: false,
        }
    }
}

/// A frame in which nothing was pressed.
pub open spec fn idle_input() -> FrameInput {
    FrameInput {
        speed_up: false,
        speed_down: false,
        seek_backward: false,
        seek_forward: false,
        next_clip: false,
        toggle_pause: false,
    }
}

/// The controller's state as a value: whether playback runs, the active clip,
/// the number of clips in the registry, and whether the player is bound.
pub struct ControllerView {
    pub running: bool,
    pub active_clip: usize,
    pub clip_count: usize,
    pub bound: bool,
}

impl ControllerView {
    pub open spec fn wf(self) -> bool {
        self.clip_count >= 1 && self.active_clip < self.clip_count
    }
}

/// `seq![c]` when `b` holds, else the empty sequence.
pub open spec fn command_if(b: bool, c: Command) -> Seq<Command> {
    if b {
        seq![c]
    } else {
        seq![]
    }
}

/// The state once a pause toggle of this frame, if any, is applied.
pub open spec fn after_toggle(s: ControllerView, input: FrameInput) -> ControllerView {
    if input.toggle_pause {
        ControllerView { running: !s.running, ..s }
    } else {
        s
    }
}

/// The active clip once a "next clip" edge of this frame, if any, is applied.
pub open spec fn clip_after_input(s: ControllerView, input: FrameInput) -> usize {
    if input.next_clip {
        next_clip_index(s.active_clip as nat, s.clip_count as nat) as usize
    } else {
        s.active_clip
    }
}

/// The bind, when the player is present and not bound yet.
pub open spec fn bind_commands(s: ControllerView, present: bool) -> Seq<Command> {
    command_if(present && !s.bound, Command::Bind(s.active_clip))
}

/// The edits that this frame's edges ask for, in a fixed order.
pub open spec fn edit_commands(s: ControllerView, input: FrameInput) -> Seq<Command> {
    command_if(input.speed_up, Command::ScaleSpeed(SpeedStep::Up))
        + command_if(input.speed_down, Command::ScaleSpeed(SpeedStep::Down))
        + command_if(input.seek_backward, Command::Seek(SeekStep::Backward))
        + command_if(input.seek_forward, Command::Seek(SeekStep::Forward))
        + command_if(input.next_clip, Command::PlayRepeating(clip_after_input(s, input)))
}

/// The push-down: the player's speed and run state are forced to the state's.
pub open spec fn push_down_commands(s: ControllerView) -> Seq<Command> {
    seq![Command::SetSpeed, if s.running { Command::Resume } else { Command::Pause }]
}

/// The commands of one frame. Nothing is done to an absent player; a present
/// one is bound if need be, then edited, then pushed down to.
pub open spec fn frame_commands(s: ControllerView, input: FrameInput, present: bool) -> Seq<
    Command,
> {
    let t = after_toggle(s, input);
    if present {
        bind_commands(t, present) + edit_commands(t, input) + push_down_commands(t)
    } else {
        seq![]
    }
}

/// The controller's state after one frame.
pub open spec fn next_view(s: ControllerView, input: FrameInput, present: bool) -> ControllerView {
    let t = after_toggle(s, input);
    if present {
        ControllerView { bound: true, active_clip: clip_after_input(t, input), ..t }
    } else {
        t
    }
}

/// Appends `c` to `cmds` when `b` holds.
fn push_if(cmds: &mut Vec<Command>, b: bool, c: Command)
    ensures
        final(cmds)@ == old(cmds)@ + command_if(b, c),
{
    if b {
        cmds.push(c);
    }
    assert(cmds@ =~= old(cmds)@ + command_if(b, c));
}

/// Decides, frame by frame, what is done to the animation player and how the
/// run state and active clip change.
pub struct PlaybackController {
    running: bool,
    active_clip: usize,
    clip_count: usize,
    bound: bool,
}

impl View for PlaybackController {
    type V = ControllerView;

    closed spec fn view(&self) -> ControllerView {
        ControllerView {
            running: self.running,
            active_clip: self.active_clip,
            clip_count: self.clip_count,
            bound: self.bound,
        }
    }
}

impl PlaybackController {
    /// A controller for the clips of `registry`: paused, on the first clip,
    /// with no player bound yet.
    pub fn new<H>(registry: &ClipRegistry<H>) -> (r: PlaybackController)
        requires
            registry.wf(),
        ensures
            r@ == (ControllerView {
                running: false,
                active_clip: 0,
                clip_count: registry.handles().len() as usize,
                bound: false,
            }),
            r@.wf(),
    {
        PlaybackController { running: false, active_clip: 0, clip_count: registry.len(), bound: false }
    }

    /// Whether playback runs.
    pub fn is_running(&self) -> (r: bool)
        ensures
            r == self@.running,
    {
        self.running
    }

    /// Index of the clip meant to play.
    pub fn active_clip(&self) -> (r: usize)
        ensures
            r == self@.active_clip,
    {
        self.active_clip
    }

    /// Number of clips in the registry.
    pub fn clip_count(&self) -> (r: usize)
        ensures
            r == self@.clip_count,
    {
        self.clip_count
    }

    /// Whether the player has been bound.
    pub fn is_bound(&self) -> (r: bool)
        ensures
            r == self@.bound,
    {
        self.bound
    }

    /// Flips between running and paused; nothing else changes.
    pub fn toggle_running(&mut self)
        ensures
            final(self)@ == (ControllerView { running: !old(self)@.running, ..old(self)@ }),
    {
        self.running = !self.running;
    }

    /// Appends the edits that the edges of `input` ask for, and moves to the
    /// next clip on a "next clip" edge.
    fn push_edits(&mut self, input: &FrameInput, cmds: &mut Vec<Command>)
        requires
            old(self)@.wf(),
        ensures
            final(cmds)@ == old(cmds)@ + edit_commands(old(self)@, *input),
            final(self)@ == (ControllerView {
                active_clip: clip_after_input(old(self)@, *input),
                ..old(self)@
            }),
    {
        let ghost c0 = cmds@;
        let ghost s = self@;
        push_if(cmds, input.speed_up, Command::ScaleSpeed(SpeedStep::Up));
        push_if(cmds, input.speed_down, Command::ScaleSpeed(SpeedStep::Down));
        push_if(cmds, input.seek_backward, Command::Seek(SeekStep::Backward));
        push_if(cmds, input.seek_forward, Command::Seek(SeekStep::Forward));
        if input.next_clip {
            self.active_clip = (self.active_clip + 1) % self.clip_count;
        }
        push_if(cmds, input.next_clip, Command::PlayRepeating(self.active_clip));
        assert(cmds@ =~= c0 + edit_commands(s, *input));
    }

    /// Runs one frame: applies this frame's edges and returns what must be done
    /// to the player, in order. `present` says whether the player exists.
    pub fn frame(&mut self, input: &FrameInput, present: bool) -> (r: Vec<Command>)
        requires
            old(self)@.wf(),
        ensures
            final(self)@ == next_view(old(self)@, *input, present),
            final(self)@.wf(),
            r@ == frame_commands(old(self)@, *input, present),
    {
        let ghost s0 = self@;
        if input.toggle_pause {
            self.toggle_running();
        }
        let ghost t = self@;
        assert(t == after_toggle(s0, *input));
        let mut cmds: Vec<Command> = Vec::new();
        if !present {
            assert(cmds@ =~= frame_commands(s0, *input, present));
            return cmds;
        }
        if !self.bound {
            cmds.push(Command::Bind(self.active_clip));
        }
        let ghost b = cmds@;
        assert(b =~= bind_commands(t, present));
        self.push_edits(input, &mut cmds);
        let ghost e = cmds@;
        assert(e == b + edit_commands(t, *input));
        self.bound = true;
        assert(self@ == next_view(s0, *input, present));
        if self.running {
            cmds.push(Command::SetSpeed);
            cmds.push(Command::Resume);
        } else {
            cmds.push(Command::SetSpeed);
            cmds.push(Command::Pause);
        }
        assert(cmds@ =~= e + push_down_commands(t));
        assert(frame_commands(s0, *input, present) == b + edit_commands(t, *input)
            + push_down_commands(t));
        cmds
    }
}

} // verus!

//! A model of what the commands of a frame do to the shared state and to the
//! animation player, with exact rationals for speeds and times, and the laws
//! that the controller's decisions obey over it.
use vstd::prelude::*;
use vstd::arithmetic::power::pow;
use crate::clips::{clip_after, lemma_clip_cycle, next_clip_index};
use crate::controller::{
    after_toggle, bind_commands, edit_commands, frame_commands, idle_input, next_view, push_down_commands,
    speed_factor, Command, ControllerView, FrameInput, SeekStep, SpeedStep, SEEK_STEP_DEN,
    SEEK_STEP_NUM,
};

verus! {

/// An exact rational `num / den`.
pub struct Ratio {
    pub num: int,
    pub den: int,
}

/// The animation player as the commands see it.
pub struct PlayerModel {
    pub clip: Option<usize>,
    pub speed: Ratio,
    pub elapsed: Ratio,
    pub paused: bool,
    pub repeat: bool,
}

/// The speed and elapsed offset of the shared state, and the player.
pub struct World {
    pub speed: Ratio,
    pub offset: Ratio,
    pub player: PlayerModel,
}

/// `r` times the factor of `step`.
pub open spec fn scaled(r: Ratio, step: SpeedStep) -> Ratio {
    Ratio { num: r.num * speed_factor(step).0, den: r.den * speed_factor(step).1 }
}

/// `r` moved by one seek step in the direction of `step`.
pub open spec fn seeked(r: Ratio, step: SeekStep) -> Ratio {
    let d = SEEK_STEP_DEN as int;
    let n = SEEK_STEP_NUM as int;
    match step {
        SeekStep::Backward => Ratio { num: r.num * d - n * r.den, den: r.den * d },
        SeekStep::Forward => Ratio { num: r.num * d + n * r.den, den: r.den * d },
    }
}

/// Playing clip `i`, repeating: unless `i` is already playing unpaused, the
/// player restarts from its defaults (speed one, position zero, running).
pub open spec fn played(p: PlayerModel, i: usize) -> PlayerModel {
    if p.clip != Some(i) || p.paused {
        PlayerModel {
            clip: Some(i),
            speed: Ratio { num: 1, den: 1 },
            elapsed: Ratio { num: 0, den: 1 },
            paused: false,
            repeat: true,
        }
    } else {
        PlayerModel { repeat: true, ..p }
    }
}

/// What one command does.
pub open spec fn apply_command(w: World, c: Command) -> World {
    match c {
        Command::Bind(i) => World { player: played(PlayerModel { speed: w.speed, ..w.player }, i), ..w },
        Command::SetSpeed => World { player: PlayerModel { speed: w.speed, ..w.player }, ..w },
        Command::Resume => World { player: PlayerModel { paused: false, ..w.player }, ..w },
        Command::Pause => World { player: PlayerModel { paused: true, ..w.player }, ..w },
        Command::PlayRepeating(i) => World { player: played(w.player, i), ..w },
        Command::ScaleSpeed(step) => World { speed: scaled(w.player.speed, step), ..w },
        Command::Seek(step) => World { offset: seeked(w.player.elapsed, step), ..w },
    }
}

/// What a sequence of commands does, first to last.
pub open spec fn apply_commands(w: World, cmds: Seq<Command>) -> World
    decreases cmds.len(),
{
    if cmds.len() == 0 {
        w
    } else {
        apply_commands(apply_command(w, cmds[0]), cmds.drop_first())
    }
}

/// One frame: the controller's next state and the world after its commands.
pub open spec fn run_frame(c: ControllerView, w: World, input: FrameInput, present: bool) -> (
    ControllerView,
    World,
) {
    (next_view(c, input, present), apply_commands(w, frame_commands(c, input, present)))
}

/// The frames of `inputs`, first to last, with the player present or not
/// throughout. No time passes for the player between them.
pub open spec fn run_frames(
    c: ControllerView,
    w: World,
    inputs: Seq<FrameInput>,
    present: bool,
) -> (ControllerView, World)
    decreases inputs.len(),
{
    if inputs.len() == 0 {
        (c, w)
    } else {
        let (c1, w1) = run_frames(c, w, inputs.drop_last(), present);
        run_frame(c1, w1, inputs.last(), present)
    }
}

/// A frame with one speed edge and nothing else.
pub open spec fn speed_input(step: SpeedStep) -> FrameInput {
    match step {
        SpeedStep::Up => FrameInput { speed_up: true, ..idle_input() },
        SpeedStep::Down => FrameInput { speed_down: true, ..idle_input() },
    }
}

/// A frame with one seek edge and nothing else.
pub open spec fn seek_input(step: SeekStep) -> FrameInput {
    match step {
        SeekStep::Backward => FrameInput { seek_backward: true, ..idle_input() },
        SeekStep::Forward => FrameInput { seek_forward: true, ..idle_input() },
    }
}

/// A frame with a "next clip" edge and nothing else.
pub open spec fn next_clip_input() -> FrameInput {
    FrameInput { next_clip: true, ..idle_input() }
}

proof fn lemma_apply_two(w: World, a: Command, b: Command)
    ensures
        apply_commands(w, seq![a, b]) == apply_command(apply_command(w, a), b),
{
    let s = seq![a, b];
    let t = s.drop_first();
    assert(t =~= seq![b]);
    assert(t.drop_first() =~= Seq::<Command>::empty());
    let w1 = apply_command(w, a);
    assert(apply_commands(w, s) == apply_commands(w1, t));
    assert(apply_commands(w1, t) == apply_commands(apply_command(w1, b), t.drop_first()));
}

proof fn lemma_apply_three(w: World, a: Command, b: Command, c: Command)
    ensures
        apply_commands(w, seq![a, b, c]) == apply_command(
            apply_command(apply_command(w, a), b),
            c,
        ),
{
    let s = seq![a, b, c];
    assert(s.drop_first() =~= seq![b, c]);
    assert(apply_commands(w, s) == apply_commands(apply_command(w, a), s.drop_first()));
    lemma_apply_two(apply_command(w, a), b, c);
}

/// Pushing the state down is idempotent: a second push-down right after the
/// first changes nothing. At frame level, an idle frame of a bound controller
/// does only the push-down, so a second idle frame leaves controller, state
/// and player as the first left them.
pub proof fn lemma_push_down_idempotent(c: ControllerView, w: World)
    requires
        c.wf(),
        c.bound,
    ensures
        apply_commands(apply_commands(w, push_down_commands(c)), push_down_commands(c))
            == apply_commands(w, push_down_commands(c)),
        frame_commands(c, idle_input(), true) == push_down_commands(c),
        run_frame(run_frame(c, w, idle_input(), true).0, run_frame(c, w, idle_input(), true).1, idle_input(), true)
            == run_frame(c, w, idle_input(), true),
{
    let p = push_down_commands(c);
    let a = if c.running { Command::Resume } else { Command::Pause };
    lemma_apply_two(w, Command::SetSpeed, a);
    lemma_apply_two(apply_commands(w, p), Command::SetSpeed, a);
    assert(edit_commands(c, idle_input()) =~= Seq::<Command>::empty());
    assert(frame_commands(c, idle_input(), true) =~= p);
    assert(next_view(c, idle_input(), true) == c);
}

/// The same frame input, `n` times.
pub open spec fn repeated(input: FrameInput, n: nat) -> Seq<FrameInput> {
    Seq::new(n, |_i: int| input)
}

proof fn lemma_repeated_last(input: FrameInput, n: nat)
    requires
        n >= 1,
    ensures
        repeated(input, n).drop_last() == repeated(input, (n - 1) as nat),
        repeated(input, n).last() == input,
{
    assert(repeated(input, n).drop_last() =~= repeated(input, (n - 1) as nat));
}

proof fn lemma_speed_frame(c: ControllerView, w: World, step: SpeedStep)
    requires
        c.wf(),
        c.bound,
    ensures
        run_frame(c, w, speed_input(step), true).0 == c,
        run_frame(c, w, speed_input(step), true).1.player.speed == scaled(w.player.speed, step),
{
    let a = if c.running { Command::Resume } else { Command::Pause };
    assert(frame_commands(c, speed_input(step), true) =~= seq![
        Command::ScaleSpeed(step),
        Command::SetSpeed,
        a,
    ]);
    lemma_apply_three(w, Command::ScaleSpeed(step), Command::SetSpeed, a);
    assert(next_view(c, speed_input(step), true) == c);
}

/// Speed edits compound: from a player speed `s`, `n` frames that each carry
/// one "speed up" edge leave the player at `s * (6/5)^n`, and `n` frames of
/// "speed down" at `s * (4/5)^n`; the controller's own state does not change.
pub proof fn lemma_speed_compounding(c: ControllerView, w: World, step: SpeedStep, n: nat)
    requires
        c.wf(),
        c.bound,
    ensures
        run_frames(c, w, repeated(speed_input(step), n), true).0 == c,
        run_frames(c, w, repeated(speed_input(step), n), true).1.player.speed == (Ratio {
            num: w.player.speed.num * pow(speed_factor(step).0 as int, n),
            den: w.player.speed.den * pow(speed_factor(step).1 as int, n),
        }),
    decreases n,
{
    let f = speed_factor(step);
    reveal(pow);
    if n == 0 {
        assert(pow(f.0 as int, 0) == 1);
        assert(pow(f.1 as int, 0) == 1);
    } else {
        let inputs = repeated(speed_input(step), n);
        lemma_repeated_last(speed_input(step), n);
        lemma_speed_compounding(c, w, step, (n - 1) as nat);
        let (c1, w1) = run_frames(c, w, repeated(speed_input(step), (n - 1) as nat), true);
        lemma_speed_frame(c1, w1, step);
        let a = w.player.speed.num;
        let b = w.player.speed.den;
        let pn = pow(f.0 as int, (n - 1) as nat);
        let pd = pow(f.1 as int, (n - 1) as nat);
        let x = f.0 as int;
        let y = f.1 as int;
        assert(a * pn * x == a * (x * pn)) by (nonlinear_arith);
        assert(b * pd * y == b * (y * pd)) by (nonlinear_arith);
    }
}

proof fn lemma_seek_frame(c: ControllerView, w: World, step: SeekStep)
    requires
        c.wf(),
        c.bound,
    ensures
        run_frame(c, w, seek_input(step), true).0 == c,
        run_frame(c, w, seek_input(step), true).1.offset == seeked(w.player.elapsed, step),
        run_frame(c, w, seek_input(step), true).1.player.elapsed == w.player.elapsed,
{
    let a = if c.running { Command::Resume } else { Command::Pause };
    assert(frame_commands(c, seek_input(step), true) =~= seq![
        Command::Seek(step),
        Command::SetSpeed,
        a,
    ]);
    lemma_apply_three(w, Command::Seek(step), Command::SetSpeed, a);
    assert(next_view(c, seek_input(step), true) == c);
}

/// Seeks read the player's live elapsed time, never the stored offset: a
/// "seek forward" frame and then a "seek backward" frame, with no time passing
/// for the player, leave the offset at the player's elapsed time minus one
/// step, whatever the offset was before.
pub proof fn lemma_seek_uses_live_elapsed(c: ControllerView, w: World)
    requires
        c.wf(),
        c.bound,
    ensures
        run_frame(c, w, seek_input(SeekStep::Forward), true).1.offset == seeked(
            w.player.elapsed,
            SeekStep::Forward,
        ),
        run_frames(
            c,
            w,
            seq![seek_input(SeekStep::Forward), seek_input(SeekStep::Backward)],
            true,
        ).1.offset == seeked(w.player.elapsed, SeekStep::Backward),
{
    let inputs = seq![seek_input(SeekStep::Forward), seek_input(SeekStep::Backward)];
    assert(inputs.drop_last() =~= seq![seek_input(SeekStep::Forward)]);
    assert(inputs.drop_last().drop_last() =~= Seq::<FrameInput>::empty());
    lemma_seek_frame(c, w, SeekStep::Forward);
    let (c1, w1) = run_frame(c, w, seek_input(SeekStep::Forward), true);
    lemma_seek_frame(c1, w1, SeekStep::Backward);
    assert(run_frames(c, w, inputs.drop_last().drop_last(), true) == (c, w));
    assert(run_frames(c, w, inputs.drop_last(), true) == (c1, w1));
    assert(run_frames(c, w, inputs, true) == run_frame(c1, w1, seek_input(SeekStep::Backward), true));
}

proof fn lemma_absent_frames(c: ControllerView, w: World, inputs: Seq<FrameInput>)
    requires
        c.wf(),
    ensures
        run_frames(c, w, inputs, false).1 == w,
        run_frames(c, w, inputs, false).0.bound == c.bound,
        run_frames(c, w, inputs, false).0.active_clip == c.active_clip,
        run_frames(c, w, inputs, false).0.clip_count == c.clip_count,
    decreases inputs.len(),
{
    if inputs.len() > 0 {
        lemma_absent_frames(c, w, inputs.drop_last());
        let (c1, w1) = run_frames(c, w, inputs.drop_last(), false);
        assert(frame_commands(c1, inputs.last(), false) =~= Seq::<Command>::empty());
    }
}

/// No frame of a bound controller binds again.
pub proof fn lemma_bound_never_binds(s: ControllerView, input: FrameInput, present: bool)
    requires
        s.bound,
    ensures
        forall|k: int|
            0 <= k < frame_commands(s, input, present).len() ==> !(frame_commands(
                s,
                input,
                present,
            )[k] is Bind),
{
    let t = after_toggle(s, input);
    assert(t.bound);
    assert(bind_commands(t, present) =~= Seq::<Command>::empty());
}

/// Binding is deferred without blocking: while the player is absent, frames
/// issue no command at all and leave the controller unbound and on its clip;
/// the first frame with the player present starts with the one bind, of that
/// clip, and no other command of it binds; after it the controller is bound,
/// and a bound controller never binds again.
pub proof fn lemma_deferred_bind(
    c: ControllerView,
    w: World,
    absent: Seq<FrameInput>,
    input: FrameInput,
)
    requires
        c.wf(),
        !c.bound,
    ensures
        forall|s: ControllerView, i: FrameInput| frame_commands(s, i, false).len() == 0,
        run_frames(c, w, absent, false).1 == w,
        !run_frames(c, w, absent, false).0.bound,
        ({
            let cn = run_frames(c, w, absent, false).0;
            let cmds = frame_commands(cn, input, true);
            &&& cmds.len() >= 1
            &&& cmds[0] == Command::Bind(c.active_clip)
            &&& forall|k: int| 1 <= k < cmds.len() ==> !(cmds[k] is Bind)
            &&& next_view(cn, input, true).bound
        }),
{
    lemma_absent_frames(c, w, absent);
    let cn = run_frames(c, w, absent, false).0;
    let t = after_toggle(cn, input);
    assert(bind_commands(t, true) =~= seq![Command::Bind(c.active_clip)]);
    let cmds = frame_commands(cn, input, true);
    assert forall|k: int| 1 <= k < cmds.len() implies !(cmds[k] is Bind) by {
        assert(cmds[k] == (edit_commands(t, input) + push_down_commands(t))[k - 1]);
    }
}

proof fn lemma_next_clip_frame(c: ControllerView, w: World)
    requires
        c.wf(),
        c.bound,
    ensures
        run_frame(c, w, next_clip_input(), true).0 == (ControllerView {
            active_clip: next_clip_index(c.active_clip as nat, c.clip_count as nat) as usize,
            ..c
        }),
        run_frame(c, w, next_clip_input(), true).1.player.clip == Some(
            next_clip_index(c.active_clip as nat, c.clip_count as nat) as usize,
        ),
{
    let i = next_clip_index(c.active_clip as nat, c.clip_count as nat) as usize;
    let a = if c.running { Command::Resume } else { Command::Pause };
    assert(frame_commands(c, next_clip_input(), true) =~= seq![
        Command::PlayRepeating(i),
        Command::SetSpeed,
        a,
    ]);
    lemma_apply_three(w, Command::PlayRepeating(i), Command::SetSpeed, a);
}

/// Clip cycling is cyclic at the controller: from clip `i` of `len`, `k`
/// frames that each carry a "next clip" edge make clip `(i + k) mod len`
/// active and playing, and `len` of them bring the controller back to `i`.
pub proof fn lemma_clip_cycling(c: ControllerView, w: World, k: nat)
    requires
        c.wf(),
        c.bound,
    ensures
        run_frames(c, w, repeated(next_clip_input(), k), true).0 == (ControllerView {
            active_clip: ((c.active_clip + k) as int % (c.clip_count as int)) as usize,
            ..c
        }),
        k >= 1 ==> run_frames(c, w, repeated(next_clip_input(), k), true).1.player.clip == Some(
            ((c.active_clip + k) as int % (c.clip_count as int)) as usize,
        ),
        run_frames(c, w, repeated(next_clip_input(), c.clip_count as nat), true).0 == c,
{
    lemma_clip_frames(c, w, k);
    lemma_clip_frames(c, w, c.clip_count as nat);
    lemma_clip_cycle(c.active_clip as nat, k, c.clip_count as nat);
    lemma_clip_cycle(c.active_clip as nat, c.clip_count as nat, c.clip_count as nat);
}

proof fn lemma_clip_frames(c: ControllerView, w: World, k: nat)
    requires
        c.wf(),
        c.bound,
    ensures
        run_frames(c, w, repeated(next_clip_input(), k), true).0 == (ControllerView {
            active_clip: clip_after(c.active_clip as nat, k, c.clip_count as nat) as usize,
            ..c
        }),
        k >= 1 ==> run_frames(c, w, repeated(next_clip_input(), k), true).1.player.clip == Some(
            clip_after(c.active_clip as nat, k, c.clip_count as nat) as usize,
        ),
    decreases k,
{
    lemma_clip_cycle(c.active_clip as nat, k, c.clip_count as nat);
    if k >= 1 {
        lemma_repeated_last(next_clip_input(), k);
        lemma_clip_frames(c, w, (k - 1) as nat);
        lemma_clip_cycle(c.active_clip as nat, (k - 1) as nat, c.clip_count as nat);
        let (c1, w1) = run_frames(c, w, repeated(next_clip_input(), (k - 1) as nat), true);
        lemma_next_clip_frame(c1, w1);
    }
}

} // verus!

use fox_playback::clips::{ClipRegistry, ConfigError};
use fox_playback::controller::{
    Command, FrameInput, PlaybackController, SeekStep, SpeedStep, SEEK_STEP_DEN, SEEK_STEP_NUM,
};
use fox_playback::rotation::{rotation_angle, NANORADIANS_PER_NANOSECOND};
use fox_playback::ui::{button_label, on_button, paused_label, ButtonInteraction};

/// A stand-in for the animation player and the float half of the state.
struct Player {
    clip: Option<usize>,
    speed: f32,
    elapsed: f32,
    paused: bool,
    repeat: bool,
    state_speed: f32,
    state_offset: f32,
    binds: usize,
}

impl Player {
    fn new() -> Player {
        Player {
            clip: None,
            speed: 1.0,
            elapsed: 0.0,
            paused: false,
            repeat: false,
            state_speed: 1.0,
            state_offset: 0.0,
            binds: 0,
        }
    }

    fn play(&mut self, i: usize) {
        if self.clip != Some(i) || self.paused {
            self.clip = Some(i);
            self.speed = 1.0;
            self.elapsed = 0.0;
            self.paused = false;
        }
        self.repeat = true;
    }

    fn run(&mut self, cmds: &[Command]) {
        for c in cmds {
            match *c {
                Command::Bind(i) => {
                    self.binds += 1;
                    self.speed = self.state_speed;
                    self.play(i);
                }
                Command::SetSpeed => self.speed = self.state_speed,
                Command::Resume => self.paused = false,
                Command::Pause => self.paused = true,
                Command::PlayRepeating(i) => self.play(i),
                Command::ScaleSpeed(step) => {
                    let (n, d) = step.factor();
                    self.state_speed = self.speed * (n as f32 / d as f32);
                }
                Command::Seek(step) => {
                    let s = SEEK_STEP_NUM as f32 / SEEK_STEP_DEN as f32;
                    self.state_offset = match step {
                        SeekStep::Backward => self.elapsed - s,
                        SeekStep::Forward => self.elapsed + s,
                    };
                }
            }
        }
    }
}

fn registry() -> ClipRegistry<&'static str> {
    ClipRegistry::new(vec!["A", "B", "C"]).unwrap()
}

fn with(f: impl Fn(&mut FrameInput)) -> FrameInput {
    let mut i = FrameInput::idle();
    f(&mut i);
    i
}

fn close(a: f32, b: f32) -> bool {
    (a - b).abs() < 1e-5
}

#[test]
fn empty_registry_is_rejected() {
    let r: Result<ClipRegistry<&str>, ConfigError> = ClipRegistry::new(vec![]);
    assert_eq!(r.err(), Some(ConfigError::EmptyRegistry));
}

#[test]
fn registry_keeps_order() {
    let reg = registry();
    assert_eq!(reg.len(), 3);
    assert_eq!(*reg.get(0), "A");
    assert_eq!(*reg.get(2), "C");
    assert_eq!(reg.next_index(0), 1);
    assert_eq!(reg.next_index(2), 0);
}

#[test]
fn new_controller_is_paused_unbound_on_first_clip() {
    let c = PlaybackController::new(&registry());
    assert!(!c.is_running());
    assert!(!c.is_bound());
    assert_eq!(c.active_clip(), 0);
    assert_eq!(c.clip_count(), 3);
}

#[test]
fn end_to_end_scenario() {
    let reg = registry();
    let mut c = PlaybackController::new(&reg);
    let mut p = Player::new();
    assert_eq!(button_label(c.is_running()), "Play");

    let cmds = c.frame(&FrameInput::idle(), true);
    assert_eq!(cmds, vec![Command::Bind(0), Command::SetSpeed, Command::Pause]);
    p.run(&cmds);
    assert_eq!(p.clip, Some(0));
    assert_eq!(*reg.get(p.clip.unwrap()), "A");
    assert!(p.repeat);
    assert_eq!(p.speed, 1.0);

    let cmds = c.frame(&with(|i| i.toggle_pause = true), true);
    assert_eq!(cmds, vec![Command::SetSpeed, Command::Resume]);
    p.run(&cmds);
    assert!(c.is_running());
    assert!(!p.paused);
    assert_eq!(button_label(c.is_running()), "Stop");

    for _ in 0..2 {
        let cmds = c.frame(&with(|i| i.speed_up = true), true);
        assert_eq!(
            cmds,
            vec![Command::ScaleSpeed(SpeedStep::Up), Command::SetSpeed, Command::Resume]
        );
        p.run(&cmds);
    }
    assert!(close(p.speed, 1.44));

    let cmds = c.frame(&with(|i| i.next_clip = true), true);
    assert_eq!(cmds, vec![Command::PlayRepeating(1), Command::SetSpeed, Command::Resume]);
    p.run(&cmds);
    assert_eq!(c.active_clip(), 1);
    assert_eq!(*reg.get(p.clip.unwrap()), "B");
    assert!(p.repeat);
    assert_eq!(p.binds, 1);
}

#[test]
fn push_down_twice_changes_nothing() {
    let mut c = PlaybackController::new(&registry());
    let mut p = Player::new();
    p.run(&c.frame(&with(|i| i.toggle_pause = true), true));
    p.state_speed = 2.5;
    let first = c.frame(&FrameInput::idle(), true);
    p.run(&first);
    let (speed, paused) = (p.speed, p.paused);
    let second = c.frame(&FrameInput::idle(), true);
    assert_eq!(first, second);
    p.run(&second);
    assert_eq!((p.speed, p.paused), (speed, paused));
    assert_eq!((speed, paused), (2.5, false));
}

#[test]
fn speed_up_and_down_compound() {
    let mut c = PlaybackController::new(&registry());
    let mut p = Player::new();
    p.run(&c.frame(&FrameInput::idle(), true));
    for _ in 0..3 {
        p.run(&c.frame(&with(|i| i.speed_up = true), true));
    }
    assert!(close(p.speed, 1.2f32.powi(3)));
    for _ in 0..2 {
        p.run(&c.frame(&with(|i| i.speed_down = true), true));
    }
    assert!(close(p.speed, 1.2f32.powi(3) * 0.8f32.powi(2)));
}

#[test]
fn speed_factors_are_six_fifths_and_four_fifths() {
    assert_eq!(SpeedStep::Up.factor(), (6, 5));
    assert_eq!(SpeedStep::Down.factor(), (4, 5));
}

#[test]
fn speed_edits_read_the_player_not_the_state() {
    let mut c = PlaybackController::new(&registry());
    let mut p = Player::new();
    p.run(&c.frame(&FrameInput::idle(), true));
    p.speed = 3.0;
    p.state_speed = 100.0;
    let cmds = c.frame(&with(|i| i.speed_down = true), true);
    p.run(&cmds[..1]);
    assert!(close(p.state_speed, 2.4));
}

#[test]
fn up_and_down_in_one_frame_keep_the_last() {
    let mut c = PlaybackController::new(&registry());
    let cmds = c.frame(
        &with(|i| {
            i.speed_up = true;
            i.speed_down = true;
        }),
        true,
    );
    assert_eq!(
        cmds,
        vec![
            Command::Bind(0),
            Command::ScaleSpeed(SpeedStep::Up),
            Command::ScaleSpeed(SpeedStep::Down),
            Command::SetSpeed,
            Command::Pause
        ]
    );
}

#[test]
fn clip_cycling_wraps_round() {
    let mut c = PlaybackController::new(&registry());
    c.frame(&FrameInput::idle(), true);
    let mut seen = vec![];
    for _ in 0..7 {
        c.frame(&with(|i| i.next_clip = true), true);
        seen.push(c.active_clip());
    }
    assert_eq!(seen, vec![1, 2, 0, 1, 2, 0, 1]);
}

#[test]
fn single_clip_registry_stays_on_it() {
    let reg = ClipRegistry::new(vec!["only"]).unwrap();
    let mut c = PlaybackController::new(&reg);
    c.frame(&FrameInput::idle(), true);
    let cmds = c.frame(&with(|i| i.next_clip = true), true);
    assert_eq!(cmds[0], Command::PlayRepeating(0));
    assert_eq!(c.active_clip(), 0);
}

#[test]
fn seek_forward_then_backward_uses_live_elapsed() {
    let mut c = PlaybackController::new(&registry());
    let mut p = Player::new();
    p.run(&c.frame(&FrameInput::idle(), true));
    p.elapsed = 2.0;
    p.state_offset = 7.0;
    p.run(&c.frame(&with(|i| i.seek_forward = true), true));
    assert!(close(p.state_offset, 2.1));
    p.run(&c.frame(&with(|i| i.seek_backward = true), true));
    assert!(close(p.state_offset, 1.9));
}

#[test]
fn bind_waits_for_the_player() {
    let mut c = PlaybackController::new(&registry());
    let mut p = Player::new();
    for _ in 0..5 {
        let cmds = c.frame(
            &with(|i| {
                i.speed_up = true;
                i.next_clip = true;
            }),
            false,
        );
        assert!(cmds.is_empty());
        assert!(!c.is_bound());
        assert_eq!(c.active_clip(), 0);
    }
    let cmds = c.frame(&FrameInput::idle(), true);
    assert_eq!(cmds[0], Command::Bind(0));
    assert!(c.is_bound());
    p.run(&cmds);
    for _ in 0..3 {
        let cmds = c.frame(&FrameInput::idle(), true);
        assert!(!cmds.iter().any(|c| matches!(c, Command::Bind(_))));
        p.run(&cmds);
    }
    assert_eq!(p.binds, 1);
}

#[test]
fn toggle_works_while_unbound() {
    let mut c = PlaybackController::new(&registry());
    let cmds = c.frame(&with(|i| i.toggle_pause = true), false);
    assert!(cmds.is_empty());
    assert!(c.is_running());
    let cmds = c.frame(&FrameInput::idle(), true);
    assert_eq!(cmds, vec![Command::Bind(0), Command::SetSpeed, Command::Resume]);
}

#[test]
fn rotation_is_gated_by_running() {
    let mut total = 0u64;
    for dt in [16_666_667u64, 8_000_000, 33_000_000] {
        total += rotation_angle(false, dt);
    }
    assert_eq!(total, 0);
    assert_eq!(rotation_angle(true, 16_666_667), 16_666_667 * NANORADIANS_PER_NANOSECOND);
    assert_eq!(rotation_angle(true, 0), 0);
}

#[test]
fn button_click_toggles_and_hover_shows_label() {
    let mut c = PlaybackController::new(&registry());
    assert_eq!(on_button(&mut c, ButtonInteraction::Hovered), Some("Play"));
    assert_eq!(on_button(&mut c, ButtonInteraction::Idle), Some("Play"));
    assert!(!c.is_running());
    assert_eq!(on_button(&mut c, ButtonInteraction::Clicked), None);
    assert!(c.is_running());
    assert_eq!(on_button(&mut c, ButtonInteraction::Idle), Some("Stop"));
}

#[test]
fn paused_label_only_while_paused() {
    assert_eq!(paused_label(false), Some("Paused"));
    assert_eq!(paused_label(true), None);
}

use flow_beat::audio::{commands, AudioCommand, CommandPoll, RenderControl};

fn noise(amplitude: f32) -> f32 {
    (rand::random::<f32>() * 2.0 - 1.0) * amplitude
}

#[test]
fn apply_sets_amplitude_on_command() {
    let mut state = RenderControl::new(0i32);
    let warn = state.apply(CommandPoll::Command(AudioCommand::SetAmplitude(9)));
    assert!(!warn);
    assert_eq!(state.amplitude(), 9);
    assert!(!state.disconnected);
}

#[test]
fn apply_keeps_amplitude_when_empty() {
    let mut state = RenderControl::new(4i32);
    assert!(!state.apply(CommandPoll::Empty));
    assert_eq!(state.amplitude(), 4);
}

#[test]
fn disconnect_warns_only_on_first_sight() {
    let mut state = RenderControl::new(1u8);
    assert!(state.apply(CommandPoll::Disconnected));
    assert!(state.disconnected);
    assert!(!state.apply(CommandPoll::Disconnected));
    assert!(!state.apply(CommandPoll::Empty));
    assert!(!state.apply(CommandPoll::Disconnected));
    assert_eq!(state.amplitude(), 1);
}

#[test]
fn dropped_sender_is_reported_once_across_polls() {
    let (tx, rx) = commands::<f32>();
    drop(tx);
    let mut state = RenderControl::new(0.0f32);
    let warnings: Vec<bool> = (0..5).map(|_| state.poll_commands(&rx)).collect();
    assert_eq!(warnings, vec![true, false, false, false, false]);
    assert!(state.disconnected);
}

#[test]
fn one_command_drained_per_buffer_in_send_order() {
    let (tx, rx) = commands::<i32>();
    for v in [10, 20, 30] {
        tx.send(AudioCommand::SetAmplitude(v)).unwrap();
    }
    let mut state = RenderControl::new(0i32);
    let mut buffer = [0i32; 3];
    let mut seen = Vec::new();
    for _ in 0..4 {
        state.render(&rx, &mut buffer, &|a: i32| a);
        seen.push(state.amplitude());
        assert!(buffer.iter().all(|s| *s == state.amplitude()));
    }
    assert_eq!(seen, vec![10, 20, 30, 30]);
}

#[test]
fn half_amplitude_into_signed_sixteen_bit_frames() {
    let (tx, rx) = commands::<f32>();
    tx.send(AudioCommand::SetAmplitude(0.5)).unwrap();
    let mut state = RenderControl::new(0.0f32);
    let mut frames = [i16::MIN; 4];
    let to_i16 = |a: f32| (noise(a) * 32768.0) as i16;
    let warn = state.render(&rx, &mut frames, &to_i16);
    assert!(!warn);
    assert_eq!(state.amplitude(), 0.5);
    for f in frames.iter() {
        assert!((*f as i32).abs() <= 16384);
    }
}

#[test]
fn full_scale_frames_saturate() {
    let (tx, rx) = commands::<f32>();
    tx.send(AudioCommand::SetAmplitude(4.0)).unwrap();
    tx.send(AudioCommand::SetAmplitude(-4.0)).unwrap();
    let mut state = RenderControl::new(0.0f32);
    let mut frames = [0i16; 16];
    let to_i16 = |a: f32| (a * 32768.0) as i16;
    state.render(&rx, &mut frames, &to_i16);
    assert_eq!(state.amplitude(), 4.0);
    assert!(frames.iter().all(|f| *f == i16::MAX));
    state.render(&rx, &mut frames, &to_i16);
    assert_eq!(state.amplitude(), -4.0);
    assert!(frames.iter().all(|f| *f == i16::MIN));
}

#[test]
fn without_commands_the_stream_stays_silent() {
    let (_tx, rx) = commands::<f32>();
    let mut state = RenderControl::new(0.0f32);
    let mut frames = [1.0f32; 8];
    for _ in 0..10 {
        let warn = state.render(&rx, &mut frames, &noise);
        assert!(!warn);
        assert_eq!(state.amplitude(), 0.0);
        assert!(frames.iter().all(|s| *s == 0.0));
    }
}

use spatial_sink::position::{PositionTriple, PositionWrite};
use spatial_sink::timer::PeriodicTimer;
use spatial_sink::{OutputStreamHandle, PlayError, SpatialSink, Vec3, UNITY};

fn v(x: f32, y: f32, z: f32) -> Vec3 {
    [x.to_bits(), y.to_bits(), z.to_bits()]
}

fn open_sink() -> SpatialSink<u32> {
    let stream = OutputStreamHandle::new(true);
    match SpatialSink::try_new(&stream, v(0.0, 0.0, 0.0), v(-1.0, 0.0, 0.0), v(1.0, 0.0, 0.0)) {
        Ok(s) => s,
        Err(_) => panic!("an open stream must give a handle"),
    }
}

#[test]
fn fresh_handle_state() {
    let s = open_sink();
    assert_eq!(s.len(), 0);
    assert!(s.empty());
    assert!(!s.is_paused());
    assert_eq!(s.volume(), UNITY);
    assert_eq!(f32::from_bits(s.volume()), 1.0);
    assert_eq!(f32::from_bits(s.speed()), 1.0);
    let p = s.positions();
    assert_eq!(p.emitter, v(0.0, 0.0, 0.0));
    assert_eq!(p.left_ear, v(-1.0, 0.0, 0.0));
    assert_eq!(p.right_ear, v(1.0, 0.0, 0.0));
}

#[test]
fn factory_failure_on_closed_stream() {
    let stream = OutputStreamHandle::new(false);
    let r: Result<SpatialSink<u32>, PlayError> =
        SpatialSink::try_new(&stream, v(0.0, 0.0, 0.0), v(-1.0, 0.0, 0.0), v(1.0, 0.0, 0.0));
    assert!(matches!(r, Err(PlayError::NoDevice)));
}

#[test]
fn queue_length() {
    let mut s = open_sink();
    assert_eq!(s.len(), 0);
    assert!(s.empty());
    s.append(1, 44100, 1);
    s.append(2, 44100, 1);
    s.append(3, 44100, 1);
    assert_eq!(s.len(), 3);
    assert!(!s.empty());
    s.clear();
    assert_eq!(s.len(), 0);
    assert!(s.empty());
    assert!(s.is_paused());
}

#[test]
fn clear_drops_sources_and_pauses() {
    let mut s = open_sink();
    s.append(7, 48000, 2);
    s.clear();
    assert!(s.empty());
    assert!(s.is_paused());
    assert!(!s.tick());
    assert!(s.current_mut().is_none());
    assert!(s.finish_current().is_none());
}

#[test]
fn stop_drops_sources_keeps_play_state() {
    let mut s = open_sink();
    s.append(7, 48000, 2);
    s.append(8, 48000, 2);
    s.stop();
    assert_eq!(s.len(), 0);
    assert!(!s.is_paused());
}

#[test]
fn pause_semantics() {
    let mut s = open_sink();
    s.append(1, 44100, 1);
    s.pause();
    assert!(s.is_paused());
    s.pause();
    assert!(s.is_paused());
    assert_eq!(s.len(), 1);
    s.play();
    assert!(!s.is_paused());
    s.play();
    assert!(!s.is_paused());
    assert_eq!(s.len(), 1);
}

#[test]
fn volume_and_speed_forwarding() {
    let mut s = open_sink();
    s.set_volume(0.5f32.to_bits());
    assert_eq!(f32::from_bits(s.volume()), 0.5);
    s.set_speed(2.0f32.to_bits());
    assert_eq!(f32::from_bits(s.speed()), 2.0);
    assert_eq!(f32::from_bits(s.volume()), 0.5);
}

#[test]
fn initial_state_propagation() {
    let mut s = open_sink();
    let e = v(3.0, 4.0, 5.0);
    s.set_emitter_position(e);
    s.append(42, 44100, 2);
    match s.current_mut() {
        Some(f) => {
            assert_eq!(f.positions().emitter, e);
            assert_eq!(*f.input_mut(), 42);
        }
        None => panic!("the appended source must be playing"),
    }
    assert!(s.tick());
    let f = s.current_mut().unwrap();
    assert_eq!(f.positions().emitter, e);
    assert_eq!(f.positions().left_ear, v(-1.0, 0.0, 0.0));
}

#[test]
fn refresh_period_for_stereo_cd_rate() {
    let t = PeriodicTimer::for_interval(10, 44100, 2);
    assert_eq!(t.period, 882);
    assert_eq!(t.remaining, 1);
    assert_eq!(PeriodicTimer::for_interval(10, 48000, 1).period, 480);
    assert_eq!(PeriodicTimer::for_interval(10, 0, 2).period, 1);
    assert_eq!(PeriodicTimer::for_interval(10, 99, 1).period, 1);
    assert_eq!(PeriodicTimer::for_interval(u64::MAX, u32::MAX, u16::MAX).period, u64::MAX);
}

#[test]
fn timer_fires_once_per_period() {
    let mut t = PeriodicTimer::new(3);
    let fired: Vec<bool> = (0..7).map(|_| t.pull()).collect();
    assert_eq!(fired, vec![true, false, false, true, false, false, true]);
}

#[test]
fn update_latency_within_one_period() {
    let mut s = open_sink();
    s.append(1, 1000, 1);
    // The period is 10 samples at 1000 Hz mono; the first pull fires.
    assert!(s.tick());
    let l = v(-2.0, 1.0, 0.0);
    s.set_left_ear_position(l);
    let mut seen_at = 0;
    for i in 1..=10 {
        s.tick();
        if s.current_mut().unwrap().positions().left_ear == l {
            seen_at = i;
            break;
        }
    }
    assert_eq!(seen_at, 10);
}

#[test]
fn mid_playback_pan() {
    let mut s = open_sink();
    s.set_emitter_position(v(-10.0, 0.0, 0.0));
    s.append(5, 1000, 1);
    for _ in 0..1000 {
        s.tick();
    }
    assert_eq!(s.current_mut().unwrap().positions().emitter, v(-10.0, 0.0, 0.0));
    s.set_emitter_position(v(10.0, 0.0, 0.0));
    for _ in 0..1000 {
        s.tick();
    }
    assert_eq!(s.current_mut().unwrap().positions().emitter, v(10.0, 0.0, 0.0));
}

#[test]
fn rapid_updates_keep_last_value() {
    let mut s = open_sink();
    s.append(9, 44100, 2);
    let a = v(1.0, 0.0, 0.0);
    let b = v(-1.0, 0.0, 0.0);
    for i in 0..10_000u32 {
        s.set_emitter_position(if i % 2 == 0 { a } else { b });
        s.tick();
    }
    assert_eq!(s.positions().emitter, b);
    for _ in 0..882 {
        s.tick();
    }
    assert_eq!(s.current_mut().unwrap().positions().emitter, b);
}

#[test]
fn snapshot_after_field_writes() {
    let mut t = PositionTriple::new(v(0.0, 0.0, 0.0), v(-1.0, 0.0, 0.0), v(1.0, 0.0, 0.0));
    t.apply(PositionWrite::Emitter(v(1.0, 2.0, 3.0)));
    t.apply(PositionWrite::LeftEar(v(-5.0, 0.0, 0.0)));
    t.apply(PositionWrite::Emitter(v(4.0, 5.0, 6.0)));
    let snap = t.snapshot();
    assert_eq!(snap.emitter, v(4.0, 5.0, 6.0));
    assert_eq!(snap.left_ear, v(-5.0, 0.0, 0.0));
    assert_eq!(snap.right_ear, v(1.0, 0.0, 0.0));
}

#[test]
fn finished_source_leaves_queue() {
    let mut s = open_sink();
    s.append(1, 44100, 1);
    s.append(2, 44100, 1);
    let first = s.finish_current().unwrap();
    assert_eq!(first.into_inner(), 1);
    assert_eq!(s.len(), 1);
    assert_eq!(*s.current_mut().unwrap().input_mut(), 2);
}

#[test]
fn detach_hands_over_queue() {
    let mut s = open_sink();
    s.set_right_ear_position(v(2.0, 0.0, 0.0));
    s.append(10, 44100, 1);
    s.append(11, 44100, 1);
    let rest = s.detach();
    assert_eq!(rest.len(), 2);
    assert_eq!(rest[0].input, 10);
    assert_eq!(rest[1].input, 11);
    assert_eq!(rest[1].positions.right_ear, v(2.0, 0.0, 0.0));
}

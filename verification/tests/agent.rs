use spud::agent::mood::FRAME_INTERVAL_NANOS;
use spud::agent::{
    load_default_pack, parse_mood_map, Agent, AsciiFrame, FacePack, FacePackMeta, Mood,
    MoodEngine, PackError,
};
use spud::clock::{Moment, Span};

/// A pack whose frames say which mood and which frame they are: the
/// only line of a frame is the number `mood * 16 + frame`.
fn test_pack(frames_per_mood: usize) -> FacePack {
    let mut frames = Vec::new();
    for mood in 0..Mood::COUNT {
        let mut mood_frames = Vec::new();
        for f in 0..frames_per_mood {
            let tag = (mood * 16 + f) as u8;
            mood_frames.push(AsciiFrame {
                lines: vec![tag.to_string()],
            });
        }
        frames.push(mood_frames);
    }
    FacePack {
        frames,
        frames_per_mood,
    }
}

fn tag(frame: &AsciiFrame) -> u8 {
    frame.lines[0].parse().unwrap()
}

fn start() -> Moment {
    Moment::from_nanos(5_000_000_000)
}

fn after_millis(now: Moment, millis: u64) -> Moment {
    now.later(Span::from_millis(millis))
}

#[test]
fn initial_state() {
    let now = start();
    let engine = MoodEngine::new(test_pack(3), now);
    assert_eq!(engine.mood(), Mood::Neutral);
    // Frame 0 of Neutral: tag = 0*16+0 = 0
    assert_eq!(tag(engine.current_frame()), 0);
}

#[test]
fn mood_transition_resets_frame() {
    let now = start();
    let mut engine = MoodEngine::new(test_pack(3), now);

    // Advance past frame 0
    let t1 = after_millis(now, 300);
    engine.tick(t1);
    assert_eq!(tag(engine.current_frame()), 0 * 16 + 1); // Neutral frame 1

    // Switch mood: should reset to frame 0
    let t2 = after_millis(t1, 10);
    engine.set_mood(Mood::Angry, t2);
    assert_eq!(engine.mood(), Mood::Angry);
    // Frame 0 of Angry: tag = 2*16+0 = 32
    assert_eq!(tag(engine.current_frame()), 2 * 16);
}

#[test]
fn same_mood_is_noop() {
    let now = start();
    let mut engine = MoodEngine::new(test_pack(3), now);

    // Advance to frame 1
    let t1 = after_millis(now, 300);
    engine.tick(t1);
    assert_eq!(tag(engine.current_frame()), 1); // Neutral frame 1

    // Setting same mood should NOT reset
    engine.set_mood(Mood::Neutral, t1);
    assert_eq!(tag(engine.current_frame()), 1); // still frame 1
}

#[test]
fn frame_cycling() {
    let now = start();
    let mut engine = MoodEngine::new(test_pack(3), now);

    for (step, expected_frame) in [0u8, 1, 2, 0, 1].iter().enumerate() {
        let shown = tag(engine.current_frame());
        assert_eq!(
            shown, *expected_frame,
            "step {step}: expected frame {expected_frame}"
        );
        engine.tick(after_millis(now, 300 * (step as u64 + 1)));
    }
}

#[test]
fn frame_wraps_around() {
    let now = start();
    let mut engine = MoodEngine::new(test_pack(3), now);

    // Advance through all 3 frames and wrap
    for i in 1..=3 {
        engine.tick(after_millis(now, 300 * i));
    }
    // Should be back to frame 0
    assert_eq!(tag(engine.current_frame()), 0);
}

#[test]
fn no_advance_before_interval() {
    let now = start();
    let mut engine = MoodEngine::new(test_pack(3), now);

    // Tick just before the interval
    engine.tick(after_millis(now, 299));
    assert_eq!(tag(engine.current_frame()), 0); // still frame 0

    // Tick at exactly the interval
    engine.tick(after_millis(now, 300));
    assert_eq!(tag(engine.current_frame()), 1); // frame 1
}

#[test]
fn tick_catches_up_on_long_gap() {
    let now = start();
    let mut engine = MoodEngine::new(test_pack(3), now);

    // Skip 750ms in one tick: should advance 2 frames (600ms worth), not just 1
    engine.tick(after_millis(now, 750));
    assert_eq!(tag(engine.current_frame()), 2); // frame 2, not 1
}

#[test]
fn tick_keeps_what_is_left_of_the_time() {
    let now = start();
    let mut engine = MoodEngine::new(test_pack(3), now);
    engine.tick(after_millis(now, 750));
    // 150 ms count towards the next interval
    engine.tick(after_millis(now, 899));
    assert_eq!(tag(engine.current_frame()), 2);
    engine.tick(after_millis(now, 900));
    assert_eq!(tag(engine.current_frame()), 0);
    // a clock that goes back changes nothing
    engine.tick(now);
    assert_eq!(tag(engine.current_frame()), 0);
    assert_eq!(FRAME_INTERVAL_NANOS, 300_000_000);
}

#[test]
fn tick_over_a_very_long_gap_wraps_many_times() {
    let now = Moment::from_nanos(0);
    let mut engine = MoodEngine::new(test_pack(7), now);
    // 1_000_000 intervals and a bit: 1_000_000 % 7 == 1
    engine.tick(Moment::from_nanos(300_000_000 * 1_000_000 + 5));
    assert_eq!(tag(engine.current_frame()), 1);
}

#[test]
fn mood_ordinal_values() {
    assert_eq!(Mood::Neutral as usize, 0);
    assert_eq!(Mood::Happy as usize, 1);
    assert_eq!(Mood::Angry as usize, 2);
    assert_eq!(Mood::GodMode as usize, 3);
    assert_eq!(Mood::HurtRealBad as usize, 4);
    assert_eq!(Mood::Thinking as usize, 5);
    for mood in Mood::ALL {
        assert_eq!(mood.ordinal(), mood as usize);
    }
}

#[test]
fn mood_all_matches_count() {
    assert_eq!(Mood::ALL.len(), Mood::COUNT);
}

#[test]
fn face_pack_rejects_missing_mood_rows() {
    let frames = vec![vec![AsciiFrame::from_lines(&["x"])]];
    let err = FacePack::new(frames).unwrap_err();
    assert!(err.message().contains("must define"));
    assert_eq!(err, PackError::WrongMoodCount { found: 1 });
    assert_eq!(err.message(), "face pack must define 6 moods, got 1");
}

#[test]
fn face_pack_rejects_zero_frames() {
    let mut frames = Vec::new();
    for _ in 0..Mood::COUNT {
        frames.push(Vec::new());
    }
    let err = FacePack::new(frames).unwrap_err();
    assert!(err.message().contains("at least one frame"));
    assert_eq!(err, PackError::NoFrames);
}

#[test]
fn face_pack_rejects_inconsistent_frame_counts() {
    let mut frames = Vec::new();
    frames.push(vec![AsciiFrame::from_lines(&["a"])]);
    for _ in 1..Mood::COUNT {
        frames.push(vec![
            AsciiFrame::from_lines(&["a"]),
            AsciiFrame::from_lines(&["b"]),
        ]);
    }
    let err = FacePack::new(frames).unwrap_err();
    assert!(err.message().contains("expected"));
    assert_eq!(
        err,
        PackError::UnevenFrames {
            mood: 1,
            found: 2,
            expected: 1
        }
    );
    assert_eq!(err.message(), "mood index 1 has 2 frames, expected 1");
}

#[test]
fn face_pack_keeps_the_frames_it_is_given() {
    let pack = test_pack(2);
    let made = FacePack::new(pack.frames.clone()).unwrap();
    assert_eq!(made, pack);
    assert_eq!(
        AsciiFrame::from_lines(&["a", "bc"]).lines,
        vec!["a".to_string(), "bc".to_string()]
    );
}

#[test]
fn default_pack_is_valid() {
    let pack = load_default_pack().unwrap();
    assert_eq!(pack.frames.len(), Mood::COUNT);
    assert_eq!(pack.frames_per_mood, 3);
    assert_eq!(pack.frames[0][0].lines[1], " | o   o | ");
    assert_eq!(pack.frames[5][2].lines[2], " |   _   |?");
}

fn make_meta(moods: &[(&str, usize)]) -> FacePackMeta {
    FacePackMeta {
        sprite_size: [2, 2],
        frames_per_mood: 1,
        moods: moods.iter().map(|&(k, v)| (k.to_string(), v)).collect(),
    }
}

fn all_moods() -> Vec<(&'static str, usize)> {
    vec![
        ("neutral", 0),
        ("happy", 1),
        ("angry", 2),
        ("god_mode", 3),
        ("hurt_real_bad", 4),
        ("thinking", 5),
    ]
}

#[test]
fn parse_mood_map_valid() {
    let meta = make_meta(&all_moods());
    let map = parse_mood_map(&meta).unwrap();
    assert_eq!(map[Mood::Neutral as usize], 0);
    assert_eq!(map[Mood::GodMode as usize], 3);
    assert_eq!(map[Mood::Thinking as usize], 5);
}

#[test]
fn parse_mood_map_reordered() {
    // JSON rows don't match enum order: map should still resolve correctly
    let meta = make_meta(&[
        ("neutral", 5),
        ("happy", 4),
        ("angry", 3),
        ("god_mode", 2),
        ("hurt_real_bad", 1),
        ("thinking", 0),
    ]);
    let map = parse_mood_map(&meta).unwrap();
    assert_eq!(map[Mood::Neutral as usize], 5);
    assert_eq!(map[Mood::Thinking as usize], 0);
}

#[test]
fn parse_mood_map_missing_mood() {
    let mut moods = all_moods();
    moods.retain(|&(k, _)| k != "god_mode");
    let meta = make_meta(&moods);
    let err = parse_mood_map(&meta).unwrap_err();
    assert!(
        err.message().contains("god_mode"),
        "error should name the missing mood: {}",
        err.message()
    );
    assert_eq!(err, PackError::MissingMood("god_mode".to_string()));
    assert_eq!(
        err.message(),
        "missing mood \"god_mode\" in face pack metadata"
    );
}

#[test]
fn parse_mood_map_takes_the_later_of_two_entries() {
    let mut moods = all_moods();
    moods.push(("happy", 9));
    let map = parse_mood_map(&make_meta(&moods)).unwrap();
    assert_eq!(map, [0, 9, 2, 3, 4, 5]);
}

#[test]
fn agent_shows_the_frames_of_its_engine() {
    let now = start();
    let mut agent = Agent::from_pack(test_pack(3), now);
    assert_eq!(agent.mood(), Mood::Neutral);
    assert_eq!(tag(agent.current_frame()), 0);
    agent.tick(after_millis(now, 650));
    assert_eq!(tag(agent.current_frame()), 2);
    agent.set_mood(Mood::GodMode, after_millis(now, 700));
    assert_eq!(agent.mood(), Mood::GodMode);
    assert_eq!(tag(agent.current_frame()), 3 * 16);
    agent.tick(after_millis(now, 1000));
    assert_eq!(tag(agent.current_frame()), 3 * 16 + 1);
}

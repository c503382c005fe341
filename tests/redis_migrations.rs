use distributed_timer::color::Color;
use distributed_timer::redis_migrations::display_options::{
    display_options_or_default, DisplayOptionsV0, RedisDisplayOptions,
};
use distributed_timer::redis_migrations::pre_start_behaviour::{
    PreStartBehaviourV0, PreStartBehaviourV1, RedisPreStartBehaviour,
};
use distributed_timer::redis_migrations::segment::{default_zero, RedisSegment, SegmentV0, SegmentV1};
use distributed_timer::redis_migrations::sound::{RedisSound, SoundV0};
use distributed_timer::redis_migrations::timer::{RedisTimer, TimerV0, TimerV1};
use distributed_timer::redis_migrations::timer_metadata::{RedisTimerMetadata, TimerMetadataV0};
use distributed_timer::timer::{DisplayOptions, PreStartBehaviour, Timer};

fn boulder_color() -> Option<Color> {
    Some(Color::deserialize("#26A269").unwrap())
}

#[test]
fn test_v0() {
    let timer = RedisTimer::V0(TimerV0 {
        segments: vec![RedisSegment::V0(SegmentV0 {
            label: "Boulder".to_string(),
            time: 230000,
            sound: true,
            color: boulder_color(),
            count_to: 11000,
        })],
        id: "v0".to_string(),
        repeat: true,
        display_options: Some(RedisDisplayOptions::V0(DisplayOptionsV0 {
            clock: false,
            pre_start_behaviour: RedisPreStartBehaviour::V0(PreStartBehaviourV0::ShowZero),
        })),
        start_at: 1688236579108,
        stop_at: None,
        password: "test".to_string(),
    });

    let timer: Timer = timer.into();
    assert_eq!(timer.segments.len(), 1);
    assert_eq!(timer.segments[0].label, "Boulder");
    assert_eq!(timer.segments[0].sounds.len(), 2);
    assert_eq!(timer.segments[0].sounds[0].filename, "beep.mp3");
    assert_eq!(timer.segments[0].sounds[0].trigger_time, 60);
    assert_eq!(timer.segments[0].sounds[1].filename, "countdown.mp3");
    assert_eq!(timer.segments[0].sounds[1].trigger_time, 5);
    assert_eq!(timer.metadata.delay_start_stop, 0);
    assert_eq!(
        timer.display_options.pre_start_behaviour,
        PreStartBehaviour::ShowFirstSegment
    );
}

#[test]
fn test_v1() {
    let timer = RedisTimer::V1(TimerV1 {
        segments: vec![RedisSegment::V1(SegmentV1 {
            label: "Boulder".to_string(),
            time: 230000,
            color: boulder_color(),
            count_to: 11000,
            sounds: vec![RedisSound::V0(SoundV0 {
                filename: "beep.mp3".to_string(),
                trigger_time: 60,
            })],
        })],
        id: "v0".to_string(),
        repeat: true,
        display_options: Some(RedisDisplayOptions::V0(DisplayOptionsV0 {
            clock: false,
            pre_start_behaviour: RedisPreStartBehaviour::V1(PreStartBehaviourV1::ShowLastSegment),
        })),
        start_at: 1688236579108,
        stop_at: None,
        password: "test".to_string(),
        metadata: RedisTimerMetadata::V0(TimerMetadataV0 { delay_start_stop: 5 }),
    });

    let timer: Timer = timer.into();
    assert_eq!(timer.segments.len(), 1);
    assert_eq!(timer.segments[0].label, "Boulder");
    assert_eq!(timer.segments[0].sounds.len(), 1);
    assert_eq!(timer.segments[0].sounds[0].filename, "beep.mp3");
    assert_eq!(timer.segments[0].sounds[0].trigger_time, 60);
    assert_eq!(timer.metadata.delay_start_stop, 5);
    assert_eq!(
        timer.display_options.pre_start_behaviour,
        PreStartBehaviour::ShowLastSegment
    );
}

#[test]
fn v0_segment_without_sound_flag_has_no_sounds() {
    let seg = SegmentV0 {
        label: "Rest".to_string(),
        time: 1000,
        sound: false,
        color: None,
        count_to: default_zero(),
    };
    let seg = seg.into();
    assert!(seg.sounds.is_empty());
    assert_eq!(seg.count_to, 0);
    assert_eq!(seg.label, "Rest");
}

#[test]
fn missing_display_options_take_defaults() {
    let d = display_options_or_default(None);
    assert_eq!(d, DisplayOptions { clock: false, pre_start_behaviour: PreStartBehaviour::ShowFirstSegment });
    assert_eq!(d, DisplayOptions::default());
}

#[test]
fn pre_start_promotions() {
    assert_eq!(PreStartBehaviourV0::ShowZero.into(), PreStartBehaviour::ShowFirstSegment);
    assert_eq!(PreStartBehaviourV0::RunNormally.into(), PreStartBehaviour::RunNormally);
    assert_eq!(PreStartBehaviourV1::RunNormally.into(), PreStartBehaviour::RunNormally);
    assert_eq!(RedisPreStartBehaviour::default().into(), PreStartBehaviour::ShowFirstSegment);
    let v0 = DisplayOptionsV0 {
        clock: true,
        pre_start_behaviour: RedisPreStartBehaviour::V0(PreStartBehaviourV0::RunNormally),
    };
    assert_eq!(
        v0.into(),
        DisplayOptions { clock: true, pre_start_behaviour: PreStartBehaviour::RunNormally }
    );
}

#[test]
fn v1_timer_keeps_stored_fields_in_order() {
    let seg = |label: &str| {
        RedisSegment::V1(SegmentV1 {
            label: label.to_string(),
            time: 10,
            color: None,
            count_to: 0,
            sounds: vec![],
        })
    };
    let timer = RedisTimer::V1(TimerV1 {
        segments: vec![seg("a"), seg("b"), seg("c")],
        repeat: false,
        display_options: None,
        start_at: 7,
        stop_at: Some(9),
        password: "hash".to_string(),
        id: "abc".to_string(),
        metadata: RedisTimerMetadata::V0(TimerMetadataV0 { delay_start_stop: 3 }),
    });
    let timer: Timer = timer.into();
    let labels: Vec<&str> = timer.segments.iter().map(|s| s.label.as_str()).collect();
    assert_eq!(labels, vec!["a", "b", "c"]);
    assert_eq!(timer.stop_at, Some(9));
    assert_eq!(timer.start_at, 7);
    assert_eq!(timer.password, "hash");
    assert_eq!(timer.id, "abc");
    assert_eq!(timer.display_options, DisplayOptions::default());
}

use dos_like::sound::SoundMode;
use dos_like::video::{VideoMode, VideoModeKind};

fn all_video_modes() -> Vec<VideoMode> {
    vec![
        VideoMode::Text40x25_8x8,
        VideoMode::Text40x25_9x16,
        VideoMode::Text80x25_8x8,
        VideoMode::Text80x25_8x16,
        VideoMode::Text80x25_9x16,
        VideoMode::Text80x43_8x8,
        VideoMode::Text80x50_8x8,
        VideoMode::Graphics320x200,
        VideoMode::Graphics320x240,
        VideoMode::Graphics320x400,
        VideoMode::Graphics640x200,
        VideoMode::Graphics640x350,
        VideoMode::Graphics640x400,
        VideoMode::Graphics640x480,
    ]
}

fn all_sound_modes() -> Vec<SoundMode> {
    vec![
        SoundMode::Mono8bit5000,
        SoundMode::Mono8bit8000,
        SoundMode::Mono8bit11025,
        SoundMode::Mono8bit16000,
        SoundMode::Mono8bit22050,
        SoundMode::Mono8bit32000,
        SoundMode::Mono8bit44100,
        SoundMode::Mono16Bit5000,
        SoundMode::Mono16Bit8000,
        SoundMode::Mono16Bit11025,
        SoundMode::Mono16Bit16000,
        SoundMode::Mono16Bit22050,
        SoundMode::Mono16Bit32000,
        SoundMode::Mono16Bit44100,
        SoundMode::Stereo8Bit5000,
        SoundMode::Stereo8Bit8000,
        SoundMode::Stereo8Bit11025,
        SoundMode::Stereo8Bit16000,
        SoundMode::Stereo8Bit22050,
        SoundMode::Stereo8Bit32000,
        SoundMode::Stereo8Bit44100,
        SoundMode::Stereo16Bit5000,
        SoundMode::Stereo16Bit8000,
        SoundMode::Stereo16Bit11025,
        SoundMode::Stereo16Bit16000,
        SoundMode::Stereo16Bit22050,
        SoundMode::Stereo16Bit32000,
        SoundMode::Stereo16Bit44100,
    ]
}

#[test]
fn video_mode_native_round_trip_every_value() {
    for (i, m) in all_video_modes().into_iter().enumerate() {
        assert_eq!(m.to_native(), i as u32);
        assert_eq!(VideoMode::from_native(i as u32), Some(m));
    }
}

#[test]
fn video_mode_unknown_native_is_none() {
    assert_eq!(VideoMode::from_native(14), None);
    assert_eq!(VideoMode::from_native(u32::MAX), None);
}

#[test]
fn video_mode_kinds() {
    assert_eq!(VideoMode::Text80x25_8x16.kind(), VideoModeKind::Text);
    assert_eq!(VideoMode::Graphics320x200.kind(), VideoModeKind::Graphics);
    assert!(VideoMode::Graphics640x480.is_graphics());
    assert!(!VideoMode::Graphics640x480.is_text());
    assert!(VideoMode::Text40x25_8x8.is_text());
    assert!(!VideoMode::Text40x25_8x8.is_graphics());
}

#[test]
fn video_mode_resolution_only_for_graphics() {
    for m in all_video_modes() {
        assert_eq!(m.resolution().is_some(), m.is_graphics());
    }
    assert_eq!(VideoMode::Graphics640x350.resolution(), Some((640, 350)));
    assert_eq!(VideoMode::Text80x50_8x8.resolution(), None);
}

#[test]
fn video_mode_buffer_len_is_width_times_height() {
    for m in all_video_modes() {
        if let Some((w, h)) = m.resolution() {
            assert_eq!(m.buffer_len(), w as usize * h as usize);
        }
    }
    assert_eq!(VideoMode::Graphics320x200.buffer_len(), 64000);
}

#[test]
fn sound_mode_native_round_trip_every_value() {
    for (i, m) in all_sound_modes().into_iter().enumerate() {
        assert_eq!(m.to_native(), i as u32);
        assert_eq!(SoundMode::from_native(i as u32), Some(m));
    }
}

#[test]
fn sound_mode_unknown_native_is_none() {
    assert_eq!(SoundMode::from_native(28), None);
    assert_eq!(SoundMode::from_native(u32::MAX), None);
}

#[test]
fn sound_mode_shape() {
    assert_eq!(SoundMode::Mono8bit11025.bits(), 8);
    assert_eq!(SoundMode::Mono8bit11025.channels(), 1);
    assert_eq!(SoundMode::Mono8bit11025.sample_rate(), 11025);
    assert_eq!(SoundMode::Stereo16Bit44100.bits(), 16);
    assert_eq!(SoundMode::Stereo16Bit44100.channels(), 2);
    assert_eq!(SoundMode::Stereo16Bit44100.sample_rate(), 44100);
    assert_eq!(SoundMode::Stereo8Bit5000.bits(), 8);
    assert_eq!(SoundMode::Stereo8Bit5000.channels(), 2);
    assert_eq!(SoundMode::Stereo8Bit5000.sample_rate(), 5000);
    assert_eq!(SoundMode::Mono16Bit32000.bits(), 16);
    assert_eq!(SoundMode::Mono16Bit32000.channels(), 1);
    assert_eq!(SoundMode::Mono16Bit32000.sample_rate(), 32000);
}

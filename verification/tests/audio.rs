use dos_like::music::{Music, Soundbank, MUSIC_CHANNELS};
use dos_like::sound::{Sound, SOUND_CHANNELS};
use dos_like::FileError;

#[test]
fn channel_counts() {
    assert_eq!(MUSIC_CHANNELS, 16);
    assert_eq!(SOUND_CHANNELS, 16);
}

#[test]
fn create_sound_copies_its_arguments() {
    let samples = [1u16, 2, 3, 4];
    let s = Sound::create_sound(2, 22050, &samples);
    assert_eq!(s.channels(), 2);
    assert_eq!(s.sample_rate(), 22050);
    assert_eq!(s.samples(), &samples);
}

#[test]
fn create_sound_with_empty_buffer() {
    let s = Sound::create_sound(1, 8000, &[]);
    assert_eq!(s.channels(), 1);
    assert_eq!(s.sample_rate(), 8000);
    assert!(s.samples().is_empty());
}

#[test]
fn create_mus_keeps_the_bytes() {
    let bytes = [b'M', b'U', b'S', 0x1a, 1, 2, 3];
    let m = Music::create_mus(&bytes);
    assert_eq!(m.data(), &bytes);
}

#[test]
fn soundbank_defaults_and_ids() {
    assert_eq!(Soundbank::default_awe32().id(), 1);
    assert_eq!(Soundbank::default_sb16().id(), 2);
}

#[test]
fn soundbank_from_id_rejects_zero() {
    assert!(Soundbank::from_id(0).is_none());
    let s = Soundbank::from_id(9).expect("non-zero id");
    assert_eq!(s.id(), 9);
}

#[test]
fn soundbank_install_sentinel() {
    assert!(matches!(Soundbank::from_install_id(0), Err(FileError::FileNotFound)));
    let s = Soundbank::from_install_id(3).expect("non-zero id");
    assert_eq!(s.id(), 3);
}

use retro_games::sound::{AudioAction, AudioCommand, SoundEffect, SoundId};

#[test]
fn play_starts_once() {
    let mut audio = Vec::new();
    let mut effect = SoundEffect::new(SoundId::Apple, 250_000);
    effect.play(&mut audio);
    assert!(effect.is_playing);
    assert_eq!(effect.next_play_in, 250_000);
    effect.play(&mut audio);
    assert_eq!(audio, vec![AudioCommand { sound: SoundId::Apple, action: AudioAction::Play }]);
}

#[test]
fn one_shot_is_stopped_by_the_first_update_after_its_duration() {
    let mut audio = Vec::new();
    let mut effect = SoundEffect::new(SoundId::Wall, 200_000);
    effect.play(&mut audio);
    effect.update(100_000, &mut audio);
    effect.update(100_000, &mut audio);
    assert_eq!(effect.next_play_in, 0);
    effect.update(100_000, &mut audio);
    assert!(effect.is_playing);
    assert_eq!(audio.len(), 1);
    effect.update(100_000, &mut audio);
    assert!(!effect.is_playing);
    assert_eq!(effect.next_play_in, -100_000);
    assert_eq!(
        audio,
        vec![
            AudioCommand { sound: SoundId::Wall, action: AudioAction::Play },
            AudioCommand { sound: SoundId::Wall, action: AudioAction::Stop },
        ]
    );
    assert!(effect.can_play());
}

#[test]
fn looping_sound_is_never_stopped_by_time() {
    let mut audio = Vec::new();
    let mut effect = SoundEffect::new(SoundId::Ufo, 1_700_000);
    effect.set_loop(true);
    effect.play(&mut audio);
    for _ in 0..10 {
        effect.update(1_000_000, &mut audio);
    }
    assert!(effect.is_playing);
    assert_eq!(audio, vec![AudioCommand { sound: SoundId::Ufo, action: AudioAction::PlayLooping }]);
}

#[test]
fn reset_always_stops() {
    let mut audio = Vec::new();
    let mut effect = SoundEffect::new(SoundId::Ufo, 1_700_000);
    effect.reset(&mut audio);
    assert!(!effect.is_playing);
    assert_eq!(effect.next_play_in, 0);
    assert_eq!(audio, vec![AudioCommand { sound: SoundId::Ufo, action: AudioAction::Stop }]);
}

#[test]
fn fresh_sound_cannot_play_until_time_has_passed() {
    let mut audio = Vec::new();
    let mut effect = SoundEffect::new(SoundId::InvaderMoveLow, 200_000);
    assert!(!effect.can_play());
    effect.update(1, &mut audio);
    assert!(effect.can_play());
    assert!(audio.is_empty());
}

use tamaureus::ieee::{Double, Single};
use tamaureus::player::{
    Actor, LoadOutcome, Mode, PlaybackState, PlayerError, PositionEvent, PositionFilter,
};

fn single(value: f32) -> Single {
    Single::from_bits(value.to_bits())
}

fn number(single: Single) -> f32 {
    f32::from_bits(single.to_bits())
}

fn seconds(value: f64) -> Double {
    Double::from_bits(value.to_bits())
}

fn playing() -> Actor {
    let mut actor = Actor::new();
    assert!(actor.finish_play(LoadOutcome::Ready(Some(seconds(180.0)))).is_ok());
    actor
}

#[test]
fn new_actor_is_empty_at_full_volume() {
    let actor = Actor::new();
    let state = actor.snapshot();
    assert!(state.is_empty);
    assert!(!state.is_paused);
    assert_eq!(number(state.volume), 1.0);
    assert_eq!(number(actor.volume()), 1.0);
    assert_eq!(actor.generation(), 0);
    assert_eq!(actor.mode(), Mode::Empty);
}

#[test]
fn play_pause_resume_stop_scenario() {
    let mut actor = Actor::new();
    let reply = actor.finish_play(LoadOutcome::Ready(Some(seconds(180.0))));
    assert_eq!(reply.map(|d| f64::from_bits(d.to_bits())), Ok(180.0));
    assert_eq!(number(actor.set_volume(single(0.5))), 0.5);
    assert_eq!(
        actor.snapshot(),
        PlaybackState { is_paused: false, is_empty: false, volume: single(0.5) }
    );
    assert!(actor.pause());
    assert!(actor.snapshot().is_paused);
    assert!(!actor.snapshot().is_empty);
    assert!(actor.resume());
    assert!(!actor.snapshot().is_paused);
    actor.stop();
    let state = actor.snapshot();
    assert!(state.is_empty);
    assert_eq!(number(state.volume), 0.5);
}

#[test]
fn play_of_a_valid_file_leaves_a_track_playing() {
    let mut actor = Actor::new();
    let reply = actor.finish_play(LoadOutcome::Ready(Some(seconds(12.25))));
    let length = f64::from_bits(reply.unwrap().to_bits());
    assert!(length >= 0.0);
    assert_eq!(length, 12.25);
    assert!(!actor.snapshot().is_empty);
    assert_eq!(actor.mode(), Mode::Playing);
}

#[test]
fn play_of_unknown_length_replies_zero() {
    let mut actor = Actor::new();
    let reply = actor.finish_play(LoadOutcome::Ready(None));
    assert_eq!(reply, Ok(Double::zero()));
    assert_eq!(actor.mode(), Mode::Playing);
}

#[test]
fn play_never_replies_a_negative_length() {
    for told in [-1.0f64, -0.0, f64::NAN, f64::NEG_INFINITY] {
        let mut actor = Actor::new();
        let reply = actor.finish_play(LoadOutcome::Ready(Some(seconds(told))));
        assert_eq!(reply, Ok(Double::zero()));
        assert_eq!(actor.mode(), Mode::Playing);
    }
    let mut actor = Actor::new();
    let reply = actor.finish_play(LoadOutcome::Ready(Some(seconds(f64::INFINITY))));
    assert_eq!(reply, Ok(seconds(f64::INFINITY)));
    assert!(seconds(0.5).is_non_negative());
    assert!(!seconds(-0.5).is_non_negative());
}

#[test]
fn failed_load_keeps_the_playing_track() {
    let mut actor = playing();
    let before = actor.snapshot();
    assert_eq!(actor.finish_play(LoadOutcome::OpenFailed), Err(PlayerError::FileOpenError));
    assert_eq!(actor.snapshot(), before);
    assert_eq!(actor.finish_play(LoadOutcome::DecodeFailed), Err(PlayerError::DecodeError));
    assert_eq!(actor.snapshot(), before);
    assert!(!before.is_empty && !before.is_paused);
}

#[test]
fn failed_load_keeps_pause_and_generation() {
    let mut actor = playing();
    assert!(actor.pause());
    assert!(actor.seek(single(3.0)).is_some());
    let before = actor.snapshot();
    assert!(actor.finish_play(LoadOutcome::OpenFailed).is_err());
    assert_eq!(actor.snapshot(), before);
    assert!(before.is_paused);
    assert_eq!(actor.generation(), 1);
}

#[test]
fn failed_load_on_an_empty_actor_stays_empty() {
    let mut actor = Actor::new();
    assert!(actor.finish_play(LoadOutcome::DecodeFailed).is_err());
    assert!(actor.snapshot().is_empty);
}

#[test]
fn play_replaces_a_paused_track_and_resets_the_generation() {
    let mut actor = playing();
    assert!(actor.seek(single(1.0)).is_some());
    assert!(actor.seek(single(2.0)).is_some());
    assert!(actor.pause());
    assert_eq!(actor.generation(), 2);
    assert!(actor.finish_play(LoadOutcome::Ready(None)).is_ok());
    assert_eq!(actor.generation(), 0);
    assert_eq!(actor.mode(), Mode::Playing);
}

#[test]
fn pause_and_resume_are_idempotent() {
    let mut actor = Actor::new();
    assert!(!actor.pause());
    assert!(!actor.resume());
    assert_eq!(actor.mode(), Mode::Empty);
    let mut actor = playing();
    assert!(!actor.resume());
    assert_eq!(actor.mode(), Mode::Playing);
    assert!(actor.pause());
    assert!(!actor.pause());
    assert_eq!(actor.mode(), Mode::Paused);
    assert!(actor.resume());
    assert!(!actor.resume());
    assert_eq!(actor.mode(), Mode::Playing);
}

#[test]
fn stop_empties_from_every_mode() {
    let mut actor = Actor::new();
    actor.stop();
    assert!(actor.snapshot().is_empty);
    let mut actor = playing();
    actor.stop();
    assert!(actor.snapshot().is_empty);
    let mut actor = playing();
    actor.pause();
    actor.stop();
    assert!(actor.snapshot().is_empty);
    assert!(!actor.snapshot().is_paused);
}

#[test]
fn set_volume_clamps_and_keeps_the_mode() {
    let mut actor = playing();
    assert_eq!(number(actor.set_volume(single(1.7))), 1.0);
    assert_eq!(number(actor.snapshot().volume), 1.0);
    assert_eq!(number(actor.set_volume(single(-4.0))), 0.0);
    assert_eq!(number(actor.snapshot().volume), 0.0);
    assert_eq!(number(actor.set_volume(single(0.3))), 0.3);
    assert_eq!(number(actor.snapshot().volume), 0.3);
    assert_eq!(number(actor.set_volume(single(f32::NAN))), 0.0);
    assert_eq!(actor.mode(), Mode::Playing);
    let mut actor = Actor::new();
    assert_eq!(number(actor.set_volume(single(0.25))), 0.25);
    assert_eq!(actor.mode(), Mode::Empty);
}

#[test]
fn seek_raises_the_generation_by_one() {
    let mut actor = playing();
    assert_eq!(actor.seek(single(30.0)), Some(single(30.0)));
    assert_eq!(actor.generation(), 1);
    actor.pause();
    assert_eq!(actor.seek(single(-5.0)), Some(single(0.0)));
    assert_eq!(actor.generation(), 2);
    assert_eq!(actor.mode(), Mode::Paused);
}

#[test]
fn seek_without_a_track_changes_nothing() {
    let mut actor = Actor::new();
    assert_eq!(actor.seek(single(30.0)), None);
    assert_eq!(actor.generation(), 0);
    assert_eq!(actor.mode(), Mode::Empty);
}

#[test]
fn length_told_to_a_caller_is_never_negative() {
    assert_eq!(LoadOutcome::length(Some(seconds(2.5))), seconds(2.5));
    assert_eq!(LoadOutcome::length(Some(seconds(-2.5))), Double::zero());
    assert_eq!(LoadOutcome::length(Some(seconds(f64::NAN))), Double::zero());
    assert_eq!(LoadOutcome::length(None), Double::zero());
}

#[test]
fn refused_seek_is_reported() {
    assert_eq!(Actor::finish_seek(true), Ok(()));
    assert_eq!(Actor::finish_seek(false), Err(PlayerError::SeekUnsupported));
}

#[test]
fn tick_broadcasts_only_while_playing() {
    let mut actor = Actor::new();
    assert_eq!(actor.tick(false, single(0.0)), None);
    assert_eq!(actor.tick(true, single(0.0)), None);
    let mut actor = playing();
    assert_eq!(
        actor.tick(true, single(1.5)),
        Some(PositionEvent { position: single(1.5), generation: 0 })
    );
    actor.seek(single(60.0));
    assert_eq!(
        actor.tick(true, single(60.0)),
        Some(PositionEvent { position: single(60.0), generation: 1 })
    );
    actor.pause();
    assert_eq!(actor.tick(true, single(60.0)), None);
    assert_eq!(actor.mode(), Mode::Paused);
}

#[test]
fn tick_empties_an_actor_whose_track_ran_out() {
    let mut actor = playing();
    assert_eq!(actor.tick(false, single(180.0)), None);
    assert_eq!(actor.mode(), Mode::Empty);
    assert!(actor.snapshot().is_empty);
    let mut actor = playing();
    actor.pause();
    assert_eq!(actor.tick(false, single(1.0)), None);
    assert_eq!(actor.mode(), Mode::Paused);
}

#[test]
fn listener_drops_positions_older_than_its_seek() {
    let mut actor = playing();
    let mut filter = PositionFilter::new();
    let before = actor.tick(true, single(10.0)).unwrap();
    assert!(filter.admits(&before));
    filter.note_seek();
    actor.seek(single(90.0));
    assert_eq!(filter.threshold(), actor.generation());
    assert!(!filter.admits(&before));
    let after = actor.tick(true, single(90.0)).unwrap();
    assert!(filter.admits(&after));
    filter.note_play();
    assert_eq!(filter.threshold(), 0);
    assert!(filter.admits(&before));
}

#[test]
fn error_messages() {
    assert_eq!(PlayerError::FileOpenError.message(), "Failed to open file");
    assert_eq!(PlayerError::DecodeError.message(), "Decoder build failed");
    assert_eq!(PlayerError::SeekUnsupported.message(), "Seek failed");
    assert_eq!(PlayerError::ChannelDisconnected.message(), "Thread disconnected");
}

#[test]
fn listener_keeps_the_highest_generation_it_has_seen() {
    let mut filter = PositionFilter::new();
    let old = PositionEvent { position: single(4.0), generation: 0 };
    let new = PositionEvent { position: single(50.0), generation: 2 };
    assert_eq!(filter.observe(&old), Some(single(4.0)));
    assert_eq!(filter.threshold(), 0);
    assert_eq!(filter.observe(&new), Some(single(50.0)));
    assert_eq!(filter.threshold(), 2);
    assert_eq!(filter.observe(&old), None);
    assert_eq!(filter.threshold(), 2);
    assert_eq!(filter.observe(&new), Some(single(50.0)));
    filter.note_seek();
    assert_eq!(filter.observe(&new), None);
    assert_eq!(filter.threshold(), 3);
}

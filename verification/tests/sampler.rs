use rssi_presence::ble::detection::Detector;
use rssi_presence::ble::sampler::Sampler;
use rssi_presence::errors::AppError;

#[test]
fn sampler_emits_nothing_before_the_window_is_full() {
    let mut sampler: Sampler<i16> = Sampler::new(10).unwrap();
    for i in 0..9 {
        assert_eq!(sampler.feed(i), None);
    }
    assert_eq!(sampler.feed(9), Some((0..10).collect::<Vec<i16>>()));
}

#[test]
fn sampler_slides_by_one_reading_per_feed() {
    let mut sampler: Sampler<i16> = Sampler::new(10).unwrap();
    let mut emitted: Vec<Vec<i16>> = Vec::new();
    let mut feeds_at_tenth = 0;
    for i in 0..100 {
        if let Some(window) = sampler.feed(i) {
            emitted.push(window);
            if emitted.len() == 10 {
                feeds_at_tenth = i + 1;
            }
        }
    }
    assert_eq!(emitted.len(), 91);
    assert_eq!(emitted[0], (0..10).collect::<Vec<i16>>());
    assert_eq!(feeds_at_tenth, 19);
    assert_eq!(emitted[9], (9..19).collect::<Vec<i16>>());
    assert_eq!(emitted[90], (90..100).collect::<Vec<i16>>());
}

#[test]
fn sampler_emits_one_window_per_feed_once_warm() {
    let mut sampler: Sampler<i16> = Sampler::new(3).unwrap();
    sampler.feed(1);
    sampler.feed(2);
    for i in 3..40 {
        let window = sampler.feed(i).unwrap();
        assert_eq!(window, vec![i - 2, i - 1, i]);
    }
}

#[test]
fn sampler_carries_floats() {
    let mut sampler: Sampler<f32> = Sampler::new(5).unwrap();
    let mut emitted: Vec<Vec<f32>> = Vec::new();
    for i in 0..20 {
        if let Some(window) = sampler.feed(i as f32 * 0.1) {
            emitted.push(window);
        }
    }
    assert_eq!(emitted.len(), 16);
    assert_eq!(emitted[0], vec![0.0, 0.1, 0.2, 0.3, 0.4]);
    assert_eq!(
        emitted[15],
        vec![15.0 * 0.1, 16.0 * 0.1, 17.0 * 0.1, 18.0 * 0.1, 19.0 * 0.1]
    );
}

#[test]
fn sampler_without_room_is_refused() {
    let made: Result<Sampler<i16>, AppError> = Sampler::new(0);
    assert!(matches!(made, Err(AppError::ConfigError)));
}

#[test]
fn undelivered_window_is_a_send_error() {
    assert!(matches!(Sampler::<i16>::delivery_result(true), Ok(())));
    assert!(matches!(
        Sampler::<i16>::delivery_result(false),
        Err(AppError::SampleSendError)
    ));
}

#[test]
fn detector_forwards_to_its_sampler() {
    let mut detector: Detector<i16> = Detector::new(2).unwrap();
    assert_eq!(detector.process(-60), None);
    assert_eq!(detector.process(-61), Some(vec![-60, -61]));
    assert_eq!(detector.process(-62), Some(vec![-61, -62]));
}

#[test]
fn detector_without_room_is_refused() {
    let made: Result<Detector<i16>, AppError> = Detector::new(0);
    assert!(matches!(made, Err(AppError::ConfigError)));
}

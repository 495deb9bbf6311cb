use kara::{plan_callback, stereo_to_mono, transcription_feed, write_silence, FeedPlan};

#[test]
fn downmix_halves_and_sums_each_pair() {
    assert_eq!(stereo_to_mono(&[100, 100, -100, -100]), vec![100, -100]);
}

#[test]
fn downmix_drops_an_unpaired_trailing_sample() {
    assert_eq!(stereo_to_mono(&[1, 2, 3]), vec![1]);
}

#[test]
fn downmix_of_empty_input_is_empty() {
    assert_eq!(stereo_to_mono(&[]), Vec::<i16>::new());
}

#[test]
fn downmix_extremes_stay_in_range() {
    assert_eq!(stereo_to_mono(&[i16::MIN, i16::MIN]), vec![i16::MIN]);
    assert_eq!(stereo_to_mono(&[i16::MAX, i16::MAX]), vec![32766]);
    assert_eq!(stereo_to_mono(&[-7, 5]), vec![-1]);
}

#[test]
fn silence_frame_is_constant_and_same_length() {
    let frame = write_silence(4);
    assert_eq!(frame, vec![327, 327, 327, 327]);
    assert_eq!(write_silence(0), Vec::<i16>::new());
}

#[test]
fn transcription_feed_downmixes_only_multichannel_frames() {
    let adjusted: Vec<i16> = vec![10, 20, 30, 40];
    assert_eq!(transcription_feed(&adjusted, 2), vec![15, 35]);
    assert_eq!(transcription_feed(&adjusted, 1), vec![10, 20, 30, 40]);
}

#[test]
fn callback_plan_follows_the_session_flags() {
    assert_eq!(plan_callback(false, false), FeedPlan::Placeholder);
    assert_eq!(plan_callback(false, true), FeedPlan::Placeholder);
    assert_eq!(plan_callback(true, false), FeedPlan::VisualiseAndTranscribe);
    assert_eq!(plan_callback(true, true), FeedPlan::VisualiseOnly);
}

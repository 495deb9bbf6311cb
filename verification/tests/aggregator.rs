use kara::stream::processing::{convert_buffer, merge_buffers, merge_pair};
use kara::stream::{refresh_interval_ms, AudioStream, Event, Response};
use kara::Config;

fn small_config() -> Config {
    Config {
        buffering: 2,
        smoothing_size: 1,
        smoothing_amount: 1,
        resolution: 4,
        refresh_rate: 1,
        frequency_scale_start: 1,
        frequency_scale_end: 2,
        frequency_scale_amount: 1,
        density_reduction: 2,
        max_frequency: 1,
        volume: 100,
    }
}

#[test]
fn default_config_matches_the_stock_tuning() {
    let c = Config::default();
    assert_eq!(c.buffering, 5);
    assert_eq!(c.smoothing_size, 10);
    assert_eq!(c.smoothing_amount, 5);
    assert_eq!(c.resolution, 3000);
    assert_eq!(c.refresh_rate, 60);
    assert_eq!(c.frequency_scale_start, 50);
    assert_eq!(c.frequency_scale_end, 1000);
    assert_eq!(c.frequency_scale_amount, 1);
    assert_eq!(c.density_reduction, 5);
    assert_eq!(c.max_frequency, 12500);
    assert_eq!(c.volume, 320);
}

#[test]
fn window_transform_takes_scaled_group_peaks() {
    let window: Vec<i16> = vec![1, -2, 3, -4];
    assert_eq!(convert_buffer(&window, 2, 100), vec![2, 4]);
    // a 2x volume doubles every peak
    assert_eq!(convert_buffer(&window, 2, 200), vec![4, 8]);
    // an incomplete trailing group is dropped
    assert_eq!(convert_buffer(&window, 3, 100), vec![3]);
}

#[test]
fn merge_averages_per_index_and_is_order_insensitive() {
    let a: Vec<u16> = vec![2, 4];
    let b: Vec<u16> = vec![10, 20];
    assert_eq!(merge_pair(&a, &b), vec![6, 12]);
    assert_eq!(merge_pair(&b, &a), vec![6, 12]);
    assert_eq!(merge_buffers(&vec![a.clone(), b.clone()]), vec![6, 12]);
    assert_eq!(merge_buffers(&vec![b, a]), vec![6, 12]);
    assert_eq!(merge_buffers(&Vec::new()), Vec::<u16>::new());
}

#[test]
fn merge_pads_shorter_buffers_with_silence() {
    let a: Vec<u16> = vec![8];
    let b: Vec<u16> = vec![2, 6];
    assert_eq!(merge_pair(&a, &b), vec![5, 3]);
}

#[test]
fn send_data_consumes_whole_windows_and_keeps_the_rest() {
    let mut s = AudioStream::new(&small_config());
    s.process_event(Event::SendData(vec![1, -2, 3, -4, 5]));
    // one full window was consumed into a derived buffer of length
    // resolution / density_reduction
    assert_eq!(s.pending_len(), 2);
    assert_eq!(s.buffered_samples(), 1);
}

#[test]
fn refresh_publishes_the_merge_of_the_history() {
    let mut s = AudioStream::new(&small_config());
    s.process_event(Event::SendData(vec![1, -2, 3, -4, 5]));
    s.process_event(Event::RequestRefresh);
    assert_eq!(s.get_audio_data(), vec![2, 4]);
    assert_eq!(s.history_len(), 1);

    s.process_event(Event::SendData(vec![10, 10, 10, 10]));
    // the second window [5, 10, 10, 10] derives [10, 10] and is averaged
    // into the pending buffer [2, 4]
    assert_eq!(s.pending_len(), 2);
    s.process_event(Event::RequestRefresh);
    assert_eq!(s.get_audio_data(), vec![4, 5]);
    assert_eq!(s.history_len(), 2);
}

#[test]
fn history_never_exceeds_the_buffering_depth() {
    let mut s = AudioStream::new(&small_config());
    s.process_event(Event::SendData(vec![1, -2, 3, -4]));
    for _ in 0..10 {
        s.process_event(Event::RequestRefresh);
        assert!(s.history_len() <= 2);
    }
    assert_eq!(s.history_len(), 2);
}

#[test]
fn snapshot_requests_are_idempotent() {
    let mut s = AudioStream::new(&small_config());
    s.process_event(Event::SendData(vec![9, 9, 9, 9]));
    s.process_event(Event::RequestRefresh);
    let first = match s.process_event(Event::RequestData) {
        Some(Response::Data(d)) => d,
        _ => panic!("expected a data reply"),
    };
    let second = match s.process_event(Event::RequestData) {
        Some(Response::Data(d)) => d,
        _ => panic!("expected a data reply"),
    };
    assert_eq!(first, second);
    assert_eq!(first, s.get_audio_data());
}

#[test]
fn empty_history_publishes_an_empty_snapshot() {
    let mut s = AudioStream::new(&small_config());
    s.process_event(Event::RequestRefresh);
    assert_eq!(s.get_audio_data(), Vec::<u16>::new());
    assert_eq!(s.history_len(), 0);
}

#[test]
fn clear_buffer_resets_only_the_pending_window() {
    let mut s = AudioStream::new(&small_config());
    s.process_event(Event::SendData(vec![1, -2, 3, -4, 5]));
    s.process_event(Event::RequestRefresh);
    s.process_event(Event::ClearBuffer);
    assert_eq!(s.pending_len(), 0);
    assert_eq!(s.buffered_samples(), 1);
    assert_eq!(s.history_len(), 1);
    assert_eq!(s.get_audio_data(), vec![2, 4]);
}

#[test]
fn config_requests_return_the_live_config() {
    let mut s = AudioStream::new(&small_config());
    let got = match s.process_event(Event::RequestConfig) {
        Some(Response::Config(c)) => c,
        _ => panic!("expected a config reply"),
    };
    assert_eq!(got, small_config());
    assert_eq!(s.get_config(), small_config());
}

#[test]
fn shape_changing_config_is_rejected_while_a_window_is_pending() {
    let mut s = AudioStream::new(&small_config());
    s.process_event(Event::SendData(vec![1, -2, 3, -4]));
    assert_eq!(s.pending_len(), 2);

    let mut wider = small_config();
    wider.resolution = 8;
    s.process_event(Event::SendConfig(wider));
    assert_eq!(s.get_config(), small_config());

    // after an explicit clear the same replacement is accepted
    s.process_event(Event::ClearBuffer);
    s.process_event(Event::SendConfig(wider));
    assert_eq!(s.get_config(), wider);
}

#[test]
fn invalid_config_is_rejected() {
    let mut s = AudioStream::new(&small_config());
    let mut broken = small_config();
    broken.buffering = 0;
    s.process_event(Event::SendConfig(broken));
    assert_eq!(s.get_config(), small_config());
}

#[test]
fn compatible_config_is_accepted_while_a_window_is_pending() {
    let mut s = AudioStream::new(&small_config());
    s.process_event(Event::SendData(vec![1, -2, 3, -4]));
    let mut louder = small_config();
    louder.volume = 500;
    s.process_event(Event::SendConfig(louder));
    assert_eq!(s.get_config(), louder);
}

#[test]
fn refresh_ticker_period_is_the_inverse_rate() {
    assert_eq!(refresh_interval_ms(60), 16);
    assert_eq!(refresh_interval_ms(1), 1000);
}

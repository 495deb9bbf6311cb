//! The visualization aggregator: an actor-style state machine that turns raw
//! sample batches into a smoothed display buffer.
//!
//! One `AudioStream` value is owned by a single consumer task that applies
//! events strictly in arrival order; `step` is the mathematical transition
//! the executable event handler refines.
use vstd::prelude::*;

use crate::Config;

pub mod processing;

use processing::{convert_spec, merge_spec, window_len_of};

verus! {

/// An event of the aggregator. Requests that carry a reply channel in the
/// surrounding program are represented by their request alone here; the
/// reply is the handler's return value.
#[derive(Debug, Clone)]
pub enum Event {
    SendData(Vec<i16>),
    RequestData,
    RequestConfig,
    SendConfig(Config),
    RequestRefresh,
    ClearBuffer,
}

/// The reply to a request event.
#[derive(Debug, Clone)]
pub enum Response {
    Data(Vec<u16>),
    Config(Config),
}

/// The aggregator's abstract state.
pub struct StreamModel {
    pub buffer: Seq<i16>,
    pub calculated: Seq<u16>,
    pub smoothing: Seq<Seq<u16>>,
    pub smoothed: Seq<u16>,
    pub config: Config,
}

/// The abstract form of an event.
pub enum EventModel {
    SendData(Seq<i16>),
    RequestData,
    RequestConfig,
    SendConfig(Config),
    RequestRefresh,
    ClearBuffer,
}

/// The abstract form of a reply.
pub enum ResponseModel {
    Data(Seq<u16>),
    Config(Config),
}

impl View for Event {
    type V = EventModel;

    open spec fn view(&self) -> EventModel {
        match self {
            Event::SendData(d) => EventModel::SendData(d@),
            Event::RequestData => EventModel::RequestData,
            Event::RequestConfig => EventModel::RequestConfig,
            Event::SendConfig(c) => EventModel::SendConfig(*c),
            Event::RequestRefresh => EventModel::RequestRefresh,
            Event::ClearBuffer => EventModel::ClearBuffer,
        }
    }
}

impl View for Response {
    type V = ResponseModel;

    open spec fn view(&self) -> ResponseModel {
        match self {
            Response::Data(d) => ResponseModel::Data(d@),
            Response::Config(c) => ResponseModel::Config(*c),
        }
    }
}

/// The abstract form of an optional reply.
pub open spec fn response_view(r: Option<Response>) -> Option<ResponseModel> {
    match r {
        Option::None => Option::None,
        Option::Some(x) => Option::Some(x@),
    }
}

/// Folds a freshly converted window into the running buffer: the first
/// window replaces the empty buffer, later ones are averaged in.
pub open spec fn merge_into(calculated: Seq<u16>, cb: Seq<u16>) -> Seq<u16> {
    if calculated.len() == 0 {
        cb
    } else {
        merge_spec(seq![calculated, cb])
    }
}

/// Consumes every complete analysis window at the front of `buffer`: each
/// window of `config.resolution` samples is converted to a display buffer
/// and folded into `calculated`. At most `resolution - 1` samples remain.
pub open spec fn feed(buffer: Seq<i16>, calculated: Seq<u16>, config: Config) -> (Seq<
    i16,
>, Seq<u16>)
    decreases buffer.len(),
{
    if config.resolution < 1 || buffer.len() < config.resolution {
        (buffer, calculated)
    } else {
        let cb = convert_spec(
            buffer.take(config.resolution as int),
            config.density_reduction as nat,
            config.volume,
        );
        feed(buffer.skip(config.resolution as int), merge_into(calculated, cb), config)
    }
}

/// The smoothing history right after a refresh pushes the pending window
/// (an empty pending window is not pushed).
pub open spec fn refresh_pushed(smoothing: Seq<Seq<u16>>, calculated: Seq<u16>) -> Seq<Seq<u16>> {
    if calculated.len() == 0 {
        smoothing
    } else {
        smoothing.push(calculated)
    }
}

/// FIFO eviction: drops the oldest entries until at most `buffering` remain.
pub open spec fn evict(pushed: Seq<Seq<u16>>, buffering: nat) -> Seq<Seq<u16>> {
    if pushed.len() > buffering {
        pushed.skip(pushed.len() - buffering)
    } else {
        pushed
    }
}

/// Whether a configuration replacement is accepted: the new configuration
/// must be valid, and it may change the analysis-window shape (resolution or
/// density reduction) only while no derived buffer is pending — replacing
/// the shape under a pending buffer would violate the merge algorithm's
/// equal-shape assumption, so such a `SendConfig` is rejected rather than
/// silently corrupting the display.
pub open spec fn accepts_config(m: StreamModel, c: Config) -> bool {
    &&& c.valid()
    &&& (m.calculated.len() == 0 || (c.resolution == m.config.resolution
        && c.density_reduction == m.config.density_reduction))
}

/// The aggregator's transition function: the state and reply produced by
/// processing one event.
pub open spec fn step(m: StreamModel, e: EventModel) -> (StreamModel, Option<ResponseModel>) {
    match e {
        EventModel::SendData(data) => {
            let (b, c) = feed(m.buffer + data, m.calculated, m.config);
            (StreamModel { buffer: b, calculated: c, ..m }, Option::None)
        },
        EventModel::RequestData => (m, Option::Some(ResponseModel::Data(m.smoothed))),
        EventModel::RequestConfig => (m, Option::Some(ResponseModel::Config(m.config))),
        EventModel::SendConfig(c) => (
            if accepts_config(m, c) {
                StreamModel { config: c, ..m }
            } else {
                m
            },
            Option::None,
        ),
        EventModel::RequestRefresh => {
            let pushed = refresh_pushed(m.smoothing, m.calculated);
            (
                StreamModel {
                    smoothing: evict(pushed, m.config.buffering as nat),
                    smoothed: merge_spec(pushed),
                    ..m
                },
                Option::None,
            )
        },
        EventModel::ClearBuffer => (
            StreamModel { calculated: Seq::empty(), ..m },
            Option::None,
        ),
    }
}

/// Well-formedness of the aggregator state: the configuration is valid and
/// the pending derived buffer, when present, has the shape the window
/// transform produces under that configuration.
pub open spec fn wf(m: StreamModel) -> bool {
    &&& m.config.valid()
    &&& (m.calculated.len() == 0 || m.calculated.len() == window_len_of(m.config))
}

/// What consuming windows does to the shape of the state: fewer than
/// `resolution` samples remain, the derived buffer keeps the window
/// transform's output shape, and once at least one whole window went in, the
/// derived buffer has exactly that shape.
pub proof fn lemma_feed_shape(buffer: Seq<i16>, calculated: Seq<u16>, config: Config)
    requires
        config.valid(),
        calculated.len() == 0 || calculated.len() == window_len_of(config),
    ensures
        ({
            let (b, c) = feed(buffer, calculated, config);
            &&& b.len() < config.resolution
            &&& (c.len() == 0 || c.len() == window_len_of(config))
            &&& (buffer.len() >= config.resolution ==> c.len() == window_len_of(config))
            &&& (buffer.len() < config.resolution ==> b == buffer && c == calculated)
        }),
    decreases buffer.len(),
{
    if buffer.len() >= config.resolution {
        let window = buffer.take(config.resolution as int);
        let cb = convert_spec(window, config.density_reduction as nat, config.volume);
        assert(cb.len() == window_len_of(config));
        let merged = merge_into(calculated, cb);
        if calculated.len() != 0 {
            processing::lemma_max_len_pair(calculated, cb);
        }
        assert(merged.len() == window_len_of(config));
        lemma_feed_shape(buffer.skip(config.resolution as int), merged, config);
    }
}

/// Law: after sample batches whose combined length reaches `resolution`, the
/// derived buffer has exactly the window transform's output length — the
/// aggregator always holds a full-shape derived window once enough data
/// arrived. (The transform itself is a function, so identical input windows
/// always derive identical buffers.)
pub proof fn lemma_send_data_fills_window(m: StreamModel, data: Seq<i16>)
    requires
        wf(m),
        m.buffer.len() + data.len() >= m.config.resolution,
    ensures
        ({
            let (m2, r) = step(m, EventModel::SendData(data));
            &&& m2.calculated.len() == window_len_of(m.config)
            &&& wf(m2)
        }),
{
    lemma_feed_shape(m.buffer + data, m.calculated, m.config);
}

/// Law: processing a sample batch always leaves fewer than
/// `config.resolution` samples unconsumed in the accumulator.
pub proof fn lemma_send_data_bounds_remainder(m: StreamModel, data: Seq<i16>)
    requires
        wf(m),
    ensures
        step(m, EventModel::SendData(data)).0.buffer.len() < m.config.resolution,
{
    lemma_feed_shape(m.buffer + data, m.calculated, m.config);
}

/// Law: a refresh never leaves more than `config.buffering` entries in the
/// smoothing history, whatever the state was before — the aggregator's
/// memory for smoothing is bounded.
pub proof fn lemma_refresh_bounds_history(m: StreamModel)
    ensures
        step(m, EventModel::RequestRefresh).0.smoothing.len() <= m.config.buffering,
{
}

/// Law: requesting the smoothed snapshot is idempotent — it does not change
/// the state, and two consecutive requests return the same buffer.
pub proof fn lemma_snapshot_idempotent(m: StreamModel)
    ensures
        ({
            let (m1, r1) = step(m, EventModel::RequestData);
            let (m2, r2) = step(m1, EventModel::RequestData);
            &&& m1 == m
            &&& m2 == m
            &&& r1 == r2
        }),
{
}

/// Law: every event preserves well-formedness of the aggregator state.
pub proof fn lemma_step_preserves_wf(m: StreamModel, e: EventModel)
    requires
        wf(m),
    ensures
        wf(step(m, e).0),
{
    match e {
        EventModel::SendData(data) => {
            lemma_feed_shape(m.buffer + data, m.calculated, m.config);
        },
        _ => {},
    }
}

/// The period of the refresh ticker that drives `RequestRefresh`, in
/// milliseconds.
pub fn refresh_interval_ms(refresh_rate: usize) -> (ms: u64)
    requires
        refresh_rate >= 1,
    ensures
        ms as int == 1000int / refresh_rate as int,
{
    (1000 / refresh_rate) as u64
}

/// The aggregator's session state. In the surrounding program one value of
/// this type is owned by a dedicated task that drains an event channel;
/// every handler here is the verified core of one event arm.
pub struct AudioStream {
    buffer: Vec<i16>,
    calculated_buffer: Vec<u16>,
    smoothing_buffer: Vec<Vec<u16>>,
    smoothed_buffer: Vec<u16>,
    config: Config,
}

impl View for AudioStream {
    type V = StreamModel;

    closed spec fn view(&self) -> StreamModel {
        StreamModel {
            buffer: self.buffer@,
            calculated: self.calculated_buffer@,
            smoothing: self.smoothing_buffer.deep_view(),
            smoothed: self.smoothed_buffer@,
            config: self.config,
        }
    }
}

impl AudioStream {
    /// A fresh aggregator: all buffers empty, running under `config`.
    pub fn new(config: &Config) -> (s: AudioStream)
        requires
            config.valid(),
        ensures
            s@ == (StreamModel {
                buffer: Seq::empty(),
                calculated: Seq::empty(),
                smoothing: Seq::empty(),
                smoothed: Seq::empty(),
                config: *config,
            }),
            wf(s@),
    {
        let s = AudioStream {
            buffer: Vec::new(),
            calculated_buffer: Vec::new(),
            smoothing_buffer: Vec::new(),
            smoothed_buffer: Vec::new(),
            config: *config,
        };
        proof {
            assert(s.smoothing_buffer.deep_view() =~= Seq::<Seq<u16>>::empty());
        }
        s
    }

    /// Appends a batch of raw samples and consumes every complete analysis
    /// window now available, folding each into the derived buffer.
    fn send_data(&mut self, data: Vec<i16>)
        requires
            wf(old(self)@),
        ensures
            final(self)@ == step(old(self)@, EventModel::SendData(data@)).0,
            wf(final(self)@),
    {
        let ghost m0 = self@;
        let ghost d = data@;
        let mut data = data;
        self.buffer.append(&mut data);
        let ghost b0 = self.buffer@;
        let ghost c0 = self.calculated_buffer@;
        proof {
            assert(b0 == m0.buffer + d);
        }
        while self.buffer.len() >= self.config.resolution
            invariant
                self.config == m0.config,
                self.config.valid(),
                self.calculated_buffer@.len() == 0 || self.calculated_buffer@.len()
                    == window_len_of(self.config),
                feed(self.buffer@, self.calculated_buffer@, self.config) == feed(
                    b0,
                    c0,
                    self.config,
                ),
                self.smoothing_buffer.deep_view() == m0.smoothing,
                self.smoothed_buffer@ == m0.smoothed,
            decreases self.buffer@.len(),
        {
            let ghost b = self.buffer@;
            let ghost c = self.calculated_buffer@;
            let resolution = self.config.resolution;
            let window = crate::helpers::copy_range(&self.buffer, 0, resolution);
            proof {
                assert(window@ =~= b.take(resolution as int));
            }
            let cb = processing::convert_buffer(
                &window,
                self.config.density_reduction,
                self.config.volume,
            );
            if self.calculated_buffer.len() == 0 {
                self.calculated_buffer = cb;
            } else {
                self.calculated_buffer = processing::merge_pair(&self.calculated_buffer, &cb);
            }
            let rest = crate::helpers::copy_range(&self.buffer, resolution, self.buffer.len());
            proof {
                assert(rest@ =~= b.skip(resolution as int));
            }
            self.buffer = rest;
            proof {
                assert(self.calculated_buffer@ == merge_into(c, cb@));
                assert(feed(b, c, self.config) == feed(
                    self.buffer@,
                    self.calculated_buffer@,
                    self.config,
                ));
                if c.len() != 0 {
                    processing::lemma_max_len_pair(c, cb@);
                }
            }
        }
        proof {
            let (fb, fc) = feed(b0, c0, m0.config);
            assert(self.buffer@ == fb && self.calculated_buffer@ == fc);
            assert(final(self)@ == step(m0, EventModel::SendData(d)).0);
        }
    }

    /// A refresh tick: pushes the pending derived buffer into the smoothing
    /// history, republishes the smoothed snapshot as the merge of the
    /// history, then evicts the oldest entries beyond `config.buffering`.
    fn request_refresh(&mut self)
        requires
            wf(old(self)@),
        ensures
            final(self)@ == step(old(self)@, EventModel::RequestRefresh).0,
            wf(final(self)@),
    {
        let ghost m0 = self@;
        if self.calculated_buffer.len() > 0 {
            let copy = crate::helpers::copy_range(
                &self.calculated_buffer,
                0,
                self.calculated_buffer.len(),
            );
            proof {
                assert(copy@ =~= m0.calculated);
                assert(copy.deep_view() =~= copy@);
            }
            self.smoothing_buffer.push(copy);
        }
        let ghost pushed = refresh_pushed(m0.smoothing, m0.calculated);
        proof {
            assert(self.smoothing_buffer.deep_view() =~= pushed);
        }
        self.smoothed_buffer = processing::merge_buffers(&self.smoothing_buffer);
        let buffering = self.config.buffering;
        proof {
            assert(pushed.len() == self.smoothing_buffer@.len());
            assert(pushed.skip(0) =~= pushed);
        }
        while self.smoothing_buffer.len() > buffering
            invariant
                buffering == m0.config.buffering,
                self.smoothing_buffer.deep_view().len() == self.smoothing_buffer@.len(),
                self.smoothing_buffer.deep_view().len() <= pushed.len(),
                pushed.len() <= buffering || self.smoothing_buffer.deep_view().len()
                    >= buffering,
                pushed.len() <= buffering ==> self.smoothing_buffer.deep_view() == pushed,
                self.smoothing_buffer.deep_view() =~= pushed.skip(
                    pushed.len() - self.smoothing_buffer.deep_view().len(),
                ),
                self.buffer@ == m0.buffer,
                self.calculated_buffer@ == m0.calculated,
                self.smoothed_buffer@ == merge_spec(pushed),
                self.config == m0.config,
            decreases self.smoothing_buffer@.len(),
        {
            let ghost before = self.smoothing_buffer.deep_view();
            self.smoothing_buffer.remove(0);
            proof {
                assert(self.smoothing_buffer.deep_view() =~= before.skip(1));
                assert(before.skip(1) =~= pushed.skip(
                    pushed.len() - self.smoothing_buffer.deep_view().len(),
                ));
            }
        }
        proof {
            assert(self.smoothing_buffer.deep_view() =~= evict(
                pushed,
                m0.config.buffering as nat,
            ));
            assert(final(self)@ == step(m0, EventModel::RequestRefresh).0);
        }
    }

    /// Resets the pending derived buffer; the sample accumulator and the
    /// smoothing history are untouched.
    fn clear_buffer(&mut self)
        requires
            wf(old(self)@),
        ensures
            final(self)@ == step(old(self)@, EventModel::ClearBuffer).0,
            wf(final(self)@),
    {
        self.calculated_buffer = Vec::new();
        proof {
            assert(final(self)@ == step(old(self)@, EventModel::ClearBuffer).0);
        }
    }

    /// How many samples are accumulated and not yet consumed into a window;
    /// always below `config.resolution` after an event is processed.
    pub fn buffered_samples(&self) -> (n: usize)
        ensures
            n as int == self@.buffer.len(),
    {
        self.buffer.len()
    }

    /// The length of the pending derived buffer (0 while none is pending).
    pub fn pending_len(&self) -> (n: usize)
        ensures
            n as int == self@.calculated.len(),
    {
        self.calculated_buffer.len()
    }

    /// How many windows the smoothing history currently holds; never more
    /// than `config.buffering` after a refresh.
    pub fn history_len(&self) -> (n: usize)
        ensures
            n as int == self@.smoothing.len(),
    {
        self.smoothing_buffer.len()
    }

    /// A clone of the last published smoothed snapshot.
    pub fn get_audio_data(&self) -> (r: Vec<u16>)
        ensures
            r@ == self@.smoothed,
    {
        crate::helpers::copy_range(&self.smoothed_buffer, 0, self.smoothed_buffer.len())
    }

    /// The live configuration.
    pub fn get_config(&self) -> (c: Config)
        ensures
            c == self@.config,
    {
        self.config
    }

    /// Replaces the live configuration if `accepts_config` allows it; a
    /// rejected replacement leaves the state unchanged.
    pub fn set_config(&mut self, config: Config)
        requires
            wf(old(self)@),
        ensures
            final(self)@ == step(old(self)@, EventModel::SendConfig(config)).0,
            wf(final(self)@),
    {
        let accept = config.buffering >= 1 && config.smoothing_size >= 1
            && config.smoothing_amount >= 1 && config.resolution >= 1 && config.refresh_rate >= 1
            && config.frequency_scale_start < config.frequency_scale_end
            && config.frequency_scale_amount >= 1 && config.density_reduction >= 1
            && config.max_frequency >= 1 && config.volume >= 1 && (self.calculated_buffer.len()
            == 0 || (config.resolution == self.config.resolution && config.density_reduction
            == self.config.density_reduction));
        if accept {
            self.config = config;
        }
    }

    /// Processes one aggregator event; the two request events return a
    /// reply, the others return nothing. The state and reply are exactly
    /// those of the `step` transition.
    pub fn process_event(&mut self, event: Event) -> (r: Option<Response>)
        requires
            wf(old(self)@),
        ensures
            ({
                let (m2, rm) = step(old(self)@, event@);
                &&& final(self)@ == m2
                &&& response_view(r) == rm
                &&& wf(final(self)@)
            }),
    {
        match event {
            Event::SendData(data) => {
                self.send_data(data);
                Option::None
            },
            Event::RequestData => Option::Some(Response::Data(self.get_audio_data())),
            Event::RequestConfig => Option::Some(Response::Config(self.get_config())),
            Event::SendConfig(c) => {
                self.set_config(c);
                Option::None
            },
            Event::RequestRefresh => {
                self.request_refresh();
                Option::None
            },
            Event::ClearBuffer => {
                self.clear_buffer();
                Option::None
            },
        }
    }
}

} // verus!

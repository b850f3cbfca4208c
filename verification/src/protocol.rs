//! The two streaming RPC shapes the service offers, with the transport
//! stripped away: a server-driven interval stream and a bidirectional echo
//! stream. Wall-clock capture and timers live with the transport; every
//! function here takes the captured time as a plain value.

use vstd::prelude::*;
use vstd::string::*;

verus! {

/// The request that opens a server-interval stream: a payload to echo and
/// the emission cadence in milliseconds.
pub struct PingWithInterval {
    pub message: String,
    pub interval: u32,
}

/// One client message of the bidirectional echo stream.
pub struct Ping {
    pub message: String,
}

/// One server response: the echoed payload and the wall-clock time of the
/// moment of production, in microseconds.
#[derive(Debug)]
pub struct Pong {
    pub message: String,
    pub timestamp_micros: u64,
}

/// The sole state of one server-interval stream: the payload it repeats
/// and its private tick cadence. There is no shared tick source and no
/// end-of-stream state — the stream is unbounded.
pub struct PingIntervalStream {
    pub message: String,
    pub interval_millis: u64,
}

/// What one emission of a server-interval stream is: the stream's payload,
/// stamped with the wall-clock time at production.
pub open spec fn is_emission(s: PingIntervalStream, now_micros: u64, p: Pong) -> bool {
    p.message@ == s.message@ && p.timestamp_micros == now_micros
}

/// What one echo of the bidirectional stream is: the input's payload,
/// stamped with the wall-clock time at production.
pub open spec fn is_echo(ping: Ping, now_micros: u64, p: Pong) -> bool {
    p.message@ == ping.message@ && p.timestamp_micros == now_micros
}

impl PingIntervalStream {
    /// A fresh stream for one request: it will repeat the request's payload
    /// at the request's cadence.
    pub fn new(ping_with_interval: PingWithInterval) -> (s: PingIntervalStream)
        ensures
            s.message@ == ping_with_interval.message@,
            s.interval_millis == ping_with_interval.interval as u64,
    {
        let interval_millis = ping_with_interval.interval as u64;
        PingIntervalStream { message: ping_with_interval.message, interval_millis }
    }

    /// One tick, one message: the response produced when the stream's timer
    /// fires at wall-clock time `now_micros`.
    pub fn on_tick(&self, now_micros: u64) -> (p: Pong)
        ensures
            is_emission(*self, now_micros, p),
    {
        Pong { message: self.message.clone(), timestamp_micros: now_micros }
    }

    /// The emissions for a recorded run of tick times: one per tick, in
    /// tick order. The live stream produces the same responses one at a
    /// time, as its timer fires.
    pub fn emissions(&self, tick_times_micros: &Vec<u64>) -> (pongs: Vec<Pong>)
        ensures
            pongs@.len() == tick_times_micros@.len(),
            forall|i: int|
                0 <= i < pongs@.len() ==> is_emission(*self, tick_times_micros@[i], pongs@[i]),
    {
        let mut pongs: Vec<Pong> = Vec::new();
        let mut i: usize = 0;
        while i < tick_times_micros.len()
            invariant
                0 <= i <= tick_times_micros@.len(),
                pongs@.len() == i,
                forall|j: int|
                    0 <= j < i ==> is_emission(*self, tick_times_micros@[j], pongs@[j]),
            decreases tick_times_micros@.len() - i,
        {
            pongs.push(self.on_tick(tick_times_micros[i]));
            i = i + 1;
        }
        pongs
    }

    /// The stream never ends: no emission count bounds it.
    pub fn size_hint(&self) -> (r: (usize, Option<usize>))
        ensures
            r.0 == usize::MAX,
            r.1 is None,
    {
        (usize::MAX, None)
    }
}

/// One step of the bidirectional echo stream: exactly one response per
/// input, carrying the input's payload and the production time.
pub fn echo_response(ping: Ping, now_micros: u64) -> (p: Pong)
    ensures
        is_echo(ping, now_micros, p),
{
    Pong { message: ping.message, timestamp_micros: now_micros }
}

/// One item of the bidirectional stream as the transport hands it over: a
/// decoded input yields exactly one echo; a decode error is surfaced as a
/// terminal stream error that names it, never as a partial response.
pub fn bi_directional_step(item: Result<Ping, String>, now_micros: u64) -> (r: Result<
    Pong,
    String,
>)
    ensures
        item matches Ok(p) ==> r matches Ok(q) && is_echo(p, now_micros, q),
        item matches Err(e) ==> r matches Err(msg) && msg@ == "Stream error: "@ + e@,
{
    match item {
        Ok(p) => Ok(echo_response(p, now_micros)),
        Err(e) => Err(String::from_str("Stream error: ").concat(e.as_str())),
    }
}

/// Every emission of one server-interval stream carries the payload of the
/// request that opened it, whatever times the timer fires at.
pub proof fn lemma_interval_stream_constant_message(
    req: PingWithInterval,
    s: PingIntervalStream,
    times: Seq<u64>,
    pongs: Seq<Pong>,
)
    requires
        s.message@ == req.message@,
        pongs.len() == times.len(),
        forall|i: int| 0 <= i < pongs.len() ==> is_emission(s, times[i], pongs[i]),
    ensures
        forall|i: int|
            0 <= i < pongs.len() ==> pongs[i].message@ == req.message@ && pongs[i].timestamp_micros
                == times[i],
{
}

/// The bidirectional stream echoes in order: response `i` carries the
/// payload of input `i`, and when the production times do not decrease the
/// response timestamps do not decrease either.
pub proof fn lemma_echo_stream_order(pings: Seq<Ping>, times: Seq<u64>, pongs: Seq<Pong>)
    requires
        pings.len() == times.len(),
        pongs.len() == times.len(),
        forall|i: int| 0 <= i < pongs.len() ==> is_echo(pings[i], times[i], pongs[i]),
        forall|i: int, j: int| 0 <= i <= j < times.len() ==> times[i] <= times[j],
    ensures
        forall|i: int| 0 <= i < pongs.len() ==> pongs[i].message@ == pings[i].message@,
        forall|i: int, j: int|
            0 <= i <= j < pongs.len() ==> pongs[i].timestamp_micros <= pongs[j].timestamp_micros,
{
}

} // verus!

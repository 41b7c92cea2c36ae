//! Market-data streams: the subscription set, its replay on the new
//! connection after a failure, the reading of data frames, and the names of
//! streams.
use vstd::prelude::*;

use crate::api::ClientError;
use crate::engine::Frame;
use crate::executor::Event;
use crate::json::{array_text, ends_with, push_array, request_frame, request_text, str_eq, views};
use crate::api::market::Kline;
use crate::{lower_of, to_lower};
use rust_decimal::Decimal;

verus! {

pub const SPOT_MARKET_URL: &'static str = "wss://stream.binance.com:9443/stream";
pub const FUTURE_MARKET_URL: &'static str = "wss://fstream.binance.com/stream";

/// The length of a kline.
#[derive(Debug, Clone, Copy, PartialEq, Eq, Structural, Default, Hash)]
pub enum Interval {
    Sec1,
    #[default]
    Min1,
    Min3,
    Min5,
    Min15,
    Min30,
    Hour1,
    Hour2,
    Hour4,
    Hour6,
    Hour8,
    Hour12,
    Day1,
    Day3,
    Week1,
    Month1,
}

/// The text of an interval.
pub open spec fn interval_text(i: Interval) -> Seq<char> {
    match i {
        Interval::Sec1 => "1s"@,
        Interval::Min1 => "1m"@,
        Interval::Min3 => "3m"@,
        Interval::Min5 => "5m"@,
        Interval::Min15 => "15m"@,
        Interval::Min30 => "30m"@,
        Interval::Hour1 => "1h"@,
        Interval::Hour2 => "2h"@,
        Interval::Hour4 => "4h"@,
        Interval::Hour6 => "6h"@,
        Interval::Hour8 => "8h"@,
        Interval::Hour12 => "12h"@,
        Interval::Day1 => "1d"@,
        Interval::Day3 => "3d"@,
        Interval::Week1 => "1w"@,
        Interval::Month1 => "1M"@,
    }
}

/// The interval that a text names, if any.
pub open spec fn interval_of(s: Seq<char>) -> Option<Interval> {
    if s == "1s"@ {
        Some(Interval::Sec1)
    } else if s == "1m"@ {
        Some(Interval::Min1)
    } else if s == "3m"@ {
        Some(Interval::Min3)
    } else if s == "5m"@ {
        Some(Interval::Min5)
    } else if s == "15m"@ {
        Some(Interval::Min15)
    } else if s == "30m"@ {
        Some(Interval::Min30)
    } else if s == "1h"@ {
        Some(Interval::Hour1)
    } else if s == "2h"@ {
        Some(Interval::Hour2)
    } else if s == "4h"@ {
        Some(Interval::Hour4)
    } else if s == "6h"@ {
        Some(Interval::Hour6)
    } else if s == "8h"@ {
        Some(Interval::Hour8)
    } else if s == "12h"@ {
        Some(Interval::Hour12)
    } else if s == "1d"@ {
        Some(Interval::Day1)
    } else if s == "3d"@ {
        Some(Interval::Day3)
    } else if s == "1w"@ {
        Some(Interval::Week1)
    } else if s == "1M"@ {
        Some(Interval::Month1)
    } else {
        None
    }
}

/// The text `invalid interval <s>`.
pub open spec fn invalid_interval_text(s: Seq<char>) -> Seq<char> {
    "invalid interval "@ + s
}

impl Interval {
    /// The text of the interval.
    pub fn as_str(&self) -> (r: &'static str)
        ensures
            r@ == interval_text(*self),
    {
        match self {
            Interval::Sec1 => "1s",
            Interval::Min1 => "1m",
            Interval::Min3 => "3m",
            Interval::Min5 => "5m",
            Interval::Min15 => "15m",
            Interval::Min30 => "30m",
            Interval::Hour1 => "1h",
            Interval::Hour2 => "2h",
            Interval::Hour4 => "4h",
            Interval::Hour6 => "6h",
            Interval::Hour8 => "8h",
            Interval::Hour12 => "12h",
            Interval::Day1 => "1d",
            Interval::Day3 => "3d",
            Interval::Week1 => "1w",
            Interval::Month1 => "1M",
        }
    }

    /// The text of the interval, owned.
    pub fn to_string(&self) -> (r: String)
        ensures
            r@ == interval_text(*self),
    {
        String::from_str(self.as_str())
    }

    /// The interval that `s` names, if any.
    pub fn parse(s: &str) -> (r: Option<Interval>)
        ensures
            r == interval_of(s@),
    {
        if str_eq(s, "1s") {
            Some(Interval::Sec1)
        } else if str_eq(s, "1m") {
            Some(Interval::Min1)
        } else if str_eq(s, "3m") {
            Some(Interval::Min3)
        } else if str_eq(s, "5m") {
            Some(Interval::Min5)
        } else if str_eq(s, "15m") {
            Some(Interval::Min15)
        } else if str_eq(s, "30m") {
            Some(Interval::Min30)
        } else if str_eq(s, "1h") {
            Some(Interval::Hour1)
        } else if str_eq(s, "2h") {
            Some(Interval::Hour2)
        } else if str_eq(s, "4h") {
            Some(Interval::Hour4)
        } else if str_eq(s, "6h") {
            Some(Interval::Hour6)
        } else if str_eq(s, "8h") {
            Some(Interval::Hour8)
        } else if str_eq(s, "12h") {
            Some(Interval::Hour12)
        } else if str_eq(s, "1d") {
            Some(Interval::Day1)
        } else if str_eq(s, "3d") {
            Some(Interval::Day3)
        } else if str_eq(s, "1w") {
            Some(Interval::Week1)
        } else if str_eq(s, "1M") {
            Some(Interval::Month1)
        } else {
            None
        }
    }

    /// The interval that `s` names, or the text `invalid interval <s>`.
    pub fn from_text(s: &str) -> (r: Result<Interval, String>)
        ensures
            match interval_of(s@) {
                Some(i) => r == Ok::<Interval, String>(i),
                None => r matches Err(e) && e@ == invalid_interval_text(s@),
            },
    {
        match Self::parse(s) {
            Some(i) => Ok(i),
            None => {
                let mut e = String::from_str("invalid interval ");
                e.append(s);
                Err(e)
            },
        }
    }
}

impl std::str::FromStr for Interval {
    type Err = String;

    fn from_str(s: &str) -> Result<Interval, String> {
        Interval::from_text(s)
    }
}

/// The common head of a stream event, and its data.
#[derive(Debug, Clone)]
pub struct EventData<T> {
    /// The event type.
    pub event_type: String,
    /// The event time, in milliseconds.
    pub event_time: i64,
    pub symbol: String,
    pub data: T,
}

/// The event sent when a user stream's key expires.
#[derive(Debug, Clone)]
pub struct ListenKeyExpired {
    /// The event time, in milliseconds.
    pub event_time: i64,
    pub listen_key: String,
}

/// The kline stream of a symbol, given in lower case, and an interval.
pub open spec fn kline_topic_text(lower_symbol: Seq<char>, interval: Interval) -> Seq<char> {
    lower_symbol + "@kline_"@ + interval_text(interval)
}

/// The kline stream of a symbol already in lower case.
pub fn kline_topic(lower_symbol: &str, interval: Interval) -> (r: String)
    ensures
        r@ == kline_topic_text(lower_symbol@, interval),
{
    let mut t = String::from_str(lower_symbol);
    t.append("@kline_");
    t.append(interval.as_str());
    t
}

/// A kline as a stream carries it.
#[derive(Debug, Clone, Default)]
pub struct KData {
    /// The start of the kline.
    pub open_time: i64,
    /// The end of the kline.
    pub close_time: i64,
    pub symbol: String,
    pub interval: Interval,
    /// The first trade id of the kline.
    pub first_id: i64,
    /// The last trade id of the kline.
    pub last_id: i64,
    pub open: Decimal,
    pub close: Decimal,
    pub high: Decimal,
    pub low: Decimal,
    pub volume: Decimal,
    /// The number of trades.
    pub trade_num: u64,
    /// Whether the kline is closed.
    pub is_end: bool,
    /// The quote volume.
    pub qty: Decimal,
    /// The taker buy volume.
    pub take_volume: Decimal,
    /// The taker buy quote volume.
    pub take_qty: Decimal,
    pub __ignore: String,
}

/// A closed one-minute kline with the prices, volumes and times of `k`,
/// no symbol and no trade ids.
pub open spec fn kdata_of(k: Kline, r: KData) -> bool {
    &&& r.open_time == k.open_time
    &&& r.close_time == k.close_time
    &&& r.symbol@ == Seq::<char>::empty()
    &&& r.interval == Interval::Min1
    &&& r.first_id == 0
    &&& r.last_id == 0
    &&& r.open == k.open
    &&& r.close == k.close
    &&& r.high == k.high
    &&& r.low == k.low
    &&& r.volume == k.volume
    &&& r.trade_num == k.count as u64
    &&& r.is_end
    &&& r.qty == k.amount
    &&& r.take_volume == k.buy_volume
    &&& r.take_qty == k.buy_amount
    &&& r.__ignore@ == Seq::<char>::empty()
}

impl From<Kline> for KData {
    fn from(value: Kline) -> KData {
        kdata_from_kline(value)
    }
}

impl vstd::std_specs::convert::FromSpecImpl<Kline> for KData {
    open spec fn obeys_from_spec() -> bool {
        false
    }

    open spec fn from_spec(v: Kline) -> KData {
        arbitrary()
    }
}

/// Converts a kline of the query API into the shape that streams carry.
pub fn kdata_from_kline(value: Kline) -> (r: KData)
    ensures
        kdata_of(value, r),
{
    let Kline {
        open_time,
        open,
        high,
        low,
        close,
        volume,
        close_time,
        amount,
        count,
        buy_volume,
        buy_amount,
    } = value;
    KData {
        open_time,
        close_time,
        symbol: String::new(),
        interval: Interval::Min1,
        first_id: 0,
        last_id: 0,
        open,
        close,
        high,
        low,
        volume,
        trade_num: count as u64,
        is_end: true,
        qty: amount,
        take_volume: buy_volume,
        take_qty: buy_amount,
        __ignore: String::new(),
    }
}

/// A kline event of a stream.
#[derive(Debug, Clone)]
pub struct KlineEvent {
    pub event_type: String,
    /// The event time, in milliseconds.
    pub event_time: i64,
    pub symbol: String,
    pub data: KData,
}

impl KlineEvent {
    /// The kline streams of each symbol and interval.
    pub fn params(symbols: Vec<(String, Interval)>) -> (r: Vec<String>)
        ensures
            r@.len() == symbols@.len(),
            forall|k: int|
                0 <= k < r@.len() ==> #[trigger] r@[k]@ == kline_topic_text(
                    lower_of(symbols@[k].0@),
                    symbols@[k].1,
                ),
    {
        let mut r: Vec<String> = Vec::new();
        let mut i: usize = 0;
        while i < symbols.len()
            invariant
                i <= symbols@.len(),
                r@.len() == i,
                forall|k: int|
                    0 <= k < i ==> #[trigger] r@[k]@ == kline_topic_text(
                        lower_of(symbols@[k].0@),
                        symbols@[k].1,
                    ),
            decreases symbols@.len() - i,
        {
            let lower = to_lower(symbols[i].0.as_str());
            r.push(kline_topic(lower.as_str(), symbols[i].1));
            i = i + 1;
        }
        r
    }
}

/// The mini-ticker stream of a symbol.
pub open spec fn mini_ticker_topic_text(symbol: Seq<char>) -> Seq<char> {
    symbol + "@miniTicker"@
}

/// A 24-hour mini-ticker event of a stream.
#[derive(Debug, Clone)]
pub struct MiniTicker {
    /// The event type, `24hrMiniTicker`.
    pub event_type: String,
    /// The event time, in milliseconds.
    pub event_time: i64,
    pub symbol: String,
    /// The price of the last trade.
    pub price_last_trade: Decimal,
    /// The price of the first trade of the 24 hours.
    pub price_24h_first_trade: Decimal,
    pub high: Decimal,
    pub low: Decimal,
    pub volume: Decimal,
    pub amount: Decimal,
}

impl MiniTicker {
    /// The mini-ticker streams of each symbol.
    pub fn params(symbols: Vec<String>) -> (r: Vec<String>)
        ensures
            r@.len() == symbols@.len(),
            forall|k: int|
                0 <= k < r@.len() ==> #[trigger] r@[k]@ == mini_ticker_topic_text(symbols@[k]@),
    {
        let mut r: Vec<String> = Vec::new();
        let mut i: usize = 0;
        while i < symbols.len()
            invariant
                i <= symbols@.len(),
                r@.len() == i,
                forall|k: int|
                    0 <= k < i ==> #[trigger] r@[k]@ == mini_ticker_topic_text(symbols@[k]@),
            decreases symbols@.len() - i,
        {
            let mut t = String::from_str(symbols[i].as_str());
            t.append("@miniTicker");
            r.push(t);
            i = i + 1;
        }
        r
    }

    /// True when a stream name is that of a mini-ticker stream.
    pub fn check_stream(stream: &str) -> (r: bool)
        ensures
            r == ("miniTicker"@.len() <= stream@.len() && stream@.subrange(
                stream@.len() - "miniTicker"@.len(),
                stream@.len() as int,
            ) == "miniTicker"@),
    {
        ends_with(stream, "miniTicker")
    }

    /// True when an event type is that of a mini-ticker event.
    pub fn check_event(event: &str) -> (r: bool)
        ensures
            r == (event@ == "24hrMiniTicker"@),
    {
        str_eq(event, "24hrMiniTicker")
    }
}

/// The text of a subscription control frame: a request envelope whose
/// parameters are the array of topics.
pub open spec fn control_text(id: u64, method: Seq<char>, topics: Seq<Seq<char>>) -> Seq<char> {
    request_text(id, method, array_text(topics))
}

/// The control frame of `method` for these topics.
pub fn control_frame(id: u64, method: &str, topics: &Vec<String>) -> (r: String)
    ensures
        r@ == control_text(id, method@, views(topics@)),
{
    let mut params = String::new();
    push_array(&mut params, topics);
    proof {
        assert(params@ =~= array_text(views(topics@)));
    }
    request_frame(id, method, params.as_str())
}

/// True when `v` holds a string with the characters of `t`.
fn holds(v: &Vec<String>, t: &String) -> (r: bool)
    ensures
        r == views(v@).contains(t@),
{
    let mut i: usize = 0;
    while i < v.len()
        invariant
            i <= v@.len(),
            forall|k: int| 0 <= k < i ==> v@[k]@ != t@,
        decreases v@.len() - i,
    {
        if v[i] == *t {
            assert(views(v@)[i as int] == t@);
            return true;
        }
        i = i + 1;
    }
    assert forall|k: int| 0 <= k < views(v@).len() implies views(v@)[k] != t@ by {
        assert(views(v@)[k] == v@[k]@);
    }
    false
}

proof fn lemma_contains_push<A>(s: Seq<A>, x: A, y: A)
    ensures
        s.push(x).contains(y) <==> (s.contains(y) || y == x),
{
    if s.push(x).contains(y) {
        let k = choose|k: int| 0 <= k < s.push(x).len() && s.push(x)[k] == y;
        if k < s.len() {
            assert(s[k] == y);
        }
    }
    if s.contains(y) {
        let k = choose|k: int| 0 <= k < s.len() && s[k] == y;
        assert(s.push(x)[k] == y);
    }
    if y == x {
        assert(s.push(x)[s.len() as int] == y);
    }
}

proof fn lemma_no_duplicates_push<A>(s: Seq<A>, x: A)
    requires
        s.no_duplicates(),
        !s.contains(x),
    ensures
        s.push(x).no_duplicates(),
{
    assert forall|i: int, j: int|
        0 <= i < s.push(x).len() && 0 <= j < s.push(x).len() && i != j implies s.push(x)[i]
        != s.push(x)[j] by {
        if i == s.len() {
            assert(s[j] != x);
        } else if j == s.len() {
            assert(s[i] != x);
        }
    }
}

/// `s` with each topic of `ts` appended, in order, unless already held.
pub open spec fn with_topics(s: Seq<Seq<char>>, ts: Seq<Seq<char>>) -> Seq<Seq<char>>
    decreases ts.len(),
{
    if ts.len() == 0 {
        s
    } else {
        let prev = with_topics(s, ts.drop_last());
        if prev.contains(ts.last()) {
            prev
        } else {
            prev.push(ts.last())
        }
    }
}

/// `s` without the topics of `ts`, in the order of `s`.
pub open spec fn without_topics(s: Seq<Seq<char>>, ts: Seq<Seq<char>>) -> Seq<Seq<char>>
    decreases s.len(),
{
    if s.len() == 0 {
        s
    } else {
        let prev = without_topics(s.drop_last(), ts);
        if ts.contains(s.last()) {
            prev
        } else {
            prev.push(s.last())
        }
    }
}

/// What to do next on a market stream.
#[derive(Debug)]
pub enum MarketAction {
    /// Drop the connection held, if any, and acquire a new one; then report
    /// `Connected` or `ConnectFailed`.
    Connect,
    /// Write this text frame; then report `Sent` or `SendFailed`.
    Send(String),
    /// Read one frame; then report `Received` or `ReadFailed`.
    Receive,
    /// Answer a liveness probe with this payload, ignoring a failure to
    /// write it, then read one frame; then report `Received` or `ReadFailed`.
    Pong(String),
    /// The operation is over: the data frame read, if it was a read.
    Done(Result<Option<String>, ClientError>),
}

/// What a connection being acquired is for.
#[derive(Debug, Clone, Copy, PartialEq, Eq, Structural)]
pub enum AfterConnect {
    /// Writing the control frame of the operation.
    Control,
    /// Replaying the whole set after a failure; a read follows when
    /// `read_after`.
    Replay { read_after: bool },
    /// Reading a data frame.
    Read,
}

/// Where the current operation stands.
#[derive(Debug, Clone, Copy, PartialEq, Eq, Structural)]
pub enum MarketStage {
    /// No operation is in progress.
    Idle,
    /// A connection is being acquired.
    Connecting { next: AfterConnect },
    /// A frame is being written: the replay of the whole set when
    /// `replay`, else the control frame of the operation; a read follows
    /// when `read_after`.
    Sending { replay: bool, read_after: bool },
    /// A data frame is awaited; `resumed` right after the replay that a read
    /// failure caused.
    Reading { resumed: bool },
}

/// The subscriptions of a market stream, and the operation in progress.
pub struct MarketSession {
    req_id: u64,
    subscriptions: Vec<String>,
    connected: bool,
    stage: MarketStage,
    op_frame: String,
}

impl MarketSession {
    /// The topics subscribed to, in the order they were added.
    pub closed spec fn topics(&self) -> Seq<Seq<char>> {
        views(self.subscriptions@)
    }

    /// The last control frame id used.
    pub closed spec fn last_id(&self) -> u64 {
        self.req_id
    }

    /// Whether a connection is held.
    pub closed spec fn connected(&self) -> bool {
        self.connected
    }

    /// Where the current operation stands.
    pub closed spec fn stage(&self) -> MarketStage {
        self.stage
    }

    /// The control frame of the current (or last) operation.
    pub closed spec fn op_frame(&self) -> Seq<char> {
        self.op_frame@
    }

    /// No topic is held twice; a frame is written only on a connection.
    pub closed spec fn wf(&self) -> bool {
        &&& self.topics().no_duplicates()
        &&& (self.stage is Connecting ==> !self.connected)
        &&& (self.stage is Sending || self.stage is Reading) ==> self.connected
    }

    /// True when `e` reports the outcome of the action that `stage` waits on.
    pub open spec fn accepts_spec(stage: MarketStage, e: Event) -> bool {
        match stage {
            MarketStage::Idle => false,
            MarketStage::Connecting { .. } => e is Connected || e is ConnectFailed,
            MarketStage::Sending { .. } => e is Sent || e is SendFailed,
            MarketStage::Reading { .. } => e is Received || e is ReadFailed,
        }
    }

    /// True when the stage may use one more id: a replay is due on the next
    /// connection.
    pub open spec fn needs_id(stage: MarketStage) -> bool {
        stage matches MarketStage::Connecting { next: AfterConnect::Replay { .. } }
    }

    /// The replay of the whole subscription set, as it stands, with the next
    /// id; a read follows when `read_after`.
    pub open spec fn replays(old: MarketSession, new: MarketSession, read_after: bool, r: MarketAction) -> bool {
        let id = (old.last_id() + 1) as u64;
        &&& r matches MarketAction::Send(f) && f@ == control_text(id, "SUBSCRIBE"@, old.topics())
        &&& new.last_id() == id
        &&& new.stage() == (MarketStage::Sending { replay: true, read_after })
    }

    /// The start of an operation whose control frame is `frame`: written on
    /// the connection held, or after acquiring one.
    pub open spec fn controls(old: MarketSession, new: MarketSession, frame: Seq<char>, r: MarketAction) -> bool {
        &&& new.op_frame() == frame
        &&& new.connected() == old.connected()
        &&& if old.connected() {
            &&& r matches MarketAction::Send(f) && f@ == frame
            &&& new.stage() == (MarketStage::Sending { replay: false, read_after: false })
        } else {
            &&& r == MarketAction::Connect
            &&& new.stage() == (MarketStage::Connecting { next: AfterConnect::Control })
        }
    }

    /// The rule of one step: the session after `e`, and the action it asks
    /// for. The topics never change, and an id is used only by a replay.
    pub open spec fn step_spec(old: MarketSession, e: Event, new: MarketSession, r: MarketAction) -> bool {
        &&& new.topics() == old.topics()
        &&& new.op_frame() == old.op_frame()
        &&& match (old.stage(), e) {
            (MarketStage::Connecting { next }, Event::Connected) => {
                &&& new.connected()
                &&& match next {
                    AfterConnect::Control => {
                        &&& r matches MarketAction::Send(f) && f@ == old.op_frame()
                        &&& new.stage() == (MarketStage::Sending { replay: false, read_after: false })
                        &&& new.last_id() == old.last_id()
                    },
                    AfterConnect::Replay { read_after } => Self::replays(old, new, read_after, r),
                    AfterConnect::Read => {
                        &&& r == MarketAction::Receive
                        &&& new.stage() == (MarketStage::Reading { resumed: false })
                        &&& new.last_id() == old.last_id()
                    },
                }
            },
            (MarketStage::Connecting { .. }, Event::ConnectFailed(m)) => {
                &&& r == MarketAction::Done(Err(ClientError::ConnectionFailed(m)))
                &&& new.stage() == MarketStage::Idle
                &&& !new.connected()
                &&& new.last_id() == old.last_id()
            },
            (MarketStage::Sending { replay, read_after }, Event::Sent) => {
                &&& new.connected()
                &&& new.last_id() == old.last_id()
                &&& if read_after {
                    &&& r == MarketAction::Receive
                    &&& new.stage() == (MarketStage::Reading { resumed: true })
                } else {
                    &&& r == MarketAction::Done(Ok(None))
                    &&& new.stage() == MarketStage::Idle
                }
            },
            (MarketStage::Sending { replay, read_after }, Event::SendFailed(m)) => {
                &&& !new.connected()
                &&& new.last_id() == old.last_id()
                &&& if replay {
                    &&& r == MarketAction::Done(Err(ClientError::TransportError(m)))
                    &&& new.stage() == MarketStage::Idle
                } else {
                    &&& r == MarketAction::Connect
                    &&& new.stage() == (MarketStage::Connecting {
                        next: AfterConnect::Replay { read_after },
                    })
                }
            },
            (MarketStage::Reading { .. }, Event::Received(Frame::Ping(p))) => {
                &&& r == MarketAction::Pong(p)
                &&& new.stage() == (MarketStage::Reading { resumed: false })
                &&& new.connected()
                &&& new.last_id() == old.last_id()
            },
            (MarketStage::Reading { .. }, Event::Received(Frame::Text(t, _))) => {
                &&& r == MarketAction::Done(Ok(Some(t)))
                &&& new.stage() == MarketStage::Idle
                &&& new.connected()
                &&& new.last_id() == old.last_id()
            },
            (MarketStage::Reading { .. }, Event::Received(Frame::Other)) => {
                &&& r == MarketAction::Receive
                &&& new.stage() == (MarketStage::Reading { resumed: false })
                &&& new.connected()
                &&& new.last_id() == old.last_id()
            },
            (MarketStage::Reading { resumed }, Event::ReadFailed(m)) => {
                &&& !new.connected()
                &&& new.last_id() == old.last_id()
                &&& if resumed {
                    &&& r == MarketAction::Done(Err(ClientError::TransportError(m)))
                    &&& new.stage() == MarketStage::Idle
                } else {
                    &&& r == MarketAction::Connect
                    &&& new.stage() == (MarketStage::Connecting {
                        next: AfterConnect::Replay { read_after: true },
                    })
                }
            },
            _ => false,
        }
    }

    /// A new session: no topic, no connection.
    pub fn new() -> (r: Self)
        ensures
            r.wf(),
            r.topics() == Seq::<Seq<char>>::empty(),
            r.last_id() == 0,
            !r.connected(),
            r.stage() == MarketStage::Idle,
    {
        MarketSession {
            req_id: 0,
            subscriptions: Vec::new(),
            connected: false,
            stage: MarketStage::Idle,
            op_frame: String::new(),
        }
    }

    /// True when no operation is in progress and ids are left for one.
    pub fn can_start(&self) -> (r: bool)
        ensures
            r == (self.stage() == MarketStage::Idle && self.last_id() <= u64::MAX - 2),
    {
        self.stage == MarketStage::Idle && self.req_id <= u64::MAX - 2
    }

    /// True when `e` reports the outcome of the action asked for last, and
    /// an id is left for the replay that the next connection may bring.
    pub fn accepts(&self, e: &Event) -> (r: bool)
        ensures
            r == (Self::accepts_spec(self.stage(), *e) && (Self::needs_id(self.stage())
                ==> self.last_id() < u64::MAX)),
    {
        match self.stage {
            MarketStage::Idle => false,
            MarketStage::Connecting { next } => match e {
                Event::Connected | Event::ConnectFailed(_) => match next {
                    AfterConnect::Replay { .. } => self.req_id < u64::MAX,
                    _ => true,
                },
                _ => false,
            },
            MarketStage::Sending { .. } => match e {
                Event::Sent | Event::SendFailed(_) => true,
                _ => false,
            },
            MarketStage::Reading { .. } => match e {
                Event::Received(_) | Event::ReadFailed(_) => true,
                _ => false,
            },
        }
    }

    fn add_topics(&mut self, topics: &Vec<String>)
        requires
            old(self).topics().no_duplicates(),
        ensures
            final(self).topics().no_duplicates(),
            forall|t: Seq<char>| #[trigger]
                final(self).topics().contains(t) <==> (old(self).topics().contains(t) || views(
                    topics@,
                ).contains(t)),
            final(self).topics() == with_topics(old(self).topics(), views(topics@)),
            final(self).req_id == old(self).req_id,
            final(self).connected == old(self).connected,
            final(self).stage == old(self).stage,
            final(self).op_frame == old(self).op_frame,
    {
        let mut j: usize = 0;
        while j < topics.len()
            invariant
                j <= topics@.len(),
                self.topics().no_duplicates(),
                forall|t: Seq<char>| #[trigger]
                    self.topics().contains(t) <==> (old(self).topics().contains(t) || views(
                        topics@.subrange(0, j as int),
                    ).contains(t)),
                self.topics() == with_topics(old(self).topics(), views(topics@.subrange(0, j as int))),
                self.req_id == old(self).req_id,
                self.connected == old(self).connected,
                self.stage == old(self).stage,
                self.op_frame == old(self).op_frame,
            decreases topics@.len() - j,
        {
            let t = &topics[j];
            let ghost before = self.topics();
            let ghost pre = views(topics@.subrange(0, j as int));
            if !holds(&self.subscriptions, t) {
                self.subscriptions.push(t.clone());
                assert(self.topics() =~= before.push(t@));
                proof {
                    lemma_no_duplicates_push(before, t@);
                    assert forall|x: Seq<char>| #[trigger]
                        self.topics().contains(x) <==> (before.contains(x) || x == t@) by {
                        lemma_contains_push(before, t@, x);
                    }
                }
            }
            assert(views(topics@.subrange(0, j + 1)) =~= pre.push(t@));
            assert(views(topics@.subrange(0, j + 1)).drop_last() =~= pre);
            proof {
                assert forall|x: Seq<char>| #[trigger]
                    views(topics@.subrange(0, j + 1)).contains(x) <==> (pre.contains(x) || x == t@) by {
                    lemma_contains_push(pre, t@, x);
                }
            }
            j = j + 1;
        }
        assert(topics@.subrange(0, topics@.len() as int) =~= topics@);
    }

    fn remove_topics(&mut self, topics: &Vec<String>)
        requires
            old(self).topics().no_duplicates(),
        ensures
            final(self).topics().no_duplicates(),
            forall|t: Seq<char>| #[trigger]
                final(self).topics().contains(t) <==> (old(self).topics().contains(t) && !views(
                    topics@,
                ).contains(t)),
            final(self).topics() == without_topics(old(self).topics(), views(topics@)),
            final(self).req_id == old(self).req_id,
            final(self).connected == old(self).connected,
            final(self).stage == old(self).stage,
            final(self).op_frame == old(self).op_frame,
    {
        let mut kept: Vec<String> = Vec::new();
        let mut i: usize = 0;
        while i < self.subscriptions.len()
            invariant
                i <= self.subscriptions@.len(),
                self.topics() == old(self).topics(),
                old(self).topics().no_duplicates(),
                views(kept@).no_duplicates(),
                views(kept@) == without_topics(
                    views(self.subscriptions@.subrange(0, i as int)),
                    views(topics@),
                ),
                forall|t: Seq<char>| #[trigger]
                    views(kept@).contains(t) <==> (views(
                        self.subscriptions@.subrange(0, i as int),
                    ).contains(t) && !views(topics@).contains(t)),
            decreases self.subscriptions@.len() - i,
        {
            let s = &self.subscriptions[i];
            let ghost before = views(kept@);
            let ghost pre = views(self.subscriptions@.subrange(0, i as int));
            assert(views(self.subscriptions@.subrange(0, i + 1)) =~= pre.push(s@));
            assert(views(self.subscriptions@.subrange(0, i + 1)).drop_last() =~= pre);
            proof {
                assert forall|x: Seq<char>| #[trigger]
                    views(self.subscriptions@.subrange(0, i + 1)).contains(x) <==> (pre.contains(x)
                        || x == s@) by {
                    lemma_contains_push(pre, s@, x);
                }
                assert(!pre.contains(s@)) by {
                    if pre.contains(s@) {
                        let k = choose|k: int| 0 <= k < pre.len() && pre[k] == s@;
                        assert(pre[k] == self.subscriptions@[k]@);
                        assert(self.topics()[k] == self.subscriptions@[k]@);
                        assert(self.topics()[i as int] == self.subscriptions@[i as int]@);
                        assert(old(self).topics().no_duplicates());
                        assert(self.topics()[k] != self.topics()[i as int]);
                    }
                }
            }
            if !holds(topics, s) {
                kept.push(s.clone());
                assert(views(kept@) =~= before.push(s@));
                proof {
                    lemma_no_duplicates_push(before, s@);
                    assert forall|x: Seq<char>| #[trigger]
                        views(kept@).contains(x) <==> (before.contains(x) || x == s@) by {
                        lemma_contains_push(before, s@, x);
                    }
                }
            }
            i = i + 1;
        }
        assert(self.subscriptions@.subrange(0, self.subscriptions@.len() as int)
            =~= self.subscriptions@);
        assert(views(self.subscriptions@) == self.topics());
        self.subscriptions = kept;
    }

    /// Adds `topics` to the subscription set and subscribes to them with
    /// the next id, on the connection held or on a new one.
    pub fn subscribe(&mut self, topics: Vec<String>) -> (r: MarketAction)
        requires
            old(self).wf(),
            old(self).stage() == MarketStage::Idle,
            old(self).last_id() <= u64::MAX - 2,
        ensures
            final(self).wf(),
            final(self).topics() == with_topics(old(self).topics(), views(topics@)),
            forall|t: Seq<char>| #[trigger]
                final(self).topics().contains(t) <==> (old(self).topics().contains(t) || views(
                    topics@,
                ).contains(t)),
            final(self).last_id() == old(self).last_id() + 1,
            Self::controls(
                *old(self),
                *final(self),
                control_text((old(self).last_id() + 1) as u64, "SUBSCRIBE"@, views(topics@)),
                r,
            ),
    {
        self.add_topics(&topics);
        self.control("SUBSCRIBE", &topics)
    }

    /// Removes `topics` from the subscription set and unsubscribes from them
    /// with the next id, on the connection held or on a new one.
    pub fn unsubscribe(&mut self, topics: Vec<String>) -> (r: MarketAction)
        requires
            old(self).wf(),
            old(self).stage() == MarketStage::Idle,
            old(self).last_id() <= u64::MAX - 2,
        ensures
            final(self).wf(),
            final(self).topics() == without_topics(old(self).topics(), views(topics@)),
            forall|t: Seq<char>| #[trigger]
                final(self).topics().contains(t) <==> (old(self).topics().contains(t) && !views(
                    topics@,
                ).contains(t)),
            final(self).last_id() == old(self).last_id() + 1,
            Self::controls(
                *old(self),
                *final(self),
                control_text((old(self).last_id() + 1) as u64, "UNSUBSCRIBE"@, views(topics@)),
                r,
            ),
    {
        self.remove_topics(&topics);
        self.control("UNSUBSCRIBE", &topics)
    }

    fn control(&mut self, method: &str, topics: &Vec<String>) -> (r: MarketAction)
        requires
            old(self).wf(),
            old(self).stage() == MarketStage::Idle,
            old(self).last_id() < u64::MAX,
        ensures
            final(self).wf(),
            final(self).topics() == old(self).topics(),
            final(self).last_id() == old(self).last_id() + 1,
            Self::controls(
                *old(self),
                *final(self),
                control_text((old(self).last_id() + 1) as u64, method@, views(topics@)),
                r,
            ),
    {
        self.req_id = self.req_id + 1;
        self.op_frame = control_frame(self.req_id, method, topics);
        if self.connected {
            self.stage = MarketStage::Sending { replay: false, read_after: false };
            MarketAction::Send(self.op_frame.clone())
        } else {
            self.stage = MarketStage::Connecting { next: AfterConnect::Control };
            MarketAction::Connect
        }
    }

    /// Reads the next data frame, on the connection held or on a new one.
    pub fn recv(&mut self) -> (r: MarketAction)
        requires
            old(self).wf(),
            old(self).stage() == MarketStage::Idle,
        ensures
            final(self).wf(),
            final(self).topics() == old(self).topics(),
            final(self).last_id() == old(self).last_id(),
            final(self).op_frame() == old(self).op_frame(),
            final(self).connected() == old(self).connected(),
            old(self).connected() ==> r == MarketAction::Receive && final(self).stage()
                == (MarketStage::Reading { resumed: false }),
            !old(self).connected() ==> r == MarketAction::Connect && final(self).stage()
                == (MarketStage::Connecting { next: AfterConnect::Read }),
    {
        if self.connected {
            self.stage = MarketStage::Reading { resumed: false };
            MarketAction::Receive
        } else {
            self.stage = MarketStage::Connecting { next: AfterConnect::Read };
            MarketAction::Connect
        }
    }

    /// Takes what became of the last action and says what to do next. A
    /// control frame that cannot be written, or a read that fails, drops the
    /// connection; a new one is acquired and the whole set, even empty,
    /// replayed on it in one frame with the next id, once: a failure after
    /// that ends the operation.
    pub fn step(&mut self, e: Event) -> (r: MarketAction)
        requires
            old(self).wf(),
            Self::accepts_spec(old(self).stage(), e),
            Self::needs_id(old(self).stage()) ==> old(self).last_id() < u64::MAX,
        ensures
            final(self).wf(),
            Self::step_spec(*old(self), e, *final(self), r),
    {
        match self.stage {
            MarketStage::Connecting { next } => match e {
                Event::Connected => {
                    self.connected = true;
                    match next {
                        AfterConnect::Control => {
                            self.stage = MarketStage::Sending { replay: false, read_after: false };
                            MarketAction::Send(self.op_frame.clone())
                        },
                        AfterConnect::Replay { read_after } => {
                            self.req_id = self.req_id + 1;
                            self.stage = MarketStage::Sending { replay: true, read_after };
                            MarketAction::Send(control_frame(self.req_id, "SUBSCRIBE", &self.subscriptions))
                        },
                        AfterConnect::Read => {
                            self.stage = MarketStage::Reading { resumed: false };
                            MarketAction::Receive
                        },
                    }
                },
                Event::ConnectFailed(m) => {
                    self.stage = MarketStage::Idle;
                    MarketAction::Done(Err(ClientError::ConnectionFailed(m)))
                },
                _ => MarketAction::Receive,
            },
            MarketStage::Sending { replay, read_after } => match e {
                Event::Sent => if read_after {
                    self.stage = MarketStage::Reading { resumed: true };
                    MarketAction::Receive
                } else {
                    self.stage = MarketStage::Idle;
                    MarketAction::Done(Ok(None))
                },
                Event::SendFailed(m) => {
                    self.connected = false;
                    if replay {
                        self.stage = MarketStage::Idle;
                        MarketAction::Done(Err(ClientError::TransportError(m)))
                    } else {
                        self.stage = MarketStage::Connecting { next: AfterConnect::Replay { read_after } };
                        MarketAction::Connect
                    }
                },
                _ => MarketAction::Receive,
            },
            MarketStage::Reading { resumed } => match e {
                Event::Received(Frame::Ping(p)) => {
                    self.stage = MarketStage::Reading { resumed: false };
                    MarketAction::Pong(p)
                },
                Event::Received(Frame::Text(t, _)) => {
                    self.stage = MarketStage::Idle;
                    MarketAction::Done(Ok(Some(t)))
                },
                Event::Received(Frame::Other) => {
                    self.stage = MarketStage::Reading { resumed: false };
                    MarketAction::Receive
                },
                Event::ReadFailed(m) => {
                    self.connected = false;
                    if resumed {
                        self.stage = MarketStage::Idle;
                        MarketAction::Done(Err(ClientError::TransportError(m)))
                    } else {
                        self.stage = MarketStage::Connecting {
                            next: AfterConnect::Replay { read_after: true },
                        };
                        MarketAction::Connect
                    }
                },
                _ => MarketAction::Receive,
            },
            MarketStage::Idle => MarketAction::Receive,
        }
    }
}

} // verus!

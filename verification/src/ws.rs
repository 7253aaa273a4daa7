//! The streaming market-data client's settings.
use vstd::prelude::*;

verus! {

pub open spec fn paper_ws_url() -> Seq<char> {
    "wss://stream.data.alpaca.markets/v2/iex"@
}

pub open spec fn live_ws_url() -> Seq<char> {
    "wss://stream.data.alpaca.markets/v2/sip"@
}

/// Streaming WebSocket client for Alpaca market data: its credentials and the feed
/// it connects to (the free IEX feed for paper accounts, SIP for live ones).
#[derive(Debug)]
pub struct AlpacaWsClient {
    api_key: String,
    api_secret: String,
    url: String,
}

impl AlpacaWsClient {
    pub closed spec fn spec_api_key(&self) -> String {
        self.api_key
    }

    pub closed spec fn spec_api_secret(&self) -> String {
        self.api_secret
    }

    pub closed spec fn spec_url(&self) -> Seq<char> {
        self.url@
    }

    pub fn new(api_key: String, api_secret: String, paper: bool) -> (r: AlpacaWsClient)
        ensures
            r.spec_api_key() == api_key,
            r.spec_api_secret() == api_secret,
            r.spec_url() == if paper {
                paper_ws_url()
            } else {
                live_ws_url()
            },
    {
        AlpacaWsClient {
            api_key,
            api_secret,
            url: if paper {
                "wss://stream.data.alpaca.markets/v2/iex".to_owned()
            } else {
                "wss://stream.data.alpaca.markets/v2/sip".to_owned()
            },
        }
    }

    pub fn api_key(&self) -> (r: &String)
        ensures
            *r == self.spec_api_key(),
    {
        &self.api_key
    }

    pub fn api_secret(&self) -> (r: &String)
        ensures
            *r == self.spec_api_secret(),
    {
        &self.api_secret
    }

    pub fn url(&self) -> (r: &String)
        ensures
            r@ == self.spec_url(),
    {
        &self.url
    }
}

/// What the connection delivered to the reader task.
#[derive(Clone, Copy, Debug, PartialEq, Eq, Structural)]
pub enum StreamFrame {
    /// A text frame: a JSON array of market-data messages.
    Text,
    Binary,
    Ping,
    Pong,
    /// The server closed the connection.
    Close,
    /// A raw frame.
    Frame,
    /// Reading from the connection failed.
    Failed,
}

/// What the reader task does next.
#[derive(Clone, Copy, Debug, PartialEq, Eq, Structural)]
pub enum StreamControl {
    /// Decode the messages and forward them to the receiver.
    Forward,
    /// Ignore the frame and read the next one.
    KeepReading,
    /// End the stream.
    Stop,
}

pub open spec fn spec_on_stream_frame(frame: StreamFrame) -> StreamControl {
    match frame {
        StreamFrame::Text => StreamControl::Forward,
        StreamFrame::Close | StreamFrame::Failed => StreamControl::Stop,
        _ => StreamControl::KeepReading,
    }
}

/// The reader task's rule: forward text frames, stop when the server closes the
/// connection or reading fails, and read on after anything else (pings are
/// answered by the connection itself).
pub fn on_stream_frame(frame: StreamFrame) -> (r: StreamControl)
    ensures
        r == spec_on_stream_frame(frame),
{
    match frame {
        StreamFrame::Text => StreamControl::Forward,
        StreamFrame::Close | StreamFrame::Failed => StreamControl::Stop,
        _ => StreamControl::KeepReading,
    }
}

/// Only a close or a failed read stops the stream; only a text frame is forwarded;
/// pings, pongs, binary and raw frames are skipped and reading goes on.
pub proof fn lemma_stream_stops_only_on_close(frame: StreamFrame)
    ensures
        spec_on_stream_frame(frame) == StreamControl::Stop <==> (frame == StreamFrame::Close
            || frame == StreamFrame::Failed),
        spec_on_stream_frame(frame) == StreamControl::Forward <==> frame == StreamFrame::Text,
        spec_on_stream_frame(frame) == StreamControl::KeepReading <==> (frame == StreamFrame::Ping
            || frame == StreamFrame::Pong || frame == StreamFrame::Binary || frame
            == StreamFrame::Frame),
{
}

} // verus!

use vstd::prelude::*;

verus! {

/// Command sent from CLI client to running player.
#[derive(Debug)]
pub enum IpcRequest {
    Pause,
    Resume,
    Stop,
    Next,
    Prev,
    Now,
    Queue,
    Volume { level: u8 },
    Shuffle { mode: String },
    Repeat { mode: String },
}

/// Response sent back from player to CLI client.
#[derive(Debug)]
pub struct IpcResponse {
    pub ok: bool,
    pub message: String,
    pub data: Option<IpcData>,
}

/// Structured data for query responses.
#[derive(Debug)]
pub enum IpcData {
    NowPlaying {
        title: String,
        artist: String,
        album: String,
        position_secs: u64,
        duration_secs: u64,
        volume: u8,
        shuffle: bool,
        repeat: String,
        queue_index: usize,
        queue_total: usize,
    },
    QueueList { current_index: usize, tracks: Vec<QueueTrack> },
}

/// One entry of a queue listing.
#[derive(Debug)]
pub struct QueueTrack {
    pub index: usize,
    pub title: String,
    pub artist: String,
    pub duration_secs: u64,
}

impl IpcResponse {
    /// A successful response without data.
    pub fn ok(message: &str) -> (r: Self)
        ensures
            r.ok,
            r.message@ == message@,
            r.data is None,
    {
        IpcResponse { ok: true, message: message.to_string(), data: None }
    }

    /// A successful response carrying data.
    pub fn ok_with_data(message: &str, data: IpcData) -> (r: Self)
        ensures
            r.ok,
            r.message@ == message@,
            r.data == Some(data),
    {
        IpcResponse { ok: true, message: message.to_string(), data: Some(data) }
    }

    /// A failed response.
    pub fn err(message: &str) -> (r: Self)
        ensures
            !r.ok,
            r.message@ == message@,
            r.data is None,
    {
        IpcResponse { ok: false, message: message.to_string(), data: None }
    }
}

} // verus!

//! Transfer telemetry: the monitor that taps a chunk stream for chunk
//! lengths, and the relay that turns those lengths into progress updates
//! attributed to one file.
use vstd::prelude::*;

verus! {

/// A progress delta for one file: bytes transmitted since the last update.
pub struct ProgressUpdate {
    pub file_name: String,
    pub bytes_transmitted: u64,
}

/// Abstract progress update.
pub ghost struct UpdateModel {
    pub file_name: Seq<char>,
    pub delta: int,
}

impl View for ProgressUpdate {
    type V = UpdateModel;

    open spec fn view(&self) -> UpdateModel {
        UpdateModel { file_name: self.file_name@, delta: self.bytes_transmitted as int }
    }
}

/// What a monitored stream produced on one poll.
pub enum StreamEvent {
    /// A chunk of `len` bytes, passed on unchanged.
    Chunk { len: u64 },
    /// An error of the underlying stream, passed on unchanged.
    Failed,
    /// The end of the underlying stream.
    Ended,
}

/// The length to publish on the telemetry channel for an event: a chunk's
/// length, and nothing for an error or the end of the stream.
pub open spec fn telemetry_of(event: StreamEvent) -> Option<u64> {
    match event {
        StreamEvent::Chunk { len } => Some(len),
        _ => None,
    }
}

/// Decides what the monitor publishes for an event of the stream it taps.
pub fn telemetry(event: &StreamEvent) -> (r: Option<u64>)
    ensures
        r == telemetry_of(*event),
{
    match event {
        StreamEvent::Chunk { len } => Some(*len),
        _ => None,
    }
}

/// The update the relay of file `file_name` forwards for a raw increment.
pub fn relay_update(file_name: &String, bytes_transmitted: u64) -> (r: ProgressUpdate)
    ensures
        r@ == (UpdateModel { file_name: file_name@, delta: bytes_transmitted as int }),
{
    ProgressUpdate { file_name: file_name.clone(), bytes_transmitted }
}

/// The updates the relay of file `name` forwards for chunks `chunks`, one per
/// chunk, in order.
pub open spec fn relayed(name: Seq<char>, chunks: Seq<Seq<u8>>) -> Seq<UpdateModel> {
    chunks.map_values(|c: Seq<u8>| UpdateModel { file_name: name, delta: c.len() as int })
}

/// Sum of the deltas in `updates` attributed to file `name`.
pub open spec fn sum_for(updates: Seq<UpdateModel>, name: Seq<char>) -> int
    decreases updates.len(),
{
    if updates.len() == 0 {
        0
    } else {
        sum_for(updates.drop_last(), name) + if updates.last().file_name == name {
            updates.last().delta
        } else {
            0
        }
    }
}

} // verus!

//! Play and stop requests for the audio sink, and the plan by which a worker
//! streams a cue into the ring buffer.
//!
//! Every request takes a fresh generation number.  A worker streaming a cue
//! compares the live generation with the cue's own before each write and gives
//! up as soon as they differ, so a newer request cuts an older stream at the
//! next chunk boundary.
use vstd::prelude::*;
use crate::game::Team;
use crate::min;

verus! {

/// Bytes written in one go before chunked streaming begins.
pub const PREFILL_SIZE: usize = 4096;

/// Bytes written per chunk after the prefill.
pub const CHUNK_SIZE: usize = 512;

/// The generation that follows `g`; the counter wraps around.
pub open spec fn next_generation(g: u32) -> u32 {
    if g == u32::MAX {
        0
    } else {
        (g + 1) as u32
    }
}

/// A request for the audio worker, tagged with its generation.
#[derive(Debug, Clone, Copy, PartialEq, Eq, Structural)]
pub enum AudioCommand {
    /// Play the capture cue of a team.
    Play { generation: u32, cue: Team },
    /// Silence whatever is playing.
    Stop { generation: u32 },
}

impl AudioCommand {
    pub open spec fn spec_generation(self) -> u32 {
        match self {
            AudioCommand::Play { generation, .. } => generation,
            AudioCommand::Stop { generation } => generation,
        }
    }

    pub fn generation(&self) -> (r: u32)
        ensures
            r == self.spec_generation(),
    {
        match self {
            AudioCommand::Play { generation, .. } => *generation,
            AudioCommand::Stop { generation } => *generation,
        }
    }
}

/// The issuing side of the audio pipeline: it owns the generation counter.
pub struct AudioPipeline {
    generation: u32,
}

impl View for AudioPipeline {
    type V = u32;

    /// The generation of the latest request.
    closed spec fn view(&self) -> u32 {
        self.generation
    }
}

fn bump(g: u32) -> (r: u32)
    ensures
        r == next_generation(g),
{
    if g == u32::MAX {
        0
    } else {
        g + 1
    }
}

impl AudioPipeline {
    pub fn new() -> (r: AudioPipeline)
        ensures
            r@ == 0,
    {
        AudioPipeline { generation: 0 }
    }

    /// The generation a stream must carry to keep writing.
    pub fn current_generation(&self) -> (r: u32)
        ensures
            r == self@,
    {
        self.generation
    }

    /// Requests `cue`; never waits for playback.
    pub fn play(&mut self, cue: Team) -> (cmd: AudioCommand)
        ensures
            final(self)@ == next_generation(old(self)@),
            cmd == (AudioCommand::Play { generation: final(self)@, cue }),
    {
        self.generation = bump(self.generation);
        AudioCommand::Play { generation: self.generation, cue }
    }

    /// Requests silence; any stream in flight stops at its next chunk.
    pub fn stop(&mut self) -> (cmd: AudioCommand)
        ensures
            final(self)@ == next_generation(old(self)@),
            cmd == (AudioCommand::Stop { generation: final(self)@ }),
    {
        self.generation = bump(self.generation);
        AudioCommand::Stop { generation: self.generation }
    }
}

/// Abstract state of a stream.
pub struct StreamModel {
    pub generation: u32,
    pub len: nat,
    pub offset: nat,
    pub done: bool,
}

/// One step of a stream when the live generation is `live`: the stream and
/// the byte range `[start, end)` of the payload to write next, if any.  The
/// first write is the prefill, later ones are chunks; a stream whose
/// generation is no longer live, or that has nothing left, ends.
pub open spec fn stream_step(s: StreamModel, live: u32) -> (StreamModel, Option<(int, int)>) {
    if s.done || s.offset >= s.len || live != s.generation {
        (StreamModel { done: true, ..s }, None)
    } else {
        let size = if s.offset == 0 {
            PREFILL_SIZE as int
        } else {
            CHUNK_SIZE as int
        };
        let end = min(s.offset + size, s.len as int);
        (StreamModel { offset: end as nat, ..s }, Some((s.offset as int, end)))
    }
}

/// The ranges written by successive steps with live generations `lives`.
pub open spec fn stream_writes(s: StreamModel, lives: Seq<u32>) -> Seq<(int, int)>
    decreases lives.len(),
{
    if lives.len() == 0 {
        Seq::empty()
    } else {
        let (next, w) = stream_step(s, lives[0]);
        match w {
            Some(range) => seq![range] + stream_writes(next, lives.drop_first()),
            None => stream_writes(next, lives.drop_first()),
        }
    }
}

/// A cue being streamed by the worker.
pub struct PlaybackStream {
    generation: u32,
    len: usize,
    offset: usize,
    done: bool,
}

impl View for PlaybackStream {
    type V = StreamModel;

    closed spec fn view(&self) -> StreamModel {
        StreamModel {
            generation: self.generation,
            len: self.len as nat,
            offset: self.offset as nat,
            done: self.done,
        }
    }
}

impl PlaybackStream {
    pub closed spec fn wf(&self) -> bool {
        self.offset <= self.len
    }

    /// The stream of a payload of `len` bytes for the request of generation
    /// `generation`.
    pub fn new(generation: u32, len: usize) -> (r: PlaybackStream)
        ensures
            r.wf(),
            r@ == (StreamModel { generation, len: len as nat, offset: 0, done: false }),
    {
        PlaybackStream { generation, len, offset: 0, done: false }
    }

    /// What the worker starts for `cmd` once it has flushed the ring buffer:
    /// a stream for a play request, nothing for a stop.
    pub fn for_command(cmd: AudioCommand, payload_len: usize) -> (r: Option<PlaybackStream>)
        ensures
            match cmd {
                AudioCommand::Play { generation, .. } => r matches Some(s) && s.wf() && s@ == (
                StreamModel { generation, len: payload_len as nat, offset: 0, done: false }),
                AudioCommand::Stop { .. } => r is None,
            },
    {
        match cmd {
            AudioCommand::Play { generation, .. } => Some(PlaybackStream::new(generation, payload_len)),
            AudioCommand::Stop { .. } => None,
        }
    }

    /// The next range of the payload to write, given the live generation; `None`
    /// once the payload is exhausted or a newer request has been issued.
    pub fn next_write(&mut self, live: u32) -> (r: Option<(usize, usize)>)
        requires
            old(self).wf(),
        ensures
            final(self).wf(),
            final(self)@ == stream_step(old(self)@, live).0,
            match r {
                Some((start, end)) => stream_step(old(self)@, live).1 == Some((start as int, end as int)),
                None => stream_step(old(self)@, live).1 is None,
            },
    {
        if self.done || self.offset >= self.len || live != self.generation {
            self.done = true;
            return None;
        }
        let size = if self.offset == 0 {
            PREFILL_SIZE
        } else {
            CHUNK_SIZE
        };
        let start = self.offset;
        let end = if self.len - start <= size {
            self.len
        } else {
            start + size
        };
        self.offset = end;
        Some((start, end))
    }

    /// Whether the stream has ended.
    pub fn is_done(&self) -> (r: bool)
        ensures
            r == self@.done,
    {
        self.done
    }
}

/// A stream that has met a newer generation writes nothing more, whatever
/// generations it sees afterwards.
pub proof fn lemma_superseded_stream_writes_nothing(s: StreamModel, live: u32, lives: Seq<u32>)
    requires
        live != s.generation,
    ensures
        stream_step(s, live).1 is None,
        stream_writes(stream_step(s, live).0, lives) == Seq::<(int, int)>::empty(),
{
    lemma_ended_stream_writes_nothing(stream_step(s, live).0, lives);
}

/// An ended stream writes nothing more.
pub proof fn lemma_ended_stream_writes_nothing(s: StreamModel, lives: Seq<u32>)
    requires
        s.done,
    ensures
        stream_writes(s, lives) == Seq::<(int, int)>::empty(),
    decreases lives.len(),
{
    if lives.len() > 0 {
        lemma_ended_stream_writes_nothing(stream_step(s, lives[0]).0, lives.drop_first());
    }
}

/// After a play request for A and then one for B, A's stream writes nothing
/// from the first chunk boundary at which it sees B's generation on.
pub proof fn lemma_newer_play_cuts_older_stream(before: u32, s: StreamModel, lives: Seq<u32>)
    requires
        s.generation == next_generation(before),
    ensures
        stream_step(s, next_generation(next_generation(before))).1 is None,
        stream_writes(stream_step(s, next_generation(next_generation(before))).0, lives)
            == Seq::<(int, int)>::empty(),
{
    lemma_superseded_stream_writes_nothing(s, next_generation(next_generation(before)), lives);
}

} // verus!

use dominacao::audio::{AudioCommand, AudioPipeline, PlaybackStream, CHUNK_SIZE, PREFILL_SIZE};
use dominacao::game::Team;
use dominacao::ring::RingBuffer;

#[test]
fn five_thousand_bytes_prefill_then_two_chunks() {
    assert_eq!(PREFILL_SIZE, 4096);
    assert_eq!(CHUNK_SIZE, 512);
    let mut p = AudioPipeline::new();
    let cmd = p.play(Team::Red);
    let payload = vec![7u8; 5000];
    let mut ring = RingBuffer::new(65536);
    let mut s = PlaybackStream::for_command(cmd, payload.len()).unwrap();
    let live = p.current_generation();
    let mut sizes = Vec::new();
    while let Some((start, end)) = s.next_write(live) {
        sizes.push(ring.write(&payload[start..end]));
    }
    assert_eq!(sizes, vec![4096, 512, 392]);
    assert_eq!(ring.len(), 5000);
    assert!(s.is_done());
}

#[test]
fn ranges_are_contiguous() {
    let mut s = PlaybackStream::new(3, 5000);
    assert_eq!(s.next_write(3), Some((0, 4096)));
    assert_eq!(s.next_write(3), Some((4096, 4608)));
    assert_eq!(s.next_write(3), Some((4608, 5000)));
    assert_eq!(s.next_write(3), None);
}

#[test]
fn short_payload_is_all_prefill() {
    let mut s = PlaybackStream::new(0, 100);
    assert_eq!(s.next_write(0), Some((0, 100)));
    assert_eq!(s.next_write(0), None);
}

#[test]
fn empty_payload_writes_nothing() {
    let mut s = PlaybackStream::new(0, 0);
    assert_eq!(s.next_write(0), None);
    assert!(s.is_done());
}

#[test]
fn newer_play_cuts_older_stream_at_next_chunk() {
    let mut p = AudioPipeline::new();
    let a = p.play(Team::Red);
    let mut sa = PlaybackStream::for_command(a, 10_000).unwrap();
    assert_eq!(sa.next_write(p.current_generation()), Some((0, 4096)));
    assert_eq!(sa.next_write(p.current_generation()), Some((4096, 4608)));
    let b = p.play(Team::Blue);
    assert_ne!(a.generation(), b.generation());
    assert_eq!(sa.next_write(p.current_generation()), None);
    // Even if the generation were seen as A's again, the stream stays over.
    assert_eq!(sa.next_write(a.generation()), None);
    let mut sb = PlaybackStream::for_command(b, 10_000).unwrap();
    assert_eq!(sb.next_write(p.current_generation()), Some((0, 4096)));
}

#[test]
fn stale_request_writes_nothing() {
    let mut p = AudioPipeline::new();
    let a = p.play(Team::Red);
    let _b = p.play(Team::Blue);
    let mut sa = PlaybackStream::for_command(a, 10_000).unwrap();
    assert_eq!(sa.next_write(p.current_generation()), None);
}

#[test]
fn stop_bumps_generation_and_starts_no_stream() {
    let mut p = AudioPipeline::new();
    let a = p.play(Team::Blue);
    let s = p.stop();
    assert_eq!(s, AudioCommand::Stop { generation: a.generation() + 1 });
    assert!(PlaybackStream::for_command(s, 100).is_none());
}

#[test]
fn generations_count_up_from_one() {
    let mut p = AudioPipeline::new();
    assert_eq!(p.current_generation(), 0);
    assert_eq!(p.play(Team::Red), AudioCommand::Play { generation: 1, cue: Team::Red });
    assert_eq!(p.play(Team::Blue), AudioCommand::Play { generation: 2, cue: Team::Blue });
    assert_eq!(p.current_generation(), 2);
}

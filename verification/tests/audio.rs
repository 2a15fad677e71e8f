use localtrans::audio::{chunk_size_from_duration, AudioBuffer, AudioChunker, VadGate, VadResult};

#[test]
fn test_chunk_size_calculation() {
    let size = chunk_size_from_duration(16000, 600);
    assert_eq!(size, 9600);
}

#[test]
fn test_push_and_get() {
    let mut buffer: AudioBuffer<f32> = AudioBuffer::new(100, 10);

    buffer.push(&[1.0; 15]);
    assert_eq!(buffer.len(), 15);

    let chunk = buffer.get_chunk();
    assert!(chunk.is_some());
    assert_eq!(chunk.unwrap().len(), 10);
    assert_eq!(buffer.len(), 5);
}

#[test]
fn test_capacity_limit() {
    let mut buffer: AudioBuffer<f32> = AudioBuffer::new(10, 5);

    buffer.push(&[1.0; 20]);
    assert_eq!(buffer.len(), 10);
}

#[test]
fn test_audio_chunker() {
    let mut chunker: AudioChunker<f32> = AudioChunker::new(100, 0, 16000);

    chunker.push(&[1.0f32; 50]);
    assert!(!chunker.has_chunk());

    chunker.push(&[1.0f32; 100]);
    assert!(chunker.has_chunk());

    let chunk = chunker.get_chunk();
    assert!(chunk.is_some());
    assert_eq!(chunk.unwrap().len(), 100);
}

#[test]
fn test_audio_chunker_overlap() {
    let mut chunker: AudioChunker<f32> = AudioChunker::new(100, 10, 16000);

    chunker.push(&[1.0f32; 200]);

    let chunk1 = chunker.get_chunk();
    assert!(chunk1.is_some());

    assert!(!chunker.is_empty());
}

#[test]
fn chunk_size_rounds_down_to_whole_samples() {
    assert_eq!(chunk_size_from_duration(44100, 10), 441);
    assert_eq!(chunk_size_from_duration(16000, 0), 0);
    assert_eq!(chunk_size_from_duration(8000, 1), 8);
}

#[test]
fn buffer_is_first_in_first_out() {
    let mut buffer: AudioBuffer<i32> = AudioBuffer::new(10, 3);
    buffer.push(&[1, 2, 3, 4, 5]);
    assert_eq!(buffer.peek_chunk(), Some(vec![1, 2, 3]));
    assert_eq!(buffer.get_chunk(), Some(vec![1, 2, 3]));
    assert_eq!(buffer.get_chunk(), None);
    assert_eq!(buffer.len(), 2);
    buffer.push(&[6]);
    assert_eq!(buffer.get_chunk(), Some(vec![4, 5, 6]));
    assert!(buffer.is_empty());
}

#[test]
fn full_buffer_drops_the_oldest_samples() {
    let mut buffer: AudioBuffer<i32> = AudioBuffer::new(4, 4);
    buffer.push(&[1, 2, 3, 4, 5, 6]);
    assert_eq!(buffer.get_chunk(), Some(vec![3, 4, 5, 6]));
}

#[test]
fn buffer_clear_and_chunk_size() {
    let mut buffer: AudioBuffer<i32> = AudioBuffer::new(10, 4);
    buffer.push(&[1, 2, 3]);
    buffer.set_chunk_size(2);
    assert_eq!(buffer.get_chunk(), Some(vec![1, 2]));
    buffer.clear();
    assert!(buffer.is_empty());
}

#[test]
fn chunker_keeps_the_overlap_in_front() {
    let mut chunker: AudioChunker<i32> = AudioChunker::new(4, 0, 2000);
    chunker.push(&[1, 2, 3, 4, 5]);
    assert_eq!(chunker.get_chunk(), Some(vec![1, 2, 3, 4]));
    assert_eq!(chunker.drain_remaining(), vec![5]);
    let mut chunker: AudioChunker<i32> = AudioChunker::new(4, 1, 2000);
    chunker.push(&[1, 2, 3, 4, 5]);
    assert_eq!(chunker.get_chunk(), Some(vec![1, 2, 3, 4]));
    assert_eq!(chunker.drain_remaining(), vec![3, 4, 5]);
    let mut chunker: AudioChunker<i32> = AudioChunker::new(4, 1, 3000);
    chunker.push(&[1, 2, 3, 4, 5]);
    assert_eq!(chunker.get_chunk(), Some(vec![1, 2, 3, 4]));
    assert_eq!(chunker.drain_remaining(), vec![2, 3, 4, 5]);
}

#[test]
fn chunker_clear_empties_it() {
    let mut chunker: AudioChunker<i32> = AudioChunker::new(2, 0, 16000);
    chunker.push(&[1, 2, 3]);
    assert_eq!(chunker.len(), 3);
    chunker.clear();
    assert!(chunker.is_empty());
    assert_eq!(chunker.get_chunk(), None);
}

#[test]
fn vad_starts_after_three_loud_frames_and_ends_after_fifteen_quiet_ones() {
    let mut gate = VadGate::new();
    assert_eq!(gate.step(true), VadResult::Silence);
    assert_eq!(gate.step(true), VadResult::Silence);
    assert_eq!(gate.step(true), VadResult::SpeechStart);
    assert!(gate.is_speech());
    for _ in 0..14 {
        assert_eq!(gate.step(false), VadResult::Speech);
    }
    assert_eq!(gate.step(false), VadResult::SpeechEnd);
    assert!(!gate.is_speech());
}

#[test]
fn vad_quiet_frame_resets_the_loud_count() {
    let mut gate = VadGate::new();
    gate.step(true);
    gate.step(true);
    assert_eq!(gate.step(false), VadResult::Silence);
    assert_eq!(gate.step(true), VadResult::Silence);
}

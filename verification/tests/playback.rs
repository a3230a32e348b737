use nuance::playback::{PlaybackSink, StreamAvailable, WriteStep};
use nuance::types::{Bitrate, Frequency, Sound};

fn sink_of(total: usize) -> PlaybackSink {
    let samples: Vec<i16> = (0..total).map(|i| i as i16).collect();
    PlaybackSink::new(Sound::from_vec_i16(samples), Frequency::Freq_16000)
}

/// Drains a sink into a device that offers `n` frames at every question,
/// and returns the frame counts of the writes.
fn drain(sink: &mut PlaybackSink, n: i64) -> Vec<u32> {
    let total = sink.sound().len();
    let mut writes = Vec::new();
    let mut written = 0usize;
    while !sink.is_done() {
        match sink.next_write(StreamAvailable::Frames(n)) {
            WriteStep::Write { start, frames } => {
                assert_eq!(start, written);
                assert!(frames as usize <= total - written);
                assert!(frames as i64 <= n);
                written += frames as usize;
                assert_eq!(sink.position(), written);
                writes.push(frames);
            }
            WriteStep::Retry => panic!("a number of frames never asks for a retry"),
        }
    }
    assert_eq!(written, total);
    writes
}

#[test]
fn steady_device_takes_ceiling_many_writes() {
    for (total, n) in [(250usize, 100i64), (300, 100), (1, 100), (100, 100), (101, 100), (7, 1), (1000, 256)] {
        let mut sink = sink_of(total);
        let writes = drain(&mut sink, n);
        let n = n as usize;
        assert_eq!(writes.len(), (total + n - 1) / n);
    }
}

#[test]
fn write_sizes_follow_the_device() {
    let mut sink = sink_of(250);
    assert_eq!(drain(&mut sink, 100), vec![100, 100, 50]);
    let mut exact = sink_of(512);
    assert_eq!(drain(&mut exact, 256), vec![256, 256]);
}

#[test]
fn empty_buffer_needs_no_write() {
    let mut sink = sink_of(0);
    assert!(sink.is_done());
    assert_eq!(drain(&mut sink, 100), Vec::<u32>::new());
}

#[test]
fn overflow_and_underflow_ask_again_without_writing() {
    let mut sink = sink_of(10);
    assert_eq!(sink.next_write(StreamAvailable::InputOverflowed), WriteStep::Retry);
    assert_eq!(sink.position(), 0);
    assert_eq!(sink.next_write(StreamAvailable::OutputUnderflowed), WriteStep::Retry);
    assert_eq!(sink.position(), 0);
    assert!(!sink.is_done());
    assert_eq!(
        sink.next_write(StreamAvailable::Frames(4)),
        WriteStep::Write { start: 0, frames: 4 }
    );
    assert_eq!(sink.next_write(StreamAvailable::OutputUnderflowed), WriteStep::Retry);
    assert_eq!(sink.position(), 4);
    assert_eq!(
        sink.next_write(StreamAvailable::Frames(100)),
        WriteStep::Write { start: 4, frames: 6 }
    );
    assert!(sink.is_done());
}

#[test]
fn device_that_offers_nothing_gets_an_empty_write() {
    let mut sink = sink_of(5);
    assert_eq!(
        sink.next_write(StreamAvailable::Frames(0)),
        WriteStep::Write { start: 0, frames: 0 }
    );
    assert_eq!(
        sink.next_write(StreamAvailable::Frames(-3)),
        WriteStep::Write { start: 0, frames: 0 }
    );
    assert_eq!(sink.position(), 0);
    assert!(!sink.is_done());
}

#[test]
fn huge_offer_is_cut_to_what_is_left() {
    let mut sink = sink_of(5);
    assert_eq!(
        sink.next_write(StreamAvailable::Frames(i64::MAX)),
        WriteStep::Write { start: 0, frames: 5 }
    );
    assert!(sink.is_done());
    assert_eq!(
        sink.next_write(StreamAvailable::Frames(10)),
        WriteStep::Write { start: 5, frames: 0 }
    );
}

#[test]
fn sink_keeps_its_buffer_and_rate() {
    let sound = Sound::from_vec_u8(vec![1, 2, 3]);
    let mut sink = PlaybackSink::new(sound.clone(), Frequency::Freq_44100);
    assert_eq!(sink.frequency(), Frequency::Freq_44100);
    assert_eq!(sink.sound(), &sound);
    assert_eq!(sink.sound().bitrate(), Bitrate::Bits_8);
    sink.next_write(StreamAvailable::Frames(2));
    assert_eq!(sink.sound(), &sound);
    assert_eq!(sink.frequency(), Frequency::Freq_44100);
    assert_eq!(sink.position(), 2);
}

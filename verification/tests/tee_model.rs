use runner::chunk::{Chunk, CHUNK_SIZE};
use runner::interleave::{tee_interleaved, StreamRole, TaggedChunk};
use runner::sink::MemSink;
use runner::tee::{tee, tee_step, MemSource, ReadEvent, TeeAction};

#[test]
fn chunk_end_marker() {
    let c = Chunk::end();
    assert_eq!(c.len(), 0);
    assert_eq!(c.data(), b"");
    let d = Chunk::from_slice(b"hello");
    assert_eq!(d.len(), 5);
    assert_eq!(d.data(), b"hello");
}

#[test]
fn tee_duplicates_to_every_sink() {
    let mut source = MemSource::new(b"hello\n".to_vec());
    let mut sinks = vec![MemSink::new(), MemSink::new()];
    let r = tee(&mut source, &mut sinks);
    assert!(r.is_ok());
    assert_eq!(sinks[0].contents(), &b"hello\n".to_vec());
    assert_eq!(sinks[1].contents(), &b"hello\n".to_vec());
}

#[test]
fn tee_spans_chunk_boundaries() {
    // Three full chunks and a bit more, so several reads are needed.
    let data: Vec<u8> = (0..(3 * CHUNK_SIZE + 7)).map(|i| (i % 251) as u8).collect();
    let mut source = MemSource::new(data.clone());
    let mut sinks = vec![MemSink::new(), MemSink::new(), MemSink::new()];
    let r = tee(&mut source, &mut sinks);
    assert!(r.is_ok());
    for s in &sinks {
        assert_eq!(s.contents(), &data);
    }
}

#[test]
fn tee_appends_after_existing_contents() {
    // A log file pre-populated with a header line keeps it; the teed bytes
    // follow it.
    let mut source = MemSource::new(b"hello world\n".to_vec());
    let mut sinks = vec![
        MemSink::new(),
        MemSink::with_contents(b"Temporary File Header\n".to_vec()),
    ];
    let r = tee(&mut source, &mut sinks);
    assert!(r.is_ok());
    assert_eq!(sinks[0].contents(), &b"hello world\n".to_vec());
    assert_eq!(
        sinks[1].contents(),
        &b"Temporary File Header\nhello world\n".to_vec()
    );
}

#[test]
fn tee_of_exhausted_source_writes_nothing() {
    // An error stream that stays silent leaves its log file with the
    // header alone.
    let mut source = MemSource::new(Vec::new());
    let mut sinks = vec![
        MemSink::new(),
        MemSink::with_contents(b"Temporary File Header\n".to_vec()),
    ];
    let r = tee(&mut source, &mut sinks);
    assert!(r.is_ok());
    assert_eq!(sinks[0].contents(), &b"".to_vec());
    assert_eq!(sinks[1].contents(), &b"Temporary File Header\n".to_vec());
}

#[test]
fn tee_failing_sink_keeps_earlier_deliveries() {
    // The first sink receives the chunk before the second sink's failure
    // stops the tee; the third sink is never written.
    let mut source = MemSource::new(b"abc".to_vec());
    let mut sinks = vec![MemSink::new(), MemSink::new_broken(), MemSink::new()];
    let r = tee(&mut source, &mut sinks);
    assert!(r.is_err());
    assert_eq!(sinks[0].contents(), &b"abc".to_vec());
    assert_eq!(sinks[1].contents(), &b"".to_vec());
    assert_eq!(sinks[2].contents(), &b"".to_vec());
}

#[test]
fn tee_step_decisions() {
    assert!(matches!(tee_step(ReadEvent::Data(Chunk::end())), TeeAction::Finish));
    match tee_step(ReadEvent::Data(Chunk::from_slice(b"xy"))) {
        TeeAction::Forward(c) => assert_eq!(c.data(), b"xy"),
        _ => panic!("a chunk with bytes must be forwarded"),
    }
    assert!(matches!(tee_step(ReadEvent::Interrupted), TeeAction::Retry));
    assert!(matches!(tee_step(ReadEvent::Failed), TeeAction::Fail));
}

#[test]
fn interleaving_keeps_each_stream_in_order() {
    // Output and error chunks alternate arbitrarily; each stream's sinks
    // see only that stream's bytes, in the stream's own order.
    let items = vec![
        TaggedChunk { role: StreamRole::Output, chunk: Chunk::from_slice(b"out1 ") },
        TaggedChunk { role: StreamRole::Error, chunk: Chunk::from_slice(b"err1 ") },
        TaggedChunk { role: StreamRole::Error, chunk: Chunk::from_slice(b"err2 ") },
        TaggedChunk { role: StreamRole::Output, chunk: Chunk::from_slice(b"out2 ") },
        TaggedChunk { role: StreamRole::Error, chunk: Chunk::from_slice(b"err3") },
        TaggedChunk { role: StreamRole::Output, chunk: Chunk::from_slice(b"out3") },
    ];
    let mut out_sinks = vec![MemSink::new(), MemSink::new()];
    let mut err_sinks = vec![MemSink::new()];
    let r = tee_interleaved(&items, &mut out_sinks, &mut err_sinks);
    assert!(r.is_ok());
    assert_eq!(out_sinks[0].contents(), &b"out1 out2 out3".to_vec());
    assert_eq!(out_sinks[1].contents(), &b"out1 out2 out3".to_vec());
    assert_eq!(err_sinks[0].contents(), &b"err1 err2 err3".to_vec());
}

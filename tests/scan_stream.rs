use tachyon_query::buffer::{TickBatch, TransferBuffer, BATCH_CAPACITY};
use tachyon_query::error::ScanError;
use tachyon_query::scan::{classify_fill, FillOutcome, Pull, ScanStream, StreamState};

/// A stand-in for the native tick engine: it serves a scripted list of fill results,
/// writing rows numbered from a running counter, and counts open and close calls.
struct MockNative {
    results: Vec<i32>,
    next: usize,
    row_counter: u64,
    opens: usize,
    closes: usize,
}

impl MockNative {
    fn new(results: Vec<i32>) -> MockNative {
        MockNative { results, next: 0, row_counter: 0, opens: 0, closes: 0 }
    }

    fn open(&mut self) -> bool {
        self.opens += 1;
        true
    }

    fn fill(&mut self, buffer: &mut TransferBuffer) -> i32 {
        let r = self.results[self.next];
        self.next += 1;
        if r > 0 {
            let n = std::cmp::min(r as usize, buffer.timestamps.len());
            for i in 0..n {
                buffer.timestamps[i] = self.row_counter;
                buffer.bid_bits[i] = (self.row_counter as f64 * 0.5).to_bits();
                buffer.ask_bits[i] = (self.row_counter as f64 * 0.5 + 0.25).to_bits();
                self.row_counter += 1;
            }
        }
        r
    }

    fn close(&mut self) {
        self.closes += 1;
    }
}

/// Pulls until the stream ends, fails, or `max_rows` rows were taken; then drops
/// the stream the way a consumer does. Returns the batches and the error, if any.
fn consume(mock: &mut MockNative, max_rows: Option<usize>) -> (Vec<TickBatch>, Option<ScanError>) {
    let opened = mock.open();
    let mut stream = ScanStream::open(opened).unwrap();
    let mut buffer = TransferBuffer::new();
    let mut batches = Vec::new();
    let mut error = None;
    let mut taken = 0usize;
    while stream.wants_fill() {
        if let Some(limit) = max_rows {
            if taken >= limit {
                break;
            }
        }
        let result = mock.fill(&mut buffer);
        match stream.on_filled(&buffer, result) {
            Pull::Batch(b) => {
                taken += b.timestamps.len();
                batches.push(b);
            }
            Pull::End => break,
            Pull::Failed(e) => {
                // The stream closed on this fill: the handle is released now.
                mock.close();
                error = Some(e);
                break;
            }
        }
    }
    if stream.release() {
        mock.close();
    }
    // A second release, as a drop after an explicit end would make, does nothing.
    if stream.release() {
        mock.close();
    }
    (batches, error)
}

#[test]
fn full_batches_then_end() {
    let mut mock = MockNative::new(vec![4096, 4096, 17, 0]);
    let (batches, error) = consume(&mut mock, None);
    let sizes: Vec<usize> = batches.iter().map(|b| b.timestamps.len()).collect();
    assert_eq!(sizes, vec![4096, 4096, 17]);
    assert_eq!(error, None);
    assert_eq!(mock.opens, 1);
    assert_eq!(mock.closes, 1);
}

#[test]
fn batches_concatenate_to_source_rows() {
    let mut mock = MockNative::new(vec![3, 4096, 5, 0]);
    let (batches, _) = consume(&mut mock, None);
    let mut all = Vec::new();
    for b in &batches {
        assert_eq!(b.bid_bits.len(), b.timestamps.len());
        assert_eq!(b.ask_bits.len(), b.timestamps.len());
        all.extend_from_slice(&b.timestamps);
    }
    let expected: Vec<u64> = (0..(3 + 4096 + 5) as u64).collect();
    assert_eq!(all, expected);
    assert_eq!(f64::from_bits(batches[0].bid_bits[2]), 1.0);
    assert_eq!(f64::from_bits(batches[0].ask_bits[2]), 1.25);
}

#[test]
fn fault_on_second_fill() {
    let mut mock = MockNative::new(vec![100, -1, 5, 0]);
    let (batches, error) = consume(&mut mock, None);
    assert_eq!(batches.len(), 1);
    assert_eq!(batches[0].timestamps.len(), 100);
    assert_eq!(error, Some(ScanError::NativeFault { code: -1 }));
    assert_eq!(mock.opens, 1);
    assert_eq!(mock.closes, 1);
}

#[test]
fn early_abandon_closes_once() {
    let results = vec![4096; 1000];
    let mut mock = MockNative::new(results);
    let (batches, error) = consume(&mut mock, Some(10));
    assert_eq!(batches.len(), 1);
    assert_eq!(error, None);
    assert_eq!(mock.next, 1);
    assert_eq!(mock.closes, 1);
}

#[test]
fn row_count_above_capacity_fails() {
    let mut mock = MockNative::new(vec![10, 5000, 0]);
    let (batches, error) = consume(&mut mock, None);
    assert_eq!(batches.len(), 1);
    assert_eq!(error, Some(ScanError::CapacityExceeded { rows: 5000 }));
    assert_eq!(mock.closes, 1);
}

#[test]
fn empty_series_ends_cleanly() {
    let mut mock = MockNative::new(vec![0]);
    let (batches, error) = consume(&mut mock, None);
    assert!(batches.is_empty());
    assert_eq!(error, None);
    assert_eq!(mock.closes, 1);
}

#[test]
fn missing_handle_is_an_error() {
    assert!(matches!(ScanStream::open(false), Err(ScanError::OpenFailed)));
}

#[test]
fn states_follow_the_protocol() {
    let buffer = TransferBuffer::new();
    let mut s = ScanStream::open(true).unwrap();
    assert_eq!(s.state(), StreamState::Open);
    assert!(matches!(s.on_filled(&buffer, 2), Pull::Batch(_)));
    assert_eq!(s.state(), StreamState::Open);
    assert!(matches!(s.on_filled(&buffer, 0), Pull::End));
    assert_eq!(s.state(), StreamState::Exhausted);
    assert!(!s.wants_fill());
    assert!(s.release());
    assert_eq!(s.state(), StreamState::Closed);
    assert!(!s.release());
}

#[test]
fn fault_releases_at_once() {
    let buffer = TransferBuffer::new();
    let mut s = ScanStream::open(true).unwrap();
    assert!(matches!(s.on_filled(&buffer, -7), Pull::Failed(ScanError::NativeFault { code: -7 })));
    assert_eq!(s.state(), StreamState::Closed);
    assert!(!s.release());
}

#[test]
fn classify_fill_results() {
    assert_eq!(classify_fill(17), FillOutcome::Rows(17));
    assert_eq!(classify_fill(0), FillOutcome::End);
    assert_eq!(classify_fill(-3), FillOutcome::Fault(-3));
}

#[test]
fn convert_copies_prefix() {
    let mut buffer = TransferBuffer::new();
    assert_eq!(buffer.timestamps.len(), BATCH_CAPACITY as usize);
    buffer.timestamps[0] = u64::MAX;
    buffer.timestamps[1] = 0;
    buffer.timestamps[2] = 99;
    buffer.bid_bits[0] = (-1.5f64).to_bits();
    buffer.ask_bits[0] = f64::MAX.to_bits();
    let b = buffer.convert(2).unwrap();
    assert_eq!(b.len(), 2);
    assert_eq!(b.timestamps, vec![u64::MAX, 0]);
    assert_eq!(f64::from_bits(b.bid_bits[0]), -1.5);
    assert_eq!(f64::from_bits(b.ask_bits[0]), f64::MAX);
    // Later overwrites of the buffer leave the batch as it was.
    buffer.timestamps[0] = 5;
    assert_eq!(b.timestamps[0], u64::MAX);
}

#[test]
fn convert_full_and_over_capacity() {
    let buffer = TransferBuffer::new();
    assert_eq!(buffer.convert(4096).unwrap().len(), 4096);
    assert_eq!(buffer.convert(0).unwrap().len(), 0);
    assert_eq!(buffer.convert(4097), Err(ScanError::CapacityExceeded { rows: 4097 }));
}

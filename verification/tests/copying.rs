use stfm::copy::{CopyMove, CopyTally, CopyWorker, CHUNK_SIZE};

#[test]
fn chunk_size_is_128_kib() {
    assert_eq!(CHUNK_SIZE, 128 * 1024);
}

#[test]
fn tally_adds_up_the_chunks() {
    let mut tally = CopyTally::new();
    assert_eq!(tally.written, 0);
    assert_eq!(tally.add(CHUNK_SIZE), Some(131072));
    assert_eq!(tally.add(CHUNK_SIZE), Some(262144));
    assert_eq!(tally.add(5), Some(262149));
    assert_eq!(tally.written, 262149);
    assert_eq!(tally.add(0), Some(262149));
}

#[test]
fn tally_counts_never_fall() {
    let mut tally = CopyTally::new();
    let mut last = 0;
    for bytes in [1usize, 0, 7, 131072, 3] {
        let count = tally.add(bytes).unwrap();
        assert!(count >= last);
        last = count;
    }
    assert_eq!(last, 131083);
}

#[test]
fn tally_stops_at_what_u64_holds() {
    let mut tally = CopyTally { written: u64::MAX - 2 };
    assert_eq!(tally.add(2), Some(u64::MAX));
    assert_eq!(tally.add(1), None);
    assert_eq!(tally.written, u64::MAX);
    assert_eq!(tally.add(0), Some(u64::MAX));
}

fn sent_while_copying(reads: &[usize]) -> (Vec<u64>, CopyMove) {
    let mut worker = CopyWorker::new();
    let mut sent = Vec::new();
    let mut reads = reads.iter();
    let mut bytes = 0;
    for _ in 0..1000 {
        match worker.next {
            CopyMove::Read => bytes = *reads.next().unwrap_or(&0),
            CopyMove::Send { count } => sent.push(count),
            CopyMove::Write { bytes: chunk } => assert_eq!(chunk, bytes),
            CopyMove::Flush => {}
            CopyMove::Finish | CopyMove::Overflow => break,
        }
        worker.step(bytes);
    }
    (sent, worker.next)
}

#[test]
fn a_worker_starts_by_reading() {
    let worker = CopyWorker::new();
    assert_eq!(worker.next, CopyMove::Read);
    assert_eq!(worker.tally.written, 0);
}

#[test]
fn a_worker_reads_writes_sends_and_reads_on() {
    let mut worker = CopyWorker::new();
    assert_eq!(worker.step(100), CopyMove::Write { bytes: 100 });
    assert_eq!(worker.tally.written, 0);
    assert_eq!(worker.step(0), CopyMove::Send { count: 100 });
    assert_eq!(worker.tally.written, 100);
    assert_eq!(worker.step(0), CopyMove::Read);
    assert_eq!(worker.step(28), CopyMove::Write { bytes: 28 });
    assert_eq!(worker.step(28), CopyMove::Send { count: 128 });
    assert_eq!(worker.step(28), CopyMove::Read);
    assert_eq!(worker.step(0), CopyMove::Flush);
    assert_eq!(worker.step(0), CopyMove::Finish);
    assert_eq!(worker.step(5), CopyMove::Finish);
    assert_eq!(worker.tally.written, 128);
}

#[test]
fn a_worker_sends_the_running_totals_and_the_size_last() {
    let (sent, end) = sent_while_copying(&[131072, 131072, 131072, 7]);
    assert_eq!(sent, vec![131072, 262144, 393216, 393223]);
    assert_eq!(end, CopyMove::Finish);
    assert!(sent.windows(2).all(|pair| pair[0] <= pair[1]));
}

#[test]
fn a_worker_sends_nothing_for_an_empty_source() {
    let (sent, end) = sent_while_copying(&[]);
    assert!(sent.is_empty());
    assert_eq!(end, CopyMove::Finish);
}

#[test]
fn a_worker_gives_up_when_the_count_overflows() {
    let mut worker = CopyWorker { tally: CopyTally { written: u64::MAX - 1 }, next: CopyMove::Read };
    assert_eq!(worker.step(1), CopyMove::Write { bytes: 1 });
    assert_eq!(worker.step(1), CopyMove::Send { count: u64::MAX });
    assert_eq!(worker.step(1), CopyMove::Read);
    assert_eq!(worker.step(1), CopyMove::Write { bytes: 1 });
    assert_eq!(worker.step(1), CopyMove::Overflow);
    assert_eq!(worker.step(1), CopyMove::Overflow);
    assert_eq!(worker.tally.written, u64::MAX);
}

use netaudio::ring::{channel, WaitOutcome};
use std::time::{Duration, Instant};

fn fixture(n: usize) -> Vec<u8> {
    let mut x: u32 = 0x1234_5678;
    (0..n)
        .map(|_| {
            x ^= x << 13;
            x ^= x >> 17;
            x ^= x << 5;
            (x >> 24) as u8
        })
        .collect()
}

#[test]
fn fifo_order_kept() {
    let (mut prod, mut cons) = channel(64);
    let chunks: [&[u8]; 3] = [&[1, 2, 3], &[4, 5], &[6, 7, 8, 9]];
    for c in chunks {
        assert_eq!(prod.push_slice(c), c.len());
    }
    let mut out = [0u8; 4];
    let mut seen = Vec::new();
    loop {
        let n = cons.pop_into(&mut out);
        if n == 0 {
            break;
        }
        seen.extend_from_slice(&out[..n]);
    }
    assert_eq!(seen, vec![1, 2, 3, 4, 5, 6, 7, 8, 9]);
}

#[test]
fn capacity_never_overwritten() {
    let (mut prod, mut cons) = channel(8);
    assert_eq!(prod.capacity(), 8);
    assert_eq!(cons.capacity(), 8);
    assert_eq!(prod.push_slice(&[1, 2, 3, 4, 5]), 5);
    assert_eq!(cons.occupied_len(), 5);
    // only the three free bytes are taken
    assert_eq!(prod.push_slice(&[6, 7, 8, 9, 10]), 3);
    assert_eq!(cons.occupied_len(), 8);
    let mut out = [0u8; 16];
    assert_eq!(cons.pop_into(&mut out), 8);
    assert_eq!(&out[..8], &[1, 2, 3, 4, 5, 6, 7, 8]);
    assert_eq!(out[8], 0);
}

#[test]
fn full_channel_wait_times_out() {
    let (mut prod, _cons) = channel(4);
    prod.set_timeout_ms(Some(20));
    assert_eq!(prod.push_slice(&[1, 2, 3, 4]), 4);
    assert_eq!(prod.wait_vacant(1), WaitOutcome::TimedOut);
    assert_eq!(prod.wait_vacant(0), WaitOutcome::Ready);
}

#[test]
fn skip_past_occupancy_empties() {
    let (mut prod, mut cons) = channel(32);
    assert_eq!(prod.push_slice(&[9; 10]), 10);
    assert_eq!(cons.skip(100), 10);
    assert_eq!(cons.occupied_len(), 0);
    let mut out = [7u8; 4];
    assert_eq!(cons.pop_into(&mut out), 0);
    assert_eq!(out, [7u8; 4]);
    assert_eq!(prod.push_slice(&[1, 2]), 2);
    assert_eq!(cons.pop_into(&mut out), 2);
    assert_eq!(&out[..2], &[1, 2]);
}

#[test]
fn skip_drops_oldest_only() {
    let (mut prod, mut cons) = channel(32);
    prod.push_slice(&[1, 2, 3, 4, 5]);
    assert_eq!(cons.skip(2), 2);
    let mut out = [0u8; 8];
    assert_eq!(cons.pop_into(&mut out), 3);
    assert_eq!(&out[..3], &[3, 4, 5]);
}

#[test]
fn close_releases_consumer_wait() {
    let (prod, mut cons) = channel(1024);
    cons.set_timeout_ms(None);
    drop(prod);
    let start = Instant::now();
    assert_eq!(cons.wait_occupied(512), WaitOutcome::Closed);
    assert_eq!(cons.wait_occupied(1), WaitOutcome::Closed);
    assert!(start.elapsed() < Duration::from_secs(5));
}

#[test]
fn close_releases_producer_wait() {
    let (mut prod, cons) = channel(16);
    prod.set_timeout_ms(None);
    assert_eq!(prod.push_slice(&[0; 16]), 16);
    drop(cons);
    assert_eq!(prod.wait_vacant(8), WaitOutcome::Closed);
    assert_eq!(prod.wait_vacant(16), WaitOutcome::Closed);
}

#[test]
fn push_all_reports_closed() {
    let (mut prod, cons) = channel(8);
    prod.set_timeout_ms(Some(5));
    assert_eq!(prod.push_slice(&[0; 8]), 8);
    drop(cons);
    let r = prod.push_all(&[1, 2, 3], 10);
    assert!(r.closed);
    assert_eq!(r.count, 0);
    assert_eq!(r.waits, 1);
}

#[test]
fn push_all_stops_after_its_waits() {
    let (mut prod, mut cons) = channel(4);
    prod.set_timeout_ms(Some(5));
    let r = prod.push_all(&[1, 2, 3, 4, 5, 6], 3);
    assert!(!r.closed);
    assert_eq!(r.count, 4);
    assert_eq!(r.waits, 3);
    let mut out = [0u8; 4];
    assert_eq!(cons.pop_into(&mut out), 4);
    assert_eq!(out, [1, 2, 3, 4]);
}

#[test]
fn drain_into_times_out_when_empty() {
    let (_prod, mut cons) = channel(8);
    cons.set_timeout_ms(Some(5));
    let mut buf = [5u8; 4];
    assert_eq!(cons.drain_into(&mut buf), (WaitOutcome::TimedOut, 0));
    assert_eq!(buf, [5u8; 4]);
}

#[test]
fn backpressure_scenario() {
    let data = fixture(100_000);
    let (mut prod, mut cons) = channel(64 * 1024);
    prod.set_timeout_ms(Some(1));
    cons.set_timeout_ms(Some(1));
    let mut pushed = 0usize;
    let mut blocked = 0usize;
    let mut got = Vec::new();
    let mut buf = [0u8; 4096];
    while got.len() < data.len() {
        if pushed < data.len() {
            let r = prod.push_all(&data[pushed..], 1);
            assert!(!r.closed);
            pushed += r.count;
            if pushed < data.len() {
                blocked += 1;
            }
        }
        let (w, n) = cons.drain_into(&mut buf);
        assert_eq!(w, WaitOutcome::Ready);
        got.extend_from_slice(&buf[..n]);
    }
    assert!(blocked >= 1);
    assert_eq!(pushed, 100_000);
    assert_eq!(got.len(), 100_000);
    assert_eq!(got, data);
}

#[test]
fn push_all_whole_when_room() {
    let (mut prod, mut cons) = channel(16);
    let r = prod.push_all(&[1, 2, 3, 4, 5], 1);
    assert_eq!((r.count, r.closed, r.waits), (5, false, 1));
    let r = prod.push_all(&[], 4);
    assert_eq!((r.count, r.closed, r.waits), (0, false, 0));
    let mut out = [0u8; 8];
    assert_eq!(cons.pop_into(&mut out), 5);
    assert_eq!(&out[..5], &[1, 2, 3, 4, 5]);
}

#[test]
fn drain_into_ready_moves_oldest() {
    let (mut prod, mut cons) = channel(16);
    prod.push_slice(&[10, 20, 30]);
    let mut buf = [0u8; 2];
    assert_eq!(cons.drain_into(&mut buf), (WaitOutcome::Ready, 2));
    assert_eq!(buf, [10, 20]);
    let mut buf = [0u8; 4];
    assert_eq!(cons.drain_into(&mut buf), (WaitOutcome::Ready, 1));
    assert_eq!(buf, [30, 0, 0, 0]);
}

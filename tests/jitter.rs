use netaudio::jitter::{JitterController, Plan, Serviced, CALLBACK_WAIT_MS, NO_MINIMUM};
use netaudio::ring::channel;
use std::time::{Duration, Instant};

#[test]
fn automatic_first_callback_measures() {
    let mut j = JitterController::new(None);
    let p = j.plan(4000, 1000);
    assert_eq!(p, Plan { skip: 0, underrun: false });
    assert_eq!(j.calm_callbacks, 1);
    assert_eq!(j.min_slack, 1500);
    assert_eq!(j.shed_per_callback, 0);
}

#[test]
fn automatic_sheds_after_a_calm_window() {
    let mut j = JitterController::new(None);
    for _ in 0..99 {
        assert_eq!(j.plan(4000, 1000).skip, 0);
    }
    // the hundredth callback closes the window: a fifth-hundredth of 1500
    assert_eq!(j.plan(4000, 1000).skip, 0);
    assert_eq!(j.calm_callbacks, 0);
    assert_eq!(j.shed_per_callback, 3);
    assert_eq!(j.min_slack, NO_MINIMUM);
    assert_eq!(j.plan(4000, 1000), Plan { skip: 6, underrun: false });
    // the minimum of the window, not the last value, sets the rate
    assert_eq!(j.plan(1010, 1000), Plan { skip: 6, underrun: false });
    assert_eq!(j.min_slack, 5);
}

#[test]
fn automatic_skip_never_exceeds_slack() {
    let mut j = JitterController::new(None);
    j.shed_per_callback = 50;
    assert_eq!(j.plan(1008, 1000), Plan { skip: 8, underrun: false });
}

#[test]
fn underrun_resets_estimate() {
    let mut j = JitterController::new(None);
    j.plan(4000, 1000);
    j.shed_per_callback = 7;
    let p = j.plan(500, 1000);
    assert_eq!(p, Plan { skip: 0, underrun: true });
    assert_eq!(j, JitterController::new(None));
}

#[test]
fn fixed_target_cuts_excess() {
    let mut j = JitterController::new(Some(500));
    assert_eq!(j.plan(3000, 1000), Plan { skip: 1500, underrun: false });
    assert_eq!(j.plan(1200, 1000), Plan { skip: 0, underrun: false });
    assert_eq!(j.plan(1500, 1000), Plan { skip: 0, underrun: false });
    assert_eq!(j.plan(999, 1000), Plan { skip: 0, underrun: true });
    assert_eq!(j.target_bytes, Some(500));
}

#[test]
fn service_copies_and_pads() {
    let (mut prod, mut cons) = channel(64);
    cons.set_timeout_ms(Some(CALLBACK_WAIT_MS));
    prod.push_slice(&[1, 2, 3, 4, 5, 6]);
    let mut j = JitterController::new(None);
    let mut out = [9u8; 8];
    let r = j.service(&mut cons, &mut out);
    assert_eq!(
        r,
        Serviced::Played { occupied: 6, skipped: 0, copied: 6, underrun: true }
    );
    assert_eq!(out, [1, 2, 3, 4, 5, 6, 0, 0]);
}

#[test]
fn service_fixed_target_skips_oldest() {
    let (mut prod, mut cons) = channel(64);
    cons.set_timeout_ms(Some(CALLBACK_WAIT_MS));
    prod.push_slice(&[1, 2, 3, 4, 5, 6, 7, 8, 9, 10]);
    let mut j = JitterController::new(Some(2));
    let mut out = [0u8; 4];
    let r = j.service(&mut cons, &mut out);
    assert_eq!(
        r,
        Serviced::Played { occupied: 10, skipped: 4, copied: 4, underrun: false }
    );
    assert_eq!(out, [5, 6, 7, 8]);
    assert_eq!(cons.occupied_len(), 2);
}

#[test]
fn service_closed_is_silence() {
    let (prod, mut cons) = channel(64);
    cons.set_timeout_ms(Some(CALLBACK_WAIT_MS));
    drop(prod);
    let mut j = JitterController::new(None);
    let mut out = [3u8; 4];
    assert_eq!(j.service(&mut cons, &mut out), Serviced::Closed);
    assert_eq!(out, [0u8; 4]);
}

#[test]
fn stalled_feed_returns_within_timeout() {
    let (mut prod, mut cons) = channel(1 << 16);
    cons.set_timeout_ms(Some(CALLBACK_WAIT_MS));
    prod.push_slice(&[1u8; 64]);
    let mut j = JitterController::new(None);
    let mut out = [5u8; 1920];
    let first = j.service(&mut cons, &mut out);
    assert!(matches!(first, Serviced::Played { copied: 64, underrun: true, .. }));
    assert!(out[..64].iter().all(|b| *b == 1));
    assert!(out[64..].iter().all(|b| *b == 0));
    // the feed stalls: the next pull comes back silent within the wait
    out = [5u8; 1920];
    let start = Instant::now();
    let second = j.service(&mut cons, &mut out);
    let took = start.elapsed();
    assert_eq!(second, Serviced::Silence);
    assert!(out.iter().all(|b| *b == 0));
    assert!(took < Duration::from_millis(500));
    drop(prod);
}

#[test]
fn prefilled_then_starved() {
    let request = 960usize;
    let (mut prod, mut cons) = channel(1 << 16);
    cons.set_timeout_ms(Some(CALLBACK_WAIT_MS));
    let fill: Vec<u8> = (0..3 * request).map(|i| (i % 251) as u8).collect();
    assert_eq!(prod.push_slice(&fill), 3 * request);
    let mut j = JitterController::new(None);
    let mut out = vec![0u8; request];
    let mut underruns = 0;
    let mut last = cons.occupied_len();
    for _ in 0..500 {
        match j.service(&mut cons, &mut out) {
            Serviced::Played { underrun, .. } => {
                if underrun {
                    underruns += 1;
                }
            }
            Serviced::Silence => {}
            Serviced::Closed => panic!("channel closed"),
        }
        assert_eq!(out.len(), request);
        let now = cons.occupied_len();
        assert!(now <= last);
        last = now;
    }
    assert!(underruns <= 1);
    assert_eq!(cons.occupied_len(), 0);
    drop(prod);
}

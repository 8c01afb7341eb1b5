use amzn_scraper::backoff::{default_backoff, MAX_BACKOFF_ATTEMPT};
use amzn_scraper::retry::{backoff_delay, MAX_RETRIES};

#[test]
fn default_backoff_first_six_delays() {
    let delays: Vec<u32> = (0..=5).map(default_backoff).collect();
    assert_eq!(delays, vec![0, 0, 1, 3, 7, 15]);
}

#[test]
fn default_backoff_follows_formula() {
    for n in 0..=MAX_BACKOFF_ATTEMPT {
        let expected = ((1u64 << n) - 1) / 2;
        assert_eq!(u64::from(default_backoff(n)), expected);
    }
}

#[test]
fn default_backoff_is_non_decreasing() {
    let mut previous = 0;
    for n in 0..=MAX_BACKOFF_ATTEMPT {
        let delay = default_backoff(n);
        assert!(delay >= previous);
        previous = delay;
    }
}

#[test]
fn default_backoff_largest_attempt() {
    assert_eq!(default_backoff(32), 0x7fff_ffff);
    assert_eq!(default_backoff(33), u32::MAX);
}

#[test]
fn backoff_delay_without_policy_is_default() {
    let none: Option<fn(u32) -> u32> = None;
    for n in 0..=MAX_RETRIES {
        assert_eq!(backoff_delay(&none, n), default_backoff(n));
    }
}

fn flat(_attempts: u32) -> u32 {
    9
}

#[test]
fn backoff_delay_with_policy_uses_it() {
    let policy: Option<fn(u32) -> u32> = Some(flat);
    for n in 0..=MAX_RETRIES {
        assert_eq!(backoff_delay(&policy, n), 9);
    }
    let doubled = Some(|n: u32| 2 * n);
    assert_eq!(backoff_delay(&doubled, 4), 8);
}

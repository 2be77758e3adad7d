use std::sync::{Arc, Mutex};
use std::time::Duration;

use league_notifier::limiter::Limiter;

#[test]
fn periodic_refill_restores_capacity_within_one_period() {
    let runtime = tokio::runtime::Runtime::new().expect("a runtime starts");
    runtime.block_on(async {
        let bucket = Arc::new(Mutex::new(Limiter::new(20, 1)));

        // a timer task like the one the client runs for each bucket
        let timer_bucket = Arc::clone(&bucket);
        let timer = tokio::task::spawn(async move {
            loop {
                tokio::time::sleep(Duration::from_secs(1)).await;
                timer_bucket.lock().unwrap().refill();
            }
        });

        {
            let mut b = bucket.lock().unwrap();
            for _ in 0..20 {
                assert!(b.take().is_ok());
            }
            assert_eq!(b.available(), 0);
        }

        // no explicit refill here: within one period the timer fires
        tokio::time::sleep(Duration::from_millis(1100)).await;
        assert_eq!(bucket.lock().unwrap().available(), 20);

        timer.abort();
    });
}

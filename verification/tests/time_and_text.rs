use blockchain_indexer::models::types::{date_naive, BlockDate, BlockTime};
use blockchain_indexer::text::u64_to_decimal;
use blockchain_indexer::utils::{datetime_from_timestamp, is_valid_timestamp, sanitize_block_time, to_wrapped_i64};
use blockchain_indexer::pipeline::{
    batch_end, block_range, loop_step, past_end_block, should_refresh_tip, start_block_number, too_close_to_tip, LoopAction, LoopConfig,
    LoopEvent, LoopState,
};
use blockchain_indexer::utils::retry::{after_failure, exponential_backoff, next_delay, RetryPolicy, RetryStep};
use blockchain_indexer::utils::rate_limiter::{adapt_limit, permit_change, PermitChange, ResponseWindow};

#[test]
fn chrono_accepts_exactly_its_range() {
    assert!(is_valid_timestamp(0));
    assert!(is_valid_timestamp(8_210_266_876_799));
    assert!(!is_valid_timestamp(8_210_266_876_800));
    assert!(is_valid_timestamp(-8_334_601_228_800));
    assert!(!is_valid_timestamp(-8_334_601_228_801));
    assert_eq!(datetime_from_timestamp(1_700_000_000), Some(BlockTime { secs: 1_700_000_000 }));
    assert_eq!(datetime_from_timestamp(i64::MAX), None);
}

#[test]
fn wrapped_i64_keeps_bits() {
    assert_eq!(to_wrapped_i64(5), 5);
    assert_eq!(to_wrapped_i64(u64::MAX), -1);
    assert_eq!(to_wrapped_i64(1u64 << 63), i64::MIN);
}

#[test]
fn date_of_a_time() {
    assert_eq!(date_naive(BlockTime { secs: 86_399 }), BlockDate { days: 0 });
    assert_eq!(date_naive(BlockTime { secs: 86_400 }), BlockDate { days: 1 });
    assert_eq!(date_naive(BlockTime { secs: -1 }), BlockDate { days: -1 });
    assert_eq!(date_naive(BlockTime { secs: 1_577_836_800 }), BlockDate { days: 18_262 });
}

#[test]
fn genesis_time_in_1970_moves_to_2020() {
    let t = sanitize_block_time(0, BlockTime { secs: 3_600 * 5 + 7 }).unwrap();
    assert_eq!(t, BlockTime { secs: 1_577_836_800 + 3_600 * 5 + 7 });
    let later = BlockTime { secs: 31_536_000 };
    assert_eq!(sanitize_block_time(0, later).unwrap(), later);
    let other = BlockTime { secs: 100 };
    assert_eq!(sanitize_block_time(1, other).unwrap(), other);
    let twice = sanitize_block_time(0, t).unwrap();
    assert_eq!(twice, t);
}

#[test]
fn decimal_text() {
    assert_eq!(u64_to_decimal(0), "0");
    assert_eq!(u64_to_decimal(1234567890), "1234567890");
    assert_eq!(u64_to_decimal(u64::MAX), "18446744073709551615");
}

#[test]
fn start_block_follows_storage_and_config() {
    assert_eq!(start_block_number(0, None), 0);
    assert_eq!(start_block_number(0, Some(50)), 50);
    assert_eq!(start_block_number(99, None), 100);
    assert_eq!(start_block_number(99, Some(50)), 100);
    assert_eq!(start_block_number(99, Some(500)), 500);
}

#[test]
fn tip_and_end_checks() {
    assert!(past_end_block(11, Some(10)));
    assert!(!past_end_block(10, Some(10)));
    assert!(!past_end_block(u64::MAX, None));
    assert!(should_refresh_tip(81, 100, 10));
    assert!(!should_refresh_tip(80, 100, 10));
    assert!(too_close_to_tip(91, 100, 10));
    assert!(!too_close_to_tip(90, 100, 10));
}

#[test]
fn batch_end_is_capped_by_end_block() {
    assert_eq!(batch_end(100, 10, None), 109);
    assert_eq!(batch_end(100, 10, Some(105)), 105);
    assert_eq!(batch_end(100, 1, Some(200)), 100);
    assert_eq!(block_range(5, 8), vec![5, 6, 7, 8]);
    assert_eq!(block_range(8, 5), Vec::<u64>::new());
}

#[test]
fn retry_gives_up_after_the_last_attempt() {
    let p = RetryPolicy::standard();
    assert_eq!(p.max_attempts, 8);
    assert_eq!(after_failure(p, 1, 1_000), RetryStep::RetryAfter { delay_ms: 1_000, next_attempt: 2 });
    assert_eq!(after_failure(p, 7, 5), RetryStep::RetryAfter { delay_ms: 5, next_attempt: 8 });
    assert_eq!(after_failure(p, 8, 5), RetryStep::GiveUp { attempts: 8 });
    assert_eq!(next_delay(p, 70_000), 60_000);
    assert_eq!(next_delay(p, 1_234), 1_234);
}

#[test]
fn older_backoff_doubles_up_to_its_cap() {
    assert_eq!(exponential_backoff(0, 0), 100);
    assert_eq!(exponential_backoff(3, 10), 810);
    assert_eq!(exponential_backoff(6, 50), 5_050);
    assert_eq!(exponential_backoff(57, 1), 5_001);
}

#[test]
fn rate_limit_adapts() {
    assert_eq!(adapt_limit(8, 20, true, 0, 100), 6);
    assert_eq!(adapt_limit(1, 20, true, 0, 100), 1);
    assert_eq!(adapt_limit(10, 20, false, 200, 100), 9);
    assert_eq!(adapt_limit(10, 20, false, 40, 100), 11);
    assert_eq!(adapt_limit(19, 20, false, 40, 100), 20);
    assert_eq!(adapt_limit(10, 20, false, 60, 100), 10);
    assert_eq!(adapt_limit(5, 20, false, 40, 100), 6);
    assert_eq!(adapt_limit(1, 20, false, 40, 100), 2);
    assert_eq!(adapt_limit(20, 20, false, 40, 100), 20);
}

#[test]
fn limit_stays_in_range_over_rounds() {
    let mut limit = 1;
    for _ in 0..5 {
        limit = adapt_limit(limit, 3, false, 10, 100);
        assert!(1 <= limit && limit <= 3);
    }
    assert_eq!(limit, 3);
    for _ in 0..5 {
        limit = adapt_limit(limit, 3, true, 10, 100);
        assert!(1 <= limit && limit <= 3);
    }
    assert_eq!(limit, 1);
}

#[test]
fn permits_follow_the_limit() {
    // 3 held, 2 free, limit 5: nothing to do.
    assert_eq!(permit_change(3, 2, 5), PermitChange::Keep);
    // 3 held, 0 free, limit 5: two more may run.
    assert_eq!(permit_change(3, 0, 5), PermitChange::Add(2));
    // 3 held, 4 free, limit 5: two free permits go.
    assert_eq!(permit_change(3, 4, 5), PermitChange::Forget(2));
    // 6 held, 1 free, limit 5: the free one goes, the held ones run out.
    assert_eq!(permit_change(6, 1, 5), PermitChange::Forget(1));
    assert_eq!(permit_change(0, 0, 4), PermitChange::Add(4));
}

#[test]
fn response_window_keeps_the_latest() {
    let mut w = ResponseWindow::new(3);
    assert_eq!(w.average_response_nanos(), None);
    w.record_response(10, false);
    w.record_response(20, true);
    w.record_response(30, false);
    w.record_response(41, true);
    assert_eq!(w.response_times, vec![20, 30, 41]);
    assert_eq!(w.errors, vec![true, false, true]);
    assert_eq!(w.average_response_nanos(), Some(30));
    assert_eq!(w.failed_count(), 2);
}

#[test]
fn main_loop_steps() {
    let open = LoopConfig { end_block: None, chain_tip_buffer: 10, max_concurrent_blocks: 10 };
    let start = LoopEvent::RoundStarted { shutdown_requested: false };
    let s = LoopState { block_number: 5, last_known_latest_block: 100 };

    let (next, action) = loop_step(s, open, start);
    assert_eq!(action, LoopAction::Process { first: 5, last: 14 });
    assert_eq!(next, LoopState { block_number: 15, last_known_latest_block: 100 });

    let (next, action) = loop_step(s, open, LoopEvent::RoundStarted { shutdown_requested: true });
    assert_eq!(action, LoopAction::Shutdown);
    assert_eq!(next, s);

    // Near the tip: ask for it, then decide with the new one.
    let near = LoopState { block_number: 85, last_known_latest_block: 100 };
    let (next, action) = loop_step(near, open, start);
    assert_eq!(action, LoopAction::FetchTip);
    assert_eq!(next, near);
    let (next, action) = loop_step(near, open, LoopEvent::TipFetched(120));
    assert_eq!(action, LoopAction::Process { first: 85, last: 94 });
    assert_eq!(next, LoopState { block_number: 95, last_known_latest_block: 120 });
    let (next, action) = loop_step(near, open, LoopEvent::TipFetched(90));
    assert_eq!(action, LoopAction::Sleep);
    assert_eq!(next, LoopState { block_number: 85, last_known_latest_block: 90 });

    // A group stops at the end block; past it the loop finishes.
    let bounded = LoopConfig { end_block: Some(8), chain_tip_buffer: 10, max_concurrent_blocks: 10 };
    let (next, action) = loop_step(s, bounded, start);
    assert_eq!(action, LoopAction::Process { first: 5, last: 8 });
    assert_eq!(next.block_number, 9);
    let (next, action) = loop_step(next, bounded, start);
    assert_eq!(action, LoopAction::Finish(8));
    assert_eq!(next.block_number, 9);
}

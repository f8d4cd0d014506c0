use twilight::gateway::backoff::Backoff;
use twilight::gateway::close::CloseClass;
use twilight::gateway::close::ClosePolicy;
use twilight::gateway::heartbeat::Beat;
use twilight::gateway::heartbeat::Heartbeat;
use twilight::gateway::opcode::OpCode;
use twilight::gateway::ratelimit::Admission;
use twilight::gateway::ratelimit::COMMAND_PERIOD_MS;
use twilight::gateway::ratelimit::COMMAND_QUOTA;
use twilight::gateway::ratelimit::RateLimiter;
use twilight::gateway::session::SequenceError;
use twilight::gateway::session::SessionState;
use twilight::gateway::shard_id::ShardId;

#[test]
fn opcode_numbers() {
    assert_eq!(OpCode::Dispatch.number(), 0);
    assert_eq!(OpCode::Heartbeat.number(), 1);
    assert_eq!(OpCode::Identify.number(), 2);
    assert_eq!(OpCode::StatusUpdate.number(), 3);
    assert_eq!(OpCode::VoiceStateUpdate.number(), 4);
    assert_eq!(OpCode::Resume.number(), 6);
    assert_eq!(OpCode::Reconnect.number(), 7);
    assert_eq!(OpCode::RequestGuildMembers.number(), 8);
    assert_eq!(OpCode::InvalidSession.number(), 9);
    assert_eq!(OpCode::Hello.number(), 10);
    assert_eq!(OpCode::HeartbeatAck.number(), 11);
}

#[test]
fn opcode_round_trip() {
    for n in 0u8..=255 {
        match OpCode::from_number(n) {
            Some(op) => assert_eq!(op.number(), n),
            None => assert!(n == 5 || n > 11),
        }
    }
}

#[test]
fn only_heartbeats_are_unmetered() {
    assert!(!OpCode::Heartbeat.is_metered());
    assert!(OpCode::Identify.is_metered());
    assert!(OpCode::Resume.is_metered());
    assert!(OpCode::StatusUpdate.is_metered());
    assert!(OpCode::RequestGuildMembers.is_metered());
}

#[test]
fn shard_id_keeps_index_below_total() {
    assert!(ShardId::new(0, 0).is_none());
    assert!(ShardId::new(3, 3).is_none());
    assert!(ShardId::new(4, 3).is_none());
    let id = ShardId::new(2, 3).unwrap();
    assert_eq!(id.index(), 2);
    assert_eq!(id.total(), 3);
    assert_eq!(ShardId::single().index(), 0);
    assert_eq!(ShardId::single().total(), 1);
}

#[test]
fn session_starts_empty() {
    let session = SessionState::new();
    assert!(!session.is_active());
    assert_eq!(session.snapshot_for_resume(), None);
    assert_eq!(session.sequence(), None);
    assert_eq!(session.session_id(), None);
    assert_eq!(session.resume_url(), None);
}

#[test]
fn session_records_dispatches_in_order() {
    let mut session = SessionState::new();
    session.establish(b"abc".to_vec(), 1, Some(b"wss://resume.example".to_vec()));
    assert_eq!(session.snapshot_for_resume(), Some((b"abc".to_vec(), 1)));
    for sequence in [2u64, 3, 3, 7, 100] {
        assert_eq!(session.record_dispatch(sequence), Ok(()));
        assert_eq!(session.sequence(), Some(sequence));
    }
    assert_eq!(session.snapshot_for_resume(), Some((b"abc".to_vec(), 100)));
    assert_eq!(session.resume_url(), Some(b"wss://resume.example".to_vec()));
}

#[test]
fn session_refuses_a_dispatch_out_of_order() {
    let mut session = SessionState::new();
    session.establish(b"abc".to_vec(), 10, None);
    assert_eq!(
        session.record_dispatch(9),
        Err(SequenceError::OutOfOrder { last: 10, got: 9 })
    );
    assert_eq!(session.sequence(), Some(10));
    assert_eq!(session.record_dispatch(10), Ok(()));
    assert_eq!(session.record_dispatch(11), Ok(()));
    assert_eq!(session.sequence(), Some(11));
}

#[test]
fn session_refuses_a_dispatch_without_a_session() {
    let mut session = SessionState::new();
    assert_eq!(session.record_dispatch(1), Err(SequenceError::NoSession));
    assert_eq!(session.sequence(), None);
}

#[test]
fn session_invalidate_clears_everything() {
    let mut session = SessionState::new();
    session.establish(b"abc".to_vec(), 5, Some(b"wss://r".to_vec()));
    session.invalidate();
    assert!(!session.is_active());
    assert_eq!(session.snapshot_for_resume(), None);
    assert_eq!(session.sequence(), None);
    assert_eq!(session.resume_url(), None);
    // A new session may begin with a smaller number.
    session.establish(b"def".to_vec(), 1, None);
    assert_eq!(session.snapshot_for_resume(), Some((b"def".to_vec(), 1)));
}

#[test]
fn limiter_needs_a_period() {
    assert!(RateLimiter::new(120, 0, 0).is_none());
    let limiter = RateLimiter::new(120, 60_000, 5).unwrap();
    assert_eq!(limiter.capacity(), 120);
    assert_eq!(limiter.remaining(), 120);
    assert_eq!(limiter.period(), 60_000);
    assert_eq!(limiter.refill_at(), 5);
}

#[test]
fn limiter_standard_quota() {
    let limiter = RateLimiter::standard(7);
    assert_eq!(limiter.capacity(), 120);
    assert_eq!(limiter.remaining(), 120);
    assert_eq!(limiter.period(), 60_000);
    assert_eq!(limiter.refill_at(), 7);
    assert_eq!(COMMAND_QUOTA, 120);
    assert_eq!(COMMAND_PERIOD_MS, 60_000);
}

#[test]
fn limiter_grants_capacity_then_waits() {
    let mut limiter = RateLimiter::new(2, 1000, 0).unwrap();
    assert_eq!(limiter.try_acquire(0), Admission::Granted);
    assert_eq!(limiter.try_acquire(10), Admission::Granted);
    assert_eq!(limiter.remaining(), 0);
    assert_eq!(limiter.try_acquire(20), Admission::Wait(980));
    assert_eq!(limiter.try_acquire(999), Admission::Wait(1));
    assert_eq!(limiter.try_acquire(1000), Admission::Granted);
    assert_eq!(limiter.refill_at(), 1000);
    assert_eq!(limiter.remaining(), 1);
}

#[test]
fn limiter_refills_at_window_boundaries() {
    let mut limiter = RateLimiter::new(1, 1000, 100).unwrap();
    assert_eq!(limiter.try_acquire(150), Admission::Granted);
    // Two and a half windows later: the window that began at 2100 is current.
    assert_eq!(limiter.try_acquire(2600), Admission::Granted);
    assert_eq!(limiter.refill_at(), 2100);
    assert_eq!(limiter.try_acquire(2601), Admission::Wait(499));
    assert_eq!(limiter.try_acquire(3100), Admission::Granted);
    assert_eq!(limiter.refill_at(), 3100);
}

#[test]
fn limiter_never_holds_more_than_capacity() {
    let mut limiter = RateLimiter::new(3, 10, 0).unwrap();
    assert_eq!(limiter.try_acquire(1_000_000), Admission::Granted);
    assert_eq!(limiter.remaining(), 2);
    assert!(limiter.remaining() <= limiter.capacity());
}

#[test]
fn limiter_takes_a_time_before_the_window_as_its_start() {
    let mut limiter = RateLimiter::new(1, 1000, 500).unwrap();
    assert_eq!(limiter.try_acquire(100), Admission::Granted);
    assert_eq!(limiter.refill_at(), 500);
    assert_eq!(limiter.try_acquire(100), Admission::Wait(1000));
}

#[test]
fn limiter_without_capacity_never_grants() {
    let mut limiter = RateLimiter::new(0, 1000, 0).unwrap();
    assert_eq!(limiter.try_acquire(0), Admission::Wait(1000));
    assert_eq!(limiter.try_acquire(1500), Admission::Wait(500));
    assert_eq!(limiter.permit(OpCode::Heartbeat, 1500), Admission::Granted);
}

#[test]
fn limiter_grants_at_most_capacity_in_each_window() {
    let mut limiter = RateLimiter::new(5, 100, 0).unwrap();
    let mut granted = [0u32; 10];
    let mut now = 0u64;
    while now < 1000 {
        if limiter.try_acquire(now) == Admission::Granted {
            granted[(now / 100) as usize] += 1;
        }
        now += 7;
    }
    assert!(granted.iter().all(|n| *n <= 5));
    assert_eq!(granted[0], 5);
}

#[test]
fn limiter_can_grant_twice_its_capacity_across_a_boundary() {
    let mut limiter = RateLimiter::new(3, 100, 0).unwrap();
    let mut granted = 0;
    for now in [97u64, 98, 99, 100, 101, 102, 103, 150, 196] {
        if limiter.try_acquire(now) == Admission::Granted {
            granted += 1;
        }
    }
    // Three at the end of one window and three at the beginning of the next:
    // all within the hundred milliseconds from 97 on.
    assert_eq!(granted, 6);
}

#[test]
fn limiter_lets_heartbeats_through() {
    let mut limiter = RateLimiter::new(1, 1000, 0).unwrap();
    assert_eq!(limiter.permit(OpCode::StatusUpdate, 0), Admission::Granted);
    assert_eq!(limiter.permit(OpCode::StatusUpdate, 1), Admission::Wait(999));
    for now in 2u64..50 {
        assert_eq!(limiter.permit(OpCode::Heartbeat, now), Admission::Granted);
    }
    assert_eq!(limiter.remaining(), 0);
    assert_eq!(limiter.permit(OpCode::Identify, 50), Admission::Wait(950));
}

#[test]
fn limiter_reset_fills_up() {
    let mut limiter = RateLimiter::new(2, 1000, 0).unwrap();
    assert_eq!(limiter.try_acquire(0), Admission::Granted);
    assert_eq!(limiter.try_acquire(0), Admission::Granted);
    limiter.reset(300);
    assert_eq!(limiter.remaining(), 2);
    assert_eq!(limiter.refill_at(), 300);
    assert_eq!(limiter.try_acquire(300), Admission::Granted);
}

#[test]
fn scenario_bucket_of_120_refuses_the_rest() {
    let mut limiter = RateLimiter::new(120, 60_000, 0).unwrap();
    for i in 0u64..130 {
        let now = i * 400;
        let answer = limiter.permit(OpCode::StatusUpdate, now);
        if i < 120 {
            assert_eq!(answer, Admission::Granted);
        } else {
            assert_eq!(answer, Admission::Wait(60_000 - now));
            assert!(60_000 - now > 0);
        }
    }
    assert_eq!(limiter.permit(OpCode::StatusUpdate, 60_000), Admission::Granted);
}

#[test]
fn heartbeat_first_beat_is_jittered() {
    let heartbeat = Heartbeat::start(41_250, 100_000, 1_000);
    assert_eq!(heartbeat.interval(), 41_250);
    assert_eq!(heartbeat.jitter(), 100_000 % 41_250);
    assert_eq!(heartbeat.next_due(), 1_000 + 100_000 % 41_250);
    assert!(heartbeat.jitter() < heartbeat.interval());
    assert!(!heartbeat.ack_pending());
    assert_eq!(heartbeat.last_sent(), None);
}

#[test]
fn heartbeat_beats_one_interval_apart() {
    let mut heartbeat = Heartbeat::start(1000, 250, 0);
    assert_eq!(heartbeat.next_due(), 250);
    assert_eq!(heartbeat.on_due(251), Beat::Send);
    assert_eq!(heartbeat.last_sent(), Some(251));
    assert_eq!(heartbeat.next_due(), 1250);
    assert!(heartbeat.ack_pending());
    heartbeat.on_ack();
    assert!(!heartbeat.ack_pending());
    assert_eq!(heartbeat.on_due(1250), Beat::Send);
    assert_eq!(heartbeat.next_due(), 2250);
}

#[test]
fn heartbeat_schedule_saturates() {
    let mut heartbeat = Heartbeat::start(1000, 0, u64::MAX - 10);
    assert_eq!(heartbeat.next_due(), u64::MAX - 10);
    assert_eq!(heartbeat.on_due(u64::MAX - 10), Beat::Send);
    assert_eq!(heartbeat.next_due(), u64::MAX);
}

#[test]
fn heartbeat_without_interval_has_no_jitter() {
    let heartbeat = Heartbeat::start(0, 99, 7);
    assert_eq!(heartbeat.jitter(), 0);
    assert_eq!(heartbeat.next_due(), 7);
}

#[test]
fn scenario_missed_ack_is_a_zombie_once() {
    let mut heartbeat = Heartbeat::start(41_250, 0, 0);
    assert_eq!(heartbeat.next_due(), 0);
    assert_eq!(heartbeat.on_due(0), Beat::Send);
    assert_eq!(heartbeat.next_due(), 41_250);
    // No acknowledgement arrives.
    assert_eq!(heartbeat.on_due(41_250), Beat::Zombied);
    assert!(heartbeat.is_zombied());
    assert_eq!(heartbeat.on_due(82_500), Beat::Stopped);
    heartbeat.on_ack();
    assert_eq!(heartbeat.on_due(123_750), Beat::Stopped);
}

#[test]
fn heartbeat_asked_for_is_pending_too() {
    let mut heartbeat = Heartbeat::start(1000, 0, 0);
    assert_eq!(heartbeat.on_due(0), Beat::Send);
    heartbeat.on_ack();
    heartbeat.on_request(400);
    assert!(heartbeat.ack_pending());
    assert_eq!(heartbeat.last_sent(), Some(400));
    assert_eq!(heartbeat.next_due(), 1000);
    // It was not acknowledged when the next one is due.
    assert_eq!(heartbeat.on_due(1000), Beat::Zombied);
    heartbeat.on_request(1100);
    assert_eq!(heartbeat.last_sent(), Some(400));
}

#[test]
fn backoff_needs_a_floor_below_its_ceiling() {
    assert!(Backoff::new(0, 1000, 3, 1000).is_none());
    assert!(Backoff::new(1001, 1000, 3, 1000).is_none());
    let backoff = Backoff::new(1000, 1000, 3, 1000).unwrap();
    assert_eq!(backoff.floor(), 1000);
    assert_eq!(backoff.ceiling(), 1000);
    assert_eq!(backoff.current(), 1000);
}

#[test]
fn backoff_doubles_up_to_the_ceiling() {
    let mut backoff = Backoff::new(1000, 5000, 100, 10).unwrap();
    assert_eq!(backoff.next_delay(0, 0), 500);
    assert_eq!(backoff.current(), 2000);
    assert_eq!(backoff.next_delay(100, 0), 1000);
    assert_eq!(backoff.current(), 4000);
    assert_eq!(backoff.next_delay(200, 0), 2000);
    assert_eq!(backoff.current(), 5000);
    assert_eq!(backoff.next_delay(300, 0), 2500);
    assert_eq!(backoff.current(), 5000);
}

#[test]
fn backoff_jitter_stays_between_half_and_whole() {
    let mut backoff = Backoff::new(1000, 1000, 100, 10).unwrap();
    assert_eq!(backoff.next_delay(0, 0), 500);
    assert_eq!(backoff.next_delay(100, 500), 1000);
    assert_eq!(backoff.next_delay(200, 501), 500);
    assert_eq!(backoff.next_delay(300, 123_456), 500 + 123_456 % 501);
    for entropy in 0u64..2000 {
        let delay = backoff.next_delay(400 + entropy, entropy);
        assert!(500 <= delay && delay <= 1000);
    }
}

#[test]
fn backoff_reset_returns_to_the_floor() {
    let mut backoff = Backoff::new(1000, 64_000, 100, 10).unwrap();
    backoff.next_delay(0, 0);
    backoff.next_delay(100, 0);
    backoff.next_delay(200, 0);
    assert_eq!(backoff.current(), 8000);
    backoff.reset();
    assert_eq!(backoff.current(), 1000);
    assert_eq!(backoff.next_delay(300, 0), 500);
}

#[test]
fn backoff_widens_in_a_burst_of_failures() {
    let mut backoff = Backoff::new(1000, 8000, 3, 5000).unwrap();
    // Each connection succeeds and fails at once: the doubling never gets far.
    assert_eq!(backoff.next_delay(0, 0), 500);
    backoff.reset();
    assert_eq!(backoff.next_delay(100, 0), 500);
    backoff.reset();
    assert_eq!(backoff.next_delay(200, 0), 500);
    backoff.reset();
    // The fourth failure within five seconds is one too many.
    assert_eq!(backoff.next_delay(300, 0), 4000);
    backoff.reset();
    assert_eq!(backoff.next_delay(4999, 7), 4007);
    backoff.reset();
    // A failure after the window has passed is taken in stride again.
    assert_eq!(backoff.next_delay(5000, 0), 500);
}

#[test]
fn close_policy_standard_table() {
    let policy = ClosePolicy::standard();
    for code in [4004u16, 4010, 4011, 4012, 4013, 4014] {
        assert_eq!(policy.classify(code), CloseClass::Fatal);
    }
    for code in [1000u16, 1001, 4007, 4009] {
        assert_eq!(policy.classify(code), CloseClass::NonResumable);
    }
    for code in [1006u16, 4000, 4001, 4002, 4003, 4005, 4008, 0, 65535] {
        assert_eq!(policy.classify(code), CloseClass::Resumable);
    }
    assert_eq!(policy.classify_close(None), CloseClass::Resumable);
    assert_eq!(policy.classify_close(Some(4004)), CloseClass::Fatal);
}

#[test]
fn close_policy_can_be_changed() {
    let mut policy = ClosePolicy::new(CloseClass::NonResumable);
    assert_eq!(policy.classify(4000), CloseClass::NonResumable);
    policy.set(4000, CloseClass::Resumable);
    policy.set(4999, CloseClass::Fatal);
    assert_eq!(policy.classify(4000), CloseClass::Resumable);
    assert_eq!(policy.classify(4999), CloseClass::Fatal);
    assert_eq!(policy.classify(4001), CloseClass::NonResumable);
    // The newest rule for a code is the one that counts.
    policy.set(4000, CloseClass::Fatal);
    assert_eq!(policy.classify(4000), CloseClass::Fatal);
    assert_eq!(policy.classify(4999), CloseClass::Fatal);
}

#[test]
fn close_policy_new_codes_can_be_taught() {
    let mut policy = ClosePolicy::standard();
    assert_eq!(policy.classify(4015), CloseClass::Resumable);
    policy.set(4015, CloseClass::Fatal);
    assert_eq!(policy.classify(4015), CloseClass::Fatal);
    assert_eq!(policy.classify(4004), CloseClass::Fatal);
    assert_eq!(policy.classify(4000), CloseClass::Resumable);
}

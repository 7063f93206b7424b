use caver::worker::classify;
use caver::{Block, BlockNumber, Error, HttpReply, Klay, Outcome, Provider, ProviderError, ResponseEnvelope, StatsAggregator, WorkerLoop};

fn block(number: u64) -> Block {
    Block {
        blockscore: "0x1".to_string(),
        extra_data: "0x".to_string(),
        gas_used: 0,
        governance_data: "0x".to_string(),
        hash: "0xaa".to_string(),
        logs_bloom: "0x00".to_string(),
        number,
        parent_hash: "0xbb".to_string(),
        receipts_root: "0xcc".to_string(),
        reward: "0x0".to_string(),
        size: 100,
        state_root: "0xdd".to_string(),
        timestamp: 1,
        timestamp_fo_s: 0,
        total_block_score: "0x1".to_string(),
        transactions: Vec::new(),
        transactions_root: "0xee".to_string(),
        vote_data: "0x".to_string(),
    }
}

#[test]
fn one_success_one_failure() {
    let mut stats = StatsAggregator::new(100);
    stats.record(Outcome::Success { block_number: 5, latency_millis: 10 });
    stats.record(Outcome::Failure { latency_millis: 20 });
    assert_eq!(stats.total, 2);
    assert_eq!(stats.healthy, 1);
    assert_eq!(stats.unhealthy, 1);
    assert_eq!(stats.total_latency_millis, 30);
    assert_eq!(stats.latest_latency_millis, 20);
    assert_eq!(stats.recent_block_numbers, vec![5]);
    assert_eq!(stats.average_latency_millis(), Some(15));
}

#[test]
fn recent_window_keeps_last_ten() {
    let mut stats = StatsAggregator::new(100);
    for n in 1..=12u64 {
        stats.record(Outcome::Success { block_number: n, latency_millis: 1 });
    }
    assert_eq!(stats.recent_block_numbers, vec![3, 4, 5, 6, 7, 8, 9, 10, 11, 12]);
    let snap = stats.snapshot();
    assert_eq!(snap.recent_block_numbers, vec![3, 4, 5, 6, 7, 8, 9, 10, 11, 12]);
    assert_eq!(snap.total, 12);
}

#[test]
fn report_due_every_kth_call() {
    let mut stats = StatsAggregator::new(3);
    let due: Vec<bool> = (0..7).map(|_| stats.record(Outcome::Failure { latency_millis: 0 })).collect();
    assert_eq!(due, vec![false, false, true, false, false, true, false]);
}

#[test]
fn average_before_any_call_is_none() {
    let stats = StatsAggregator::new(100);
    assert_eq!(stats.average_latency_millis(), None);
    assert!(stats.can_record(u128::MAX));
}

#[test]
fn classify_outcomes() {
    assert_eq!(
        classify(&Ok(Some(block(9))), 4),
        Some(Outcome::Success { block_number: 9, latency_millis: 4 })
    );
    assert_eq!(classify(&Ok(None), 4), None);
    assert_eq!(
        classify(&Err(Error::Provider(ProviderError::Code(502))), 4),
        Some(Outcome::Failure { latency_millis: 4 })
    );
}

type Reply = HttpReply<Result<Option<Block>, String>>;

struct Alternating {
    calls: u64,
}

impl Provider for Alternating {
    fn send(&mut self, _body: String) -> Reply {
        let id = self.calls;
        self.calls += 1;
        if id % 2 == 0 {
            HttpReply::Answered { status: 200, envelope: Ok(ResponseEnvelope::Success { id, result: Ok(Some(block(id))) }) }
        } else {
            HttpReply::Answered { status: 500, envelope: Err("not parsed".to_string()) }
        }
    }
}

#[test]
fn bounded_worker_alternating_transport() {
    let mut klay = Klay::new(Alternating { calls: 0 });
    let mut stats = StatsAggregator::new(100);
    let mut worker = WorkerLoop::new(100);
    let mut reports = 0;
    while worker.should_continue() {
        let result = klay.get_block_by_number(BlockNumber::Latest);
        if worker.complete(&mut stats, &result, 2) {
            reports += 1;
        }
    }
    assert_eq!(worker.done, 100);
    assert_eq!(stats.healthy, 50);
    assert_eq!(stats.unhealthy, 50);
    assert_eq!(stats.total, 100);
    assert_eq!(stats.total_latency_millis, 200);
    assert_eq!(reports, 1);
    assert_eq!(stats.recent_block_numbers, vec![80, 82, 84, 86, 88, 90, 92, 94, 96, 98]);
}

#[test]
fn absent_block_is_not_counted() {
    let mut stats = StatsAggregator::new(100);
    let mut worker = WorkerLoop::new(0);
    assert!(!worker.complete(&mut stats, &Ok(None), 5));
    assert_eq!(stats.total, 0);
    assert_eq!(worker.done, 1);
    assert!(worker.should_continue());
}

use fanout::chain::run_chain;
use fanout::chain::ChainAction;
use fanout::chain::ChainUnit;
use fanout::pool::run_pool;
use fanout::pool::Collector;
use fanout::pool::CompletionSignal;
use fanout::pool::PoolWorker;
use fanout::tree::run_unit;
use fanout::tree::TreeAction;
use fanout::tree::TreeUnit;
use fanout::tree::ACK_SENTINEL;

#[test]
fn tree_base_task_acks_without_spawning() {
    let mut unit = TreeUnit::with_parent();
    let action = unit.recv(ACK_SENTINEL);
    assert_eq!(action, TreeAction::AckSender { reply: 1 });
    assert!(unit.terminated);
    assert!(!unit.receiving);
    assert_eq!(unit.r1, 0);
    assert_eq!(unit.spread, 0);
}

#[test]
fn tree_larger_task_fans_out_to_two_children() {
    let mut unit = TreeUnit::new();
    let action = unit.recv(5);
    assert_eq!(action, TreeAction::SpawnChildren { task: 4 });
    assert!(unit.receiving);
    assert!(!unit.terminated);
    assert_eq!(unit.spread, 5);
    assert_eq!(unit.r1, 0);
}

#[test]
fn tree_aggregation_with_parent() {
    let mut unit = TreeUnit::with_parent();
    assert_eq!(unit.recv(3), TreeAction::SpawnChildren { task: 2 });
    assert_eq!(unit.recv(3), TreeAction::StoreFirst);
    assert_eq!(unit.r1, 3);
    assert_eq!(unit.recv(3), TreeAction::ReportToParent { result: 8 });
    assert!(unit.terminated);
}

#[test]
fn tree_aggregation_without_parent_reports_to_creator() {
    let mut unit = TreeUnit::new();
    assert_eq!(unit.recv(3), TreeAction::SpawnChildren { task: 2 });
    assert_eq!(unit.recv(3), TreeAction::StoreFirst);
    assert_eq!(unit.recv(3), TreeAction::ReportToCreator { result: 7 });
    assert!(unit.terminated);
}

#[test]
fn tree_spread_two_aggregates_two_acks() {
    let mut unit = TreeUnit::with_parent();
    assert_eq!(unit.recv(2), TreeAction::SpawnChildren { task: 1 });
    assert_eq!(unit.recv(1), TreeAction::StoreFirst);
    assert_eq!(unit.recv(1), TreeAction::ReportToParent { result: 4 });
    assert!(unit.terminated);
}

#[test]
fn tree_child_results_commute() {
    let mut left_first = TreeUnit::with_parent();
    left_first.recv(4);
    left_first.recv(7);
    let a = left_first.recv(9);
    let mut right_first = TreeUnit::with_parent();
    right_first.recv(4);
    right_first.recv(9);
    let b = right_first.recv(7);
    assert_eq!(a, TreeAction::ReportToParent { result: 18 });
    assert_eq!(a, b);
}

#[test]
fn tree_scenario_spread_three_validates_eight() {
    assert_eq!(run_unit(true, 3), 8);
    assert_eq!(run_unit(false, 3), 7);
}

#[test]
fn tree_parented_result_is_power_of_two() {
    assert_eq!(run_unit(true, 1), 1);
    for spread in 2..=10usize {
        assert_eq!(run_unit(true, spread), 1usize << spread);
        assert_eq!(run_unit(false, spread), (1usize << spread) - 1);
    }
}

#[test]
fn signal_fires_once_and_stays_fired() {
    let mut signal = CompletionSignal::new();
    assert!(!signal.fired);
    assert!(signal.fire());
    assert!(signal.fired);
    assert!(!signal.fire());
    assert!(signal.fired);
}

#[test]
fn collector_starts_at_zero() {
    let collector = Collector::new(7);
    assert_eq!(collector.count, 0);
    assert_eq!(collector.amount, 7);
    assert!(!collector.signal.fired);
}

#[test]
fn collector_fires_exactly_at_amount() {
    let mut collector = Collector::new(5);
    for pulse in 1..=5usize {
        let fired_now = collector.on_pulse();
        assert_eq!(fired_now, pulse == 5);
        assert_eq!(collector.count, pulse);
    }
    assert!(collector.signal.fired);
}

#[test]
fn collector_tolerates_excess_pulses_without_refiring() {
    let mut collector = Collector::new(3);
    let mut fires = 0;
    for _ in 0..10 {
        if collector.on_pulse() {
            fires += 1;
        }
    }
    assert_eq!(fires, 1);
    assert_eq!(collector.count, 10);
    assert!(collector.signal.fired);
}

#[test]
fn collector_with_amount_one_fires_on_first_pulse() {
    let mut collector = Collector::new(1);
    assert!(collector.on_pulse());
    assert!(!collector.on_pulse());
    assert_eq!(collector.count, 2);
}

#[test]
fn pool_worker_acknowledges_every_message_with_one_pulse() {
    let worker = PoolWorker::new();
    assert_eq!(worker.recv(0), 1);
    assert_eq!(worker.recv(42), 1);
    assert_eq!(worker.recv(usize::MAX), 1);
}

#[test]
fn pool_counter_equals_message_count() {
    let (collector, fires) = run_pool(3, 10);
    assert_eq!(collector.count, 10);
    assert_eq!(collector.amount, 10);
    assert!(collector.signal.fired);
    assert_eq!(fires, 1);
}

#[test]
fn pool_single_worker_single_message() {
    let (collector, fires) = run_pool(1, 1);
    assert_eq!(collector.count, 1);
    assert!(collector.signal.fired);
    assert_eq!(fires, 1);
}

#[test]
fn pool_scenario_four_units_four_thousand_messages() {
    let (collector, fires) = run_pool(4, 4000);
    assert_eq!(collector.count, 4000);
    assert_eq!(collector.amount, 4000);
    assert!(collector.signal.fired);
    assert_eq!(fires, 1);
}

#[test]
fn chain_unit_spawns_successor_on_positive_task() {
    let unit = ChainUnit::new();
    assert_eq!(unit.recv(50), ChainAction::SpawnNext { task: 49 });
    assert_eq!(unit.recv(1), ChainAction::SpawnNext { task: 0 });
    assert_eq!(unit.recv(0), ChainAction::Stop);
    assert_eq!(unit.recv(-3), ChainAction::Stop);
}

#[test]
fn chain_runs_task_plus_one_units() {
    assert_eq!(run_chain(50), 51);
    assert_eq!(run_chain(1), 2);
    assert_eq!(run_chain(0), 1);
    assert_eq!(run_chain(-1), 1);
}

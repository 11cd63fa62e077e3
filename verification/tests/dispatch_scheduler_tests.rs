use trailerfin::dispatch::ConcurrencyBudget;
use trailerfin::dispatch::FolderType;
use trailerfin::dispatch::dispatch_cycle;
use trailerfin::dispatch::tag_directories;
use trailerfin::scheduler::ScrapingScheduler;
use trailerfin::scheduler::effective_schedule;
use trailerfin::scheduler::initialize_schedulers;

#[test]
fn test_tag_directories_keeps_paths_and_kind() {
    let paths = vec!["/scan/shows/A".to_string(), "/scan/shows/B".to_string()];
    let tagged = tag_directories(paths, FolderType::TvShow);
    assert_eq!(tagged.len(), 2);
    assert_eq!(tagged[0].path, "/scan/shows/A");
    assert_eq!(tagged[1].path, "/scan/shows/B");
    assert!(matches!(tagged[0].folder_type, FolderType::TvShow));
}

#[test]
fn test_budget_counter_never_exceeds_limit() {
    let mut budget = ConcurrencyBudget::new(2);
    assert!(budget.try_acquire());
    assert!(budget.try_acquire());
    assert!(!budget.try_acquire());
    assert_eq!(budget.in_flight, 2);
    assert_eq!(budget.peak, 2);
    budget.release();
    assert!(budget.try_acquire());
    assert_eq!(budget.peak, 2);
}

#[test]
fn test_dispatch_cycle_completes_all_within_budget() {
    let (completed, peak) = dispatch_cycle(5, 2);
    assert_eq!(completed, 5);
    assert_eq!(peak, 2);
}

#[test]
fn test_dispatch_cycle_fewer_tasks_than_slots() {
    let (completed, peak) = dispatch_cycle(1, 4);
    assert_eq!(completed, 1);
    assert_eq!(peak, 1);
    let (completed, peak) = dispatch_cycle(0, 3);
    assert_eq!(completed, 0);
    assert_eq!(peak, 0);
}

#[test]
fn test_dispatch_cycle_single_slot() {
    let (completed, peak) = dispatch_cycle(3, 1);
    assert_eq!(completed, 3);
    assert_eq!(peak, 1);
}

#[test]
fn test_overlapping_firing_is_skipped() {
    let mut scheduler = initialize_schedulers();
    assert!(scheduler.on_trigger());
    assert!(!scheduler.on_trigger());
    assert!(!scheduler.on_trigger());
    scheduler.on_cycle_complete();
    assert!(scheduler.on_trigger());
}

#[test]
fn test_startup_run_races_with_first_firing() {
    let mut scheduler = ScrapingScheduler::new();
    let startup_ran = scheduler.on_trigger();
    let first_firing_ran = scheduler.on_trigger();
    assert!(startup_ran);
    assert!(!first_firing_ran);
    scheduler.on_cycle_complete();
    assert!(scheduler.on_trigger());
}

#[test]
fn test_effective_schedule_defaults_to_daily() {
    assert_eq!(effective_schedule(&None), "0 0 * * *");
    assert_eq!(
        effective_schedule(&Some("*/1 * * * * *".to_string())),
        "*/1 * * * * *"
    );
}

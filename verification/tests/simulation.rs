//! Tests for the tick loop, the event reactor, and the monthly cycle.

use sprint_master::human::HumanStatus;
use sprint_master::reactor::EventReactor;
use sprint_master::request::EventBusRequest;
use sprint_master::state::{EventOutcome, WorldState, SCORE_UNIT, TICKS_PER_MONTH};
use sprint_master::task::{GameTask, GameTaskBuilder, StageId, TaskKind, PROGRESS_DONE};
use sprint_master::transfer::TaskTransfer;

fn plain_task(id: u32, kind: TaskKind, score: u32, difficulty: u32) -> GameTask {
    GameTask::new(id, 0, format!("T{}", id), kind, score, difficulty)
}

#[test]
fn progress_never_exceeds_full_completion() {
    let mut task = plain_task(1, TaskKind::Normal, 3, 4);
    for _ in 0..100 {
        task.add_progress(400);
        assert!(task.progress <= PROGRESS_DONE);
    }
    assert_eq!(task.progress, PROGRESS_DONE);
}

#[test]
fn partial_progress_accumulates_exactly() {
    let mut task = plain_task(1, TaskKind::Normal, 3, 4);
    assert!(!task.add_progress(300));
    assert_eq!(task.progress, 300);
    assert!(!task.add_progress(300));
    assert_eq!(task.progress, 600);
    assert!(task.add_progress(500));
    assert_eq!(task.progress, PROGRESS_DONE);
}

#[test]
fn completing_specification_marks_the_task_specified() {
    let mut task = plain_task(1, TaskKind::Normal, 3, 4);
    task.stage = StageId::Candidate;
    assert!(!task.specified);
    task.add_progress(PROGRESS_DONE);
    assert!(task.specified);
}

#[test]
fn entering_work_stages_restarts_progress() {
    let mut task = plain_task(2, TaskKind::Normal, 3, 4);
    task.progress = 700;
    task.assign_to_stage(StageId::Candidate);
    assert_eq!(task.stage, StageId::Candidate);
    assert_eq!(task.progress, 0);
    task.progress = 700;
    task.assign_to_stage(StageId::Progress);
    assert_eq!(task.progress, 0);
    task.progress = 700;
    task.assign_to_stage(StageId::Review);
    assert_eq!(task.progress, 700);
    task.assign(3);
    assert_eq!(task.assigned, Some(3));
}

#[test]
fn workers_are_looked_up_by_their_id() {
    let world = WorldState::new("Testware".to_string(), false);
    let player = world.human_of(0).expect("the player is always on the roster");
    assert_eq!(player.id, 0);
    assert_eq!(player.name, "You");
    assert!(world.human_of(7).is_none());
}

#[test]
fn tick_advances_both_time_counters() {
    let mut world = WorldState::new("Testware".to_string(), true);
    let mut reactor = EventReactor::with_seed(5);
    let outcome = world.apply_event(EventBusRequest::Tick, &mut reactor);
    assert!(matches!(outcome, EventOutcome::Update));
    assert_eq!(world.time, 1);
    assert_eq!(world.time_in_month, 1);
}

#[test]
fn expired_deadline_costs_the_scaled_reward_once() {
    let mut world = WorldState::new("Testware".to_string(), true);
    world.total_score = 10_000;
    world.score_in_month = 10_000;
    world.time = 10;
    world.time_in_month = 10;
    let mut task = plain_task(30, TaskKind::Normal, 4, 2);
    task.deadline = Some(5);
    world.tasks_backlog.push(task);

    let mut reactor = EventReactor::with_seed(5);
    world.apply_event(EventBusRequest::Tick, &mut reactor);
    assert_eq!(world.total_score, 10_000 - 4 * SCORE_UNIT);
    assert_eq!(world.score_in_month, 10_000 - 4 * SCORE_UNIT as i32);
    assert_eq!(world.tasks_backlog[0].deadline, None);

    // the penalty is not applied again
    let score_after = world.total_score;
    world.apply_event(EventBusRequest::Tick, &mut reactor);
    assert_eq!(world.total_score, score_after);
}

#[test]
fn assigned_worker_develops_the_task() {
    let mut world = WorldState::new("Testware".to_string(), true);
    let mut task = plain_task(31, TaskKind::Normal, 4, 6);
    task.stage = StageId::Progress;
    task.specified = true;
    task.assigned = Some(0);
    world.tasks_progress.push(task);

    let mut reactor = EventReactor::with_seed(5);
    world.apply_event(EventBusRequest::Tick, &mut reactor);
    assert!(world.tasks_progress[0].progress > 0);
    assert_eq!(world.humans[0].status, HumanStatus::Coding);

    // an unassigned task receives no work
    let progress = world.tasks_progress[0].progress;
    world.tasks_progress[0].assigned = None;
    world.apply_event(EventBusRequest::Tick, &mut reactor);
    assert_eq!(world.tasks_progress[0].progress, progress);
    assert_eq!(world.humans[0].status, HumanStatus::Idle);
}

#[test]
fn player_writes_specification_for_first_candidate() {
    let mut world = WorldState::new("Testware".to_string(), true);
    let mut task = plain_task(32, TaskKind::Normal, 4, 6);
    task.stage = StageId::Candidate;
    world.tasks_candidate.push(task);

    let mut reactor = EventReactor::with_seed(5);
    world.apply_event(EventBusRequest::Tick, &mut reactor);
    assert!(world.tasks_candidate[0].progress > 0);
    assert_eq!(world.humans[0].status, HumanStatus::Writing);
}

#[test]
fn one_worker_acts_on_at_most_one_task_per_tick() {
    let mut world = WorldState::new("Testware".to_string(), true);
    for id in [40, 41] {
        let mut task = plain_task(id, TaskKind::Normal, 4, 6);
        task.stage = StageId::Progress;
        task.specified = true;
        task.assigned = Some(0);
        world.tasks_progress.push(task);
    }

    let mut reactor = EventReactor::with_seed(5);
    world.apply_event(EventBusRequest::Tick, &mut reactor);
    // the first task in stored order wins the worker's action slot
    assert!(world.tasks_progress[0].progress > 0);
    assert_eq!(world.tasks_progress[1].progress, 0);
}

#[test]
fn month_end_produces_the_report_and_waits_for_confirmation() {
    let mut world = WorldState::new("Testware".to_string(), true);
    world.time = TICKS_PER_MONTH - 1;
    world.time_in_month = TICKS_PER_MONTH - 1;
    world.total_score = 42_500;
    world.score_in_month = 2_500;
    world.bugs_fixed_in_month = 3;
    let mut done = plain_task(50, TaskKind::Normal, 2, 2);
    done.stage = StageId::Done;
    world.tasks_done.push(done);

    let mut reactor = EventReactor::with_seed(5);
    let outcome = world.apply_event(EventBusRequest::Tick, &mut reactor);
    match outcome {
        EventOutcome::EndOfMonth(report) => {
            assert_eq!(report.month, 0);
            assert_eq!(report.total_score, 42);
            assert_eq!(report.score, 2);
            assert_eq!(report.tasks_done, 1);
            assert_eq!(report.bugs_fixed, 3);
            assert_eq!(report.complexity, world.complexity);
        }
        other => panic!("expected an end-of-month outcome, got {:?}", other),
    }
    // the rollover itself has not happened
    assert_eq!(world.month, 0);
    assert_eq!(world.time_in_month, TICKS_PER_MONTH);
}

#[test]
fn no_tasks_are_ingested_during_the_tutorial() {
    let mut world = WorldState::new("Testware".to_string(), true);
    let mut reactor = EventReactor::with_seed(9);
    for _ in 0..200 {
        world.apply_event(EventBusRequest::Tick, &mut reactor);
    }
    assert_eq!(world.tasks_backlog.len(), 0);
}

#[test]
fn month_end_repeats_until_confirmed() {
    let mut world = WorldState::new("Testware".to_string(), true);
    let mut reactor = EventReactor::with_seed(9);
    world.time = TICKS_PER_MONTH - 1;
    world.time_in_month = TICKS_PER_MONTH - 1;

    let outcome = world.apply_event(EventBusRequest::Tick, &mut reactor);
    assert!(matches!(outcome, EventOutcome::EndOfMonth(_)));
    // without a confirmation, the next tick signals the month end again
    let outcome = world.apply_event(EventBusRequest::Tick, &mut reactor);
    assert!(matches!(outcome, EventOutcome::EndOfMonth(_)));

    let outcome = world.apply_event(EventBusRequest::NextMonth, &mut reactor);
    assert!(matches!(outcome, EventOutcome::Update));
    assert_eq!(world.month, 1);
    let outcome = world.apply_event(EventBusRequest::Tick, &mut reactor);
    assert!(matches!(outcome, EventOutcome::Update));
}

#[test]
fn start_of_month_ingests_important_tasks_and_may_hire() {
    let mut world = WorldState::new("Testware".to_string(), false);
    world.month = 3;
    world.time = 3 * TICKS_PER_MONTH + 4;
    world.time_in_month = 4;

    let mut reactor = EventReactor::with_seed(5);
    let outcome = world.apply_event(EventBusRequest::Tick, &mut reactor);
    // month 3 expects a second team member beside the player
    assert!(matches!(outcome, EventOutcome::OpenMessage(_)));
    assert_eq!(world.humans.len(), 2);
    assert_eq!(world.humans[1].id, 1);
    assert!(!world.humans[1].quit);
    assert!(world.humans[1].experience >= 35 && world.humans[1].experience <= 80);
    // at least three important tasks were ingested, all with deadlines
    assert!(world.tasks_backlog.len() >= 3);
    for task in &world.tasks_backlog {
        assert_eq!(task.kind, TaskKind::Normal);
        assert!(task.deadline.is_some());
    }
}

#[test]
fn identical_seeds_replay_identically() {
    let mut runs: Vec<WorldState> = Vec::new();
    for _ in 0..2 {
        let mut world = WorldState::new("Testware".to_string(), false);
        let mut reactor = EventReactor::with_seed(20_21);
        let builder = GameTaskBuilder::new("T".to_string(), TaskKind::Normal, 5, 2);
        world.apply_event(EventBusRequest::AddTask(builder), &mut reactor);
        world.apply_event(
            EventBusRequest::MoveTask {
                task: TaskTransfer {
                    id: 351,
                    kind: TaskKind::Normal,
                    from: StageId::Backlog,
                    progress: 0,
                },
                to: StageId::Candidate,
            },
            &mut reactor,
        );
        world.apply_event(
            EventBusRequest::AssignTask {
                task: TaskTransfer {
                    id: 351,
                    kind: TaskKind::Normal,
                    from: StageId::Candidate,
                    progress: 0,
                },
                human_id: 0,
            },
            &mut reactor,
        );
        for _ in 0..600 {
            world.apply_event(EventBusRequest::Tick, &mut reactor);
        }
        runs.push(world);
    }
    assert_eq!(runs[0], runs[1]);
}

#[test]
fn reactor_never_ingests_over_a_full_backlog() {
    let mut reactor = EventReactor::with_seed(5);
    for _ in 0..200 {
        assert!(reactor.ingest_task(80, 4, 20, 30, 30).is_none());
    }
}

#[test]
fn ingested_tasks_respect_their_kind_rules() {
    let mut reactor = EventReactor::with_seed(5);
    let mut seen = 0;
    for _ in 0..2_000 {
        if let Some(builder) = reactor.ingest_task(80, 0, 20, 30, 0) {
            seen += 1;
            // no bugs in the world, so no bug task can be devised
            assert_ne!(builder.kind, TaskKind::Bug);
            if builder.kind == TaskKind::Chore {
                assert_eq!(builder.score, 0);
            }
        }
    }
    assert!(seen > 0);
}

#[test]
fn score_damage_is_bounded_by_a_fifth_of_the_total() {
    let mut reactor = EventReactor::with_seed(5);
    for total in [0u32, 1_000, 50_000, 1_000_000] {
        for _ in 0..50 {
            let damage = reactor.score_damage(total, 400);
            assert!(damage <= total / 5);
        }
    }
}

#[test]
fn no_bug_can_be_found_in_a_task_without_bugs() {
    let mut reactor = EventReactor::with_seed(5);
    let world = WorldState::new("Testware".to_string(), false);
    let task = plain_task(60, TaskKind::Normal, 3, 4);
    for _ in 0..100 {
        assert!(!reactor.human_detected_bug(&world.humans[0], &task, 50));
    }
}

#[test]
fn hired_workers_follow_the_name_rotation() {
    let mut reactor = EventReactor::with_seed(5);
    let hire = reactor.new_human(1, 3);
    assert_eq!(hire.name, "May");
    assert_eq!(hire.id, 1);
    assert_eq!(hire.status, HumanStatus::Idle);
    let hire = reactor.new_human(2, 4);
    assert_eq!(hire.name, "Ben");
}

#[test]
fn tutorial_reaches_its_scripted_hire_and_departure() {
    let mut world = WorldState::new("Testware".to_string(), true);
    let mut reactor = EventReactor::with_seed(5);
    assert_eq!(world.tutorial, Some(0));

    // walk the script up to the scripted hire
    for phase in 1..=11u32 {
        let outcome = world.apply_event(EventBusRequest::AdvanceTutorial, &mut reactor);
        match outcome {
            EventOutcome::OpenMessage(_) => {}
            other => panic!("expected a tutorial message, got {:?}", other),
        }
        assert_eq!(world.tutorial, Some(phase));
    }
    assert_eq!(world.humans.len(), 2);
    assert_eq!(world.humans[1].name, "Guy");
    assert!(!world.humans[1].quit);

    // give the scripted worker a task, then roll the month over
    let mut task = plain_task(70, TaskKind::Normal, 3, 4);
    task.stage = StageId::Progress;
    task.specified = true;
    task.assigned = Some(1);
    world.tasks_progress.push(task);
    world.time_in_month = TICKS_PER_MONTH;

    let outcome = world.apply_event(EventBusRequest::NextMonth, &mut reactor);
    assert!(matches!(outcome, EventOutcome::Update));
    assert_eq!(world.tutorial, None);
    assert!(world.humans[1].quit);
    assert_eq!(world.tasks_progress[0].assigned, None);
}

#[test]
fn advancing_without_a_tutorial_is_a_no_op() {
    let mut world = WorldState::new("Testware".to_string(), false);
    let mut reactor = EventReactor::with_seed(5);
    let before = world.clone();
    let outcome = world.apply_event(EventBusRequest::AdvanceTutorial, &mut reactor);
    assert!(matches!(outcome, EventOutcome::Nothing));
    assert_eq!(world, before);
}

#[test]
fn dummy_state_is_playable() {
    let mut world = WorldState::dummy();
    assert!(world.score_linger_rate > 0);
    let mut reactor = EventReactor::with_seed(5);
    let outcome = world.apply_event(EventBusRequest::Tick, &mut reactor);
    assert!(!matches!(outcome, EventOutcome::Nothing));
}

#[test]
fn restored_states_can_be_validated() {
    let world = WorldState::new("Testware".to_string(), false);
    assert!(world.is_well_formed());

    // a roster whose IDs do not match their positions is refused
    let mut bad = world.clone();
    bad.humans[0].id = 7;
    assert!(!bad.is_well_formed());

    // a task with more bugs found than it holds is refused
    let mut bad = world.clone();
    let mut task = plain_task(80, TaskKind::Normal, 1, 1);
    task.bugs_found = 2;
    bad.tasks_backlog.push(task);
    assert!(!bad.is_well_formed());

    // a task parked in the wrong collection is refused
    let mut bad = world.clone();
    let mut task = plain_task(81, TaskKind::Normal, 1, 1);
    task.stage = StageId::Review;
    bad.tasks_backlog.push(task);
    assert!(!bad.is_well_formed());
}

#[test]
fn drag_requests_change_nothing() {
    let mut world = WorldState::new("Testware".to_string(), false);
    let mut reactor = EventReactor::with_seed(5);
    let before = world.clone();
    assert!(matches!(
        world.apply_event(EventBusRequest::DragTaskStart(3), &mut reactor),
        EventOutcome::Nothing
    ));
    assert!(matches!(
        world.apply_event(EventBusRequest::DragTaskEnd(3), &mut reactor),
        EventOutcome::Nothing
    ));
    assert_eq!(world, before);
}

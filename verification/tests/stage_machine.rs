//! Tests for the task stage machine: legal and illegal moves,
//! merging, and assignment.

use sprint_master::reactor::EventReactor;
use sprint_master::request::EventBusRequest;
use sprint_master::state::{EventOutcome, WorldState, SCORE_UNIT, TICKS_PER_MONTH};
use sprint_master::task::{GameTask, GameTaskBuilder, StageId, TaskKind, PROGRESS_DONE};
use sprint_master::transfer::TaskTransfer;

fn transfer(id: u32, kind: TaskKind, from: StageId) -> TaskTransfer {
    TaskTransfer {
        id,
        kind,
        from,
        progress: 0,
    }
}

fn blank_world() -> WorldState {
    WorldState::new("Testware".to_string(), false)
}

/// A world with one task parked in the given stage.
fn world_with_task(stage: StageId, task: GameTask) -> WorldState {
    let mut world = blank_world();
    let mut task = task;
    task.stage = stage;
    match stage {
        StageId::Backlog => world.tasks_backlog.push(task),
        StageId::Candidate => world.tasks_candidate.push(task),
        StageId::Progress => world.tasks_progress.push(task),
        StageId::Review => world.tasks_review.push(task),
        StageId::Done => world.tasks_done.push(task),
    }
    world
}

fn plain_task(id: u32, kind: TaskKind, score: u32, difficulty: u32) -> GameTask {
    GameTask::new(id, 0, format!("T{}", id), kind, score, difficulty)
}

fn stage_sizes(world: &WorldState) -> [usize; 5] {
    [
        world.tasks_backlog.len(),
        world.tasks_candidate.len(),
        world.tasks_progress.len(),
        world.tasks_review.len(),
        world.tasks_done.len(),
    ]
}

#[test]
fn new_game_with_ingestion_disabled_starts_empty() {
    let world = WorldState::new("Testware".to_string(), true);
    assert_eq!(world.tasks_backlog.len(), 0);
    assert_eq!(world.task_ingest_rate, 0);
    assert_eq!(world.total_score, 0);
    assert_eq!(world.next_task_id, 351);
}

#[test]
fn add_task_enters_backlog_with_starting_id() {
    let mut world = WorldState::new("Testware".to_string(), true);
    let mut reactor = EventReactor::with_seed(7);
    let builder = GameTaskBuilder::new("T".to_string(), TaskKind::Normal, 5, 2);
    let outcome = world.apply_event(EventBusRequest::AddTask(builder), &mut reactor);
    assert!(matches!(outcome, EventOutcome::Update));

    assert_eq!(world.tasks_backlog.len(), 1);
    let task = &world.tasks_backlog[0];
    assert_eq!(task.id, 351);
    assert_eq!(task.progress, 0);
    assert!(!task.specified);
    assert_eq!(task.stage, StageId::Backlog);
    assert_eq!(world.next_task_id, 352);
}

#[test]
fn backlog_to_candidate_succeeds_and_resets_progress() {
    let mut world = WorldState::new("Testware".to_string(), true);
    let mut reactor = EventReactor::with_seed(7);
    let builder = GameTaskBuilder::new("T".to_string(), TaskKind::Normal, 5, 2);
    world.apply_event(EventBusRequest::AddTask(builder), &mut reactor);

    let outcome = world.handle_move_task(
        transfer(351, TaskKind::Normal, StageId::Backlog),
        StageId::Candidate,
    );
    assert!(matches!(outcome, EventOutcome::Update));
    assert_eq!(world.tasks_backlog.len(), 0);
    assert_eq!(world.tasks_candidate.len(), 1);
    assert_eq!(world.tasks_candidate[0].progress, 0);
    assert_eq!(world.tasks_candidate[0].stage, StageId::Candidate);

    // before specification completes, the task may not enter development
    let outcome = world.handle_move_task(
        transfer(351, TaskKind::Normal, StageId::Candidate),
        StageId::Progress,
    );
    assert!(matches!(outcome, EventOutcome::Nothing));
    assert_eq!(world.tasks_candidate.len(), 1);
    assert_eq!(world.tasks_progress.len(), 0);
}

#[test]
fn legal_move_changes_exactly_two_collections() {
    let mut task = plain_task(9, TaskKind::Normal, 3, 4);
    task.specified = true;
    task.assigned = Some(0);
    let mut world = world_with_task(StageId::Candidate, task);
    let before = stage_sizes(&world);

    let outcome = world.handle_move_task(
        transfer(9, TaskKind::Normal, StageId::Candidate),
        StageId::Progress,
    );
    assert!(matches!(outcome, EventOutcome::Update));
    let after = stage_sizes(&world);
    assert_eq!(before[1], after[1] + 1);
    assert_eq!(before[2] + 1, after[2]);
    assert_eq!(before[0], after[0]);
    assert_eq!(before[3], after[3]);
    assert_eq!(before[4], after[4]);
    // development starts from scratch
    assert_eq!(world.tasks_progress[0].progress, 0);
}

#[test]
fn illegal_moves_change_nothing() {
    let task = plain_task(5, TaskKind::Normal, 3, 4);
    let world0 = world_with_task(StageId::Backlog, task);

    let illegal_targets = [StageId::Backlog, StageId::Progress, StageId::Review, StageId::Done];
    for to in illegal_targets {
        let mut world = world0.clone();
        let outcome = world.handle_move_task(transfer(5, TaskKind::Normal, StageId::Backlog), to);
        assert!(matches!(outcome, EventOutcome::Nothing));
        assert_eq!(world, world0);
    }

    // a not-yet-developed task may not leave development forward
    let mut undeveloped = plain_task(6, TaskKind::Normal, 3, 4);
    undeveloped.specified = true;
    undeveloped.progress = PROGRESS_DONE - 1;
    let world1 = world_with_task(StageId::Progress, undeveloped);
    for to in [StageId::Review, StageId::Done, StageId::Backlog] {
        let mut world = world1.clone();
        let outcome = world.handle_move_task(transfer(6, TaskKind::Normal, StageId::Progress), to);
        assert!(matches!(outcome, EventOutcome::Nothing));
        assert_eq!(world, world1);
    }

    // a specified candidate may not go back to the backlog
    let mut specified = plain_task(7, TaskKind::Normal, 3, 4);
    specified.specified = true;
    let world2 = world_with_task(StageId::Candidate, specified);
    let mut world = world2.clone();
    let outcome = world.handle_move_task(transfer(7, TaskKind::Normal, StageId::Candidate), StageId::Backlog);
    assert!(matches!(outcome, EventOutcome::Nothing));
    assert_eq!(world, world2);
}

#[test]
fn unknown_task_reference_is_a_no_op() {
    let world0 = world_with_task(StageId::Backlog, plain_task(5, TaskKind::Normal, 3, 4));
    let mut world = world0.clone();
    // wrong id
    let outcome = world.handle_move_task(transfer(99, TaskKind::Normal, StageId::Backlog), StageId::Candidate);
    assert!(matches!(outcome, EventOutcome::Nothing));
    assert_eq!(world, world0);
    // wrong origin stage (stale drag)
    let outcome = world.handle_move_task(transfer(5, TaskKind::Normal, StageId::Review), StageId::Progress);
    assert!(matches!(outcome, EventOutcome::Nothing));
    assert_eq!(world, world0);
}

#[test]
fn review_to_done_merges_reward_into_scores() {
    // reward score 5, zero latent bugs, on a world with total score 0
    let mut task = plain_task(11, TaskKind::Normal, 5, 2);
    task.specified = true;
    task.progress = PROGRESS_DONE;
    let mut world = world_with_task(StageId::Review, task);
    assert_eq!(world.total_score, 0);

    let outcome = world.handle_move_task(transfer(11, TaskKind::Normal, StageId::Review), StageId::Done);
    assert!(matches!(outcome, EventOutcome::Update));
    assert_eq!(world.total_score, 5 * SCORE_UNIT);
    assert_eq!(world.score_in_month, 5 * SCORE_UNIT as i32);
    assert_eq!(world.tasks_done.len(), 1);
    assert_eq!(world.tasks_done[0].progress, 0);
    assert_eq!(world.tasks_done[0].assigned, None);
}

#[test]
fn merging_adds_latent_bugs_to_the_world() {
    let mut task = plain_task(12, TaskKind::Normal, 2, 8);
    task.specified = true;
    task.progress = PROGRESS_DONE;
    task.bugs = 3;
    let mut world = world_with_task(StageId::Progress, task);
    world.bugs = 4;
    let complexity_before = world.complexity;

    let outcome = world.handle_move_task(transfer(12, TaskKind::Normal, StageId::Progress), StageId::Done);
    assert!(matches!(outcome, EventOutcome::Update));
    assert_eq!(world.bugs, 4 + 3);
    // a normal task grows the technical debt with its difficulty
    assert_eq!(world.complexity, complexity_before + 1 + 8 / 4);
}

#[test]
fn merging_a_bug_task_removes_the_fixed_bug() {
    let mut task = plain_task(13, TaskKind::Bug, 1, 10);
    task.specified = true;
    task.progress = PROGRESS_DONE;
    // development fixed the known bug
    task.bugs = 0;
    task.bugs_found = 0;
    let mut world = world_with_task(StageId::Review, task);
    world.bugs = 4;
    let complexity_before = world.complexity;

    world.handle_move_task(transfer(13, TaskKind::Bug, StageId::Review), StageId::Done);
    assert_eq!(world.bugs, 3);
    assert_eq!(world.complexity, complexity_before + 10 / 5);
}

#[test]
fn merging_a_chore_reduces_complexity() {
    let mut task = plain_task(14, TaskKind::Chore, 0, 8);
    task.specified = true;
    task.progress = PROGRESS_DONE;
    let mut world = world_with_task(StageId::Review, task);
    world.complexity = 15;

    world.handle_move_task(transfer(14, TaskKind::Chore, StageId::Review), StageId::Done);
    assert_eq!(world.complexity, 15 - (2 + 8 / 4));
    // no score for chores
    assert_eq!(world.total_score, 0);
}

#[test]
fn merge_task_clamps_score_at_zero() {
    // a task with no reward on a world with no score keeps the total at zero
    let task = plain_task(15, TaskKind::Chore, 0, 4);
    let mut world = world_with_task(StageId::Done, task);
    world.merge_task(&transfer(15, TaskKind::Chore, StageId::Done));
    assert_eq!(world.total_score, 0);
}

#[test]
fn review_back_to_progress_keeps_two_thirds_on_found_bug() {
    let mut task = plain_task(16, TaskKind::Normal, 3, 4);
    task.specified = true;
    task.progress = PROGRESS_DONE;
    task.bugs = 2;
    task.bugs_found = 1;
    let mut world = world_with_task(StageId::Review, task);

    world.handle_move_task(transfer(16, TaskKind::Normal, StageId::Review), StageId::Progress);
    assert_eq!(world.tasks_progress.len(), 1);
    assert_eq!(world.tasks_progress[0].progress, 666);

    // without a found bug, development progress is kept as it was
    let mut clean = plain_task(17, TaskKind::Normal, 3, 4);
    clean.specified = true;
    clean.progress = PROGRESS_DONE;
    let mut world = world_with_task(StageId::Review, clean);
    world.handle_move_task(transfer(17, TaskKind::Normal, StageId::Review), StageId::Progress);
    assert_eq!(world.tasks_progress[0].progress, PROGRESS_DONE);
}

#[test]
fn progress_back_to_candidate_keeps_progress() {
    let mut task = plain_task(18, TaskKind::Normal, 3, 4);
    task.specified = true;
    task.progress = 400;
    let mut world = world_with_task(StageId::Progress, task);
    world.handle_move_task(transfer(18, TaskKind::Normal, StageId::Progress), StageId::Candidate);
    assert_eq!(world.tasks_candidate.len(), 1);
    assert_eq!(world.tasks_candidate[0].progress, 400);
}

#[test]
fn assign_task_sets_the_worker() {
    let task = plain_task(20, TaskKind::Normal, 3, 4);
    let mut world = world_with_task(StageId::Candidate, task);
    let mut reactor = EventReactor::with_seed(3);

    let outcome = world.apply_event(
        EventBusRequest::AssignTask {
            task: transfer(20, TaskKind::Normal, StageId::Candidate),
            human_id: 0,
        },
        &mut reactor,
    );
    assert!(matches!(outcome, EventOutcome::Update));
    assert_eq!(world.tasks_candidate[0].assigned, Some(0));

    // assigning again to the same worker is a no-op
    let outcome = world.assign_task(transfer(20, TaskKind::Normal, StageId::Candidate), 0);
    assert!(matches!(outcome, EventOutcome::Nothing));

    // a worker id outside the roster is refused
    let outcome = world.assign_task(transfer(20, TaskKind::Normal, StageId::Candidate), 42);
    assert!(matches!(outcome, EventOutcome::Nothing));
    assert_eq!(world.tasks_candidate[0].assigned, Some(0));
}

#[test]
fn next_month_before_month_end_is_a_no_op() {
    let mut world = blank_world();
    let mut reactor = EventReactor::with_seed(3);
    world.time_in_month = TICKS_PER_MONTH - 1;
    let before = world.clone();
    let outcome = world.apply_event(EventBusRequest::NextMonth, &mut reactor);
    assert!(matches!(outcome, EventOutcome::Nothing));
    assert_eq!(world, before);
}

#[test]
fn next_month_rolls_over_once_per_month_end() {
    let mut world = blank_world();
    world.time_in_month = TICKS_PER_MONTH;
    world.score_in_month = 4_000;
    world.bugs_fixed_in_month = 2;
    let rate_before = world.task_ingest_rate;
    let mut done = plain_task(21, TaskKind::Normal, 1, 2);
    done.stage = StageId::Done;
    world.tasks_done.push(done);

    let outcome = world.next_month();
    assert!(matches!(outcome, EventOutcome::Update));
    assert_eq!(world.month, 1);
    assert_eq!(world.time_in_month, 0);
    assert_eq!(world.score_in_month, 0);
    assert_eq!(world.bugs_fixed_in_month, 0);
    assert_eq!(world.task_ingest_rate, rate_before + 1);
    assert!(!world.tasks_done[0].visible);

    // a second request is a no-op until the next month end
    let before = world.clone();
    let outcome = world.next_month();
    assert!(matches!(outcome, EventOutcome::Nothing));
    assert_eq!(world, before);
}

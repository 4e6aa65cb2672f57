//! The event reactor: a seeded pseudo-random generator producing every
//! chance-based outcome of the simulation.
//!
//! The generator is an explicit, seedable component passed into the tick
//! operation, never ambient state, so that a game can be replayed
//! deterministically from a fixed seed.  Every roll goes through a small
//! trusted wrapper around the `rand` crate; the decision logic built on
//! the rolls is verified for every value a roll can take.

use vstd::prelude::*;

use crate::arith::{u32_min, u32_mul_saturating};
use crate::human::GameHuman;
use crate::task::{GameTask, GameTaskBuilder, TaskKind, TASK_DEADLINE_TICKS};

verus! {

/// The PCG-32 generator of the `rand_pcg` crate, kept opaque:
/// the engine only ever draws from it through the wrappers below.
#[verifier::external_type_specification]
#[verifier::external_body]
pub struct ExLcg64Xsh32(rand_pcg::Lcg64Xsh32);

/// Relies on rand_pcg::Pcg32 and rand_core::SeedableRng::from_entropy:
/// a generator seeded from operating-system randomness.
#[verifier::external_body]
fn rng_from_entropy() -> rand_pcg::Pcg32 {
    <rand_pcg::Pcg32 as rand::SeedableRng>::from_entropy()
}

/// Relies on rand_pcg::Pcg32 and rand_core::SeedableRng::seed_from_u64:
/// a generator whose whole stream is determined by the seed.
#[verifier::external_body]
fn rng_from_seed(seed: u64) -> rand_pcg::Pcg32 {
    <rand_pcg::Pcg32 as rand::SeedableRng>::seed_from_u64(seed)
}

/// Relies on rand::Rng::gen_ratio: returns true with probability
/// `num / det`.  Its source panics only when `det == 0` or `num > det`,
/// always returns true when `num == det`, and always returns false when
/// `num == 0`; nothing more holds of a random outcome.
#[verifier::external_body]
fn rng_ratio(rng: &mut rand_pcg::Pcg32, num: u32, det: u32) -> (r: bool)
    requires
        1 <= det,
        num <= det,
    ensures
        num == det ==> r,
        num == 0 ==> !r,
{
    rand::Rng::gen_ratio(rng, num, det)
}

/// Relies on rand::Rng::gen_range: a uniform draw from `lo..hi`.
/// Its source panics only on an empty range and documents that the
/// result lies within the range.
#[verifier::external_body]
fn rng_range(rng: &mut rand_pcg::Pcg32, lo: u32, hi: u32) -> (r: u32)
    requires
        lo < hi,
    ensures
        lo <= r < hi,
{
    rand::Rng::gen_range(rng, lo..hi)
}

/// Some major event that can happen over time.
#[derive(Debug, Clone, PartialEq)]
pub enum GameEvent {
    /// extra technical debt
    ExtraTechnicalDebt { message: u32, extra_complexity: u32 },
    /// extraordinary features were requested
    MajorFeatureRequested { message: u32, tasks: Vec<GameTaskBuilder> },
    /// a bug was reported by clients
    BugReported(GameTaskBuilder),
    /// Just show a random report
    RandomReport(u32),
}

/// Game construct that produces events over game time.
#[derive(Debug)]
pub struct EventReactor {
    /// the random number generator
    rng: rand_pcg::Pcg32,
}

impl EventReactor {
    /// Create a reactor seeded from operating-system randomness.
    ///
    /// The underlying call aborts if the operating system cannot
    /// provide entropy; that failure is environmental, never
    /// input-dependent.
    pub fn new() -> Self {
        EventReactor { rng: rng_from_entropy() }
    }

    /// Create a reactor with a fixed seed, for deterministic replay.
    pub fn with_seed(seed: u64) -> Self {
        EventReactor { rng: rng_from_seed(seed) }
    }

    /// Roll for whether the worker introduced a bug
    /// while working on the given task.
    ///
    /// A bug can never be introduced while difficulty or complexity
    /// is zero.
    pub fn human_introduced_bug(
        &mut self,
        human: &GameHuman,
        task: &GameTask,
        project_complexity: u32,
    ) -> (r: bool)
        ensures
            task.difficulty * project_complexity == 0 ==> !r,
    {
        let det: u32 = 3_500u32.saturating_add(u32_mul_saturating(human.experience, 16));
        let mut num: u32 = u32_mul_saturating(task.difficulty, project_complexity) / 2;

        // if bugs were found before,
        // that means previous bugs are being fixed,
        // so less chance of introducing new ones
        if task.bugs_found > 0 {
            num = num / 5;
        }

        rng_ratio(&mut self.rng, u32_min(num, det), det)
    }

    /// Roll for whether the worker discovered a bug
    /// while reviewing a task, once per outstanding bug not yet found.
    ///
    /// Nothing can be discovered in a task without outstanding bugs.
    pub fn human_detected_bug(
        &mut self,
        human: &GameHuman,
        task: &GameTask,
        project_complexity: u32,
    ) -> (r: bool)
        ensures
            task.bugs_found >= task.bugs ==> !r,
    {
        if task.bugs == 0 {
            return false;
        }

        let mut attempt: u32 = task.bugs_found;
        while attempt < task.bugs
            invariant
                task.bugs_found <= attempt,
            decreases task.bugs - attempt,
        {
            let det: u32 = 2_000u32.saturating_add(u32_mul_saturating(task.difficulty, 70))
                .saturating_add(u32_mul_saturating(project_complexity, 60));
            let num: u32 = 10 + human.experience / 2;
            // triple the chances if reviewed by someone
            // other than the developer
            let reviewed_by_developer = match task.developed_by {
                Some(dev) => dev == human.id,
                None => false,
            };
            let num: u32 = if reviewed_by_developer {
                num
            } else {
                u32_mul_saturating(num, 3)
            };

            if rng_ratio(&mut self.rng, u32_min(num, det), det) {
                return true;
            }
            attempt = attempt + 1;
        }
        false
    }

    /// Determine how much of the score to deduct: a roll around the
    /// linger rate, spread by the size of the total score, and never
    /// more than a fifth of the total score.
    pub fn score_damage(&mut self, total_score: u32, score_linger_rate: u32) -> (damage: u32)
        ensures
            damage <= total_score / 5,
    {
        let spread: u32 = total_score / 2_000;
        let centered: u32 = self.roll_around(score_linger_rate, spread);
        u32_min(centered, total_score / 5)
    }

    /// A roll around `center` with the given spread: the average of
    /// three uniform draws from `center - spread ..= center + spread`,
    /// floored at zero.
    fn roll_around(&mut self, center: u32, spread: u32) -> (r: u32)
        requires
            spread <= 0x100_0000,
        ensures
            r <= center + spread,
    {
        let width: u32 = 2 * spread + 1;
        let d1: u32 = rng_range(&mut self.rng, 0, width);
        let d2: u32 = rng_range(&mut self.rng, 0, width);
        let d3: u32 = rng_range(&mut self.rng, 0, width);
        let offset: u32 = (d1 + d2 + d3) / 3;
        center.saturating_add(offset).saturating_sub(spread)
    }

    /// Roll for whether to have a major event.
    ///
    /// A bug report can only come while the software has bugs; an
    /// extraordinary feature request carries one to three deadline
    /// tasks of higher score and difficulty than usual.
    pub fn major_event(&mut self, bugs: u32) -> (r: Option<GameEvent>)
        ensures
            r matches Some(GameEvent::BugReported(b)) ==> {
                &&& bugs >= 1
                &&& b.kind is Bug
                &&& b.score <= 1
                &&& 2 <= b.difficulty < 12
                &&& b.max_time is None
            },
            r matches Some(GameEvent::MajorFeatureRequested { tasks, .. }) ==> {
                &&& 1 <= tasks@.len() <= 3
                &&& forall|i: int|
                    0 <= i < tasks@.len() ==> {
                        &&& (#[trigger] tasks@[i]).kind is Normal
                        &&& 4 <= tasks@[i].score <= 16
                        &&& 3 <= tasks@[i].difficulty < 15
                        &&& tasks@[i].max_time == Some(TASK_DEADLINE_TICKS)
                    }
            },
            r matches Some(GameEvent::RandomReport(id)) ==> id <= 8,
            !(r matches Some(GameEvent::ExtraTechnicalDebt { .. })),
    {
        let roll: u32 = rng_range(&mut self.rng, 1, 1_001);
        if roll <= 35 {
            if bugs == 0 {
                return None;
            }

            let score: u32 = rng_range(&mut self.rng, 0, 2);
            let difficulty: u32 = rng_range(&mut self.rng, 2, 12);
            let task = GameTaskBuilder::new(String::new(), TaskKind::Bug, score, difficulty);

            Some(GameEvent::BugReported(task))
        } else if roll >= 950 {
            let n_new_tasks: u32 = rng_range(&mut self.rng, 1, 4);

            let mut tasks: Vec<GameTaskBuilder> = Vec::new();
            let mut made: u32 = 0;
            while made < n_new_tasks
                invariant
                    made <= n_new_tasks <= 3,
                    tasks@.len() == made,
                    forall|i: int|
                        0 <= i < tasks@.len() ==> {
                            &&& (#[trigger] tasks@[i]).kind is Normal
                            &&& 4 <= tasks@[i].score <= 16
                            &&& 3 <= tasks@[i].difficulty < 15
                            &&& tasks@[i].max_time == Some(TASK_DEADLINE_TICKS)
                        },
                decreases n_new_tasks - made,
            {
                // generally higher score than usual, and generally harder too
                let score: u32 = rng_range(&mut self.rng, 4, 17);
                let difficulty: u32 = rng_range(&mut self.rng, 3, 15);
                let task = GameTaskBuilder::new_with_deadline(
                    String::from_str("Extraordinary task"),
                    TaskKind::Normal,
                    score,
                    difficulty,
                );
                tasks.push(task);
                made = made + 1;
            }

            Some(GameEvent::MajorFeatureRequested { message: 0, tasks })
        } else if 750 <= roll && roll < 900 {
            Some(GameEvent::RandomReport(rng_range(&mut self.rng, 0, 9)))
        } else {
            // do nothing
            None
        }
    }

    /// Roll for the ingestion of a new self-devised task during the
    /// player's idle time.
    ///
    /// The chance is weighted by the ingestion rate and the player's
    /// experience, and suppressed by a large backlog; above a backlog
    /// of 29 tasks nothing is ever ingested.  Bug tasks can only be
    /// devised while the software has bugs, and chores carry no score.
    pub fn ingest_task(
        &mut self,
        you_experience: u32,
        bugs: u32,
        complexity: u32,
        task_ingest_rate: u32,
        tasks_in_backlog: usize,
    ) -> (r: Option<GameTaskBuilder>)
        ensures
            tasks_in_backlog >= 30 ==> r is None,
            r matches Some(b) ==> {
                &&& b.description@ == Seq::<char>::empty()
                &&& b.max_time is None
                &&& b.kind is Bug ==> (bugs >= 1 && b.score <= 2 && 2 <= b.difficulty < 12)
                &&& b.kind is Chore ==> (b.score == 0 && 5 <= b.difficulty < 16)
                &&& b.kind is Normal ==> (1 <= b.score <= 8 && 1 <= b.difficulty < 12)
            },
    {
        let det: u32 = 4_400u32.saturating_add(task_ingest_rate);
        let num: u32 = task_ingest_rate.saturating_add(you_experience);

        // inflate the ingestion chance while the backlog is small,
        // deflate it as the backlog grows
        let num: u32 = if tasks_in_backlog <= 1 {
            u32_mul_saturating(num, 2)
        } else if tasks_in_backlog <= 7 {
            num
        } else if tasks_in_backlog <= 12 {
            num / 2
        } else if tasks_in_backlog <= 20 {
            num / 4
        } else if tasks_in_backlog <= 29 {
            num / 8
        } else {
            return None;
        };

        if rng_ratio(&mut self.rng, u32_min(num, det), det) {
            // weighted sampling:
            // - bug finding is weighed on the number of bugs
            // - chore tasks are weighed on complexity
            let n_fraction: u32 = 24;
            let b_fraction: u32 = bugs;
            let c_fraction: u32 = complexity / 2;
            let d: u32 = n_fraction.saturating_add(b_fraction).saturating_add(c_fraction);

            let i: u32 = rng_range(&mut self.rng, 0, d);

            let mut kind = if i < b_fraction {
                TaskKind::Bug
            } else if i >= d - c_fraction {
                TaskKind::Chore
            } else {
                TaskKind::Normal
            };

            if kind == TaskKind::Bug && bugs == 0 {
                kind = TaskKind::Chore;
            }

            let score: u32 = match kind {
                TaskKind::Chore => 0,
                TaskKind::Normal => rng_range(&mut self.rng, 1, 9),
                TaskKind::Bug => rng_range(&mut self.rng, 0, 3),
            };
            let difficulty: u32 = match kind {
                TaskKind::Normal => rng_range(&mut self.rng, 1, 12),
                TaskKind::Bug => rng_range(&mut self.rng, 2, 12),
                TaskKind::Chore => rng_range(&mut self.rng, 5, 16),
            };
            let task = GameTaskBuilder::new(String::new(), kind, score, difficulty);

            Some(task)
        } else {
            None
        }
    }

    /// A procedure to generate multiple feature tasks
    /// at the beginning of the month: at least three deadline tasks
    /// whose score and difficulty grow with the month.
    pub fn ingest_important_tasks(&mut self, month: u32, task_ingest_rate: u32) -> (tasks: Vec<
        GameTaskBuilder,
    >)
        ensures
            tasks@.len() >= 3,
            forall|i: int|
                0 <= i < tasks@.len() ==> {
                    let base_score = if 4 + month / 5 <= 1_000_000 {
                        4 + month as int / 5
                    } else {
                        1_000_000int
                    };
                    let base_difficulty = if 4 + month / 4 <= 1_000_000 {
                        4 + month as int / 4
                    } else {
                        1_000_000int
                    };
                    &&& (#[trigger] tasks@[i]).kind is Normal
                    &&& tasks@[i].description@ == Seq::<char>::empty()
                    &&& tasks@[i].max_time == Some(TASK_DEADLINE_TICKS)
                    &&& base_score <= tasks@[i].score <= base_score + 6
                    &&& base_difficulty <= tasks@[i].difficulty < base_difficulty + 10
                },
    {
        let mean: u32 = month.saturating_add(task_ingest_rate) / 5;
        let rolled: u32 = self.roll_around(mean, 2);
        let num_tasks: u32 = if rolled >= 3 {
            rolled
        } else {
            3
        };

        let base_difficulty: u32 = u32_min(4u32.saturating_add(month / 4), 1_000_000);
        let base_score: u32 = u32_min(4u32.saturating_add(month / 5), 1_000_000);

        let mut tasks: Vec<GameTaskBuilder> = Vec::new();
        let mut made: u32 = 0;
        while made < num_tasks
            invariant
                made <= num_tasks,
                base_score <= 1_000_000,
                base_difficulty <= 1_000_000,
                base_score == if 4 + month / 5 <= 1_000_000 {
                    4 + month as int / 5
                } else {
                    1_000_000int
                },
                base_difficulty == if 4 + month / 4 <= 1_000_000 {
                    4 + month as int / 4
                } else {
                    1_000_000int
                },
                tasks@.len() == made,
                forall|i: int|
                    0 <= i < tasks@.len() ==> {
                        &&& (#[trigger] tasks@[i]).kind is Normal
                        &&& tasks@[i].description@ == Seq::<char>::empty()
                        &&& tasks@[i].max_time == Some(TASK_DEADLINE_TICKS)
                        &&& base_score <= tasks@[i].score <= base_score + 6
                        &&& base_difficulty <= tasks@[i].difficulty < base_difficulty + 10
                    },
            decreases num_tasks - made,
        {
            let score: u32 = rng_range(&mut self.rng, base_score, base_score + 7);
            let difficulty: u32 = rng_range(&mut self.rng, base_difficulty, base_difficulty + 10);
            tasks.push(
                GameTaskBuilder::new_with_deadline(String::new(), TaskKind::Normal, score, difficulty),
            );
            made = made + 1;
        }
        tasks
    }

    /// Generate a new worker: experience rolls around 50 and is clamped
    /// to 35..=80, while the name and color follow the month.
    pub fn new_human(&mut self, id: u32, month: u32) -> (h: GameHuman)
        ensures
            h.id == id,
            h.status is Idle,
            !h.quit,
            35 <= h.experience <= 80,
            ({
                let n = if month >= 3 {
                    ((month - 3) as u32 % 16) as int
                } else {
                    0int
                };
                h.name@ == human_name_text(n) && h.color@ == human_color_text(n)
            }),
    {
        let rolled: u32 = self.roll_around(50, 10);
        let experience: u32 = if rolled < 35 {
            35
        } else if rolled > 80 {
            80
        } else {
            rolled
        };

        let n: u32 = month.saturating_sub(3) % 16;

        let (name, color) = human_identity(n);
        GameHuman::new(id, String::from_str(name), String::from_str(color), experience)
    }
}

/// The name a worker hired at the given point of the rotation gets.
pub open spec fn human_name_text(n: int) -> Seq<char> {
    if n == 0 {
        "May"@
    } else if n == 1 {
        "Ben"@
    } else if n == 2 {
        "Joan"@
    } else if n == 3 {
        "Sam"@
    } else if n == 4 {
        "Kris"@
    } else if n == 5 {
        "Joe"@
    } else if n == 6 {
        "Sue"@
    } else if n == 7 {
        "Tim"@
    } else if n == 8 {
        "Dory"@
    } else if n == 9 {
        "Tom"@
    } else if n == 10 {
        "Anne"@
    } else if n == 11 {
        "Abe"@
    } else if n == 12 {
        "Yao"@
    } else if n == 13 {
        "Mary"@
    } else if n == 14 {
        "Ray"@
    } else {
        "Jon"@
    }
}

/// The color code a worker hired at the given point of the rotation
/// gets.
pub open spec fn human_color_text(n: int) -> Seq<char> {
    if n == 0 {
        "#00d"@
    } else if n == 1 {
        "#dd0"@
    } else if n == 2 {
        "#c6c"@
    } else if n == 3 {
        "#0cc"@
    } else if n == 4 {
        "#0dd"@
    } else if n == 5 {
        "#ccc"@
    } else if n == 6 {
        "#d00"@
    } else if n == 7 {
        "#6c0"@
    } else if n == 8 {
        "#d0d"@
    } else if n == 9 {
        "#c0c"@
    } else if n == 10 {
        "#ddc"@
    } else if n == 11 {
        "#cdd"@
    } else if n == 12 {
        "#c6c"@
    } else if n == 13 {
        "#3f7"@
    } else if n == 14 {
        "#c0c"@
    } else {
        "#f30"@
    }
}

/// The name and color of the worker at the given point of the rotation.
fn human_identity(n: u32) -> (r: (&'static str, &'static str))
    requires
        n < 16,
    ensures
        r.0@ == human_name_text(n as int),
        r.1@ == human_color_text(n as int),
{
    match n {
        0 => ("May", "#00d"),
        1 => ("Ben", "#dd0"),
        2 => ("Joan", "#c6c"),
        3 => ("Sam", "#0cc"),
        4 => ("Kris", "#0dd"),
        5 => ("Joe", "#ccc"),
        6 => ("Sue", "#d00"),
        7 => ("Tim", "#6c0"),
        8 => ("Dory", "#d0d"),
        9 => ("Tom", "#c0c"),
        10 => ("Anne", "#ddc"),
        11 => ("Abe", "#cdd"),
        12 => ("Yao", "#c6c"),
        13 => ("Mary", "#3f7"),
        14 => ("Ray", "#c0c"),
        _ => ("Jon", "#f30"),
    }
}

} // verus!

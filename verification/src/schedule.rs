//! In which order, and when, the parts of the game run, at the start and in a frame.

use vstd::prelude::*;

verus! {

/// Top-level system ordering for the roguelike.
///
/// ```text
///   Index → Action → Consequence → Render
/// ```
#[derive(Clone, Copy, Debug, PartialEq, Eq, Hash, Structural)]
pub enum RoguelikeSet {
    /// Rebuild the spatial index, so that later systems find positions at once.
    Index,
    /// Process intents: movement, combat, AI.
    Action,
    /// Recalculate derived state: visibility, camera.
    Consequence,
    /// Draw the frame.
    Render,
}

/// A part of the game that runs once in a frame.
#[derive(Clone, Copy, Debug, PartialEq, Eq, Hash, Structural)]
pub enum Step {
    SpatialIndex,
    Movement,
    Pickup,
    AutoPickup,
    UseItem,
    Throw,
    Reload,
    Spell,
    Molotov,
    RangedAttack,
    MeleeWide,
    Combat,
    Projectile,
    ExplosiveProjectile,
    ApplyDamage,
    Death,
    VictoryCheck,
    Visibility,
    CameraFollow,
    EndPlayerTurn,
    EnergyAccumulate,
    Ai,
    AiRangedAttack,
    Fire,
    EndWorldTurn,
    CursorBlink,
    ParticleTick,
    Draw,
}

/// When a step runs at all.
#[derive(Clone, Copy, Debug, PartialEq, Eq, Structural)]
pub enum Gate {
    Always,
    /// While the game is being played.
    Playing,
    /// While the player's turn is resolved.
    PlayerTurn,
    /// While the world takes its turn.
    WorldTurn,
}

/// What has to be over before a step begins.
#[derive(Clone, Copy, Debug, PartialEq, Eq, Structural)]
pub enum Earlier {
    OneStep(Step),
    WholeSet(RoguelikeSet),
}

/// The set that a step belongs to. Turns change outside of all sets.
pub open spec fn home(step: Step) -> Option<RoguelikeSet> {
    match step {
        Step::SpatialIndex => Some(RoguelikeSet::Index),
        Step::Visibility | Step::CameraFollow => Some(RoguelikeSet::Consequence),
        Step::CursorBlink | Step::ParticleTick | Step::Draw => Some(RoguelikeSet::Render),
        Step::EndPlayerTurn | Step::EnergyAccumulate | Step::Ai | Step::AiRangedAttack
        | Step::Fire | Step::EndWorldTurn => None,
        _ => Some(RoguelikeSet::Action),
    }
}

pub fn set_of(step: Step) -> (set: Option<RoguelikeSet>)
    ensures
        set == home(step),
{
    match step {
        Step::SpatialIndex => Some(RoguelikeSet::Index),
        Step::Visibility | Step::CameraFollow => Some(RoguelikeSet::Consequence),
        Step::CursorBlink | Step::ParticleTick | Step::Draw => Some(RoguelikeSet::Render),
        Step::EndPlayerTurn | Step::EnergyAccumulate | Step::Ai | Step::AiRangedAttack
        | Step::Fire | Step::EndWorldTurn => None,
        _ => Some(RoguelikeSet::Action),
    }
}

/// Actions and their consequences need a game that is being played, turns change in the turn
/// that they end, and the rest always runs, so that the screens for pause, death and victory
/// are drawn too.
pub open spec fn gate(step: Step) -> Gate {
    match step {
        Step::EndPlayerTurn => Gate::PlayerTurn,
        Step::EnergyAccumulate | Step::Ai | Step::AiRangedAttack | Step::Fire
        | Step::EndWorldTurn => Gate::WorldTurn,
        Step::SpatialIndex | Step::CursorBlink | Step::ParticleTick | Step::Draw => Gate::Always,
        _ => Gate::Playing,
    }
}

pub fn gate_of(step: Step) -> (g: Gate)
    ensures
        g == gate(step),
{
    match step {
        Step::EndPlayerTurn => Gate::PlayerTurn,
        Step::EnergyAccumulate | Step::Ai | Step::AiRangedAttack | Step::Fire
        | Step::EndWorldTurn => Gate::WorldTurn,
        Step::SpatialIndex | Step::CursorBlink | Step::ParticleTick | Step::Draw => Gate::Always,
        _ => Gate::Playing,
    }
}

/// What a step waits for, besides the sets before its own.
pub open spec fn awaited(step: Step) -> Seq<Earlier> {
    match step {
        Step::Pickup => seq![Earlier::OneStep(Step::Movement)],
        Step::AutoPickup => seq![Earlier::OneStep(Step::Pickup)],
        Step::UseItem => seq![Earlier::OneStep(Step::AutoPickup)],
        Step::Throw => seq![Earlier::OneStep(Step::UseItem)],
        Step::Reload => seq![Earlier::OneStep(Step::Throw)],
        Step::Spell => seq![Earlier::OneStep(Step::Reload)],
        Step::Molotov => seq![Earlier::OneStep(Step::Spell)],
        Step::RangedAttack => seq![Earlier::OneStep(Step::Molotov)],
        Step::MeleeWide => seq![Earlier::OneStep(Step::RangedAttack)],
        Step::Combat => seq![Earlier::OneStep(Step::MeleeWide)],
        Step::Projectile => seq![Earlier::OneStep(Step::Combat)],
        Step::ExplosiveProjectile => seq![Earlier::OneStep(Step::Projectile)],
        Step::ApplyDamage => seq![
            Earlier::OneStep(Step::ExplosiveProjectile),
            Earlier::OneStep(Step::Projectile),
        ],
        Step::Death => seq![Earlier::OneStep(Step::ApplyDamage), Earlier::OneStep(Step::Projectile)],
        Step::VictoryCheck => seq![Earlier::OneStep(Step::Death), Earlier::OneStep(Step::Projectile)],
        Step::CameraFollow => seq![Earlier::OneStep(Step::Visibility)],
        Step::EndPlayerTurn => seq![Earlier::WholeSet(RoguelikeSet::Consequence)],
        Step::EnergyAccumulate => seq![Earlier::WholeSet(RoguelikeSet::Consequence)],
        Step::Ai => seq![
            Earlier::OneStep(Step::EnergyAccumulate),
            Earlier::WholeSet(RoguelikeSet::Consequence),
        ],
        Step::AiRangedAttack => seq![
            Earlier::OneStep(Step::Ai),
            Earlier::WholeSet(RoguelikeSet::Consequence),
        ],
        Step::Fire => seq![
            Earlier::OneStep(Step::AiRangedAttack),
            Earlier::WholeSet(RoguelikeSet::Consequence),
        ],
        Step::EndWorldTurn => seq![Earlier::OneStep(Step::Fire)],
        Step::Draw => seq![Earlier::OneStep(Step::CursorBlink), Earlier::OneStep(Step::ParticleTick)],
        _ => Seq::empty(),
    }
}

pub fn waits_for(step: Step) -> (list: Vec<Earlier>)
    ensures
        list@ == awaited(step),
{
    match step {
        Step::Pickup => vec![Earlier::OneStep(Step::Movement)],
        Step::AutoPickup => vec![Earlier::OneStep(Step::Pickup)],
        Step::UseItem => vec![Earlier::OneStep(Step::AutoPickup)],
        Step::Throw => vec![Earlier::OneStep(Step::UseItem)],
        Step::Reload => vec![Earlier::OneStep(Step::Throw)],
        Step::Spell => vec![Earlier::OneStep(Step::Reload)],
        Step::Molotov => vec![Earlier::OneStep(Step::Spell)],
        Step::RangedAttack => vec![Earlier::OneStep(Step::Molotov)],
        Step::MeleeWide => vec![Earlier::OneStep(Step::RangedAttack)],
        Step::Combat => vec![Earlier::OneStep(Step::MeleeWide)],
        Step::Projectile => vec![Earlier::OneStep(Step::Combat)],
        Step::ExplosiveProjectile => vec![Earlier::OneStep(Step::Projectile)],
        Step::ApplyDamage => vec![
            Earlier::OneStep(Step::ExplosiveProjectile),
            Earlier::OneStep(Step::Projectile),
        ],
        Step::Death => vec![Earlier::OneStep(Step::ApplyDamage), Earlier::OneStep(Step::Projectile)],
        Step::VictoryCheck => vec![Earlier::OneStep(Step::Death), Earlier::OneStep(Step::Projectile)],
        Step::CameraFollow => vec![Earlier::OneStep(Step::Visibility)],
        Step::EndPlayerTurn => vec![Earlier::WholeSet(RoguelikeSet::Consequence)],
        Step::EnergyAccumulate => vec![Earlier::WholeSet(RoguelikeSet::Consequence)],
        Step::Ai => vec![
            Earlier::OneStep(Step::EnergyAccumulate),
            Earlier::WholeSet(RoguelikeSet::Consequence),
        ],
        Step::AiRangedAttack => vec![
            Earlier::OneStep(Step::Ai),
            Earlier::WholeSet(RoguelikeSet::Consequence),
        ],
        Step::Fire => vec![
            Earlier::OneStep(Step::AiRangedAttack),
            Earlier::WholeSet(RoguelikeSet::Consequence),
        ],
        Step::EndWorldTurn => vec![Earlier::OneStep(Step::Fire)],
        Step::Draw => vec![Earlier::OneStep(Step::CursorBlink), Earlier::OneStep(Step::ParticleTick)],
        _ => Vec::new(),
    }
}

/// All steps, in an order in which they can run.
pub open spec fn running_order() -> Seq<Step> {
    seq![
        Step::SpatialIndex,
        Step::Movement,
        Step::Pickup,
        Step::AutoPickup,
        Step::UseItem,
        Step::Throw,
        Step::Reload,
        Step::Spell,
        Step::Molotov,
        Step::RangedAttack,
        Step::MeleeWide,
        Step::Combat,
        Step::Projectile,
        Step::ExplosiveProjectile,
        Step::ApplyDamage,
        Step::Death,
        Step::VictoryCheck,
        Step::Visibility,
        Step::CameraFollow,
        Step::EndPlayerTurn,
        Step::EnergyAccumulate,
        Step::Ai,
        Step::AiRangedAttack,
        Step::Fire,
        Step::EndWorldTurn,
        Step::CursorBlink,
        Step::ParticleTick,
        Step::Draw,
    ]
}

pub fn all_steps() -> (steps: Vec<Step>)
    ensures
        steps@ == running_order(),
{
    vec![
        Step::SpatialIndex,
        Step::Movement,
        Step::Pickup,
        Step::AutoPickup,
        Step::UseItem,
        Step::Throw,
        Step::Reload,
        Step::Spell,
        Step::Molotov,
        Step::RangedAttack,
        Step::MeleeWide,
        Step::Combat,
        Step::Projectile,
        Step::ExplosiveProjectile,
        Step::ApplyDamage,
        Step::Death,
        Step::VictoryCheck,
        Step::Visibility,
        Step::CameraFollow,
        Step::EndPlayerTurn,
        Step::EnergyAccumulate,
        Step::Ai,
        Step::AiRangedAttack,
        Step::Fire,
        Step::EndWorldTurn,
        Step::CursorBlink,
        Step::ParticleTick,
        Step::Draw,
    ]
}

/// Place of a set in the order of sets.
pub open spec fn set_rank(set: RoguelikeSet) -> int {
    match set {
        RoguelikeSet::Index => 0,
        RoguelikeSet::Action => 1,
        RoguelikeSet::Consequence => 2,
        RoguelikeSet::Render => 3,
    }
}

/// The sets, the first to run in front.
pub fn set_order() -> (sets: Vec<RoguelikeSet>)
    ensures
        sets@.len() == 4,
        forall|i: int| 0 <= i < 4 ==> set_rank(#[trigger] sets@[i]) == i,
{
    vec![
        RoguelikeSet::Index,
        RoguelikeSet::Action,
        RoguelikeSet::Consequence,
        RoguelikeSet::Render,
    ]
}

/// `a` has to be over before `b` begins.
pub open spec fn must_precede(a: Step, b: Step) -> bool {
    ||| awaited(b).contains(Earlier::OneStep(a))
    ||| (home(a) matches Some(set) && awaited(b).contains(Earlier::WholeSet(set)))
    ||| (home(a) matches Some(first) && home(b) matches Some(second) && set_rank(first)
        < set_rank(second))
}

/// The steps can run in the order in which they are listed: each comes behind everything that
/// has to be over before it begins. So nothing waits for itself.
pub proof fn running_order_is_possible(i: int, j: int)
    requires
        0 <= i < running_order().len(),
        0 <= j < running_order().len(),
        must_precede(running_order()[i], running_order()[j]),
    ensures
        i < j,
{
}

/// A set is over before a later set begins: `Index`, `Action`, `Consequence`, `Render`.
pub proof fn sets_run_in_order(a: Step, b: Step)
    requires
        home(a) is Some,
        home(b) is Some,
        set_rank(home(a).unwrap()) < set_rank(home(b).unwrap()),
    ensures
        must_precede(a, b),
        forall|i: int, j: int|
            0 <= i < running_order().len() && 0 <= j < running_order().len()
                && #[trigger] running_order()[i] == a && #[trigger] running_order()[j] == b ==> i
                < j,
{
}

/// Everything that the program runs, be it once at the start or in every frame.
#[derive(Clone, Copy, Debug, PartialEq, Eq, Hash, Structural)]
pub enum Job {
    /// Bring the player into the first game.
    SpawnPlayer,
    /// Bring everyone else into the first game.
    SpawnMonsters,
    /// Read the keyboard and emit intents.
    Input,
    /// Take up a request for a new game.
    Restart,
    /// A step of a frame.
    Frame(Step),
}

/// When a job is due.
#[derive(Clone, Copy, Debug, PartialEq, Eq, Structural)]
pub enum Phase {
    /// Once, before the first frame.
    Startup,
    /// In every frame, before its steps.
    PreUpdate,
    /// In every frame.
    Update,
}

pub open spec fn phase(job: Job) -> Phase {
    match job {
        Job::SpawnPlayer | Job::SpawnMonsters => Phase::Startup,
        Job::Input | Job::Restart => Phase::PreUpdate,
        Job::Frame(_) => Phase::Update,
    }
}

pub fn phase_of(job: Job) -> (p: Phase)
    ensures
        p == phase(job),
{
    match job {
        Job::SpawnPlayer | Job::SpawnMonsters => Phase::Startup,
        Job::Input | Job::Restart => Phase::PreUpdate,
        Job::Frame(_) => Phase::Update,
    }
}

/// Place of a phase in the run of the program up to the end of its first frame.
pub open spec fn phase_rank(p: Phase) -> int {
    match p {
        Phase::Startup => 0,
        Phase::PreUpdate => 1,
        Phase::Update => 2,
    }
}

/// The jobs of the start, each of which is over before the next one begins.
pub open spec fn startup_chain() -> Seq<Job> {
    seq![Job::SpawnPlayer, Job::SpawnMonsters]
}

pub fn startup_jobs() -> (jobs: Vec<Job>)
    ensures
        jobs@ == startup_chain(),
{
    vec![Job::SpawnPlayer, Job::SpawnMonsters]
}

/// The jobs that come before the steps of a frame, in no order among themselves.
pub open spec fn early_jobs() -> Seq<Job> {
    seq![Job::Input, Job::Restart]
}

pub fn pre_update_jobs() -> (jobs: Vec<Job>)
    ensures
        jobs@ == early_jobs(),
{
    vec![Job::Input, Job::Restart]
}

/// `a` has to be over before `b` begins, up to the end of the first frame.
pub open spec fn runs_before(a: Job, b: Job) -> bool {
    ||| phase_rank(phase(a)) < phase_rank(phase(b))
    ||| exists|i: int, j: int|
        0 <= i < j < startup_chain().len() && #[trigger] startup_chain()[i] == a
            && #[trigger] startup_chain()[j] == b
    ||| (a matches Job::Frame(first) && b matches Job::Frame(second) && must_precede(first, second))
}

/// The player is in the world before anyone else enters it.
pub proof fn player_enters_first()
    ensures
        runs_before(Job::SpawnPlayer, Job::SpawnMonsters),
        !runs_before(Job::SpawnMonsters, Job::SpawnPlayer),
{
    assert(startup_chain()[0] == Job::SpawnPlayer);
    assert(startup_chain()[1] == Job::SpawnMonsters);
}

/// Intents are emitted, and a new game begins, before any step of a frame runs; and everyone is
/// in the world before that.
pub proof fn input_comes_before_the_frame(job: Job, step: Step)
    requires
        early_jobs().contains(job),
    ensures
        runs_before(job, Job::Frame(step)),
        runs_before(Job::SpawnPlayer, job),
        runs_before(Job::SpawnMonsters, job),
{
}

/// The lists hold every job of their phase, and no other.
pub proof fn jobs_are_listed(job: Job)
    ensures
        startup_chain().contains(job) <==> phase(job) == Phase::Startup,
        early_jobs().contains(job) <==> phase(job) == Phase::PreUpdate,
        job matches Job::Frame(step) ==> running_order().contains(step),
{
    assert(startup_chain()[0] == Job::SpawnPlayer);
    assert(startup_chain()[1] == Job::SpawnMonsters);
    assert(early_jobs()[0] == Job::Input);
    assert(early_jobs()[1] == Job::Restart);
    if let Job::Frame(step) = job {
        lemma_step_is_listed(step);
    }
}

proof fn lemma_step_is_listed(step: Step)
    ensures
        running_order().contains(step),
{
    let place: int = match step {
        Step::SpatialIndex => 0,
        Step::Movement => 1,
        Step::Pickup => 2,
        Step::AutoPickup => 3,
        Step::UseItem => 4,
        Step::Throw => 5,
        Step::Reload => 6,
        Step::Spell => 7,
        Step::Molotov => 8,
        Step::RangedAttack => 9,
        Step::MeleeWide => 10,
        Step::Combat => 11,
        Step::Projectile => 12,
        Step::ExplosiveProjectile => 13,
        Step::ApplyDamage => 14,
        Step::Death => 15,
        Step::VictoryCheck => 16,
        Step::Visibility => 17,
        Step::CameraFollow => 18,
        Step::EndPlayerTurn => 19,
        Step::EnergyAccumulate => 20,
        Step::Ai => 21,
        Step::AiRangedAttack => 22,
        Step::Fire => 23,
        Step::EndWorldTurn => 24,
        Step::CursorBlink => 25,
        Step::ParticleTick => 26,
        Step::Draw => 27,
    };
    assert(running_order()[place] == step);
}

/// Every action and every consequence needs a game that is being played, and drawing needs
/// nothing.
pub proof fn sets_are_gated(step: Step)
    ensures
        home(step) == Some(RoguelikeSet::Action) || home(step) == Some(RoguelikeSet::Consequence)
            <==> gate(step) == Gate::Playing,
        home(step) == Some(RoguelikeSet::Index) || home(step) == Some(RoguelikeSet::Render)
            <==> gate(step) == Gate::Always,
        home(step) is None <==> gate(step) == Gate::PlayerTurn || gate(step) == Gate::WorldTurn,
{
}

/// The player's turn is ended in the player's turn. The world gains energy, thinks, shoots,
/// burns and ends its turn in its own. Nothing else changes turns.
pub proof fn turns_end_in_their_own_turn(step: Step)
    ensures
        gate(step) == Gate::PlayerTurn <==> step == Step::EndPlayerTurn,
        gate(step) == Gate::WorldTurn <==> {
            ||| step == Step::EnergyAccumulate
            ||| step == Step::Ai
            ||| step == Step::AiRangedAttack
            ||| step == Step::Fire
            ||| step == Step::EndWorldTurn
        },
        gate(step) == Gate::Always <==> {
            ||| step == Step::SpatialIndex
            ||| step == Step::CursorBlink
            ||| step == Step::ParticleTick
            ||| step == Step::Draw
        },
{
}

/// A step that waits for another one runs when that one does: both have the same gate.
pub proof fn steps_wait_for_steps_of_their_gate(a: Step, b: Step)
    requires
        awaited(b).contains(Earlier::OneStep(a)),
    ensures
        gate(a) == gate(b),
        home(a) == home(b),
{
}

/// The index is rebuilt in the first set, views and the camera follow in the third, and the last
/// one draws. Turns change outside of all sets, and all the rest is action.
pub proof fn steps_are_at_home(step: Step)
    ensures
        home(step) == Some(RoguelikeSet::Index) <==> step == Step::SpatialIndex,
        home(step) == Some(RoguelikeSet::Consequence) <==> step == Step::Visibility || step
            == Step::CameraFollow,
        home(step) == Some(RoguelikeSet::Render) <==> step == Step::CursorBlink || step
            == Step::ParticleTick || step == Step::Draw,
        home(step) is None <==> {
            ||| step == Step::EndPlayerTurn
            ||| step == Step::EnergyAccumulate
            ||| step == Step::Ai
            ||| step == Step::AiRangedAttack
            ||| step == Step::Fire
            ||| step == Step::EndWorldTurn
        },
        set_rank(RoguelikeSet::Index) < set_rank(RoguelikeSet::Action),
        set_rank(RoguelikeSet::Action) < set_rank(RoguelikeSet::Consequence),
        set_rank(RoguelikeSet::Consequence) < set_rank(RoguelikeSet::Render),
{
}

/// `a` is named as a step that `b` waits for.
pub open spec fn is_followed_by(a: Step, b: Step) -> bool {
    match b {
        Step::Pickup => a == Step::Movement,
        Step::AutoPickup => a == Step::Pickup,
        Step::UseItem => a == Step::AutoPickup,
        Step::Throw => a == Step::UseItem,
        Step::Reload => a == Step::Throw,
        Step::Spell => a == Step::Reload,
        Step::Molotov => a == Step::Spell,
        Step::RangedAttack => a == Step::Molotov,
        Step::MeleeWide => a == Step::RangedAttack,
        Step::Combat => a == Step::MeleeWide,
        Step::Projectile => a == Step::Combat,
        Step::ExplosiveProjectile => a == Step::Projectile,
        Step::ApplyDamage => a == Step::ExplosiveProjectile || a == Step::Projectile,
        Step::Death => a == Step::ApplyDamage || a == Step::Projectile,
        Step::VictoryCheck => a == Step::Death || a == Step::Projectile,
        Step::CameraFollow => a == Step::Visibility,
        Step::Ai => a == Step::EnergyAccumulate,
        Step::AiRangedAttack => a == Step::Ai,
        Step::Fire => a == Step::AiRangedAttack,
        Step::EndWorldTurn => a == Step::Fire,
        Step::Draw => a == Step::CursorBlink || a == Step::ParticleTick,
        _ => false,
    }
}

/// Actions follow each other from the movement to the check for victory, the world thinks
/// before it shoots and shoots before it burns, its turn ends last, and turns change behind
/// all consequences. No step waits for more than that.
pub proof fn steps_follow_each_other(a: Step, b: Step, set: RoguelikeSet)
    ensures
        awaited(b).contains(Earlier::OneStep(a)) <==> is_followed_by(a, b),
        awaited(b).contains(Earlier::WholeSet(set)) <==> set == RoguelikeSet::Consequence && {
            ||| b == Step::EndPlayerTurn
            ||| b == Step::EnergyAccumulate
            ||| b == Step::Ai
            ||| b == Step::AiRangedAttack
            ||| b == Step::Fire
        },
{
    lemma_awaited_steps(a, b);
    lemma_awaited_sets(b, set);
}

proof fn lemma_awaited_steps(a: Step, b: Step)
    ensures
        awaited(b).contains(Earlier::OneStep(a)) <==> is_followed_by(a, b),
{
    let list = awaited(b);
    let wanted = Earlier::OneStep(a);
    if is_followed_by(a, b) {
        assert(list[0] == wanted || list[1] == wanted);
    }
}

proof fn lemma_awaited_sets(b: Step, set: RoguelikeSet)
    ensures
        awaited(b).contains(Earlier::WholeSet(set)) <==> set == RoguelikeSet::Consequence && {
            ||| b == Step::EndPlayerTurn
            ||| b == Step::EnergyAccumulate
            ||| b == Step::Ai
            ||| b == Step::AiRangedAttack
            ||| b == Step::Fire
        },
{
    let list = awaited(b);
    let wanted = Earlier::WholeSet(RoguelikeSet::Consequence);
    if b == Step::EndPlayerTurn || b == Step::EnergyAccumulate {
        assert(list[0] == wanted);
    }
    if b == Step::Ai || b == Step::AiRangedAttack || b == Step::Fire {
        assert(list[1] == wanted);
    }
}

/// Everyone enters the world at the start; keys are read and new games begun in every frame,
/// before its steps.
pub proof fn jobs_are_due_in_their_phase(job: Job)
    ensures
        phase(job) == Phase::Startup <==> job == Job::SpawnPlayer || job == Job::SpawnMonsters,
        phase(job) == Phase::PreUpdate <==> job == Job::Input || job == Job::Restart,
        phase(job) == Phase::Update <==> job is Frame,
        phase_rank(Phase::Startup) < phase_rank(Phase::PreUpdate),
        phase_rank(Phase::PreUpdate) < phase_rank(Phase::Update),
        startup_chain().len() == 2,
        startup_chain()[0] == Job::SpawnPlayer,
        startup_chain()[1] == Job::SpawnMonsters,
        early_jobs().len() == 2,
{
}

/// No step is listed twice.
pub proof fn steps_run_once(i: int, j: int)
    requires
        0 <= i < j < running_order().len(),
    ensures
        running_order()[i] != running_order()[j],
{
}

} // verus!

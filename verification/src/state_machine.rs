//! An event-driven game AI written as a coroutine. The computation's locals —
//! health and the item counter — are fields here, and the suspended program
//! counter is an explicit phase tag: the controller
//! first answers one event with a greeting no matter what it was, then reacts
//! to each event by the steady-state table, and after lethal damage it speaks
//! its last line and the following resume completes.

use vstd::prelude::*;
use vstd::string::StringExecFns;

use crate::coroutine::CoroutineState;
use crate::ratio::Ratio;
use crate::text::dec_digits;
use crate::text::push_decimal;

verus! {

/// What the surrounding game reports to the controller.
#[derive(Debug, Clone)]
pub enum GameEvent {
    EnemySpotted { distance: Ratio },
    DamageTaken { amount: i32 },
    ItemFound { item: String },
    AllClear,
    Tick,
}

/// What the controller asks the game to do. Actions come in ordered,
/// non-empty batches, one batch per consumed event.
#[derive(Debug, Clone, PartialEq)]
pub enum AIAction {
    Idle,
    Patrol,
    Attack { target_distance: Ratio },
    Flee,
    PickupItem { item: String },
    Heal,
    Speak(String),
}

/// The ghost shape of an action: the same variants with strings as
/// character sequences, so contracts can pin payloads exactly.
pub enum ActionModel {
    Idle,
    Patrol,
    Attack { target_distance: Ratio },
    Flee,
    PickupItem { item: Seq<char> },
    Heal,
    Speak(Seq<char>),
}

impl AIAction {
    pub open spec fn model(self) -> ActionModel {
        match self {
            AIAction::Idle => ActionModel::Idle,
            AIAction::Patrol => ActionModel::Patrol,
            AIAction::Attack { target_distance } => ActionModel::Attack { target_distance },
            AIAction::Flee => ActionModel::Flee,
            AIAction::PickupItem { item } => ActionModel::PickupItem { item: item@ },
            AIAction::Heal => ActionModel::Heal,
            AIAction::Speak(line) => ActionModel::Speak(line@),
        }
    }
}

pub open spec fn models_of(actions: Seq<AIAction>) -> Seq<ActionModel> {
    actions.map_values(|a: AIAction| a.model())
}

/// The conversational phase: the explicit form of where the coroutine body
/// is suspended.
#[derive(Debug, Clone, Copy, PartialEq, Eq, Structural)]
pub enum AiPhase {
    /// Created, but the greeting has not been spoken yet.
    Starting,
    /// In the steady-state event loop.
    Running,
    /// Lethal damage was announced; the next resume completes.
    Dying,
    /// Completed. Resuming again is a protocol violation.
    Done,
}

/// The ghost state vector of the controller.
pub struct AiState {
    pub phase: AiPhase,
    pub hp: int,
    pub items: nat,
    pub heal_pending: bool,
}

/// Health stays clamped to `[0, 100]`, and a controller that has not spoken
/// yet is at full health with nothing collected and no heal in flight.
pub open spec fn state_wf(s: AiState) -> bool {
    &&& 0 <= s.hp <= 100
    &&& s.phase == AiPhase::Starting ==> s.hp == 100 && s.items == 0 && !s.heal_pending
}

/// What one resume emits: a batch of actions at a suspension point, or the
/// final words on completion.
pub enum AiTurn {
    Yielding(Seq<ActionModel>),
    Ending(Seq<char>),
}

pub open spec fn hello_line() -> Seq<char> {
    "hello moto :)"@
}

pub open spec fn flee_line() -> Seq<char> {
    "woop, c y 👋"@
}

pub open spec fn attack_line() -> Seq<char> {
    "gotcha ⚔️"@
}

pub open spec fn defeated_line() -> Seq<char> {
    "Defeated! 🪦"@
}

pub open spec fn secure_line() -> Seq<char> {
    "Area secure"@
}

pub open spec fn farewell_line() -> Seq<char> {
    "Bye, Bye!"@
}

pub open spec fn ouch_line(hp: int) -> Seq<char> {
    "Ouch! HP: "@ + dec_digits(hp as nat)
}

pub open spec fn found_line(item: Seq<char>, total: nat) -> Seq<char> {
    "Found "@ + item + "! Total items: "@ + dec_digits(total)
}

/// Health after the delayed heal lands: the heal intent yielded on a low
/// `Tick` takes effect only when the controller is resumed the next time,
/// before the new event is examined.
pub open spec fn healed_hp(s: AiState) -> int {
    if s.heal_pending {
        if s.hp + 20 > 100 {
            100
        } else {
            s.hp + 20
        }
    } else {
        s.hp
    }
}

/// The steady-state transition table, applied after any pending heal.
pub open spec fn ai_running_step(s: AiState, event: GameEvent) -> (AiState, AiTurn) {
    let hp = healed_hp(s);
    match event {
        GameEvent::Tick => {
            if hp < 30 {
                (
                    AiState { phase: AiPhase::Running, hp, items: s.items, heal_pending: true },
                    AiTurn::Yielding(seq![ActionModel::Heal]),
                )
            } else {
                (
                    AiState { phase: AiPhase::Running, hp, items: s.items, heal_pending: false },
                    AiTurn::Yielding(seq![ActionModel::Patrol]),
                )
            }
        },
        GameEvent::EnemySpotted { distance } => {
            let next = AiState { phase: AiPhase::Running, hp, items: s.items, heal_pending: false };
            if hp < 30 {
                (next, AiTurn::Yielding(seq![ActionModel::Speak(flee_line()), ActionModel::Flee]))
            } else if distance.spec_lt_int(5) {
                (
                    next,
                    AiTurn::Yielding(
                        seq![
                            ActionModel::Speak(attack_line()),
                            ActionModel::Attack { target_distance: distance },
                        ],
                    ),
                )
            } else {
                (next, AiTurn::Yielding(seq![ActionModel::Patrol]))
            }
        },
        GameEvent::DamageTaken { amount } => {
            let reduced = if hp - amount < 0 {
                0
            } else {
                hp - amount
            };
            if reduced == 0 {
                (
                    AiState { phase: AiPhase::Dying, hp: 0, items: s.items, heal_pending: false },
                    AiTurn::Yielding(seq![ActionModel::Speak(defeated_line())]),
                )
            } else {
                (
                    AiState {
                        phase: AiPhase::Running,
                        hp: reduced,
                        items: s.items,
                        heal_pending: false,
                    },
                    AiTurn::Yielding(seq![ActionModel::Speak(ouch_line(reduced))]),
                )
            }
        },
        GameEvent::ItemFound { item } => {
            (
                AiState {
                    phase: AiPhase::Running,
                    hp,
                    items: s.items + 1,
                    heal_pending: false,
                },
                AiTurn::Yielding(
                    seq![
                        ActionModel::PickupItem { item: item@ },
                        ActionModel::Speak(found_line(item@, s.items + 1)),
                    ],
                ),
            )
        },
        GameEvent::AllClear => {
            (
                AiState { phase: AiPhase::Running, hp, items: s.items, heal_pending: false },
                AiTurn::Yielding(seq![ActionModel::Speak(secure_line()), ActionModel::Idle]),
            )
        },
    }
}

/// One resume of the controller, as a pure function of the state vector and
/// the event: the successor state and what the resume emits.
pub open spec fn ai_step(s: AiState, event: GameEvent) -> (AiState, AiTurn) {
    match s.phase {
        AiPhase::Starting => {
            (
                AiState { phase: AiPhase::Running, hp: s.hp, items: s.items, heal_pending: false },
                AiTurn::Yielding(seq![ActionModel::Speak(hello_line())]),
            )
        },
        AiPhase::Running => ai_running_step(s, event),
        AiPhase::Dying => {
            (
                AiState { phase: AiPhase::Done, hp: s.hp, items: s.items, heal_pending: false },
                AiTurn::Ending(farewell_line()),
            )
        },
        AiPhase::Done => (s, AiTurn::Ending(farewell_line())),
    }
}

/// The events this controller is prepared to consume: a well-formed distance
/// ratio, and a damage amount that is not negative (the game never reports
/// negative damage; accepting it would push health past every clamp).
pub open spec fn event_wf(event: GameEvent) -> bool {
    match event {
        GameEvent::EnemySpotted { distance } => distance.wf(),
        GameEvent::DamageTaken { amount } => amount >= 0,
        _ => true,
    }
}

/// How an exec resume result realises a ghost turn.
pub open spec fn turn_matches(r: CoroutineState<Vec<AIAction>, String>, t: AiTurn) -> bool {
    match r {
        CoroutineState::Yielded(actions) => t == AiTurn::Yielding(models_of(actions@)),
        CoroutineState::Completed(words) => t == AiTurn::Ending(words@),
    }
}

/// The game AI, suspended between resumes.
pub struct AiControllerCoroutine {
    phase: AiPhase,
    hp: i32,
    items_collected: u64,
    heal_pending: bool,
}

impl AiControllerCoroutine {
    /// The ghost state vector this concrete state realises.
    pub closed spec fn model(self) -> AiState {
        AiState {
            phase: self.phase,
            hp: self.hp as int,
            items: self.items_collected as nat,
            heal_pending: self.heal_pending,
        }
    }

    pub open spec fn wf(self) -> bool {
        state_wf(self.model())
    }

    /// Deliver one event. The first resume greets regardless of the event;
    /// afterwards the batch of actions and the successor state follow
    /// [`ai_step`] exactly; the resume after the defeated line completes with
    /// the farewell. Resuming a completed controller is a protocol violation
    /// and is ruled out statically.
    pub fn resume(&mut self, event: GameEvent) -> (r: CoroutineState<Vec<AIAction>, String>)
        requires
            old(self).wf(),
            old(self).model().phase != AiPhase::Done,
            event_wf(event),
            event matches GameEvent::ItemFound { .. } ==> old(self).model().items < u64::MAX,
        ensures
            final(self).wf(),
            final(self).model() == ai_step(old(self).model(), event).0,
            turn_matches(r, ai_step(old(self).model(), event).1),
    {
        match self.phase {
            AiPhase::Starting => {
                self.phase = AiPhase::Running;
                self.heal_pending = false;
                let mut actions: Vec<AIAction> = Vec::new();
                actions.push(AIAction::Speak(String::from_str("hello moto :)")));
                proof {
                    assert(models_of(actions@) =~= seq![ActionModel::Speak(hello_line())]);
                }
                CoroutineState::Yielded(actions)
            },
            AiPhase::Dying => {
                self.phase = AiPhase::Done;
                self.heal_pending = false;
                CoroutineState::Completed(String::from_str("Bye, Bye!"))
            },
            AiPhase::Done => {
                // Unreachable: the precondition refuses a completed controller.
                CoroutineState::Completed(String::from_str("Bye, Bye!"))
            },
            AiPhase::Running => {
                if self.heal_pending {
                    self.heal_pending = false;
                    let boosted = self.hp + 20;
                    self.hp = if boosted > 100 {
                        100
                    } else {
                        boosted
                    };
                }
                match event {
                    GameEvent::Tick => {
                        let mut actions: Vec<AIAction> = Vec::new();
                        if self.hp < 30 {
                            self.heal_pending = true;
                            actions.push(AIAction::Heal);
                            proof {
                                assert(models_of(actions@) =~= seq![ActionModel::Heal]);
                            }
                        } else {
                            actions.push(AIAction::Patrol);
                            proof {
                                assert(models_of(actions@) =~= seq![ActionModel::Patrol]);
                            }
                        }
                        CoroutineState::Yielded(actions)
                    },
                    GameEvent::EnemySpotted { distance } => {
                        let mut actions: Vec<AIAction> = Vec::new();
                        if self.hp < 30 {
                            actions.push(AIAction::Speak(String::from_str("woop, c y 👋")));
                            actions.push(AIAction::Flee);
                            proof {
                                assert(models_of(actions@) =~= seq![
                                    ActionModel::Speak(flee_line()),
                                    ActionModel::Flee,
                                ]);
                            }
                        } else if distance.lt_int(5) {
                            actions.push(AIAction::Speak(String::from_str("gotcha ⚔️")));
                            actions.push(AIAction::Attack { target_distance: distance });
                            proof {
                                assert(models_of(actions@) =~= seq![
                                    ActionModel::Speak(attack_line()),
                                    ActionModel::Attack { target_distance: distance },
                                ]);
                            }
                        } else {
                            actions.push(AIAction::Patrol);
                            proof {
                                assert(models_of(actions@) =~= seq![ActionModel::Patrol]);
                            }
                        }
                        CoroutineState::Yielded(actions)
                    },
                    GameEvent::DamageTaken { amount } => {
                        let reduced = self.hp - amount;
                        self.hp = if reduced < 0 {
                            0
                        } else {
                            reduced
                        };
                        let mut actions: Vec<AIAction> = Vec::new();
                        if self.hp == 0 {
                            self.phase = AiPhase::Dying;
                            actions.push(
                                AIAction::Speak(String::from_str("Defeated! 🪦")),
                            );
                            proof {
                                assert(models_of(actions@) =~= seq![
                                    ActionModel::Speak(defeated_line()),
                                ]);
                            }
                        } else {
                            let mut line = String::from_str("Ouch! HP: ");
                            push_decimal(&mut line, self.hp as u64);
                            actions.push(AIAction::Speak(line));
                            proof {
                                assert(models_of(actions@) =~= seq![
                                    ActionModel::Speak(ouch_line(self.hp as int)),
                                ]);
                            }
                        }
                        CoroutineState::Yielded(actions)
                    },
                    GameEvent::ItemFound { item } => {
                        let ghost item_view = item@;
                        self.items_collected = self.items_collected + 1;
                        let mut line = String::from_str("Found ");
                        line.append(item.as_str());
                        line.append("! Total items: ");
                        push_decimal(&mut line, self.items_collected);
                        let mut actions: Vec<AIAction> = Vec::new();
                        actions.push(AIAction::PickupItem { item });
                        actions.push(AIAction::Speak(line));
                        proof {
                            assert(models_of(actions@) =~= seq![
                                ActionModel::PickupItem { item: item_view },
                                ActionModel::Speak(
                                    found_line(item_view, old(self).model().items + 1),
                                ),
                            ]);
                        }
                        CoroutineState::Yielded(actions)
                    },
                    GameEvent::AllClear => {
                        let mut actions: Vec<AIAction> = Vec::new();
                        actions.push(AIAction::Speak(String::from_str("Area secure")));
                        actions.push(AIAction::Idle);
                        proof {
                            assert(models_of(actions@) =~= seq![
                                ActionModel::Speak(secure_line()),
                                ActionModel::Idle,
                            ]);
                        }
                        CoroutineState::Yielded(actions)
                    },
                }
            },
        }
    }
}

/// The state after delivering `events` in order, one resume each.
pub open spec fn ai_run(s: AiState, events: Seq<GameEvent>) -> AiState
    decreases events.len(),
{
    if events.len() == 0 {
        s
    } else {
        ai_step(ai_run(s, events.drop_last()), events.last()).0
    }
}

/// Whether delivering `event` in state `s` zeroes the controller's health.
pub open spec fn step_is_lethal(s: AiState, event: GameEvent) -> bool {
    &&& s.phase == AiPhase::Running
    &&& event matches GameEvent::DamageTaken { amount } && healed_hp(s) - amount <= 0
}

/// The first resume after creation emits exactly the greeting, no matter
/// which event was delivered.
pub proof fn lemma_greeting_regardless_of_event(s: AiState, event: GameEvent)
    requires
        s.phase == AiPhase::Starting,
    ensures
        ai_step(s, event).1 == AiTurn::Yielding(seq![ActionModel::Speak(hello_line())]),
{
}

/// Across any event sequence in which no delivered damage zeroes health, the
/// controller never leaves the greeting/steady phases: every resume along the
/// way yields a batch, and none completes.
pub proof fn lemma_no_lethal_damage_no_completion(s: AiState, events: Seq<GameEvent>)
    requires
        s.phase == AiPhase::Starting || s.phase == AiPhase::Running,
        forall|i: int|
            0 <= i < events.len() ==> !step_is_lethal(
                #[trigger] ai_run(s, events.take(i)),
                events[i],
            ),
    ensures
        ai_run(s, events).phase == AiPhase::Starting || ai_run(s, events).phase
            == AiPhase::Running,
        forall|i: int|
            0 <= i < events.len() ==> (#[trigger] ai_step(
                ai_run(s, events.take(i)),
                events[i],
            )).1 matches AiTurn::Yielding(_),
    decreases events.len(),
{
    if events.len() > 0 {
        let prefix = events.drop_last();
        assert forall|i: int| 0 <= i < prefix.len() implies !step_is_lethal(
            #[trigger] ai_run(s, prefix.take(i)),
            prefix[i],
        ) by {
            assert(prefix.take(i) =~= events.take(i));
        }
        lemma_no_lethal_damage_no_completion(s, prefix);
        let settled = ai_run(s, prefix);
        assert(events.take(events.len() - 1) =~= prefix);
        assert(!step_is_lethal(settled, events.last()));
        assert forall|i: int| 0 <= i < events.len() implies (#[trigger] ai_step(
            ai_run(s, events.take(i)),
            events[i],
        )).1 matches AiTurn::Yielding(_) by {
            if i < events.len() - 1 {
                assert(events.take(i) =~= prefix.take(i));
            } else {
                assert(events.take(i) =~= prefix);
            }
        }
    }
}

/// How many of the delivered events reported a found item.
pub open spec fn count_items_found(events: Seq<GameEvent>) -> nat
    decreases events.len(),
{
    if events.len() == 0 {
        0
    } else {
        count_items_found(events.drop_last()) + (if events.last() matches GameEvent::ItemFound {
            ..
        } {
            1nat
        } else {
            0nat
        })
    }
}

/// In the steady state, as long as no delivered damage is lethal, the item
/// counter equals the number of `ItemFound` events delivered so far. (Each
/// such resume also speaks the new count: see the `ItemFound` row of
/// [`ai_running_step`].)
pub proof fn lemma_items_collected_counts_events(s: AiState, events: Seq<GameEvent>)
    requires
        s.phase == AiPhase::Running,
        forall|i: int|
            0 <= i < events.len() ==> !step_is_lethal(
                #[trigger] ai_run(s, events.take(i)),
                events[i],
            ),
    ensures
        ai_run(s, events).phase == AiPhase::Running,
        ai_run(s, events).items == s.items + count_items_found(events),
    decreases events.len(),
{
    if events.len() > 0 {
        let prefix = events.drop_last();
        assert forall|i: int| 0 <= i < prefix.len() implies !step_is_lethal(
            #[trigger] ai_run(s, prefix.take(i)),
            prefix[i],
        ) by {
            assert(prefix.take(i) =~= events.take(i));
        }
        lemma_items_collected_counts_events(s, prefix);
        assert(events.take(events.len() - 1) =~= prefix);
        assert(!step_is_lethal(ai_run(s, prefix), events.last()));
    }
}

/// A fresh controller: full health, nothing collected, greeting still owed.
pub fn ai_controller_coroutine() -> (r: AiControllerCoroutine)
    ensures
        r.wf(),
        r.model() == (AiState {
            phase: AiPhase::Starting,
            hp: 100,
            items: 0,
            heal_pending: false,
        }),
{
    AiControllerCoroutine { phase: AiPhase::Starting, hp: 100, items_collected: 0, heal_pending: false }
}

} // verus!

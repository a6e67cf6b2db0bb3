use coroutines::ai_controller_coroutine;
use coroutines::AIAction;
use coroutines::CoroutineState;
use coroutines::GameEvent;
use coroutines::Ratio;

fn expect_yield(r: CoroutineState<Vec<AIAction>, String>) -> Vec<AIAction> {
    match r {
        CoroutineState::Yielded(actions) => actions,
        CoroutineState::Completed(result) => panic!("completed early: {result}"),
    }
}

fn speak(line: &str) -> AIAction {
    AIAction::Speak(line.to_string())
}

#[test]
fn state_machine_demo() {
    let events = vec![
        GameEvent::Tick,
        GameEvent::Tick,
        GameEvent::EnemySpotted { distance: Ratio::new(10, 1) },
        GameEvent::Tick,
        GameEvent::EnemySpotted { distance: Ratio::new(3, 1) },
        GameEvent::DamageTaken { amount: 40 },
        GameEvent::ItemFound { item: "Health Potion".to_string() },
        GameEvent::DamageTaken { amount: 35 },
        GameEvent::EnemySpotted { distance: Ratio::new(2, 1) },
        GameEvent::AllClear,
        GameEvent::DamageTaken { amount: 50 },
    ];

    let expected: Vec<Vec<AIAction>> = vec![
        vec![speak("hello moto :)")],
        vec![AIAction::Patrol],
        vec![AIAction::Patrol],
        vec![AIAction::Patrol],
        vec![speak("gotcha ⚔️"), AIAction::Attack { target_distance: Ratio::new(3, 1) }],
        vec![speak("Ouch! HP: 60")],
        vec![
            AIAction::PickupItem { item: "Health Potion".to_string() },
            speak("Found Health Potion! Total items: 1"),
        ],
        vec![speak("Ouch! HP: 25")],
        vec![speak("woop, c y 👋"), AIAction::Flee],
        vec![speak("Area secure"), AIAction::Idle],
        vec![speak("Defeated! 🪦")],
    ];

    let mut ai = ai_controller_coroutine();
    let mut event_iter = events.into_iter();
    let mut expected_iter = expected.into_iter();
    let mut current_event = event_iter.next().unwrap();

    loop {
        match ai.resume(current_event.clone()) {
            CoroutineState::Yielded(action) => {
                println!("Event: {:?}", current_event);
                println!("-> Action: {:?}\n", action);
                assert_eq!(action, expected_iter.next().unwrap());

                current_event = match event_iter.next() {
                    Some(e) => e,
                    None => {
                        println!("[No more events]");
                        break;
                    }
                };
            }
            CoroutineState::Completed(result) => {
                println!("[AI sim ended: {}]", result);
                break;
            }
        }
    }
    assert!(expected_iter.next().is_none());
}

#[test]
fn ai_happy_path() {
    let mut ai = ai_controller_coroutine();
    expect_yield(ai.resume(GameEvent::Tick));
    let actions = expect_yield(ai.resume(GameEvent::Tick));
    assert_eq!(actions, vec![AIAction::Patrol]);
}

#[test]
fn ai_damage_below_threshold() {
    let mut ai = ai_controller_coroutine();
    expect_yield(ai.resume(GameEvent::Tick));

    let after_damage = expect_yield(ai.resume(GameEvent::DamageTaken { amount: 75 }));
    assert_eq!(after_damage, vec![speak("Ouch! HP: 25")]);

    let low_tick = expect_yield(ai.resume(GameEvent::Tick));
    assert_eq!(low_tick, vec![AIAction::Heal]);

    // The heal lands only when the next resume arrives, so by this tick the
    // controller is back at 45 health and patrols.
    let healed_tick = expect_yield(ai.resume(GameEvent::Tick));
    assert_eq!(healed_tick, vec![AIAction::Patrol]);
}

#[test]
fn ai_item_collection() {
    let mut ai = ai_controller_coroutine();
    expect_yield(ai.resume(GameEvent::Tick));

    let first = expect_yield(ai.resume(GameEvent::ItemFound { item: "Sword".to_string() }));
    assert_eq!(
        first,
        vec![
            AIAction::PickupItem { item: "Sword".to_string() },
            speak("Found Sword! Total items: 1"),
        ]
    );

    let second = expect_yield(ai.resume(GameEvent::ItemFound { item: "Shield".to_string() }));
    assert_eq!(
        second,
        vec![
            AIAction::PickupItem { item: "Shield".to_string() },
            speak("Found Shield! Total items: 2"),
        ]
    );
}

#[test]
fn ai_lethal_damage() {
    let mut ai = ai_controller_coroutine();
    expect_yield(ai.resume(GameEvent::Tick));

    let last_words = expect_yield(ai.resume(GameEvent::DamageTaken { amount: 100 }));
    assert_eq!(last_words, vec![speak("Defeated! 🪦")]);

    match ai.resume(GameEvent::Tick) {
        CoroutineState::Yielded(_) => panic!("the controller should have completed"),
        CoroutineState::Completed(result) => assert_eq!(result, "Bye, Bye!"),
    }
}

#[test]
fn ai_greets_no_matter_what_arrives_first() {
    let mut ai = ai_controller_coroutine();
    let greeting = expect_yield(ai.resume(GameEvent::ItemFound { item: "Sword".to_string() }));
    assert_eq!(greeting, vec![speak("hello moto :)")]);

    // The swallowed first event did not count as a collected item.
    let first = expect_yield(ai.resume(GameEvent::ItemFound { item: "Sword".to_string() }));
    assert_eq!(
        first,
        vec![
            AIAction::PickupItem { item: "Sword".to_string() },
            speak("Found Sword! Total items: 1"),
        ]
    );
}

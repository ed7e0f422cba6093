use flipper::{AccountId, Env, Flipped, Flipper, IFlipper};

fn account(w: u64) -> AccountId {
    AccountId::from_u64(w)
}

#[test]
fn construction_emits_exactly_one_event() {
    let deployer = account(1);
    let mut env = Env::new(deployer);
    let _flipper = Flipper::new(&mut env, true);
    assert_eq!(env.events().len(), 1);
    assert_eq!(
        env.events()[0],
        Flipped {
            caller: deployer,
            value: true,
        }
    );
}

#[test]
fn default_constructor_emits_false_event() {
    let deployer = account(3);
    let mut env = Env::new(deployer);
    let _flipper = Flipper::default_constructor(&mut env);
    assert_eq!(env.events().len(), 1);
    assert_eq!(
        env.events()[0],
        Flipped {
            caller: deployer,
            value: false,
        }
    );
}

#[test]
fn no_event_after_pause_or_set_balance() {
    let mut env = Env::new(account(1));
    let mut flipper = Flipper::new(&mut env, false);
    flipper.pause().unwrap();
    flipper.set_balance(&env, 42).unwrap();
    flipper.pause().unwrap();
    assert_eq!(env.events().len(), 1);
}

#[test]
fn end_to_end_deploy_toggle_write() {
    let deployer = account(1);
    let mut env = Env::new(deployer);
    let mut flipper = Flipper::new(&mut env, false);
    assert_eq!(env.events().len(), 1);
    assert_eq!(
        env.events()[0],
        Flipped {
            caller: deployer,
            value: false,
        }
    );
    assert_eq!(flipper.is_paused(), false);

    let caller_x = account(2);
    env.set_caller(caller_x);
    flipper.pause().unwrap();
    assert_eq!(flipper.is_paused(), true);

    flipper.set_balance(&env, 12).unwrap();
    assert_eq!(flipper.get_balance(caller_x), Some(12));
    assert_eq!(flipper.get_balance(deployer), None);
    assert_eq!(env.events().len(), 1);
}

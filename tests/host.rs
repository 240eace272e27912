use ink_model::api::{self, ContractEnv, Key};
use ink_model::exec_env::{EnvHandler, ExecutionEnv};

fn host() -> ContractEnv {
    ContractEnv {
        address: [1u8; 32],
        balance: 500,
        caller: [2u8; 32],
        input: vec![9, 8, 7],
        random_seed: [3u8; 32],
        now: 1_000,
        gas_price: 4,
        gas_left: 90_000,
        value_transferred: 25,
        printed: Vec::new(),
        events: Vec::new(),
        returned: None,
        storage: Vec::new(),
    }
}

#[test]
fn free_functions_read_the_host() {
    let h = host();
    assert_eq!(api::address(&h), [1u8; 32]);
    assert_eq!(api::balance(&h), 500);
    assert_eq!(api::caller(&h), [2u8; 32]);
    assert_eq!(api::input(&h), vec![9, 8, 7]);
    assert_eq!(api::random_seed(&h), [3u8; 32]);
    assert_eq!(api::now(&h), 1_000);
    assert_eq!(api::gas_price(&h), 4);
    assert_eq!(api::gas_left(&h), 90_000);
    assert_eq!(api::value_transferred(&h), 25);
}

#[test]
fn println_appends_a_line() {
    let mut h = host();
    api::println(&mut h, "hello");
    api::println(&mut h, "world");
    assert_eq!(h.printed, vec!["hello".to_string(), "world".to_string()]);
    assert!(h.events.is_empty());
}

#[test]
fn deposit_raw_event_appends_an_event() {
    let mut h = host();
    api::deposit_raw_event(&mut h, &[[5u8; 32], [6u8; 32]], &[1, 2]);
    assert_eq!(h.events.len(), 1);
    assert_eq!(h.events[0].topics, vec![[5u8; 32], [6u8; 32]]);
    assert_eq!(h.events[0].data, vec![1, 2]);
    assert!(h.printed.is_empty());
}

#[test]
fn return_value_records_the_payload() {
    let mut h = host();
    api::return_value(&mut h, &0x0102_0304u32);
    assert_eq!(h.returned, Some(vec![4, 3, 2, 1]));
    api::return_value(&mut h, &0x0102_0304_0506_0708u64);
    assert_eq!(h.returned, Some(vec![8, 7, 6, 5, 4, 3, 2, 1]));
    api::return_value(&mut h, &());
    assert_eq!(h.returned, Some(vec![]));
}

#[test]
fn env_handler_forwards() {
    let mut handler = EnvHandler::new(host());
    assert_eq!(handler.address(), [1u8; 32]);
    assert_eq!(handler.balance(), 500);
    assert_eq!(handler.caller(), [2u8; 32]);
    assert_eq!(handler.random_seed(), [3u8; 32]);
    assert_eq!(handler.now(), 1_000);
    handler.println("line");
    handler.deposit_raw_event(&[[7u8; 32]], &[3]);
    handler.return_value(&1u32);
    let h = handler.into_env();
    assert_eq!(h.printed, vec!["line".to_string()]);
    assert_eq!(h.events[0].topics, vec![[7u8; 32]]);
    assert_eq!(h.returned, Some(vec![1, 0, 0, 0]));
}

#[test]
fn split_gives_both_halves() {
    let ctx = ExecutionEnv::new(host(), 41u32);
    let (handler, state) = ctx.split();
    assert_eq!(handler.balance(), 500);
    assert_eq!(*state, 41);
    assert_eq!(ctx.env().now(), 1_000);
}

#[test]
fn split_mut_changes_both_halves() {
    let mut ctx = ExecutionEnv::new(host(), 41u32);
    {
        let (handler, state) = ctx.split_mut();
        *state += 1;
        handler.println("bumped");
    }
    let (h, state) = ctx.into_parts();
    assert_eq!(state, 42);
    assert_eq!(h.printed, vec!["bumped".to_string()]);
}

#[test]
fn store_then_load() {
    let mut h = host();
    assert_eq!(api::load(&h, Key([1u8; 32])), None);
    api::store(&mut h, Key([1u8; 32]), &[10, 20]);
    api::store(&mut h, Key([2u8; 32]), &[30]);
    assert_eq!(api::load(&h, Key([1u8; 32])), Some(vec![10, 20]));
    assert_eq!(api::load(&h, Key([2u8; 32])), Some(vec![30]));
    api::store(&mut h, Key([1u8; 32]), &[]);
    assert_eq!(api::load(&h, Key([1u8; 32])), Some(vec![]));
    assert_eq!(h.storage.len(), 2);
}

#[test]
fn clear_removes_one_key() {
    let mut h = host();
    let mut k = [0u8; 32];
    k[31] = 1;
    api::store(&mut h, Key(k), &[1]);
    api::store(&mut h, Key([0u8; 32]), &[2]);
    api::clear(&mut h, Key(k));
    assert_eq!(api::load(&h, Key(k)), None);
    assert_eq!(api::load(&h, Key([0u8; 32])), Some(vec![2]));
    api::clear(&mut h, Key(k));
    assert_eq!(h.storage.len(), 1);
}

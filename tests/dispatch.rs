use either::Either;
use ink_model::call_data::{CallData, MessageHandlerSelector};
use ink_model::api::ContractEnv;
use ink_model::exec_env::ExecutionEnv;
use ink_model::msg_handler::{
    Error, HandleCall, MessageHandler, MessageHandlerMut, UnreachableMessageHandler,
};

fn context(state: u32) -> ExecutionEnv<u32> {
    let host = ContractEnv {
        address: [0u8; 32],
        balance: 0,
        caller: [0u8; 32],
        input: Vec::new(),
        random_seed: [0u8; 32],
        now: 0,
        gas_price: 0,
        gas_left: 0,
        value_transferred: 0,
        printed: Vec::new(),
        events: Vec::new(),
        returned: None,
        storage: Vec::new(),
    };
    ExecutionEnv::new(host, state)
}

fn get(e: &ExecutionEnv<u32>, _: ()) -> u32 {
    e.state
}

fn inc(mut e: ExecutionEnv<u32>, by: u32) -> (ExecutionEnv<u32>, u32) {
    e.state = e.state.wrapping_add(by);
    let v = e.state;
    (e, v)
}

#[test]
fn routes_to_the_second_handler() {
    let chain = (
        MessageHandler::<(), u32, u32, _>::from_raw(MessageHandlerSelector(1), get),
        (
            MessageHandlerMut::<u32, u32, u32, _>::from_raw(MessageHandlerSelector(2), inc),
            UnreachableMessageHandler,
        ),
    );
    let (ctx, r) = chain.handle_call(context(10), CallData(vec![2, 0, 0, 0, 5, 0, 0, 0]));
    assert!(matches!(r, Ok(Either::Right(Either::Left(15)))));
    assert_eq!(ctx.state, 15);

    let (ctx, r) = chain.handle_call(ctx, CallData(vec![1, 0, 0, 0]));
    assert!(matches!(r, Ok(Either::Left(15))));
    assert_eq!(ctx.state, 15);
}

#[test]
fn unknown_selector_is_rejected() {
    let chain = (
        MessageHandler::<(), u32, u32, _>::from_raw(MessageHandlerSelector(1), get),
        (
            MessageHandlerMut::<u32, u32, u32, _>::from_raw(MessageHandlerSelector(2), inc),
            UnreachableMessageHandler,
        ),
    );
    let (ctx, r) = chain.handle_call(context(10), CallData(vec![99, 0, 0, 0, 5, 0, 0, 0]));
    assert!(matches!(r, Err(Error::InvalidFunctionSelector)));
    assert_eq!(ctx.state, 10);
}

#[test]
fn undecodable_params_are_rejected() {
    let chain = (
        MessageHandlerMut::<u32, u32, u32, _>::from_raw(MessageHandlerSelector(7), inc),
        UnreachableMessageHandler,
    );
    let (ctx, r) = chain.handle_call(context(3), CallData(vec![7, 0, 0, 0]));
    assert!(matches!(r, Err(Error::InvalidArguments)));
    assert_eq!(ctx.state, 3);
    let (ctx, r) = chain.handle_call(ctx, CallData(vec![7, 0, 0, 0, 1, 2, 3]));
    assert!(matches!(r, Err(Error::InvalidArguments)));
    assert_eq!(ctx.state, 3);
}

#[test]
fn short_call_data_is_an_unknown_selector() {
    let chain = (
        MessageHandler::<(), u32, u32, _>::from_raw(MessageHandlerSelector(0), get),
        UnreachableMessageHandler,
    );
    let (_, r) = chain.handle_call(context(1), CallData(vec![0, 0]));
    assert!(matches!(r, Err(Error::InvalidFunctionSelector)));
}

#[test]
fn sentinel_rejects_everything() {
    let (ctx, r) = HandleCall::<u32>::handle_call(
        &UnreachableMessageHandler,
        context(4),
        CallData(vec![0, 0, 0, 0]),
    );
    assert!(matches!(r, Err(Error::InvalidFunctionSelector)));
    assert_eq!(ctx.state, 4);
}

#[test]
fn first_match_wins_on_colliding_selectors() {
    let chain = (
        MessageHandler::<(), u32, u32, _>::from_raw(MessageHandlerSelector(3), |_: &ExecutionEnv<u32>, _: ()| 100u32),
        (
            MessageHandler::<(), u32, u32, _>::from_raw(MessageHandlerSelector(3), |_: &ExecutionEnv<u32>, _: ()| 200u32),
            UnreachableMessageHandler,
        ),
    );
    let (_, r) = chain.handle_call(context(0), CallData(vec![3, 0, 0, 0]));
    assert!(matches!(r, Ok(Either::Left(100))));
}

#[test]
fn only_the_matched_handler_runs() {
    let chain = (
        MessageHandlerMut::<u32, u32, u32, _>::from_raw(MessageHandlerSelector(1), inc),
        (
            MessageHandlerMut::<u32, u32, u32, _>::from_raw(
                MessageHandlerSelector(2),
                |mut e: ExecutionEnv<u32>, x: u32| {
                    e.state = x;
                    (e, x)
                },
            ),
            UnreachableMessageHandler,
        ),
    );
    let (ctx, r) = chain.handle_call(context(50), CallData(vec![1, 0, 0, 0, 2, 0, 0, 0]));
    assert!(matches!(r, Ok(Either::Left(52))));
    assert_eq!(ctx.state, 52);
    let (ctx, r) = chain.handle_call(ctx, CallData(vec![2, 0, 0, 0, 9, 0, 0, 0]));
    assert!(matches!(r, Ok(Either::Right(Either::Left(9)))));
    assert_eq!(ctx.state, 9);
}

#[test]
fn u64_argument_is_little_endian() {
    let handler = MessageHandler::<u64, u64, u32, _>::from_raw(
        MessageHandlerSelector(4),
        |_: &ExecutionEnv<u32>, x: u64| x,
    );
    let (_, r) = handler.handle_call(context(0), CallData(vec![4, 0, 0, 0, 1, 2, 3, 4, 5, 6, 7, 8, 0xEE]));
    assert_eq!(r.ok(), Some(0x0807_0605_0403_0201));
    let (_, r) = handler.handle_call(context(0), CallData(vec![4, 0, 0, 0, 1, 2, 3, 4, 5, 6, 7]));
    assert!(matches!(r, Err(Error::InvalidArguments)));
}

#[test]
fn lone_handler_ignores_the_selector() {
    let handler = MessageHandlerMut::<u32, u32, u32, _>::from_raw(MessageHandlerSelector(1), inc);
    assert_eq!(handler.selector().0, 1);
    let (ctx, r) = handler.handle_call(context(1), CallData(vec![9, 9, 9, 9, 0x10, 0, 0, 0]));
    assert_eq!(r.ok(), Some(17));
    assert_eq!(ctx.state, 17);
}

#[test]
fn read_only_handler_keeps_the_context() {
    let handler = MessageHandler::<u32, u32, u32, _>::from_raw(
        MessageHandlerSelector(5),
        |e: &ExecutionEnv<u32>, x: u32| e.state * x,
    );
    assert_eq!(handler.selector().0, 5);
    let (ctx, r) = handler.handle_call(context(6), CallData(vec![5, 0, 0, 0, 7, 0, 0, 0]));
    assert_eq!(r.ok(), Some(42));
    assert_eq!(ctx.state, 6);
}

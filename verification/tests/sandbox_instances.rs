use parity_scale_codec::Encode;
use sandbox_host::context::{
    decode_arguments, Execution, HostContext, InstanceNewStep, Instantiation, Invocation,
    TableLookup,
};
use sandbox_host::error::HostError;
use sandbox_host::state::HostState;
use sandbox_host::status::{ERR_EXECUTION, ERR_MODULE, ERR_OK};
use sandbox_host::store::StoreError;
use sandbox_host::value::Value;
use sc_allocator::FreeingBumpHeapAllocator;

type State = HostState<&'static str, u32>;

fn state() -> State {
    HostState::new(FreeingBumpHeapAllocator::new(0))
}

fn create(state: &mut State, name: &'static str, thunk: u32) -> u32 {
    let mut outer = vec![0u8; 8];
    let mut context = HostContext::new(&mut outer, state);
    match context.begin_instance_new(TableLookup::Function(thunk), Some(())) {
        Ok(InstanceNewStep::Instantiate { store, dispatch_thunk, guest_env: () }) => {
            context.finish_instance_new(store, dispatch_thunk, Instantiation::Instantiated(name))
        },
        _ => panic!("the engine was to instantiate"),
    }
}

fn begin<'c>(
    context: &'c HostContext<'_, &'static str, u32>,
    instance_id: u32,
    args: &[u8],
) -> Result<Invocation<'c, &'static str, u32>, HostError> {
    decode_arguments(args).and_then(|args| context.invocation(instance_id, args))
}

fn no_args() -> Vec<u8> {
    Vec::<sp_wasm_interface::Value>::new().encode()
}

#[test]
fn instance_new_registers_the_instance_with_its_thunk() {
    let mut state = state();
    assert_eq!(create(&mut state, "first", 17), 0);
    assert_eq!(create(&mut state, "second", 18), 1);
    let store = state.sandbox_store();
    assert_eq!(store.instance(0).ok(), Some(&"first"));
    assert_eq!(store.dispatch_thunk(0).ok(), Some(&17));
    assert_eq!(store.instance(1).ok(), Some(&"second"));
    assert_eq!(store.dispatch_thunk(1).ok(), Some(&18));
}

#[test]
fn instance_new_takes_the_store_out_while_the_engine_works() {
    let mut state = state();
    let mut outer = vec![0u8; 8];
    let mut context = HostContext::new(&mut outer, &mut state);
    assert_eq!(context.memory_new(1, 1), Ok(0));
    let step = context.begin_instance_new(TableLookup::Function(17), Some("environment"));
    let (store, dispatch_thunk) = match step {
        Ok(InstanceNewStep::Instantiate { store, dispatch_thunk, guest_env }) => {
            assert_eq!(guest_env, "environment");
            (store, dispatch_thunk)
        },
        _ => panic!("the engine was to instantiate"),
    };
    assert_eq!(dispatch_thunk, 17);
    assert!(!context.host_state.has_sandbox_store());
    assert!(store.memory(0).is_ok());
    let outcome = Instantiation::Instantiated("first");
    let code = context.finish_instance_new(store, dispatch_thunk, outcome);
    assert_eq!(code, 0);
    assert!(context.host_state.has_sandbox_store());
    assert!(context.sandbox_store().memory(0).is_ok());
    assert_eq!(context.instance(0).ok(), Some(&"first"));
}

#[test]
fn instance_new_without_a_table_is_an_error() {
    let mut state = state();
    let mut outer = vec![0u8; 8];
    let mut context = HostContext::new(&mut outer, &mut state);
    let step = context.begin_instance_new(TableLookup::NoTable, Some(()));
    assert_eq!(step.err(), Some(HostError::NoTable));
    assert!(context.host_state.has_sandbox_store());
}

#[test]
fn instance_new_with_thunk_index_out_of_bounds_is_an_error() {
    let mut state = state();
    let mut outer = vec![0u8; 8];
    let mut context = HostContext::new(&mut outer, &mut state);
    let step = context.begin_instance_new(TableLookup::OutOfBounds, Some(()));
    assert_eq!(step.err(), Some(HostError::DispatchThunkOutOfBounds));
    assert!(context.host_state.has_sandbox_store());
}

#[test]
fn instance_new_with_non_function_thunk_registers_nothing() {
    let mut state = state();
    let mut outer = vec![0u8; 8];
    let mut context = HostContext::new(&mut outer, &mut state);
    let step = context.begin_instance_new(TableLookup::NotFunction, Some(()));
    assert_eq!(step.err(), Some(HostError::DispatchThunkNotFunction));
    assert!(context.host_state.has_sandbox_store());
    assert_eq!(context.instance(0).err(), Some(HostError::Store(StoreError::NoSuchInstance)));
}

#[test]
fn thunk_errors_come_before_the_environment() {
    let mut state = state();
    let mut outer = vec![0u8; 8];
    let mut context = HostContext::new(&mut outer, &mut state);
    let step = context.begin_instance_new(TableLookup::NotFunction, None::<()>);
    assert_eq!(step.err(), Some(HostError::DispatchThunkNotFunction));
}

#[test]
fn instance_new_with_undecodable_environment_is_a_module_error() {
    let mut state = state();
    let mut outer = vec![0u8; 8];
    let mut context = HostContext::new(&mut outer, &mut state);
    match context.begin_instance_new(TableLookup::Function(17), None::<()>) {
        Ok(InstanceNewStep::Refused(code)) => {
            assert_eq!(code, ERR_MODULE);
            assert_eq!(code, 0xFFFF_FFFF);
        },
        _ => panic!("the guest was to get a status code"),
    }
    assert!(context.host_state.has_sandbox_store());
    assert_eq!(context.instance(0).err(), Some(HostError::Store(StoreError::NoSuchInstance)));
}

#[test]
fn trapped_start_function_is_an_execution_error() {
    let mut state = state();
    let mut outer = vec![0u8; 8];
    let mut context = HostContext::new(&mut outer, &mut state);
    let (store, thunk) = match context.begin_instance_new(TableLookup::Function(17), Some(())) {
        Ok(InstanceNewStep::Instantiate { store, dispatch_thunk, .. }) => (store, dispatch_thunk),
        _ => panic!("the engine was to instantiate"),
    };
    let code = context.finish_instance_new(store, thunk, Instantiation::StartTrapped);
    assert_eq!(code, ERR_EXECUTION);
    assert_eq!(code, 0xFFFF_FFFD);
    assert!(context.host_state.has_sandbox_store());
    assert_eq!(context.instance(0).err(), Some(HostError::Store(StoreError::NoSuchInstance)));
}

#[test]
fn failed_instantiation_is_a_module_error() {
    let mut state = state();
    let mut outer = vec![0u8; 8];
    let mut context = HostContext::new(&mut outer, &mut state);
    let (store, thunk) = match context.begin_instance_new(TableLookup::Function(17), Some(())) {
        Ok(InstanceNewStep::Instantiate { store, dispatch_thunk, .. }) => (store, dispatch_thunk),
        _ => panic!("the engine was to instantiate"),
    };
    let code = context.finish_instance_new(store, thunk, Instantiation::Failed);
    assert_eq!(code, ERR_MODULE);
    assert!(context.host_state.has_sandbox_store());
    assert_eq!(context.instance(0).err(), Some(HostError::Store(StoreError::NoSuchInstance)));
}

#[test]
fn store_can_be_put_back_when_instantiation_does_not_end() {
    let mut state = state();
    let mut outer = vec![0u8; 8];
    let mut context = HostContext::new(&mut outer, &mut state);
    assert_eq!(context.memory_new(1, 1), Ok(0));
    let store = match context.begin_instance_new(TableLookup::Function(17), Some(())) {
        Ok(InstanceNewStep::Instantiate { store, .. }) => store,
        _ => panic!("the engine was to instantiate"),
    };
    assert!(!context.host_state.has_sandbox_store());
    context.restore_sandbox_store(store);
    assert!(context.host_state.has_sandbox_store());
    assert!(context.sandbox_store().memory(0).is_ok());
}

#[test]
fn invoke_finds_instance_thunk_and_arguments() {
    let mut state = state();
    assert_eq!(create(&mut state, "first", 17), 0);
    let mut outer = vec![0u8; 8];
    let context = HostContext::new(&mut outer, &mut state);
    let args = vec![
        sp_wasm_interface::Value::I32(-2),
        sp_wasm_interface::Value::I64(3),
        sp_wasm_interface::Value::F32(0x3F80_0000),
        sp_wasm_interface::Value::F64(0x3FF0_0000_0000_0000),
    ]
    .encode();
    let found = begin(&context, 0, &args).ok().unwrap();
    assert_eq!(found.instance, &"first");
    assert_eq!(found.dispatch_thunk, &17);
    assert_eq!(
        found.args,
        vec![
            Value::I32(-2),
            Value::I64(3),
            Value::F32(0x3F80_0000),
            Value::F64(0x3FF0_0000_0000_0000)
        ]
    );
}

#[test]
fn invoke_with_undecodable_arguments_is_an_error() {
    let mut state = state();
    assert_eq!(create(&mut state, "first", 17), 0);
    let mut outer = vec![0u8; 8];
    let context = HostContext::new(&mut outer, &mut state);
    assert_eq!(begin(&context, 0, &[]).err(), Some(HostError::UndecodableArguments));
    assert_eq!(begin(&context, 0, &[4]).err(), Some(HostError::UndecodableArguments));
    assert_eq!(
        begin(&context, 0, &[4, 9, 0, 0, 0, 0]).err(),
        Some(HostError::UndecodableArguments)
    );
    assert_eq!(begin(&context, 7, &[]).err(), Some(HostError::UndecodableArguments));
}

#[test]
fn arguments_are_decoded_without_the_store() {
    let mut state = state();
    assert!(state.take_sandbox_store().is_some());
    assert_eq!(decode_arguments(&[4]), Err(HostError::UndecodableArguments));
    assert_eq!(decode_arguments(&no_args()), Ok(vec![]));
    assert!(!state.has_sandbox_store());
}

#[test]
fn invoke_of_unknown_instance_is_an_error() {
    let mut state = state();
    let mut outer = vec![0u8; 8];
    let context = HostContext::new(&mut outer, &mut state);
    assert_eq!(
        begin(&context, 0, &no_args()).err(),
        Some(HostError::Store(StoreError::NoSuchInstance))
    );
}

#[test]
fn invoke_without_result_is_ok() {
    let mut state = state();
    let mut outer = vec![5u8; 16];
    {
        let mut context = HostContext::new(&mut outer, &mut state);
        assert_eq!(context.finish_invoke(Execution::Returned(None), 0, 0), Ok(ERR_OK));
    }
    assert_eq!(outer, vec![5u8; 16]);
}

#[test]
fn invoke_writes_the_encoded_result() {
    let mut state = state();
    let mut outer = vec![5u8; 16];
    {
        let mut context = HostContext::new(&mut outer, &mut state);
        let outcome = Execution::Returned(Some(Value::I32(0x0102_0304)));
        assert_eq!(context.finish_invoke(outcome, 4, 6), Ok(ERR_OK));
    }
    assert_eq!(outer, vec![5, 5, 5, 5, 1, 0, 4, 3, 2, 1, 5, 5, 5, 5, 5, 5]);
}

#[test]
fn invoke_writes_a_64_bit_result() {
    let mut state = state();
    let mut outer = vec![5u8; 16];
    {
        let mut context = HostContext::new(&mut outer, &mut state);
        let outcome = Execution::Returned(Some(Value::I64(-2)));
        assert_eq!(context.finish_invoke(outcome, 6, 10), Ok(ERR_OK));
    }
    assert_eq!(
        outer,
        vec![5, 5, 5, 5, 5, 5, 1, 1, 0xFE, 0xFF, 0xFF, 0xFF, 0xFF, 0xFF, 0xFF, 0xFF]
    );
}

#[test]
fn invoke_with_too_small_buffer_writes_nothing() {
    let mut state = state();
    let mut outer = vec![5u8; 16];
    {
        let mut context = HostContext::new(&mut outer, &mut state);
        let outcome = Execution::Returned(Some(Value::I32(1)));
        assert_eq!(context.finish_invoke(outcome, 0, 5), Err(HostError::ReturnBufferTooSmall));
        let outcome = Execution::Returned(Some(Value::F64(1)));
        assert_eq!(context.finish_invoke(outcome, 0, 9), Err(HostError::ReturnBufferTooSmall));
        let outcome = Execution::Returned(Some(Value::F32(1)));
        assert_eq!(context.finish_invoke(outcome, 0, 0), Err(HostError::ReturnBufferTooSmall));
    }
    assert_eq!(outer, vec![5u8; 16]);
}

#[test]
fn invoke_with_buffer_outside_memory_writes_nothing() {
    let mut state = state();
    let mut outer = vec![5u8; 16];
    {
        let mut context = HostContext::new(&mut outer, &mut state);
        let outcome = Execution::Returned(Some(Value::I32(1)));
        assert_eq!(context.finish_invoke(outcome, 11, 6), Err(HostError::ReturnValueWrite));
        assert_eq!(context.finish_invoke(outcome, u32::MAX, 100), Err(HostError::ReturnValueWrite));
    }
    assert_eq!(outer, vec![5u8; 16]);
}

#[test]
fn too_small_buffer_comes_before_the_bounds() {
    let mut state = state();
    let mut outer = vec![5u8; 16];
    let mut context = HostContext::new(&mut outer, &mut state);
    let outcome = Execution::Returned(Some(Value::I64(1)));
    assert_eq!(context.finish_invoke(outcome, 100, 6), Err(HostError::ReturnBufferTooSmall));
}

#[test]
fn trapped_export_leaves_the_instance_registered() {
    let mut state = state();
    assert_eq!(create(&mut state, "first", 17), 0);
    let mut outer = vec![5u8; 16];
    {
        let mut context = HostContext::new(&mut outer, &mut state);
        assert!(begin(&context, 0, &no_args()).is_ok());
        assert_eq!(context.finish_invoke(Execution::Failed, 0, 16), Ok(ERR_EXECUTION));
        assert_eq!(context.instance(0).ok(), Some(&"first"));
        assert!(begin(&context, 0, &no_args()).is_ok());
        assert_eq!(context.instance_teardown(0), Ok(()));
        assert_eq!(
            context.instance(0).err(),
            Some(HostError::Store(StoreError::InstanceTornDown))
        );
        assert_eq!(
            begin(&context, 0, &no_args()).err(),
            Some(HostError::Store(StoreError::InstanceTornDown))
        );
        assert_eq!(
            context.instance_teardown(0),
            Err(HostError::Store(StoreError::InstanceTornDown))
        );
    }
    assert_eq!(outer, vec![5u8; 16]);
}

#[test]
fn instance_created_during_an_invocation_gets_a_handle_of_its_own() {
    let mut state = state();
    assert_eq!(create(&mut state, "outer", 17), 0);
    let mut memory = vec![0u8; 16];
    let thunk = {
        let context = HostContext::new(&mut memory, &mut state);
        let found = begin(&context, 0, &no_args()).ok().unwrap();
        *found.dispatch_thunk
    };
    assert_eq!(thunk, 17);
    assert!(state.has_sandbox_store());
    assert_eq!(create(&mut state, "inner", 18), 1);
    assert!(state.has_sandbox_store());
    {
        let mut context = HostContext::new(&mut memory, &mut state);
        assert_eq!(context.finish_invoke(Execution::Returned(None), 0, 0), Ok(ERR_OK));
    }
    assert!(state.has_sandbox_store());
    let store = state.sandbox_store();
    assert_eq!(store.instance(0).ok(), Some(&"outer"));
    assert_eq!(store.instance(1).ok(), Some(&"inner"));
    assert_eq!(store.dispatch_thunk(1).ok(), Some(&18));
}

#[test]
fn store_is_present_after_every_outcome() {
    let mut state = state();
    let mut memory = vec![0u8; 16];
    let outcomes = [
        Execution::Failed,
        Execution::Returned(None),
        Execution::Returned(Some(Value::I32(1))),
        Execution::Returned(Some(Value::I64(1))),
    ];
    for outcome in outcomes {
        for len in [0u32, 6, 10] {
            let mut context = HostContext::new(&mut memory, &mut state);
            let _ = context.finish_invoke(outcome, 12, len);
            assert!(context.host_state.has_sandbox_store());
        }
    }
    assert_eq!(create(&mut state, "first", 1), 0);
    assert!(state.has_sandbox_store());
}

#[test]
fn taking_the_store_twice_finds_none() {
    let mut state = state();
    assert!(state.take_sandbox_store().is_some());
    assert!(!state.has_sandbox_store());
    assert!(state.take_sandbox_store().is_none());
}

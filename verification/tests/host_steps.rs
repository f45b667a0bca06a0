use sandbox_host::context::{allocation_outcome, HostContext};
use sandbox_host::error::HostError;
use sandbox_host::state::HostState;
use sandbox_host::status::ERR_OK;
use sandbox_host::store::StoreError;
use sandbox_host::value::Value;
use sc_allocator::FreeingBumpHeapAllocator;

type State = HostState<&'static str, u32>;

fn state() -> State {
    let mut state: State = HostState::new(FreeingBumpHeapAllocator::new(0));
    assert_eq!(state.sandbox_store_mut().register_instance("first", 17), Some(0));
    state
}

#[test]
fn allocator_answer_is_handed_on() {
    assert_eq!(allocation_outcome(Ok(24u32)), Ok(24));
    assert_eq!(allocation_outcome(Ok(())), Ok(()));
}

#[test]
fn allocator_refusal_is_handed_on_in_its_words() {
    assert_eq!(
        allocation_outcome::<u32>(Err(String::from("Allocator ran out of space"))),
        Err(HostError::Allocator(String::from("Allocator ran out of space")))
    );
}

#[test]
fn invocation_keeps_the_arguments() {
    let mut state = state();
    let mut memory = vec![0u8; 8];
    let context = HostContext::new(&mut memory, &mut state);
    let found = context.invocation(0, vec![Value::I32(5), Value::F64(9)]).ok().unwrap();
    assert_eq!(found.instance, &"first");
    assert_eq!(found.dispatch_thunk, &17);
    assert_eq!(found.args, vec![Value::I32(5), Value::F64(9)]);
}

#[test]
fn invocation_of_invalid_handle_is_refused() {
    let mut state = state();
    let mut memory = vec![0u8; 8];
    let mut context = HostContext::new(&mut memory, &mut state);
    assert_eq!(
        context.invocation(1, vec![]).err(),
        Some(HostError::Store(StoreError::NoSuchInstance))
    );
    assert_eq!(context.instance_teardown(0), Ok(()));
    assert_eq!(
        context.invocation(0, vec![]).err(),
        Some(HostError::Store(StoreError::InstanceTornDown))
    );
}

#[test]
fn return_value_is_written_when_it_fits() {
    let mut state = state();
    let mut memory = vec![0u8; 8];
    {
        let mut context = HostContext::new(&mut memory, &mut state);
        assert_eq!(context.write_return_value(&[1, 2, 3], 5, 3), Ok(ERR_OK));
        assert_eq!(context.write_return_value(&[], 8, 0), Ok(ERR_OK));
    }
    assert_eq!(memory, vec![0, 0, 0, 0, 0, 1, 2, 3]);
}

#[test]
fn return_value_longer_than_the_buffer_is_not_cut() {
    let mut state = state();
    let mut memory = vec![0u8; 8];
    {
        let mut context = HostContext::new(&mut memory, &mut state);
        assert_eq!(
            context.write_return_value(&[1, 2, 3], 0, 2),
            Err(HostError::ReturnBufferTooSmall)
        );
    }
    assert_eq!(memory, vec![0u8; 8]);
}

#[test]
fn return_value_outside_memory_is_not_written() {
    let mut state = state();
    let mut memory = vec![0u8; 8];
    {
        let mut context = HostContext::new(&mut memory, &mut state);
        assert_eq!(context.write_return_value(&[1, 2, 3], 6, 3), Err(HostError::ReturnValueWrite));
        assert_eq!(context.write_return_value(&[], 9, 0), Err(HostError::ReturnValueWrite));
    }
    assert_eq!(memory, vec![0u8; 8]);
}

#[test]
fn store_can_be_changed_through_the_context() {
    let mut state = state();
    let mut memory = vec![0u8; 8];
    let mut context = HostContext::new(&mut memory, &mut state);
    assert_eq!(context.sandbox_store_mut().new_memory(1, 1), Ok(0));
    assert_eq!(context.sandbox_store_mut().write_memory(0, 3, &[9]), Ok(()));
    assert_eq!(context.memory_get(0, 3, 0, 1), Ok(ERR_OK));
    assert_eq!(context.memory[0], 9);
}

#[test]
fn message_can_be_registered_on_the_state() {
    let mut state = state();
    state.register_panic_message("out of gas");
    assert_eq!(state.take_panic_message(), Some(String::from("out of gas")));
}

#[test]
fn restored_store_replaces_the_state_store() {
    let mut state = state();
    let taken = state.take_sandbox_store().unwrap();
    assert!(!state.has_sandbox_store());
    state.restore_sandbox_store(taken);
    assert!(state.has_sandbox_store());
    assert_eq!(state.sandbox_store().instance(0).ok(), Some(&"first"));
}

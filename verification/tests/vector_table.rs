use kernel_core::interrupts::idt::{
    create_idt, Completion, Entry, Handler, InterruptIndex, INTERRUPT_STACK_COUNT, PIC_1_OFFSET,
    VECTOR_COUNT,
};

const HANDLERS: [Handler; 10] = [
    Handler::DivideError,
    Handler::Debug,
    Handler::Breakpoint,
    Handler::DoubleFault,
    Handler::StackSegmentFault,
    Handler::GeneralProtectionFault,
    Handler::PageFault,
    Handler::AlignmentCheck,
    Handler::Timer,
    Handler::Keyboard,
];

#[test]
fn exceptions_stand_at_their_architectural_vectors() {
    assert_eq!(Handler::DivideError.vector(), 0);
    assert_eq!(Handler::Debug.vector(), 1);
    assert_eq!(Handler::Breakpoint.vector(), 3);
    assert_eq!(Handler::DoubleFault.vector(), 8);
    assert_eq!(Handler::StackSegmentFault.vector(), 12);
    assert_eq!(Handler::GeneralProtectionFault.vector(), 13);
    assert_eq!(Handler::PageFault.vector(), 14);
    assert_eq!(Handler::AlignmentCheck.vector(), 17);
}

#[test]
fn hardware_interrupts_follow_the_controller_base() {
    assert_eq!(PIC_1_OFFSET, 32);
    assert_eq!(InterruptIndex::Timer.as_u8(), 32);
    assert_eq!(InterruptIndex::Keyboard.as_u8(), 33);
    assert_eq!(Handler::Timer.vector(), InterruptIndex::Timer.as_u8());
    assert_eq!(Handler::Keyboard.vector(), InterruptIndex::Keyboard.as_u8());
}

#[test]
fn every_handler_is_installed_at_its_vector() {
    let idt = create_idt(0);
    for handler in HANDLERS {
        let entry = idt.entry(handler.vector()).unwrap();
        assert_eq!(entry.handler, handler);
    }
}

#[test]
fn all_other_vectors_are_unbound() {
    let idt = create_idt(0);
    let mut bound = 0;
    for vector in 0..VECTOR_COUNT {
        let vector = vector as u8;
        match idt.entry(vector) {
            Some(entry) => {
                assert_eq!(entry.handler.vector(), vector);
                bound += 1;
            }
            None => assert!(HANDLERS.iter().all(|handler| handler.vector() != vector)),
        }
    }
    assert_eq!(bound, 10);
}

#[test]
fn only_the_double_fault_has_a_stack_of_its_own() {
    let idt = create_idt(3);
    assert_eq!(
        idt.entry(8),
        Some(Entry { handler: Handler::DoubleFault, stack_index: Some(3) })
    );
    for vector in 0..VECTOR_COUNT {
        let vector = vector as u8;
        if vector != 8 {
            if let Some(entry) = idt.entry(vector) {
                assert_eq!(entry.stack_index, None);
            }
        }
    }
}

#[test]
fn every_interrupt_stack_can_serve_the_double_fault() {
    for index in 0..INTERRUPT_STACK_COUNT {
        assert_eq!(create_idt(index).entry(8).unwrap().stack_index, Some(index));
    }
}

#[test]
fn the_page_fault_entry_runs_on_the_ordinary_stack() {
    assert_eq!(
        create_idt(0).entry(14),
        Some(Entry { handler: Handler::PageFault, stack_index: None })
    );
}

#[test]
fn a_double_fault_halts() {
    assert_eq!(Handler::DoubleFault.completion(), Completion::Halt);
}

#[test]
fn a_page_fault_resumes_where_policy_allows() {
    assert_eq!(Handler::PageFault.completion(), Completion::ResumeIfRecoverable);
}

#[test]
fn every_other_handler_resumes() {
    for handler in HANDLERS {
        if handler != Handler::DoubleFault && handler != Handler::PageFault {
            assert_eq!(handler.completion(), Completion::Resume);
        }
    }
}

#[test]
fn only_the_halting_handler_has_a_stack_of_its_own() {
    let idt = create_idt(2);
    for handler in HANDLERS {
        let entry = idt.entry(handler.vector()).unwrap();
        assert_eq!(entry.stack_index.is_some(), handler.completion() == Completion::Halt);
    }
}

#[test]
fn hardware_interrupts_signal_their_end() {
    for handler in HANDLERS {
        let expected = handler == Handler::Timer || handler == Handler::Keyboard;
        assert_eq!(handler.signals_end_of_interrupt(), expected);
    }
}

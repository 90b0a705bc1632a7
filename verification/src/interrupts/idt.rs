//! The layout of the interrupt vector table: which handler stands at which
//! of the 256 vectors, and what each handler does when it is done.
//!
//! The table that the processor reads holds addresses of handler routines.
//! Here a handler is a name; the kernel binary puts its routine for that
//! name into the processor's table.

use vstd::prelude::*;

verus! {

/// Number of vectors of the table.
pub const VECTOR_COUNT: usize = 256;

/// Number of stacks that the task-state segment keeps for interrupts.
pub const INTERRUPT_STACK_COUNT: u16 = 7;

/// The vector at which the first interrupt controller delivers its first
/// line after remapping: the first one past the 32 vectors that the
/// processor keeps for its exceptions.
pub const PIC_1_OFFSET: u8 = 32;

/// The hardware interrupts that the kernel serves, in the order of their
/// lines at the interrupt controller.
#[derive(Clone, Copy, Debug, PartialEq, Eq, Structural)]
pub enum InterruptIndex {
    Timer,
    Keyboard,
}

impl InterruptIndex {
    /// The vector of the interrupt.
    pub open spec fn spec_as_u8(self) -> u8 {
        match self {
            InterruptIndex::Timer => PIC_1_OFFSET,
            InterruptIndex::Keyboard => (PIC_1_OFFSET + 1) as u8,
        }
    }

    /// The vector of the interrupt: the controller's base plus the line.
    pub fn as_u8(self) -> (vector: u8)
        ensures
            vector == self.spec_as_u8(),
    {
        match self {
            InterruptIndex::Timer => PIC_1_OFFSET,
            InterruptIndex::Keyboard => PIC_1_OFFSET + 1,
        }
    }
}

/// The handlers that the kernel installs.
#[derive(Clone, Copy, Debug, PartialEq, Eq, Structural)]
pub enum Handler {
    DivideError,
    Debug,
    Breakpoint,
    DoubleFault,
    StackSegmentFault,
    GeneralProtectionFault,
    PageFault,
    AlignmentCheck,
    Timer,
    Keyboard,
}

/// What happens once a handler has reported.
#[derive(Clone, Copy, Debug, PartialEq, Eq, Structural)]
pub enum Completion {
    /// Execution goes on from the saved frame.
    Resume,
    /// Execution goes on only if the kernel's policy finds the fault
    /// recoverable; a kernel without such a policy halts.
    ResumeIfRecoverable,
    /// The machine halts: there is no way back.
    Halt,
}

impl Handler {
    /// The vector at which the handler stands. Those of the processor's
    /// exceptions are fixed by the architecture.
    pub open spec fn spec_vector(self) -> u8 {
        match self {
            Handler::DivideError => 0,
            Handler::Debug => 1,
            Handler::Breakpoint => 3,
            Handler::DoubleFault => 8,
            Handler::StackSegmentFault => 12,
            Handler::GeneralProtectionFault => 13,
            Handler::PageFault => 14,
            Handler::AlignmentCheck => 17,
            Handler::Timer => InterruptIndex::Timer.spec_as_u8(),
            Handler::Keyboard => InterruptIndex::Keyboard.spec_as_u8(),
        }
    }

    /// Whether the handler serves a hardware interrupt rather than an
    /// exception of the processor.
    pub open spec fn is_hardware_interrupt(self) -> bool {
        self == Handler::Timer || self == Handler::Keyboard
    }

    /// The vector at which the handler stands.
    pub fn vector(self) -> (vector: u8)
        ensures
            vector == self.spec_vector(),
    {
        match self {
            Handler::DivideError => 0,
            Handler::Debug => 1,
            Handler::Breakpoint => 3,
            Handler::DoubleFault => 8,
            Handler::StackSegmentFault => 12,
            Handler::GeneralProtectionFault => 13,
            Handler::PageFault => 14,
            Handler::AlignmentCheck => 17,
            Handler::Timer => InterruptIndex::Timer.as_u8(),
            Handler::Keyboard => InterruptIndex::Keyboard.as_u8(),
        }
    }

    /// What follows the handler's report: a double fault halts the machine,
    /// a page fault resumes where policy allows it, everything else
    /// resumes.
    pub open spec fn spec_completion(self) -> Completion {
        match self {
            Handler::DoubleFault => Completion::Halt,
            Handler::PageFault => Completion::ResumeIfRecoverable,
            _ => Completion::Resume,
        }
    }

    /// What follows the handler's report.
    pub fn completion(self) -> (completion: Completion)
        ensures
            completion == self.spec_completion(),
    {
        match self {
            Handler::DoubleFault => Completion::Halt,
            Handler::PageFault => Completion::ResumeIfRecoverable,
            _ => Completion::Resume,
        }
    }

    /// Whether the handler has to tell the interrupt controller that the
    /// interrupt is served before it returns: the hardware interrupts do,
    /// or no interrupt of their line is delivered again.
    pub fn signals_end_of_interrupt(self) -> (signals: bool)
        ensures
            signals == self.is_hardware_interrupt(),
    {
        match self {
            Handler::Timer | Handler::Keyboard => true,
            _ => false,
        }
    }
}

/// One bound vector: its handler and, if the handler runs on a stack of its
/// own, the index of that stack.
#[derive(Clone, Copy, Debug, PartialEq, Eq, Structural)]
pub struct Entry {
    pub handler: Handler,
    pub stack_index: Option<u16>,
}

/// The handler that stands at `vector`, if the kernel binds that vector.
pub open spec fn handler_at(vector: int) -> Option<Handler> {
    if vector == 0 {
        Some(Handler::DivideError)
    } else if vector == 1 {
        Some(Handler::Debug)
    } else if vector == 3 {
        Some(Handler::Breakpoint)
    } else if vector == 8 {
        Some(Handler::DoubleFault)
    } else if vector == 12 {
        Some(Handler::StackSegmentFault)
    } else if vector == 13 {
        Some(Handler::GeneralProtectionFault)
    } else if vector == 14 {
        Some(Handler::PageFault)
    } else if vector == 17 {
        Some(Handler::AlignmentCheck)
    } else if vector == PIC_1_OFFSET {
        Some(Handler::Timer)
    } else if vector == PIC_1_OFFSET + 1 {
        Some(Handler::Keyboard)
    } else {
        None
    }
}

/// The entry that belongs at `vector` when double faults run on the stack
/// with index `double_fault_stack`: the handler of that vector, on the
/// ordinary stack unless it is the double-fault handler.
pub open spec fn entry_at(vector: int, double_fault_stack: u16) -> Option<Entry> {
    match handler_at(vector) {
        Some(handler) => Some(
            Entry {
                handler,
                stack_index: if handler == Handler::DoubleFault {
                    Some(double_fault_stack)
                } else {
                    None
                },
            },
        ),
        None => None,
    }
}

/// The whole table, vector by vector.
pub open spec fn layout(double_fault_stack: u16) -> Seq<Option<Entry>> {
    Seq::new(VECTOR_COUNT as nat, |vector: int| entry_at(vector, double_fault_stack))
}

/// Each handler stands at its own vector and nowhere else.
pub proof fn lemma_handler_vectors(handler: Handler, vector: int)
    ensures
        handler_at(handler.spec_vector() as int) == Some(handler),
        handler_at(vector) == Some(handler) ==> vector == handler.spec_vector(),
{
}

/// The handler that halts the machine is the one that runs on a stack of
/// its own: a double fault may come from a stack that is used up, and there
/// is nothing to go back to.
pub proof fn lemma_halting_handler_has_own_stack(double_fault_stack: u16, vector: int)
    requires
        0 <= vector < VECTOR_COUNT,
    ensures
        layout(double_fault_stack)[vector] matches Some(entry) ==> (entry.stack_index is Some
            <==> entry.handler.spec_completion() == Completion::Halt),
{
}

/// Exactly one vector of the table has a stack of its own: that of the
/// double fault.
pub proof fn lemma_one_dedicated_stack(double_fault_stack: u16, vector: int)
    requires
        0 <= vector < VECTOR_COUNT,
    ensures
        (layout(double_fault_stack)[vector] matches Some(entry) && entry.stack_index is Some)
            <==> vector == Handler::DoubleFault.spec_vector(),
        layout(double_fault_stack)[Handler::DoubleFault.spec_vector() as int] == Some(
            Entry { handler: Handler::DoubleFault, stack_index: Some(double_fault_stack) },
        ),
{
}

/// The interrupt vector table, as a list of what stands at each vector.
pub struct VectorTable {
    entries: Vec<Option<Entry>>,
}

impl View for VectorTable {
    type V = Seq<Option<Entry>>;

    closed spec fn view(&self) -> Seq<Option<Entry>> {
        self.entries@
    }
}

impl VectorTable {
    #[verifier::type_invariant]
    spec fn full(self) -> bool {
        self.entries@.len() == VECTOR_COUNT
    }

    /// What stands at `vector`.
    pub fn entry(&self, vector: u8) -> (entry: Option<Entry>)
        ensures
            self@.len() == VECTOR_COUNT,
            entry == self@[vector as int],
    {
        proof {
            use_type_invariant(self);
        }
        self.entries[vector as usize]
    }

    fn bind(&mut self, handler: Handler, stack_index: Option<u16>)
        ensures
            final(self)@ == old(self)@.update(
                handler.spec_vector() as int,
                Some(Entry { handler, stack_index }),
            ),
            final(self)@.len() == VECTOR_COUNT,
    {
        proof {
            use_type_invariant(&*self);
        }
        let vector: usize = handler.vector() as usize;
        self.entries[vector] = Some(Entry { handler, stack_index });
    }
}

/// Builds the vector table: a handler for each exception that the kernel
/// answers and for the timer and the keyboard, every other vector left
/// unbound. The double-fault handler alone gets a stack of its own, the one
/// with index `double_fault_stack` among the interrupt stacks, so that it
/// still runs when the ordinary stack is used up.
pub fn create_idt(double_fault_stack: u16) -> (idt: VectorTable)
    requires
        double_fault_stack < INTERRUPT_STACK_COUNT,
    ensures
        idt@ == layout(double_fault_stack),
{
    let mut entries: Vec<Option<Entry>> = Vec::new();
    let mut vector: usize = 0;
    while vector < VECTOR_COUNT
        invariant
            vector <= VECTOR_COUNT,
            entries@.len() == vector,
            forall|v: int| 0 <= v < vector ==> entries@[v] is None,
        decreases VECTOR_COUNT - vector,
    {
        entries.push(None);
        vector += 1;
    }
    let mut idt = VectorTable { entries };
    idt.bind(Handler::Breakpoint, None);
    idt.bind(Handler::PageFault, None);
    idt.bind(Handler::AlignmentCheck, None);
    idt.bind(Handler::Debug, None);
    idt.bind(Handler::DivideError, None);
    idt.bind(Handler::GeneralProtectionFault, None);
    idt.bind(Handler::StackSegmentFault, None);
    idt.bind(Handler::DoubleFault, Some(double_fault_stack));
    idt.bind(Handler::Timer, None);
    idt.bind(Handler::Keyboard, None);
    assert(idt@ =~= layout(double_fault_stack));
    idt
}

} // verus!

//! The system-call dispatcher: one operation code and three argument words
//! in, the kernel state updated and at most one effect out for the trap
//! front end to carry out.
use vstd::prelude::*;
use crate::console::{DebugConsole, DebugEffects};
use crate::mask::Interrupts;
use crate::session::{destroyed, Event, Session};
use crate::table::{ProcessTable, Switch};

verus! {

/// Write one byte to the debug console.
pub const SYS_DEBUG: u32 = 0;

/// End the running context.
pub const SYS_EXIT: u32 = 1;

/// Open the resource named by a locator.
pub const SYS_OPEN: u32 = 5;

/// Give up the processor to the next context.
pub const SYS_YIELD: u32 = 158;

/// Inject an input event.
pub const SYS_TRIGGER: u32 = 1000;

/// Register a window with the session.
pub const SYS_WINDOW_CREATE: u32 = 1001;

/// Unregister a window from the session.
pub const SYS_WINDOW_DESTROY: u32 = 1002;

/// What the front end carries out after a system call.
#[derive(Clone, Copy, Debug, PartialEq, Eq, Structural)]
pub enum Effect {
    /// Draw, scroll and send to the serial port as a debug write asks.
    Debug(DebugEffects),
    /// Remap the target's address space, then switch into it.
    Switch(Switch),
    /// Have the session open the resource whose locator is at `locator` and
    /// store the handle at `output`.
    Open { locator: u32, output: u32 },
    /// Read the event record at `address` and hand it to `Kernel::trigger`.
    FetchEvent { address: u32 },
}

/// The kernel's shared state, all of it touched with interrupts masked.
pub struct Kernel {
    pub ints: Interrupts,
    pub table: ProcessTable,
    pub session: Session,
    pub console: DebugConsole,
    pub events: Vec<Event>,
}

/// The effect a scheduler switch asks for, if any.
pub open spec fn switch_effect(s: Option<Switch>) -> Option<Effect> {
    match s {
        Some(sw) => Some(Effect::Switch(sw)),
        None => None,
    }
}

impl Kernel {
    pub open spec fn wf(&self) -> bool {
        self.table.wf() && self.console.wf()
    }

    /// The kernel after boot: the idle context running, an empty event
    /// queue, and interrupts enabled.
    pub fn new(idle: crate::table::Context, session: Session, console: DebugConsole) -> (r: Kernel)
        requires
            console.wf(),
        ensures
            r.wf(),
            r.table.contexts() == seq![idle],
            r.table.cursor() == 0,
            r.session == session,
            r.console == console,
            r.events@ == Seq::<Event>::empty(),
            r.ints.enabled,
    {
        Kernel {
            ints: Interrupts::new(true),
            table: ProcessTable::new(idle),
            session,
            console,
            events: Vec::new(),
        }
    }

    /// Applies an input event and appends it, as applied, to the queue.
    pub fn trigger(&mut self, event: Event)
        ensures
            exists|queued: Event|
                #[trigger] old(self).session.applied(
                    final(self).session,
                    old(self).console,
                    final(self).console,
                    event,
                    queued,
                ) && final(self).events@ == old(self).events@.push(queued),
            final(self).ints == old(self).ints,
            final(self).table == old(self).table,
            old(self).wf() ==> final(self).wf(),
    {
        let queued = self.session.apply_event(&mut self.console, event);
        let token = self.ints.acquire();
        self.events.push(queued);
        self.ints.release(token);
        assert(old(self).session.applied(self.session, old(self).console, self.console, event, queued));
    }
}

/// Carries out system call `eax` with arguments `ebx`, `ecx`, `edx`.
/// Unknown codes do nothing.
pub fn syscall_handle(kernel: &mut Kernel, eax: u32, ebx: u32, ecx: u32, _edx: u32) -> (r: Option<Effect>)
    requires
        old(kernel).wf(),
    ensures
        final(kernel).wf(),
        final(kernel).ints == old(kernel).ints,
        eax == SYS_DEBUG ==> exists|d: DebugEffects|
            #[trigger] old(kernel).console.wrote(final(kernel).console, ebx, d) && r == Some(Effect::Debug(d))
                && *final(kernel) == (Kernel { console: final(kernel).console, ..*old(kernel) }),
        eax == SYS_EXIT ==> exists|s: Option<Switch>|
            #[trigger] old(kernel).table.exited(final(kernel).table, s) && r == switch_effect(s)
                && *final(kernel) == (Kernel { table: final(kernel).table, ..*old(kernel) }),
        eax == SYS_YIELD ==> exists|s: Option<Switch>|
            #[trigger] old(kernel).table.yielded(final(kernel).table, s) && r == switch_effect(s)
                && *final(kernel) == (Kernel { table: final(kernel).table, ..*old(kernel) }),
        eax == SYS_OPEN ==> r == Some(Effect::Open { locator: ebx, output: ecx })
            && *final(kernel) == *old(kernel),
        eax == SYS_TRIGGER ==> r == Some(Effect::FetchEvent { address: ebx })
            && *final(kernel) == *old(kernel),
        eax == SYS_WINDOW_CREATE ==> r is None
            && final(kernel).session.windows@ == seq![ebx as u64] + old(kernel).session.windows@,
        eax == SYS_WINDOW_DESTROY ==> r is None
            && final(kernel).session.windows@ == destroyed(old(kernel).session.windows@, ebx as u64),
        (eax == SYS_WINDOW_CREATE || eax == SYS_WINDOW_DESTROY) ==> {
            &&& final(kernel).session.mouse_x == old(kernel).session.mouse_x
            &&& final(kernel).session.mouse_y == old(kernel).session.mouse_y
            &&& final(kernel).session.redraw == old(kernel).session.redraw
            &&& final(kernel).session.display_width == old(kernel).session.display_width
            &&& final(kernel).session.display_height == old(kernel).session.display_height
            &&& *final(kernel) == (Kernel { session: final(kernel).session, ..*old(kernel) })
        },
        !(eax == SYS_DEBUG || eax == SYS_EXIT || eax == SYS_YIELD || eax == SYS_OPEN
            || eax == SYS_TRIGGER || eax == SYS_WINDOW_CREATE || eax == SYS_WINDOW_DESTROY)
            ==> r is None && *final(kernel) == *old(kernel),
{
    if eax == SYS_DEBUG {
        let d = kernel.console.write(ebx);
        Some(Effect::Debug(d))
    } else if eax == SYS_EXIT {
        let s = kernel.table.exit(&mut kernel.ints);
        match s {
            Some(sw) => Some(Effect::Switch(sw)),
            None => None,
        }
    } else if eax == SYS_YIELD {
        let s = kernel.table.yield_now(&mut kernel.ints);
        match s {
            Some(sw) => Some(Effect::Switch(sw)),
            None => None,
        }
    } else if eax == SYS_OPEN {
        Some(Effect::Open { locator: ebx, output: ecx })
    } else if eax == SYS_TRIGGER {
        Some(Effect::FetchEvent { address: ebx })
    } else if eax == SYS_WINDOW_CREATE {
        let token = kernel.ints.acquire();
        kernel.session.window_create(ebx as u64);
        kernel.ints.release(token);
        None
    } else if eax == SYS_WINDOW_DESTROY {
        let token = kernel.ints.acquire();
        kernel.session.window_destroy(ebx as u64);
        kernel.ints.release(token);
        None
    } else {
        None
    }
}

} // verus!

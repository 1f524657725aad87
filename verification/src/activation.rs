use vstd::prelude::*;

use crate::logging::LogBuffer;
use crate::logging::LogLevel;
use crate::logging::LogRecord;

verus! {

broadcast use vstd::string::group_string_axioms;

/// The contract an activation (click) handler satisfies.
///
/// `received` is the handler's history: every argument string it has been
/// invoked with, oldest first. A dispatch hands the handler exactly one more
/// string, synchronously.
pub trait ActivationHandler: Sized {
    /// Every argument string this handler has received, oldest first.
    spec fn received(&self) -> Seq<Seq<char>>;

    /// Invoked with the `click_arguments` of the notification the user
    /// activated.
    fn handle(&mut self, arguments: String)
        ensures
            final(self).received() == old(self).received().push(arguments@),
    ;
}

/// An activation handler that stores every argument string it receives, so a
/// caller can observe exactly which dispatches reached it.
pub struct RecordingHandler {
    /// Distinguishes one handler instance from another, for example when
    /// checking which of two registered handlers actually receives a click.
    pub id: u64,
    /// Every argument string handed to `handle`, oldest first.
    pub received: Vec<String>,
}

impl RecordingHandler {
    /// A fresh handler with an empty history.
    pub fn new(id: u64) -> (handler: RecordingHandler)
        ensures
            handler.received() == Seq::<Seq<char>>::empty(),
            handler.id == id,
    {
        let handler = RecordingHandler { id, received: Vec::new() };
        proof {
            assert(handler.received() =~= Seq::<Seq<char>>::empty());
        }
        handler
    }
}

impl ActivationHandler for RecordingHandler {
    open spec fn received(&self) -> Seq<Seq<char>> {
        self.received@.map_values(|s: String| s@)
    }

    fn handle(&mut self, arguments: String) {
        let ghost prev = self.received();
        let ghost arguments_view = arguments@;
        self.received.push(arguments);
        proof {
            assert(self.received() =~= prev.push(arguments_view));
        }
    }
}

/// The write-once slot that owns click handling for a whole notification
/// configuration: uninitialized at first, set at most once, read by every
/// later dispatch. A second registration never replaces the first.
pub struct HandlerSlot<H> {
    handler: Option<H>,
}

impl<H: ActivationHandler> HandlerSlot<H> {
    /// The handler the slot holds, if one was registered.
    pub closed spec fn installed(&self) -> Option<H> {
        self.handler
    }

    /// A fresh slot with no handler registered.
    pub fn new() -> (slot: HandlerSlot<H>)
        ensures
            slot.installed() is None,
    {
        HandlerSlot { handler: None }
    }

    /// Read access to the registered handler, if any.
    pub fn installed_handler(&self) -> (handler: &Option<H>)
        ensures
            *handler == self.installed(),
    {
        &self.handler
    }
}

/// Registers `handler` as the one activation handler of `slot`.
///
/// The slot is write-once, not last-writer-wins: the first registration
/// installs the handler and emits nothing; every later one discards the new
/// handler, leaves the installed one untouched, and emits a warning record.
pub fn set_toast_activation_handler<H: ActivationHandler>(
    slot: &mut HandlerSlot<H>,
    log: &mut LogBuffer,
    handler: H,
)
    ensures
        old(slot).installed() is None ==> {
            &&& final(slot).installed() == Some(handler)
            &&& final(log)@ == old(log)@
        },
        old(slot).installed() is Some ==> {
            &&& final(slot).installed() == old(slot).installed()
            &&& final(log)@ == old(log)@.push(
                (crate::logging::LogRecordView {
                    level: LogLevel::Warn,
                    text: "toast activation handler was already set"@,
                }),
            )
        },
{
    if slot.handler.is_some() {
        log.push(
            LogRecord {
                level: LogLevel::Warn,
                text: "toast activation handler was already set".to_string(),
            },
        );
    } else {
        slot.handler = Some(handler);
    }
}

/// Hands an activation's argument string to the registered handler.
///
/// Backends call this when the user clicks a notification that carries
/// `click_arguments`. With a handler installed, the handler receives exactly
/// the given string, once, synchronously; with none installed the activation
/// is silently dropped, which is a normal state, not an error.
pub fn dispatch_toast_activation<H: ActivationHandler>(slot: &mut HandlerSlot<H>, arguments: String)
    ensures
        old(slot).installed() is None ==> *final(slot) == *old(slot),
        old(slot).installed() matches Some(h0) ==> final(slot).installed() matches Some(h1)
            && h1.received() == h0.received().push(arguments@),
{
    if let Some(handler) = &mut slot.handler {
        handler.handle(arguments);
    }
}

} // verus!

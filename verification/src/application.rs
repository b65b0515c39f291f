use vstd::prelude::*;

use crate::events::Event;
use crate::layers::Layer;
use crate::renderer::context::RenderingContext;
use crate::window::{Window, WindowProps};

verus! {

/// Error a frame driver reports when the application was never initialized:
/// driving the loop without `init` is a precondition violation.
#[derive(Clone, Copy, PartialEq, Eq, Structural, Debug)]
pub enum RunError {
    NotInitialized,
}

/// The indices `n-1, n-2, ..., 0`: the order in which a stack of `n` layers
/// is visited during dispatch, most recently pushed first.
pub open spec fn rev_index_seq(n: int) -> Seq<int> {
    Seq::new(n as nat, |i: int| n - 1 - i)
}

/// Whether the queue holds at least one close event.
pub open spec fn has_close(q: Seq<Event>) -> bool
    decreases q.len(),
{
    if q.len() == 0 {
        false
    } else {
        q.last() is WindowClose || has_close(q.drop_last())
    }
}

/// A queue that just received a close event reports one, whatever stood in
/// it before: pushing `WindowClose` and running one close-check pass stops
/// the application.
pub proof fn lemma_push_close_has_close(q: Seq<Event>)
    ensures
        has_close(q.push(Event::WindowClose)),
{
    assert(q.push(Event::WindowClose).last() is WindowClose);
}

/// The close scan finds a close event exactly when some position of the
/// queue holds one: one occurrence anywhere suffices, its position does not
/// matter, and several occurrences act as one.
pub proof fn lemma_has_close_iff_witness(q: Seq<Event>)
    ensures
        has_close(q) <==> exists|i: int| 0 <= i < q.len() && (#[trigger] q[i]) is WindowClose,
    decreases q.len(),
{
    if q.len() > 0 {
        lemma_has_close_iff_witness(q.drop_last());
        if has_close(q) {
            if q.last() is WindowClose {
                assert(q[q.len() - 1] is WindowClose);
            } else {
                let i = choose|i: int|
                    0 <= i < q.drop_last().len() && (#[trigger] q.drop_last()[i]) is WindowClose;
                assert(q[i] is WindowClose);
            }
        }
        if exists|i: int| 0 <= i < q.len() && (#[trigger] q[i]) is WindowClose {
            let i = choose|i: int| 0 <= i < q.len() && (#[trigger] q[i]) is WindowClose;
            if i < q.len() - 1 {
                assert(q.drop_last()[i] is WindowClose);
            }
        }
    }
}

/// Owner of the frame loop state: the initialization and running flags, the
/// event queue, the ordered layer stack and the render surface.
pub struct Application<W, L> {
    is_initialized: bool,
    is_running: bool,
    event_queue: Vec<Event>,
    layer_stack: Vec<L>,
    window: W,
    dispatch_trace: Ghost<Seq<int>>,
}

impl<W, L> Application<W, L> {
    /// Whether `init` has completed.
    pub closed spec fn initialized(&self) -> bool {
        self.is_initialized
    }

    /// Whether the frame loop should keep going. Goes false only through a
    /// close event, and once false never goes true again except by `init`.
    pub closed spec fn running(&self) -> bool {
        self.is_running
    }

    /// The events queued for the current frame, in insertion order.
    pub closed spec fn events(&self) -> Seq<Event> {
        self.event_queue@
    }

    /// The layer stack, in insertion order.
    pub closed spec fn layers(&self) -> Seq<L> {
        self.layer_stack@
    }

    /// The history of layer indices dispatched to, in call order: the
    /// record that pins down the traversal order of the stack.
    pub closed spec fn dispatched(&self) -> Seq<int> {
        self.dispatch_trace@
    }

    pub fn is_initialized(&self) -> (r: bool)
        ensures
            r == self.initialized(),
    {
        self.is_initialized
    }

    pub fn is_running(&self) -> (r: bool)
        ensures
            r == self.running(),
    {
        self.is_running
    }

    pub fn queued_events(&self) -> (r: &Vec<Event>)
        ensures
            r@ == self.events(),
    {
        &self.event_queue
    }

    pub fn layer_count(&self) -> (r: usize)
        ensures
            r == self.layers().len(),
    {
        self.layer_stack.len()
    }
}

impl<W: Window + RenderingContext, L: Layer> Application<W, L> {
    /// Builds an application around a surface created from the given
    /// configuration record. The application starts uninitialized and
    /// stopped, with an empty queue and an empty layer stack.
    pub fn from_props(props: WindowProps) -> (app: Self)
        ensures
            !app.initialized(),
            !app.running(),
            app.events() == Seq::<Event>::empty(),
            app.layers() == Seq::<L>::empty(),
            app.dispatched() == Seq::<int>::empty(),
    {
        Application {
            is_initialized: false,
            is_running: false,
            event_queue: Vec::new(),
            layer_stack: Vec::new(),
            window: W::new(props),
            dispatch_trace: Ghost(Seq::empty()),
        }
    }

    /// Builds an application with the default window configuration.
    pub fn new() -> (app: Self)
        ensures
            !app.initialized(),
            !app.running(),
            app.events() == Seq::<Event>::empty(),
            app.layers() == Seq::<L>::empty(),
            app.dispatched() == Seq::<int>::empty(),
    {
        Self::from_props(
            WindowProps { title: "Simulacra".to_string(), width: 1024, height: 728 },
        )
    }

    /// Initializes the render surface and starts the loop state machine.
    /// Initializing twice is a precondition violation.
    pub fn init(&mut self)
        requires
            !old(self).initialized(),
        ensures
            final(self).initialized(),
            final(self).running(),
            final(self).events() == old(self).events(),
            final(self).layers() == old(self).layers(),
            final(self).dispatched() == old(self).dispatched(),
    {
        self.window.init();
        self.is_initialized = true;
        self.is_running = true;
    }

    /// Pushes a layer onto the stack, attaching it first: `on_attach` runs
    /// exactly once, before the layer ever receives events. Layers already
    /// on the stack keep their positions.
    pub fn push_layer(&mut self, layer: L)
        ensures
            final(self).layers().len() == old(self).layers().len() + 1,
            forall|j: int|
                0 <= j < old(self).layers().len() ==> final(self).layers()[j] == old(
                    self,
                ).layers()[j],
            final(self).initialized() == old(self).initialized(),
            final(self).running() == old(self).running(),
            final(self).events() == old(self).events(),
            final(self).dispatched() == old(self).dispatched(),
    {
        let mut layer = layer;
        layer.on_attach();
        self.layer_stack.push(layer);
    }

    /// Appends an event to the frame queue, behind those already queued.
    pub fn push_event(&mut self, e: Event)
        ensures
            final(self).events() == old(self).events().push(e),
            final(self).initialized() == old(self).initialized(),
            final(self).running() == old(self).running(),
            final(self).layers() == old(self).layers(),
            final(self).dispatched() == old(self).dispatched(),
    {
        self.event_queue.push(e);
    }

    /// Gives every layer a chance to observe the current queue, most
    /// recently pushed layer first. The dispatch record grows by exactly
    /// the stack indices in reverse insertion order; what each layer does
    /// to the queue and to itself is its own business.
    pub fn dispatch_to_layers(&mut self)
        ensures
            final(self).initialized() == old(self).initialized(),
            final(self).running() == old(self).running(),
            final(self).layers().len() == old(self).layers().len(),
            final(self).dispatched() == old(self).dispatched() + rev_index_seq(
                old(self).layers().len() as int,
            ),
            old(self).layers().len() == 0 ==> final(self).events() == old(self).events(),
    {
        let ghost pre = *self;
        let n = self.layer_stack.len();
        let mut i: usize = n;
        while i > 0
            invariant
                i <= n,
                n == self.layer_stack.len(),
                self.is_initialized == pre.is_initialized,
                self.is_running == pre.is_running,
                self.dispatch_trace@ == pre.dispatch_trace@ + rev_index_seq(n as int).take(
                    n - i,
                ),
                n == 0 ==> self.event_queue@ == pre.event_queue@,
            decreases i,
        {
            i = i - 1;
            proof {
                assert(rev_index_seq(n as int)[n - 1 - i] == i as int);
                assert(rev_index_seq(n as int).take(n - i) =~= rev_index_seq(n as int).take(
                    n - i - 1,
                ).push(i as int));
            }
            self.dispatch_trace = Ghost(self.dispatch_trace@.push(i as int));
            self.layer_stack[i].handle_events(&mut self.event_queue);
        }
        proof {
            assert(rev_index_seq(n as int).take(n as int) =~= rev_index_seq(n as int));
        }
    }

    /// The application's own pass over the queue: a close event anywhere in
    /// the queue stops the loop, and finding several is the same as finding
    /// one. The queue is cleared unconditionally afterwards, so events never
    /// carry over into the next frame.
    pub fn handle_events(&mut self)
        ensures
            final(self).events() == Seq::<Event>::empty(),
            final(self).running() == (old(self).running() && !has_close(old(self).events())),
            final(self).initialized() == old(self).initialized(),
            final(self).layers() == old(self).layers(),
            final(self).dispatched() == old(self).dispatched(),
    {
        let ghost pre = *self;
        let n = self.event_queue.len();
        let mut i: usize = 0;
        while i < n
            invariant
                i <= n,
                n == self.event_queue.len(),
                *self == (Application {
                    is_running: self.is_running,
                    ..pre
                }),
                self.is_running == (pre.is_running && !has_close(pre.event_queue@.take(i as int))),
            decreases n - i,
        {
            match self.event_queue[i] {
                Event::WindowClose => {
                    self.is_running = false;
                },
                _ => {},
            };
            proof {
                let q = pre.event_queue@;
                assert(q.take(i + 1).drop_last() =~= q.take(i as int));
                assert(q.take(i + 1).last() == q[i as int]);
                assert(has_close(q.take(i + 1)) == (q[i as int] is WindowClose || has_close(
                    q.take(i as int),
                )));
            }
            i = i + 1;
        }
        proof {
            assert(pre.event_queue@.take(n as int) =~= pre.event_queue@);
        }
        self.event_queue.clear();
    }

    /// Drives one iteration of the main loop: dispatch the queue to the
    /// layers in reverse insertion order, collect the surface's new events,
    /// run the close check, and clear the queue. A stopped application does
    /// nothing, and nothing here ever restarts a stopped application; an
    /// uninitialized application is refused outright.
    ///
    /// Note the frame's deliberate ordering quirk: the surface's events are
    /// collected *after* the dispatch pass, so layers observe only what was
    /// queued before the frame began, while events collected during the
    /// frame reach the close check alone and are cleared before layers run
    /// again.
    pub fn run_frame(&mut self) -> (r: Result<(), RunError>)
        ensures
            r is Err <==> !old(self).initialized(),
            !old(self).initialized() ==> *final(self) == *old(self),
            old(self).initialized() && !old(self).running() ==> *final(self) == *old(self),
            final(self).initialized() == old(self).initialized(),
            final(self).running() ==> old(self).running(),
            final(self).layers().len() == old(self).layers().len(),
            old(self).initialized() && old(self).running() ==> final(self).events()
                == Seq::<Event>::empty(),
            old(self).initialized() && old(self).running() ==> final(self).dispatched() == old(
                self,
            ).dispatched() + rev_index_seq(old(self).layers().len() as int),
            !(old(self).initialized() && old(self).running()) ==> final(self).dispatched() == old(
                self,
            ).dispatched(),
    {
        if !self.is_initialized {
            return Err(RunError::NotInitialized);
        }
        if !self.is_running {
            return Ok(());
        }
        self.dispatch_to_layers();
        self.window.on_update(&mut self.event_queue);
        self.handle_events();
        Ok(())
    }
}

} // verus!

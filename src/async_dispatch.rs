//! The dispatch bridge: a single hand-off slot that calling contexts fill and the
//! owner thread drains, and the write-once registry that holds the process's bridge.
//!
//! Each dispatch goes through these steps, in this order, while its caller holds
//! the serialization lock:
//! `submit` (the work enters the slot), a wake signal sent by the host
//! (`report_signal` records its outcome), `take_work` on the owner thread (the work
//! leaves the slot and runs there) and `complete_work` once it ran. The caller
//! meanwhile waits for its result; `result_of` says what it gets. A caller that
//! stops waiting does not stop the dispatch: its work still runs, and the result
//! is dropped.
use vstd::prelude::*;

verus! {

/// Why a dispatch, or access to the registry, failed.
#[derive(Clone, Copy, Debug, PartialEq, Eq, Structural)]
pub enum Error {
    /// The registry holds no dispatcher yet.
    NotInitialized,
    /// An internal lock's holder failed while holding it.
    LockPoisoned,
    /// The owner thread could not be woken; the work was withdrawn and never runs.
    SignalFailure,
    /// The owner side dropped the result sender without sending a result.
    ResultCanceled,
    /// The slot was not free when a dispatch tried to fill it. Dispatches that go
    /// through the serialization lock never see this.
    SlotOccupied,
}

/// Where the single in-flight dispatch stands.
#[derive(Clone, Copy, Debug, PartialEq, Eq, Structural)]
pub enum Stage {
    /// No dispatch is in flight and the slot is empty.
    Idle,
    /// Work waits in the slot for the owner thread.
    Pending,
    /// The owner thread took the work out of the slot and runs it.
    Running,
}

/// The abstract state of a dispatcher.
pub struct DispatchModel<W> {
    pub slot: Option<W>,
    pub stage: Stage,
    /// How many work items the owner thread has taken so far.
    pub executed: nat,
}

/// The state of a new dispatcher.
pub open spec fn initial_model<W>() -> DispatchModel<W> {
    DispatchModel { slot: None, stage: Stage::Idle, executed: 0 }
}

/// The slot holds work exactly while it is pending.
pub open spec fn model_wf<W>(m: DispatchModel<W>) -> bool {
    (m.stage == Stage::Pending) == (m.slot is Some)
}

/// Storing work: only an idle dispatcher accepts it.
pub open spec fn model_store<W>(m: DispatchModel<W>, w: W) -> DispatchModel<W> {
    if m.stage == Stage::Idle {
        DispatchModel { slot: Some(w), stage: Stage::Pending, executed: m.executed }
    } else {
        m
    }
}

/// Taking work on the owner thread: only pending work is handed out, once.
pub open spec fn model_take<W>(m: DispatchModel<W>) -> DispatchModel<W> {
    if m.stage == Stage::Pending {
        DispatchModel { slot: None, stage: Stage::Running, executed: m.executed + 1 }
    } else {
        m
    }
}

/// What the owner thread receives when it takes work.
pub open spec fn model_taken<W>(m: DispatchModel<W>) -> Option<W> {
    if m.stage == Stage::Pending {
        m.slot
    } else {
        None
    }
}

/// The owner thread is done with the work it took: the dispatcher is idle again.
pub open spec fn model_complete<W>(m: DispatchModel<W>) -> DispatchModel<W> {
    if m.stage == Stage::Running {
        DispatchModel { slot: None, stage: Stage::Idle, executed: m.executed }
    } else {
        m
    }
}

/// The wake signal failed: pending work is withdrawn, unrun, and the dispatcher
/// is idle again. Work that the owner thread took already is left to finish.
pub open spec fn model_withdraw<W>(m: DispatchModel<W>) -> DispatchModel<W> {
    if m.stage == Stage::Pending {
        DispatchModel { slot: None, stage: Stage::Idle, executed: m.executed }
    } else {
        m
    }
}

/// The bridge between calling contexts and the owner thread: the hand-off slot and
/// the host's wake handle `H`.
pub struct Dispatcher<W, H> {
    slot: Option<W>,
    stage: Stage,
    executed: Ghost<nat>,
    handle: H,
}

impl<W, H> View for Dispatcher<W, H> {
    type V = DispatchModel<W>;

    closed spec fn view(&self) -> DispatchModel<W> {
        DispatchModel { slot: self.slot, stage: self.stage, executed: self.executed@ }
    }
}

impl<W, H> Dispatcher<W, H> {
    pub closed spec fn spec_handle(&self) -> H {
        self.handle
    }

    pub closed spec fn wf(&self) -> bool {
        model_wf(self@)
    }

    /// A dispatcher with an empty slot that wakes the owner thread through `handle`.
    pub fn new(handle: H) -> (d: Self)
        ensures
            d@ == initial_model::<W>(),
            d.wf(),
            d.spec_handle() == handle,
    {
        Dispatcher { slot: None, stage: Stage::Idle, executed: Ghost(0), handle }
    }

    /// The host's wake handle.
    pub fn handle(&self) -> (h: &H)
        ensures
            *h == self.spec_handle(),
    {
        &self.handle
    }

    pub fn stage(&self) -> (s: Stage)
        ensures
            s == self@.stage,
    {
        self.stage
    }

    pub fn is_empty(&self) -> (b: bool)
        ensures
            b == (self@.slot is None),
    {
        self.slot.is_none()
    }

    /// Places `work` into the slot. Only an idle dispatcher accepts it; otherwise
    /// the dispatcher is left as it was and `work` is dropped unrun.
    pub fn store(&mut self, work: W) -> (r: Result<(), Error>)
        requires
            old(self).wf(),
        ensures
            final(self).wf(),
            final(self)@ == model_store(old(self)@, work),
            final(self).spec_handle() == old(self).spec_handle(),
            r is Ok <==> old(self)@.stage == Stage::Idle,
            r is Err ==> r == Err::<(), Error>(Error::SlotOccupied),
    {
        match self.stage {
            Stage::Idle => {
                self.slot = Some(work);
                self.stage = Stage::Pending;
                Ok(())
            },
            _ => Err(Error::SlotOccupied),
        }
    }

    /// Owner side: takes the pending work out of the slot. Gives `None`, and
    /// changes nothing, where no work is pending, in particular while earlier work
    /// still runs.
    pub fn take(&mut self) -> (r: Option<W>)
        requires
            old(self).wf(),
        ensures
            final(self).wf(),
            final(self)@ == model_take(old(self)@),
            r == model_taken(old(self)@),
            final(self).spec_handle() == old(self).spec_handle(),
    {
        match self.stage {
            Stage::Pending => {
                let w = self.slot.take();
                self.stage = Stage::Running;
                self.executed = Ghost(self.executed@ + 1);
                w
            },
            _ => None,
        }
    }

    /// Records whether the wake signal reached the owner thread. Where it did
    /// not, pending work is withdrawn and dropped unrun, and the dispatch fails with
    /// `SignalFailure`.
    pub fn report_signal(&mut self, sent: bool) -> (r: Result<(), Error>)
        requires
            old(self).wf(),
        ensures
            final(self).wf(),
            sent ==> final(self)@ == old(self)@ && r is Ok,
            !sent ==> final(self)@ == model_withdraw(old(self)@) && r == Err::<(), Error>(
                Error::SignalFailure,
            ),
            final(self).spec_handle() == old(self).spec_handle(),
    {
        if sent {
            Ok(())
        } else {
            if let Stage::Pending = self.stage {
                self.slot = None;
                self.stage = Stage::Idle;
            }
            Err(Error::SignalFailure)
        }
    }

    /// Owner side: the work taken last has run; the dispatcher is idle again.
    pub fn complete(&mut self)
        requires
            old(self).wf(),
        ensures
            final(self).wf(),
            final(self)@ == model_complete(old(self)@),
            final(self).spec_handle() == old(self).spec_handle(),
    {
        if let Stage::Running = self.stage {
            self.stage = Stage::Idle;
        }
    }
}

/// What a caller gets once it stops waiting: the result, where the owner side sent
/// one, else `ResultCanceled` (the sender was dropped unsent).
pub fn result_of<R>(received: Option<R>) -> (r: Result<R, Error>)
    ensures
        received matches Some(v) ==> r == Ok::<R, Error>(v),
        received is None ==> r == Err::<R, Error>(Error::ResultCanceled),
{
    match received {
        Some(v) => Ok(v),
        None => Err(Error::ResultCanceled),
    }
}

/// The registry's content after an attempt to install `v`.
pub open spec fn installed_after<T>(r: Option<T>, v: T) -> Option<T> {
    if r is None {
        Some(v)
    } else {
        r
    }
}

/// The registry's content after attempts to install each of `vs`, in order.
pub open spec fn installed_after_all<T>(r: Option<T>, vs: Seq<T>) -> Option<T>
    decreases vs.len(),
{
    if vs.len() == 0 {
        r
    } else {
        installed_after_all(installed_after(r, vs[0]), vs.drop_first())
    }
}

/// A process-wide, write-once holder: the first value installed stays for good.
pub struct Registry<T> {
    installed: Option<T>,
}

impl<T> View for Registry<T> {
    type V = Option<T>;

    closed spec fn view(&self) -> Option<T> {
        self.installed
    }
}

impl<T> Registry<T> {
    /// An empty registry.
    pub fn new() -> (r: Self)
        ensures
            r@ is None,
    {
        Registry { installed: None }
    }

    pub fn is_installed(&self) -> (b: bool)
        ensures
            b == (self@ is Some),
    {
        self.installed.is_some()
    }

    /// Installs `value` unless a value is installed already; the first caller wins
    /// and a later value is dropped. Returns whether `value` was installed.
    pub fn install(&mut self, value: T) -> (b: bool)
        ensures
            b == (old(self)@ is None),
            final(self)@ == installed_after(old(self)@, value),
    {
        if self.installed.is_some() {
            false
        } else {
            self.installed = Some(value);
            true
        }
    }

    /// The installed value, or `NotInitialized`.
    pub fn get(&self) -> (r: Result<&T, Error>)
        ensures
            self@ is None ==> r == Err::<&T, Error>(Error::NotInitialized),
            self@ is Some ==> r == Ok::<&T, Error>(&self@->Some_0),
    {
        match &self.installed {
            Some(v) => Ok(v),
            None => Err(Error::NotInitialized),
        }
    }
}

/// The registry's dispatcher is well formed, where there is one.
pub open spec fn registry_wf<W, H>(reg: Option<Dispatcher<W, H>>) -> bool {
    reg matches Some(d) ==> d.wf()
}

/// Installs a dispatcher that wakes the owner thread through `handle`, unless one
/// is installed already: then nothing changes and `handle` is dropped. Returns
/// whether this call installed it.
pub fn init_dispatcher<W, H>(registry: &mut Registry<Dispatcher<W, H>>, handle: H) -> (b: bool)
    requires
        registry_wf(old(registry)@),
    ensures
        registry_wf(final(registry)@),
        b == (old(registry)@ is None),
        b ==> (final(registry)@ matches Some(d) && d@ == initial_model::<W>()
            && d.spec_handle() == handle),
        !b ==> final(registry)@ == old(registry)@,
{
    if registry.is_installed() {
        false
    } else {
        registry.install(Dispatcher::new(handle))
    }
}

/// The installed dispatcher, or `NotInitialized`.
pub fn get_dispatcher<W, H>(registry: &Registry<Dispatcher<W, H>>) -> (r: Result<
    &Dispatcher<W, H>,
    Error,
>)
    ensures
        registry@ is None ==> r == Err::<&Dispatcher<W, H>, Error>(Error::NotInitialized),
        registry@ is Some ==> r == Ok::<&Dispatcher<W, H>, Error>(&registry@->Some_0),
{
    registry.get()
}

/// Caller side: places `work` into the installed dispatcher's slot. Before
/// initialization it fails with `NotInitialized` and changes nothing.
pub fn submit<W, H>(registry: &mut Registry<Dispatcher<W, H>>, work: W) -> (r: Result<(), Error>)
    requires
        registry_wf(old(registry)@),
    ensures
        registry_wf(final(registry)@),
        old(registry)@ is None ==> r == Err::<(), Error>(Error::NotInitialized)
            && final(registry)@ == old(registry)@,
        old(registry)@ matches Some(d) ==> {
            &&& final(registry)@ matches Some(e)
            &&& e@ == model_store(d@, work)
            &&& e.spec_handle() == d.spec_handle()
            &&& r is Ok <==> d@.stage == Stage::Idle
            &&& r is Err ==> r == Err::<(), Error>(Error::SlotOccupied)
        },
{
    match &mut registry.installed {
        Some(d) => d.store(work),
        None => Err(Error::NotInitialized),
    }
}

/// Owner side, once per wake delivery: takes the pending work out of the slot.
/// `None` where there is no dispatcher or no pending work.
pub fn take_work<W, H>(registry: &mut Registry<Dispatcher<W, H>>) -> (r: Option<W>)
    requires
        registry_wf(old(registry)@),
    ensures
        registry_wf(final(registry)@),
        old(registry)@ is None ==> r is None && final(registry)@ == old(registry)@,
        old(registry)@ matches Some(d) ==> {
            &&& final(registry)@ matches Some(e)
            &&& e@ == model_take(d@)
            &&& e.spec_handle() == d.spec_handle()
            &&& r == model_taken(d@)
        },
{
    match &mut registry.installed {
        Some(d) => d.take(),
        None => None,
    }
}

/// Caller side: records whether the wake signal was sent (see
/// `Dispatcher::report_signal`).
pub fn report_signal<W, H>(registry: &mut Registry<Dispatcher<W, H>>, sent: bool) -> (r: Result<
    (),
    Error,
>)
    requires
        registry_wf(old(registry)@),
    ensures
        registry_wf(final(registry)@),
        old(registry)@ is None ==> r == Err::<(), Error>(Error::NotInitialized)
            && final(registry)@ == old(registry)@,
        old(registry)@ matches Some(d) ==> {
            &&& final(registry)@ matches Some(e)
            &&& e.spec_handle() == d.spec_handle()
            &&& sent ==> e@ == d@ && r is Ok
            &&& !sent ==> e@ == model_withdraw(d@) && r == Err::<(), Error>(Error::SignalFailure)
        },
{
    match &mut registry.installed {
        Some(d) => d.report_signal(sent),
        None => Err(Error::NotInitialized),
    }
}

/// Owner side: the work taken last has run (see `Dispatcher::complete`).
pub fn complete_work<W, H>(registry: &mut Registry<Dispatcher<W, H>>)
    requires
        registry_wf(old(registry)@),
    ensures
        registry_wf(final(registry)@),
        old(registry)@ is None ==> final(registry)@ == old(registry)@,
        old(registry)@ matches Some(d) ==> {
            &&& final(registry)@ matches Some(e)
            &&& e.spec_handle() == d.spec_handle()
            &&& e@ == model_complete(d@)
        },
{
    match &mut registry.installed {
        Some(d) => d.complete(),
        None => {},
    }
}

/// The state after complete dispatches of each of `ws`, one after another: each
/// stores its work, and the owner thread takes it, runs it and completes it.
pub open spec fn serve_all<W>(m: DispatchModel<W>, ws: Seq<W>) -> DispatchModel<W>
    decreases ws.len(),
{
    if ws.len() == 0 {
        m
    } else {
        serve_all(model_complete(model_take(model_store(m, ws[0]))), ws.drop_first())
    }
}

/// What the owner thread receives in each of the dispatches of `serve_all(m, ws)`.
pub open spec fn handed_out<W>(m: DispatchModel<W>, ws: Seq<W>) -> Seq<Option<W>>
    decreases ws.len(),
{
    if ws.len() == 0 {
        Seq::empty()
    } else {
        seq![model_taken(model_store(m, ws[0]))].add(
            handed_out(model_complete(model_take(model_store(m, ws[0]))), ws.drop_first()),
        )
    }
}

/// Serialized dispatches of `ws` from an idle dispatcher: the owner thread receives
/// exactly the work of each dispatch, in turn, so no result can reach another
/// caller; there is one execution per dispatch; and the dispatcher ends idle.
pub proof fn lemma_each_dispatch_runs_its_own_work<W>(m: DispatchModel<W>, ws: Seq<W>)
    requires
        model_wf(m),
        m.stage == Stage::Idle,
    ensures
        handed_out(m, ws) == ws.map_values(|w: W| Some(w)),
        serve_all(m, ws).executed == m.executed + ws.len(),
        serve_all(m, ws).stage == Stage::Idle,
        serve_all(m, ws).slot is None,
    decreases ws.len(),
{
    if ws.len() > 0 {
        let next = model_complete(model_take(model_store(m, ws[0])));
        lemma_each_dispatch_runs_its_own_work(next, ws.drop_first());
        assert(handed_out(m, ws) =~= ws.map_values(|w: W| Some(w)));
    } else {
        assert(handed_out(m, ws) =~= ws.map_values(|w: W| Some(w)));
    }
}

/// Executions never overlap: while work runs on the owner thread, no other work
/// can be taken, and no new work can enter the slot.
pub proof fn lemma_no_overlap<W>(m: DispatchModel<W>, w: W)
    requires
        model_wf(m),
    ensures
        model_taken(model_take(m)) is None,
        model_take(model_take(m)) == model_take(m),
        m.stage == Stage::Running ==> model_take(m) == m && model_store(m, w) == m,
{
}

/// However many attempts install a value, the registry keeps the first one; an
/// attempt on a filled registry changes nothing.
pub proof fn lemma_first_install_wins<T>(vs: Seq<T>, r: Option<T>)
    requires
        vs.len() > 0,
    ensures
        installed_after_all(None, vs) == Some(vs[0]),
        r is Some ==> installed_after_all(r, vs) == r,
    decreases vs.len(),
{
    lemma_installed_stays(Some(vs[0]), vs.drop_first());
    if r is Some {
        lemma_installed_stays(r, vs);
    }
}

proof fn lemma_installed_stays<T>(r: Option<T>, vs: Seq<T>)
    requires
        r is Some,
    ensures
        installed_after_all(r, vs) == r,
    decreases vs.len(),
{
    if vs.len() > 0 {
        lemma_installed_stays(r, vs.drop_first());
    }
}

/// A dispatch whose wake signal fails ends at once: its work is withdrawn unrun,
/// no execution is counted, and the dispatcher is idle with an empty slot, ready
/// for the next dispatch. (A caller whose result sender is dropped unsent gets
/// `ResultCanceled` from `result_of`.)
pub proof fn lemma_failed_signal_resolves<W>(m: DispatchModel<W>, w: W)
    requires
        model_wf(m),
        m.stage == Stage::Idle,
    ensures
        model_withdraw(model_store(m, w)).stage == Stage::Idle,
        model_withdraw(model_store(m, w)).slot is None,
        model_withdraw(model_store(m, w)).executed == m.executed,
        model_taken(model_withdraw(model_store(m, w))) is None,
{
}

} // verus!

//! The callback bridge: a table that hands out integer handles for stored
//! callbacks, and the single slot of the tick callback.
//!
//! The host knows a callback only by its handle, and cannot be told to let
//! one go, so nothing is ever removed. Both the table and the slot are plain
//! values here; the program keeps one of each for the life of the process.

use vstd::prelude::*;

verus! {

/// An append-only table of callbacks. A handle is the index at which a
/// callback was stored; no entry is ever removed or replaced.
pub struct CallbackRegistry<F> {
    entries: Vec<F>,
}

impl<F> View for CallbackRegistry<F> {
    type V = Seq<F>;

    closed spec fn view(&self) -> Seq<F> {
        self.entries@
    }
}

/// What one registration does to a table: the table afterwards, and the
/// handle given out.
pub open spec fn register_step<F>(table: Seq<F>, callback: F) -> (Seq<F>, int) {
    (table.push(callback), table.len() as int)
}

/// The table after registering `callbacks` one after the other.
pub open spec fn table_after<F>(table: Seq<F>, callbacks: Seq<F>) -> Seq<F>
    decreases callbacks.len(),
{
    if callbacks.len() == 0 {
        table
    } else {
        register_step(table_after(table, callbacks.drop_last()), callbacks.last()).0
    }
}

/// The handles given out while registering `callbacks` one after the other.
pub open spec fn handles_after<F>(table: Seq<F>, callbacks: Seq<F>) -> Seq<int>
    decreases callbacks.len(),
{
    if callbacks.len() == 0 {
        Seq::empty()
    } else {
        handles_after(table, callbacks.drop_last()).push(
            register_step(table_after(table, callbacks.drop_last()), callbacks.last()).1,
        )
    }
}

impl<F> CallbackRegistry<F> {
    /// A table with no callback.
    pub fn new() -> (registry: Self)
        ensures
            registry@ == Seq::<F>::empty(),
    {
        CallbackRegistry { entries: Vec::new() }
    }

    /// The number of callbacks stored, which is the next handle.
    pub fn len(&self) -> (n: usize)
        ensures
            n == self@.len(),
    {
        self.entries.len()
    }

    /// Tells whether `handle` was given out by this table.
    pub fn contains(&self, handle: usize) -> (known: bool)
        ensures
            known == (handle < self@.len()),
    {
        handle < self.entries.len()
    }

    /// Stores `callback` behind the others and returns its handle, the
    /// number of callbacks stored before.
    pub fn register(&mut self, callback: F) -> (handle: usize)
        ensures
            (final(self)@, handle as int) == register_step(old(self)@, callback),
    {
        self.entries.push(callback);
        self.entries.len() - 1
    }

    /// The callback behind `handle`.
    pub fn get(&self, handle: usize) -> (callback: &F)
        requires
            handle < self@.len(),
        ensures
            *callback == self@[handle as int],
    {
        &self.entries[handle]
    }

    /// Calls the callback behind `handle` with a click event, if the handle
    /// was given out by this table. For a handle that was not, no callback
    /// is called and there is no answer: the caller has to stop on `None`.
    pub fn dispatch<E>(&self, handle: usize, event_type: i32, event: &E) -> (answer: Option<
        bool,
    >) where F: Fn(i32, &E) -> bool
        requires
            handle < self@.len() ==> call_requires(self@[handle as int], (event_type, event)),
        ensures
            answer is Some == (handle < self@.len()),
            answer matches Some(said) ==> call_ensures(
                self@[handle as int],
                (event_type, event),
                said,
            ),
    {
        if self.contains(handle) {
            Some(self.invoke(handle, event_type, event))
        } else {
            None
        }
    }

    /// Calls the callback behind `handle` with a click event and hands on
    /// what it answers: whether the host's default action is to go on.
    pub fn invoke<E>(&self, handle: usize, event_type: i32, event: &E) -> (answer: bool) where
        F: Fn(i32, &E) -> bool,

        requires
            handle < self@.len(),
            call_requires(self@[handle as int], (event_type, event)),
        ensures
            call_ensures(self@[handle as int], (event_type, event), answer),
    {
        (self.entries[handle])(event_type, event)
    }
}

/// Registering `callbacks` one after the other appends them in order, and
/// the handles given out count up by one from the size the table had. On an
/// empty table the `k`-th registration gets handle `k`.
pub proof fn lemma_handles_count_up<F>(table: Seq<F>, callbacks: Seq<F>)
    ensures
        table_after(table, callbacks) == table + callbacks,
        handles_after(table, callbacks).len() == callbacks.len(),
        forall|k: int|
            0 <= k < callbacks.len() ==> #[trigger] handles_after(table, callbacks)[k]
                == table.len() + k,
    decreases callbacks.len(),
{
    if callbacks.len() > 0 {
        lemma_handles_count_up(table, callbacks.drop_last());
        assert(table + callbacks =~= (table + callbacks.drop_last()).push(callbacks.last()));
    } else {
        assert(table + callbacks =~= table);
    }
}

/// The handles given out by any run of registrations are strictly
/// increasing, hence distinct.
pub proof fn lemma_handles_increase<F>(table: Seq<F>, callbacks: Seq<F>, i: int, j: int)
    requires
        0 <= i < j < callbacks.len(),
    ensures
        handles_after(table, callbacks)[i] < handles_after(table, callbacks)[j],
{
    lemma_handles_count_up(table, callbacks);
}

/// After registering `callbacks` on an empty table, the handles that the
/// table knows are those below their number, and no other: a handle at or
/// above it stands for no callback.
pub proof fn lemma_only_given_handles_are_known<F>(callbacks: Seq<F>, handle: int)
    requires
        0 <= handle,
    ensures
        handle < table_after(Seq::<F>::empty(), callbacks).len() <==> handle < callbacks.len(),
        handle < callbacks.len() ==> table_after(Seq::<F>::empty(), callbacks)[handle]
            == callbacks[handle],
{
    lemma_handles_count_up(Seq::<F>::empty(), callbacks);
}

/// A handle stays good: whatever is registered later, the callback behind
/// a handle given out before is the one that was stored with it.
pub proof fn lemma_handles_stay_valid<F>(table: Seq<F>, callbacks: Seq<F>, handle: int)
    requires
        0 <= handle < table.len(),
    ensures
        handle < table_after(table, callbacks).len(),
        table_after(table, callbacks)[handle] == table[handle],
{
    lemma_handles_count_up(table, callbacks);
}

/// What the host is asked for when a click callback is bound: to forward
/// the clicks on `target` to the program, together with `handle`.
#[derive(Debug, PartialEq, Eq)]
pub struct ClickBinding {
    /// The selector of the element whose clicks are wanted.
    pub target: String,
    /// The handle of the callback, which the host hands back with each click.
    pub handle: usize,
}

/// Binds `callback` to the clicks on `target`: stores the callback in the
/// table and returns what to ask of the host. Each call makes an entry of
/// its own, for a target that was bound before as for any other.
pub fn bind<F>(registry: &mut CallbackRegistry<F>, target: &str, callback: F) -> (request:
    ClickBinding)
    ensures
        (final(registry)@, request.handle as int) == register_step(old(registry)@, callback),
        request.target@ == target@,
{
    let handle = registry.register(callback);
    ClickBinding { target: target.to_owned(), handle }
}

/// Why the host did not bind a click callback.
#[derive(Debug, Clone, Copy, PartialEq, Eq, Structural)]
pub enum BindError {
    /// The host answered the request with a negative status.
    HostRefused { status: i32 },
}

/// Judges the host's answer to a request to forward clicks to `handle`: a
/// status that is not negative confirms the handle, a negative one is an
/// error. The callback stays in the table either way.
pub fn bind_outcome(handle: usize, status: i32) -> (out: Result<usize, BindError>)
    ensures
        out == if status >= 0 {
            Ok::<usize, BindError>(handle)
        } else {
            Err::<usize, BindError>(BindError::HostRefused { status })
        },
{
    if status >= 0 {
        Ok(handle)
    } else {
        Err(BindError::HostRefused { status })
    }
}

/// The slot of the tick callback: empty until it is armed, and armed at
/// most once.
pub struct MainLoopSlot<F> {
    func: Option<F>,
}

impl<F> View for MainLoopSlot<F> {
    type V = Option<F>;

    closed spec fn view(&self) -> Option<F> {
        self.func
    }
}

/// Whether a slot in state `slot` may be armed.
pub open spec fn may_arm<F>(slot: Option<F>) -> bool {
    slot is None
}

/// The state of a slot after arming it with `func`.
pub open spec fn armed_with<F>(func: F) -> Option<F> {
    Some(func)
}

impl<F> MainLoopSlot<F> {
    /// An empty slot.
    pub fn new() -> (slot: Self)
        ensures
            slot@ == None::<F>,
    {
        MainLoopSlot { func: None }
    }

    /// Tells whether the slot holds a callback.
    pub fn is_armed(&self) -> (armed: bool)
        ensures
            armed == !may_arm(self@),
    {
        self.func.is_some()
    }

    /// Arms the slot with `func`. The slot must be empty: arming twice is an
    /// error of the program, which the caller has to stop on.
    pub fn arm(&mut self, func: F)
        requires
            may_arm(old(self)@),
        ensures
            final(self)@ == armed_with(func),
    {
        self.func = Some(func);
    }

    /// Runs one tick: calls the callback if the slot is armed, and does
    /// nothing otherwise.
    pub fn tick(&self) where F: Fn() -> ()
        requires
            self@ matches Some(func) ==> call_requires(func, ()),
        ensures
            self@ matches Some(func) ==> call_ensures(func, (), ()),
    {
        match &self.func {
            Some(func) => func(),
            None => {},
        }
    }
}

/// Arming is single-shot: a slot that has been armed may not be armed again,
/// whatever it held before and whatever it was armed with.
pub proof fn lemma_arm_is_single_shot<F>(func: F)
    ensures
        !may_arm(armed_with(func)),
{
}

} // verus!

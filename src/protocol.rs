use vstd::prelude::*;

use crate::status::{
    c_text_ok, is_c_text, Error, MPV_ERROR_GENERIC, MPV_ERROR_INVALID_PARAMETER, MPV_ERROR_SUCCESS,
    MPV_ERROR_UNSUPPORTED,
};

verus! {

/// How an application callback ended: with a value, or abnormally (the
/// callback gave up; in a language with unwinding, it panicked).
#[derive(Debug, PartialEq, Eq)]
pub enum Outcome<X> {
    Done(X),
    Aborted,
}

/// Status that the read entry point hands the engine for a read outcome.
pub open spec fn read_status(o: Outcome<i64>) -> i64 {
    match o {
        Outcome::Done(n) => n,
        Outcome::Aborted => -1i64,
    }
}

/// Status that the seek entry point hands the engine for a seek outcome.
pub open spec fn seek_status(o: Outcome<i64>) -> i64 {
    match o {
        Outcome::Done(n) => n,
        Outcome::Aborted => MPV_ERROR_GENERIC as i64,
    }
}

/// Status that the size entry point hands the engine for a size outcome.
pub open spec fn size_status(o: Outcome<i64>) -> i64 {
    match o {
        Outcome::Done(n) => n,
        Outcome::Aborted => MPV_ERROR_UNSUPPORTED as i64,
    }
}

/// What a registration returns for the status code of the engine's answer.
pub open spec fn registration_result(code: i32) -> Result<(), Error> {
    if code == MPV_ERROR_SUCCESS {
        Ok(())
    } else if code == MPV_ERROR_INVALID_PARAMETER {
        Err(Error::DuplicateScheme)
    } else {
        Err(Error::Raw(code))
    }
}

/// Maps the outcome of a read callback to the engine's status: the byte count
/// as returned, or `-1` where the callback aborted.
pub fn read_reply(o: Outcome<i64>) -> (r: i64)
    ensures
        r == read_status(o),
{
    match o {
        Outcome::Done(n) => n,
        Outcome::Aborted => -1,
    }
}

/// Maps the outcome of a seek callback to the engine's status: the position as
/// returned, or the generic error where the callback aborted.
pub fn seek_reply(o: Outcome<i64>) -> (r: i64)
    ensures
        r == seek_status(o),
{
    match o {
        Outcome::Done(n) => n,
        Outcome::Aborted => MPV_ERROR_GENERIC as i64,
    }
}

/// Maps the outcome of a size callback to the engine's status: the size as
/// returned, or "unsupported" where the callback aborted.
pub fn size_reply(o: Outcome<i64>) -> (r: i64)
    ensures
        r == size_status(o),
{
    match o {
        Outcome::Done(n) => n,
        Outcome::Aborted => MPV_ERROR_UNSUPPORTED as i64,
    }
}

/// Maps the engine's answer to a registration request: success, a duplicate
/// name, or any other status code.
pub fn registration_reply(code: i32) -> (r: Result<(), Error>)
    ensures
        r == registration_result(code),
{
    if code == MPV_ERROR_SUCCESS {
        Ok(())
    } else if code == MPV_ERROR_INVALID_PARAMETER {
        Err(Error::DuplicateScheme)
    } else {
        Err(Error::Raw(code))
    }
}

/// Whether slot `h` of an instance table holds a live instance.
pub open spec fn live<T>(instances: Seq<Option<T>>, h: int) -> bool {
    0 <= h < instances.len() && instances[h] is Some
}

/// Runs an open callback; what it is known to have done is its `ensures`.
fn run_open<T, U, O: Fn(&mut U, &str) -> Outcome<T>>(f: &O, u: &mut U, uri: &str) -> (o: Outcome<T>)
    requires
        forall|v: &mut U, s: &str| #[trigger] f.requires((v, s)),
    ensures
        exists|v: &mut U, s: &str|
            *v == *old(u) && *final(v) == *final(u) && s@ == uri@ && f.ensures((v, s), o),
{
    f(u, uri)
}

/// Runs a read callback on the state in slot `h` of `slots`; what it is known
/// to have done is its `ensures`.
fn run_read<T, R: Fn(&mut T, &mut [u8]) -> Outcome<i64>>(
    f: &R,
    slots: &mut Vec<Option<T>>,
    h: usize,
    buf: &mut [u8],
) -> (o: Outcome<i64>)
    requires
        forall|v: &mut T, b: &mut [u8]| #[trigger] f.requires((v, b)),
        live(old(slots)@, h as int),
    ensures
        exists|v: &mut T, b: &mut [u8]|
            *v == old(slots)@[h as int]->Some_0 && b@ == old(buf)@ && final(b)@ == final(buf)@
                && f.ensures((v, b), o) && final(slots)@ == old(slots)@.update(
                h as int,
                Some(*final(v)),
            ),
{
    match &mut slots[h] {
        Some(st) => f(st, buf),
        None => Outcome::Aborted,
    }
}

/// Runs a seek callback on the state in slot `h` of `slots`; what it is known
/// to have done is its `ensures`.
fn run_seek<T, S: Fn(&mut T, i64) -> Outcome<i64>>(
    f: &S,
    slots: &mut Vec<Option<T>>,
    h: usize,
    offset: i64,
) -> (o: Outcome<i64>)
    requires
        forall|v: &mut T, n: i64| #[trigger] f.requires((v, n)),
        live(old(slots)@, h as int),
    ensures
        exists|v: &mut T|
            *v == old(slots)@[h as int]->Some_0 && f.ensures((v, offset), o) && final(slots)@
                == old(slots)@.update(h as int, Some(*final(v))),
{
    match &mut slots[h] {
        Some(st) => f(st, offset),
        None => Outcome::Aborted,
    }
}

/// Runs a size callback on the state in slot `h` of `slots`; what it is known
/// to have done is its `ensures`.
fn run_size<T, Z: Fn(&mut T) -> Outcome<i64>>(f: &Z, slots: &mut Vec<Option<T>>, h: usize) -> (o:
    Outcome<i64>)
    requires
        forall|v: &mut T| #[trigger] f.requires((v,)),
        live(old(slots)@, h as int),
    ensures
        exists|v: &mut T|
            *v == old(slots)@[h as int]->Some_0 && f.ensures((v,), o) && final(slots)@
                == old(slots)@.update(h as int, Some(*final(v))),
{
    match &mut slots[h] {
        Some(st) => f(st),
        None => Outcome::Aborted,
    }
}

/// A custom stream protocol: the callbacks and shared context of one scheme
/// name, and the table of the stream instances the engine has opened through it.
///
/// `T` is the state of one opened stream, `U` the context shared by all opens.
/// The handle of an instance is its slot in the table; slots are never reused,
/// so a handle that was closed never reaches another instance. Each instance
/// owns its state alone; the context is shared and lent to one open at a time.
/// The methods take `&mut self`, so an engine that calls from several threads
/// needs one lock around the protocol.
#[verifier::reject_recursive_types(T)]
#[verifier::reject_recursive_types(U)]
pub struct Protocol<T, U, O, C, R, S, Z> where
    O: Fn(&mut U, &str) -> Outcome<T>,
    C: Fn(Box<T>) -> Outcome<()>,
    R: Fn(&mut T, &mut [u8]) -> Outcome<i64>,
    S: Fn(&mut T, i64) -> Outcome<i64>,
    Z: Fn(&mut T) -> Outcome<i64>,
 {
    name: String,
    user_data: U,
    open_fn: O,
    close_fn: C,
    read_fn: R,
    seek_fn: Option<S>,
    size_fn: Option<Z>,
    instances: Vec<Option<T>>,
    registered: bool,
}

impl<T, U, O, C, R, S, Z> Protocol<T, U, O, C, R, S, Z> where
    O: Fn(&mut U, &str) -> Outcome<T>,
    C: Fn(Box<T>) -> Outcome<()>,
    R: Fn(&mut T, &mut [u8]) -> Outcome<i64>,
    S: Fn(&mut T, i64) -> Outcome<i64>,
    Z: Fn(&mut T) -> Outcome<i64>,
 {
    /// The scheme name: locators `name://...` are routed to this protocol.
    pub closed spec fn name(&self) -> Seq<char> {
        self.name@
    }

    /// The context handed to every open.
    pub closed spec fn user_data(&self) -> U {
        self.user_data
    }

    pub closed spec fn open_callback(&self) -> O {
        self.open_fn
    }

    pub closed spec fn close_callback(&self) -> C {
        self.close_fn
    }

    pub closed spec fn read_callback(&self) -> R {
        self.read_fn
    }

    pub closed spec fn seek_callback(&self) -> Option<S> {
        self.seek_fn
    }

    pub closed spec fn size_callback(&self) -> Option<Z> {
        self.size_fn
    }

    /// The instance table: slot `h` holds the state of instance `h` while it is
    /// open, and `None` once it has been closed.
    pub closed spec fn instances(&self) -> Seq<Option<T>> {
        self.instances@
    }

    /// Whether the engine accepted the registration of this protocol.
    pub closed spec fn is_registered(&self) -> bool {
        self.registered
    }

    /// Every callback may be called on every argument.
    pub closed spec fn wf(&self) -> bool {
        &&& forall|u: &mut U, s: &str| #[trigger] self.open_fn.requires((u, s))
        &&& forall|t: Box<T>| #[trigger] self.close_fn.requires((t,))
        &&& forall|t: &mut T, b: &mut [u8]| #[trigger] self.read_fn.requires((t, b))
        &&& self.seek_fn is Some ==> forall|t: &mut T, n: i64|
            #[trigger] self.seek_fn->Some_0.requires((t, n))
        &&& self.size_fn is Some ==> forall|t: &mut T| #[trigger] self.size_fn->Some_0.requires((t,))
    }

    /// `self` has the name, callbacks and registration of `other`.
    pub open spec fn same_registration(&self, other: Self) -> bool {
        &&& self.name() == other.name()
        &&& self.open_callback() == other.open_callback()
        &&& self.close_callback() == other.close_callback()
        &&& self.read_callback() == other.read_callback()
        &&& self.seek_callback() == other.seek_callback()
        &&& self.size_callback() == other.size_callback()
        &&& self.is_registered() == other.is_registered()
    }

    /// `name` is the prefix of the protocol, as in `name://path`; `user_data` is
    /// handed to every call of `open_fn`. Seeking and size queries are supported
    /// only where `seek_fn` and `size_fn` are given.
    pub fn new(
        name: String,
        user_data: U,
        open_fn: O,
        close_fn: C,
        read_fn: R,
        seek_fn: Option<S>,
        size_fn: Option<Z>,
    ) -> (r: Self)
        requires
            forall|u: &mut U, s: &str| #[trigger] open_fn.requires((u, s)),
            forall|t: Box<T>| #[trigger] close_fn.requires((t,)),
            forall|t: &mut T, b: &mut [u8]| #[trigger] read_fn.requires((t, b)),
            seek_fn is Some ==> forall|t: &mut T, n: i64| #[trigger] seek_fn->Some_0.requires((t, n)),
            size_fn is Some ==> forall|t: &mut T| #[trigger] size_fn->Some_0.requires((t,)),
        ensures
            r.wf(),
            r.name() == name@,
            r.user_data() == user_data,
            r.open_callback() == open_fn,
            r.close_callback() == close_fn,
            r.read_callback() == read_fn,
            r.seek_callback() == seek_fn,
            r.size_callback() == size_fn,
            r.instances() == Seq::<Option<T>>::empty(),
            !r.is_registered(),
    {
        Protocol {
            name,
            user_data,
            open_fn,
            close_fn,
            read_fn,
            seek_fn,
            size_fn,
            instances: Vec::new(),
            registered: false,
        }
    }

    /// Whether the engine accepted the registration of this protocol.
    pub fn registered(&self) -> (r: bool)
        ensures
            r == self.is_registered(),
    {
        self.registered
    }

    /// Whether `handle` names an instance that is open.
    pub fn is_open(&self, handle: usize) -> (r: bool)
        ensures
            r == live(self.instances(), handle as int),
    {
        handle < self.instances.len() && self.instances[handle].is_some()
    }

    /// Registers the protocol with the engine. `add_ro` is the engine's
    /// registration call: it receives the scheme name and returns the engine's
    /// status code. A name that holds a NUL character is refused before the
    /// engine is asked; a name the engine already knows gives `DuplicateScheme`.
    pub fn register<F: FnOnce(&str) -> i32>(&mut self, add_ro: F) -> (r: Result<(), Error>)
        requires
            old(self).wf(),
            forall|s: &str| #[trigger] add_ro.requires((s,)),
        ensures
            final(self).wf(),
            final(self).name() == old(self).name(),
            final(self).user_data() == old(self).user_data(),
            final(self).open_callback() == old(self).open_callback(),
            final(self).close_callback() == old(self).close_callback(),
            final(self).read_callback() == old(self).read_callback(),
            final(self).seek_callback() == old(self).seek_callback(),
            final(self).size_callback() == old(self).size_callback(),
            final(self).instances() == old(self).instances(),
            !is_c_text(old(self).name()) ==> r == Err::<(), Error>(Error::InvalidName)
                && final(self).is_registered() == old(self).is_registered(),
            is_c_text(old(self).name()) ==> exists|s: &str, code: i32|
                s@ == old(self).name() && add_ro.ensures((s,), code) && r == registration_result(
                    code,
                ) && final(self).is_registered() == (old(self).is_registered() || code
                    == MPV_ERROR_SUCCESS),
    {
        if !c_text_ok(self.name.as_str()) {
            return Err(Error::InvalidName);
        }
        let code = add_ro(self.name.as_str());
        if code == MPV_ERROR_SUCCESS {
            self.registered = true;
        }
        registration_reply(code)
    }

    /// Opens a stream instance for the locator `uri` (scheme prefix included):
    /// runs the open callback on the shared context and, where it completes,
    /// stores the state it returned under a fresh handle. Where it aborts no
    /// instance exists and the engine is told of a generic failure.
    pub fn open(&mut self, uri: &str) -> (r: Result<usize, i32>)
        requires
            old(self).wf(),
        ensures
            final(self).wf(),
            final(self).same_registration(*old(self)),
            table_step(old(self).instances(), final(self).instances()),
            exists|u: &mut U, s: &str, o: Outcome<T>|
                *u == old(self).user_data() && *final(u) == final(self).user_data() && s@ == uri@
                    && old(self).open_callback().ensures((u, s), o) && match o {
                    Outcome::Done(t) => r is Ok && r->Ok_0 == old(self).instances().len()
                        && final(self).instances() == old(self).instances().push(Some(t)),
                    Outcome::Aborted => r == Err::<usize, i32>(MPV_ERROR_GENERIC)
                        && final(self).instances() == old(self).instances(),
                },
    {
        let o = run_open(&self.open_fn, &mut self.user_data, uri);
        let ghost og = o;
        let ghost w = choose|v: &mut U, s: &str|
            *v == old(self).user_data && *final(v) == self.user_data && s@ == uri@
                && self.open_fn.ensures((v, s), og);
        let r = match o {
            Outcome::Done(t) => {
                let h = self.instances.len();
                self.instances.push(Some(t));
                Ok(h)
            },
            Outcome::Aborted => Err(MPV_ERROR_GENERIC),
        };
        assert(old(self).open_callback().ensures((w.0, w.1), og));
        assert(match og {
                    Outcome::Done(t) => r is Ok && r->Ok_0 == old(self).instances().len()
                        && self.instances() == old(self).instances().push(Some(t)),
                    Outcome::Aborted => r == Err::<usize, i32>(MPV_ERROR_GENERIC)
                        && self.instances() == old(self).instances(),
                });
        r
    }

    /// Reads from instance `handle` into `buf`: the read callback's byte count
    /// (`0` at the end of the stream, negative on error), or `-1` where it
    /// aborted. A handle that is not open gets `-1` and no callback runs.
    pub fn read(&mut self, handle: usize, buf: &mut [u8]) -> (r: i64)
        requires
            old(self).wf(),
        ensures
            final(self).wf(),
            final(self).same_registration(*old(self)),
            table_step(old(self).instances(), final(self).instances()),
            final(self).user_data() == old(self).user_data(),
            !live(old(self).instances(), handle as int) ==> r == -1 && final(self).instances()
                == old(self).instances() && final(buf)@ == old(buf)@,
            live(old(self).instances(), handle as int) ==> exists|
                t: &mut T,
                b: &mut [u8],
                o: Outcome<i64>,
            |
                *t == old(self).instances()[handle as int]->Some_0 && b@ == old(buf)@ && final(b)@
                    == final(buf)@ && old(self).read_callback().ensures((t, b), o) && r
                    == read_status(o) && final(self).instances() == old(self).instances().update(
                    handle as int,
                    Some(*final(t)),
                ),
    {
        if handle >= self.instances.len() {
            return -1;
        }
        if self.instances[handle].is_none() {
            return -1;
        }
        let o = run_read(&self.read_fn, &mut self.instances, handle, buf);
        let ghost og = o;
        let r = read_reply(o);
        proof {
            let w = choose|v: &mut T, b: &mut [u8]|
                *v == old(self).instances@[handle as int]->Some_0 && b@ == old(buf)@ && final(b)@
                    == final(buf)@ && self.read_fn.ensures((v, b), og) && self.instances@
                    == old(self).instances@.update(handle as int, Some(*final(v)));
            assert(old(self).read_callback().ensures((w.0, w.1), og));
            assert(r == read_status(og));
        }
        r
    }

    /// Moves instance `handle` to the absolute byte position `offset`: the
    /// position the seek callback returns, or the generic error where it aborted.
    /// Without a seek callback the answer is "unsupported" and no callback runs;
    /// a handle that is not open gets the generic error.
    pub fn seek(&mut self, handle: usize, offset: i64) -> (r: i64)
        requires
            old(self).wf(),
        ensures
            final(self).wf(),
            final(self).same_registration(*old(self)),
            table_step(old(self).instances(), final(self).instances()),
            final(self).user_data() == old(self).user_data(),
            old(self).seek_callback() is None ==> r == MPV_ERROR_UNSUPPORTED as i64
                && final(self).instances() == old(self).instances(),
            old(self).seek_callback() is Some && !live(old(self).instances(), handle as int) ==> r
                == MPV_ERROR_GENERIC as i64 && final(self).instances() == old(self).instances(),
            old(self).seek_callback() is Some && live(old(self).instances(), handle as int)
                ==> exists|t: &mut T, o: Outcome<i64>|
                *t == old(self).instances()[handle as int]->Some_0
                    && old(self).seek_callback()->Some_0.ensures((t, offset), o) && r
                    == seek_status(o) && final(self).instances() == old(self).instances().update(
                    handle as int,
                    Some(*final(t)),
                ),
    {
        match &self.seek_fn {
            None => MPV_ERROR_UNSUPPORTED as i64,
            Some(f) => {
                if handle >= self.instances.len() || self.instances[handle].is_none() {
                    return MPV_ERROR_GENERIC as i64;
                }
                let o = run_seek(f, &mut self.instances, handle, offset);
                seek_reply(o)
            },
        }
    }

    /// The total size in bytes of instance `handle`, as the size callback
    /// returns it, or "unsupported" where it aborted. Without a size callback,
    /// and for a handle that is not open, the answer is "unsupported" and no
    /// callback runs.
    pub fn size(&mut self, handle: usize) -> (r: i64)
        requires
            old(self).wf(),
        ensures
            final(self).wf(),
            final(self).same_registration(*old(self)),
            table_step(old(self).instances(), final(self).instances()),
            final(self).user_data() == old(self).user_data(),
            (old(self).size_callback() is None || !live(old(self).instances(), handle as int)) ==> r
                == MPV_ERROR_UNSUPPORTED as i64 && final(self).instances() == old(self).instances(),
            old(self).size_callback() is Some && live(old(self).instances(), handle as int)
                ==> exists|t: &mut T, o: Outcome<i64>|
                *t == old(self).instances()[handle as int]->Some_0
                    && old(self).size_callback()->Some_0.ensures((t,), o) && r == size_status(o)
                    && final(self).instances() == old(self).instances().update(
                    handle as int,
                    Some(*final(t)),
                ),
    {
        match &self.size_fn {
            None => MPV_ERROR_UNSUPPORTED as i64,
            Some(f) => {
                if handle >= self.instances.len() || self.instances[handle].is_none() {
                    return MPV_ERROR_UNSUPPORTED as i64;
                }
                let o = run_size(f, &mut self.instances, handle);
                size_reply(o)
            },
        }
    }

    /// Closes instance `handle`: its state leaves the table and is handed to
    /// the close callback, whose outcome is dropped. A handle that is not open
    /// is left alone and no callback runs.
    pub fn close(&mut self, handle: usize)
        requires
            old(self).wf(),
        ensures
            final(self).wf(),
            final(self).same_registration(*old(self)),
            table_step(old(self).instances(), final(self).instances()),
            final(self).user_data() == old(self).user_data(),
            !live(old(self).instances(), handle as int) ==> final(self).instances() == old(
                self,
            ).instances(),
            live(old(self).instances(), handle as int) ==> final(self).instances() == old(
                self,
            ).instances().update(handle as int, None) && exists|bx: Box<T>, o: Outcome<()>|
                *bx == old(self).instances()[handle as int]->Some_0
                    && old(self).close_callback().ensures((bx,), o),
    {
        if handle >= self.instances.len() {
            return ;
        }
        let st = self.instances[handle].take();
        match st {
            Some(t) => {
                let bx = Box::new(t);
                let ghost gb = bx;
                let o = (self.close_fn)(bx);
                assert(old(self).close_callback().ensures((gb,), o));
                assert(live(old(self).instances(), handle as int) && self.instances()
                    == old(self).instances().update(handle as int, None));

                assert(exists|b: Box<T>, p: Outcome<()>|
                    *b == old(self).instances()[handle as int]->Some_0
                        && old(self).close_callback().ensures((b,), p));
            },
            None => {
                assert(self.instances@ =~= old(self).instances@);
            },
        }
    }
}

/// One call on an instance table, as the `ensures` of the protocol's methods
/// describe it: an open that appends the state it created; a read, seek or
/// size query that replaces the state of a live instance; a close that empties
/// the slot of a live instance; or a call that changes nothing.
pub open spec fn table_step<T>(before: Seq<Option<T>>, after: Seq<Option<T>>) -> bool {
    ||| exists|t: T| after == before.push(Some(t))
    ||| exists|h: int, t: T| live(before, h) && after == before.update(h, Some(t))
    ||| exists|h: int| live(before, h) && after == before.update(h, None)
    ||| after == before
}

/// Every call in `trace` is one step of the instance table.
pub open spec fn table_trace<T>(trace: Seq<Seq<Option<T>>>) -> bool {
    forall|k: int| 0 <= k < trace.len() - 1 ==> table_step(#[trigger] trace[k], trace[k + 1])
}

/// Two opens that complete one after the other give two distinct instances,
/// each holding the state its own open returned, and a call on the first
/// instance (read, seek, size or close) leaves the state of the second as it
/// was.
pub proof fn lemma_instances_independent<T>(table: Seq<Option<T>>, first: T, second: T, changed: Option<T>)
    ensures
        ({
            let a = table.len() as int;
            let b = table.push(Some(first)).len() as int;
            let both = table.push(Some(first)).push(Some(second));
            &&& a != b
            &&& live(both, a) && both[a] == Some(first)
            &&& live(both, b) && both[b] == Some(second)
            &&& both.update(a, changed)[b] == Some(second)
            &&& forall|j: int| 0 <= j < table.len() ==> both[j] == table[j]
        }),
{
}

/// Once an instance has been closed, no later call makes it live again: its
/// close callback, which runs only on a live instance, runs at most once.
pub proof fn lemma_close_at_most_once<T>(trace: Seq<Seq<Option<T>>>, i: int, h: int, k: int)
    requires
        table_trace(trace),
        0 <= i < k < trace.len(),
        live(trace[i], h),
        trace[i + 1] == trace[i].update(h, None),
    ensures
        !live(trace[k], h),
        0 <= h < trace[k].len(),
    decreases k - i,
{
    if k > i + 1 {
        lemma_close_at_most_once(trace, i, h, k - 1);
        let before = trace[k - 1];
        let after = trace[k];
        assert(table_step(before, after));
        if exists|t: T| after == before.push(Some(t)) {
            let t = choose|t: T| after == before.push(Some(t));
            assert(after[h] == before[h]);
        } else if exists|g: int, t: T| live(before, g) && after == before.update(g, Some(t)) {
            let (g, t) = choose|g: int, t: T| live(before, g) && after == before.update(g, Some(t));
            assert(g != h);
            assert(after[h] == before[h]);
        } else if exists|g: int| live(before, g) && after == before.update(g, None) {
            let g = choose|g: int| live(before, g) && after == before.update(g, None);
            assert(after[h] is None);
        }
    }
}

/// From a table with no instances, every instance that is live was created by
/// an open that completed: some call appended a state in its slot.
pub proof fn lemma_live_only_after_open<T>(trace: Seq<Seq<Option<T>>>, k: int, h: int)
    requires
        table_trace(trace),
        trace.len() > 0,
        trace[0].len() == 0,
        0 <= k < trace.len(),
        live(trace[k], h),
    ensures
        exists|i: int|
            0 <= i < k && h == trace[i].len() && trace[i + 1][h] is Some && #[trigger] trace[i + 1]
                == trace[i].push(trace[i + 1][h]),
    decreases k,
{
    if k == 0 {
        assert(false);
    } else {
        let before = trace[k - 1];
        let after = trace[k];
        assert(table_step(before, after));
        if h < before.len() && before[h] is Some {
            lemma_live_only_after_open(trace, k - 1, h);
            let i = choose|i: int|
                0 <= i < k - 1 && h == trace[i].len() && trace[i + 1][h] is Some && #[trigger] trace[i
                    + 1] == trace[i].push(trace[i + 1][h]);
            assert(trace[i + 1] == trace[i].push(trace[i + 1][h]));
        } else if exists|t: T| after == before.push(Some(t)) {
            let t = choose|t: T| after == before.push(Some(t));
            if h < before.len() {
                assert(after[h] == before[h]);
            }
            assert(h == before.len());
            assert(trace[(k - 1) + 1] == trace[k - 1].push(trace[(k - 1) + 1][h]));
        } else if exists|g: int, t: T| live(before, g) && after == before.update(g, Some(t)) {
            let (g, t) = choose|g: int, t: T| live(before, g) && after == before.update(g, Some(t));
            assert(after[h] == before[h]);
        } else if exists|g: int| live(before, g) && after == before.update(g, None) {
            let g = choose|g: int| live(before, g) && after == before.update(g, None);
            assert(after[h] == before[h] || after[h] is None);
        }
    }
}

} // verus!

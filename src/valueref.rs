use vstd::prelude::*;
use crate::eserror::EsError;

verus! {

/// Engine tag of the reserved exception sentinel.
pub const TAG_EXCEPTION: i64 = 6;

/// Engine tag of `null`.
pub const TAG_NULL: i64 = 2;

/// Engine tag of an inline 32-bit integer.
pub const TAG_INT: i64 = 0;

/// An engine value as the bridge sees it: the engine's tag and the 64 payload
/// bits (an inline scalar or a heap pointer, depending on the tag).
#[derive(Debug, Clone, Copy, PartialEq, Eq, Structural)]
pub struct RawValue {
    pub tag: i64,
    pub bits: u64,
}

impl RawValue {
    pub fn new(tag: i64, bits: u64) -> (r: RawValue)
        ensures
            r.tag == tag,
            r.bits == bits,
    {
        RawValue { tag, bits }
    }

    /// The exception sentinel that an engine call returns when it has thrown.
    pub fn exception() -> (r: RawValue)
        ensures
            r.tag == TAG_EXCEPTION,
            r.bits == 0,
    {
        RawValue { tag: TAG_EXCEPTION, bits: 0 }
    }

    pub open spec fn null_spec() -> RawValue {
        RawValue { tag: TAG_NULL, bits: 0 }
    }

    /// The `null` value.
    pub fn null() -> (r: RawValue)
        ensures
            r == RawValue::null_spec(),
            r.tag == TAG_NULL,
    {
        RawValue { tag: TAG_NULL, bits: 0 }
    }

    /// An inline 32-bit integer.
    pub fn from_i32(i: i32) -> (r: RawValue)
        ensures
            r.tag == TAG_INT,
            r.bits == i as u32 as u64,
    {
        RawValue { tag: TAG_INT, bits: i as u32 as u64 }
    }

    pub fn is_exception(&self) -> (r: bool)
        ensures
            r == (self.tag == TAG_EXCEPTION),
    {
        self.tag == TAG_EXCEPTION
    }
}

/// A host-side wrapper around one engine value. An owning wrapper holds exactly
/// one release obligation towards the engine; a borrowed one holds none.
///
/// The type is deliberately neither `Clone` nor `Copy`: the only ways to get
/// rid of an owning wrapper are `RefLedger::release` and
/// `RefLedger::consume`, each of which takes it by value, so the same
/// obligation cannot be discharged twice.
#[derive(Debug)]
pub struct OwnedValueRef {
    value: RawValue,
    owns: bool,
}

impl OwnedValueRef {
    /// The engine value this wrapper refers to.
    pub closed spec fn handle(&self) -> RawValue {
        self.value
    }

    /// Whether this wrapper still holds a release obligation.
    pub closed spec fn owns(&self) -> bool {
        self.owns
    }

    /// Wraps a value the bridge does not own (such as `this` inside a
    /// constructor callback): dropping it must never release anything.
    pub fn new_no_free(value: RawValue) -> (r: OwnedValueRef)
        ensures
            r.handle() == value,
            !r.owns(),
    {
        OwnedValueRef { value, owns: false }
    }

    pub fn borrow_value(&self) -> (r: RawValue)
        ensures
            r == self.handle(),
    {
        self.value
    }

    pub fn is_exception(&self) -> (r: bool)
        ensures
            r == (self.handle().tag == TAG_EXCEPTION),
    {
        self.value.is_exception()
    }

    pub fn owns_value(&self) -> (r: bool)
        ensures
            r == self.owns(),
    {
        self.owns
    }
}

/// Counters of the release obligations that went through one ledger.
pub ghost struct LedgerView {
    /// Owning wrappers handed out (by `wrap` and `clone_ref`).
    pub created: nat,
    /// Obligations handed onward to the engine by `consume`.
    pub consumed: nat,
    /// Release calls the host was told to issue.
    pub released: nat,
    /// Owning wrappers that are still held somewhere on the host side.
    pub live: nat,
}

/// One event in the life of release obligations.
pub ghost enum RefEvent {
    /// An owning wrapper was handed out (`wrap`, `clone_ref`).
    Created,
    /// An owning wrapper's obligation was handed onward (`consume`).
    Consumed,
    /// An owning wrapper's scope ended with one release call (`release`).
    Released,
    /// A wrapper without obligation was consumed or ended.
    Untracked,
}

impl LedgerView {
    /// The counters after `e`.
    pub open spec fn after(self, e: RefEvent) -> LedgerView {
        match e {
            RefEvent::Created => LedgerView {
                created: self.created + 1,
                live: self.live + 1,
                ..self
            },
            RefEvent::Consumed => LedgerView {
                consumed: self.consumed + 1,
                live: (self.live - 1) as nat,
                ..self
            },
            RefEvent::Released => LedgerView {
                released: self.released + 1,
                live: (self.live - 1) as nat,
                ..self
            },
            RefEvent::Untracked => self,
        }
    }

    /// The counters after each of `events` in turn.
    pub open spec fn after_all(self, events: Seq<RefEvent>) -> LedgerView
        decreases events.len(),
    {
        if events.len() == 0 {
            self
        } else {
            self.after(events[0]).after_all(events.drop_first())
        }
    }

    /// Whether `events` only ends obligations that are held: no consume or
    /// release of an owning wrapper while none is live.
    pub open spec fn feasible(self, events: Seq<RefEvent>) -> bool
        decreases events.len(),
    {
        if events.len() == 0 {
            true
        } else {
            (events[0] is Consumed || events[0] is Released ==> self.live > 0) && self.after(
                events[0],
            ).feasible(events.drop_first())
        }
    }

    pub open spec fn balanced(self) -> bool {
        self.released + self.consumed + self.live == self.created
    }
}

/// The accounting of release obligations for one engine instance. Every
/// owning wrapper comes from `wrap` or `clone_ref`, and ends in `consume` or
/// `release`; the ledger keeps the balance between those events.
pub struct RefLedger {
    created: u64,
    consumed: u64,
    released: u64,
    live: u64,
}

impl View for RefLedger {
    type V = LedgerView;

    closed spec fn view(&self) -> LedgerView {
        LedgerView {
            created: self.created as nat,
            consumed: self.consumed as nat,
            released: self.released as nat,
            live: self.live as nat,
        }
    }
}

impl RefLedger {
    /// Every owning wrapper ever created is either still live, was consumed,
    /// or was released: none twice, none lost.
    pub open spec fn wf(&self) -> bool {
        self@.balanced()
    }

    pub fn new() -> (r: RefLedger)
        ensures
            r.wf(),
            r@ == (LedgerView { created: 0, consumed: 0, released: 0, live: 0 }),
    {
        RefLedger { created: 0, consumed: 0, released: 0, live: 0 }
    }

    /// Takes over the release obligation of a value an engine call returned.
    pub fn wrap(&mut self, value: RawValue) -> (r: OwnedValueRef)
        requires
            old(self).wf(),
            old(self)@.created < u64::MAX,
        ensures
            final(self).wf(),
            r.handle() == value,
            r.owns(),
            final(self)@ == old(self)@.after(RefEvent::Created),
    {
        self.created = self.created + 1;
        self.live = self.live + 1;
        OwnedValueRef { value, owns: true }
    }

    /// A second owning wrapper over the same value. The caller raises the
    /// engine's reference count of the value once, so that the new
    /// obligation is backed by the engine.
    pub fn clone_ref(&mut self, r: &OwnedValueRef) -> (c: OwnedValueRef)
        requires
            old(self).wf(),
            old(self)@.created < u64::MAX,
        ensures
            final(self).wf(),
            c.handle() == r.handle(),
            c.owns(),
            final(self)@ == old(self)@.after(RefEvent::Created),
    {
        self.created = self.created + 1;
        self.live = self.live + 1;
        OwnedValueRef { value: r.value, owns: true }
    }

    /// Hands the value, with its obligation if the wrapper had one, to an
    /// engine call that takes ownership.
    pub fn consume(&mut self, r: OwnedValueRef) -> (v: RawValue)
        requires
            old(self).wf(),
            r.owns() ==> old(self)@.live > 0,
        ensures
            final(self).wf(),
            v == r.handle(),
            final(self)@ == old(self)@.after(
                if r.owns() {
                    RefEvent::Consumed
                } else {
                    RefEvent::Untracked
                },
            ),
    {
        if r.owns {
            self.consumed = self.consumed + 1;
            self.live = self.live - 1;
        }
        r.value
    }

    /// Ends a wrapper's scope. Returns the value on which the host must issue
    /// exactly one release call, or `None` where the wrapper owned nothing.
    pub fn release(&mut self, r: OwnedValueRef) -> (v: Option<RawValue>)
        requires
            old(self).wf(),
            r.owns() ==> old(self)@.live > 0,
        ensures
            final(self).wf(),
            v == (if r.owns() { Some(r.handle()) } else { None::<RawValue> }),
            final(self)@ == old(self)@.after(
                if r.owns() {
                    RefEvent::Released
                } else {
                    RefEvent::Untracked
                },
            ),
    {
        if r.owns {
            self.released = self.released + 1;
            self.live = self.live - 1;
            Some(r.value)
        } else {
            None
        }
    }

    /// Takes over the value an engine call returned, or reports the call's
    /// failure with `message` where the value is the exception sentinel (which
    /// carries no obligation).
    pub fn wrap_checked(&mut self, value: RawValue, message: &str) -> (r: Result<
        OwnedValueRef,
        EsError,
    >)
        requires
            old(self).wf(),
            old(self)@.created < u64::MAX,
        ensures
            final(self).wf(),
            value.tag == TAG_EXCEPTION <==> r is Err,
            r matches Ok(w) ==> w.handle() == value && w.owns() && final(self)@ == old(self)@.after(
                RefEvent::Created,
            ),
            r matches Err(e) ==> e.message@ == message@ && final(self)@ == old(self)@,
    {
        if value.is_exception() {
            Err(EsError::new_str(message))
        } else {
            Ok(self.wrap(value))
        }
    }

    pub fn created(&self) -> (r: u64)
        ensures
            r == self@.created,
    {
        self.created
    }

    pub fn consumed(&self) -> (r: u64)
        ensures
            r == self@.consumed,
    {
        self.consumed
    }

    pub fn released(&self) -> (r: u64)
        ensures
            r == self@.released,
    {
        self.released
    }

    pub fn live(&self) -> (r: u64)
        ensures
            r == self@.live,
    {
        self.live
    }
}

/// Release balance: once every owning wrapper of a scope has ended, the number
/// of release calls issued equals the number of owning wrappers created minus
/// the number of obligations handed onward by `consume`.
pub proof fn lemma_release_balance(l: RefLedger)
    requires
        l.wf(),
        l@.live == 0,
    ensures
        l@.released == l@.created - l@.consumed,
        l@.released + l@.consumed == l@.created,
{
}

/// Release balance over any run: from balanced counters (a new ledger has
/// them), every sequence of wrap, clone, consume and scope-exit events that
/// only ends obligations that are held keeps the counters balanced. So
/// whenever no owning wrapper is left, the release calls issued equal the
/// owning wrappers created minus the obligations consumed.
pub proof fn lemma_release_balance_over_events(start: LedgerView, events: Seq<RefEvent>)
    requires
        start.balanced(),
        start.feasible(events),
    ensures
        start.after_all(events).balanced(),
        start.after_all(events).live == 0 ==> start.after_all(events).released
            == start.after_all(events).created - start.after_all(events).consumed,
    decreases events.len(),
{
    if events.len() > 0 {
        lemma_release_balance_over_events(start.after(events[0]), events.drop_first());
    }
}

} // verus!

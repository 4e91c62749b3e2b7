use vstd::prelude::*;
use crate::types::{AppCookie, RouterError, MAX_LISTENERS};

verus! {

/// The slot index that a cookie names.
pub open spec fn slot_of(c: AppCookie) -> int {
    c.0 as int
}

/// No message type occupies two slots.
pub open spec fn types_unique(s: Seq<Option<mctp::MsgType>>) -> bool {
    forall|i: int, j: int|
        0 <= i < s.len() && 0 <= j < s.len() && i != j && s[i] is Some && s[j] is Some
            ==> s[i] != s[j]
}

/// A table of the right size whose types are unique.
pub open spec fn table_wf(s: Seq<Option<mctp::MsgType>>) -> bool {
    s.len() == MAX_LISTENERS && types_unique(s)
}

/// Some slot holds `typ`.
pub open spec fn has_type(s: Seq<Option<mctp::MsgType>>, typ: mctp::MsgType) -> bool {
    exists|i: int| 0 <= i < s.len() && s[i] == Some(typ)
}

/// `i` is the lowest free slot.
pub open spec fn is_first_free(s: Seq<Option<mctp::MsgType>>, i: int) -> bool {
    0 <= i < s.len() && s[i] is None && forall|j: int| 0 <= j < i ==> s[j] is Some
}

pub open spec fn has_free(s: Seq<Option<mctp::MsgType>>) -> bool {
    exists|i: int| 0 <= i < s.len() && s[i] is None
}

/// The lowest free slot, where there is one.
pub open spec fn first_free(s: Seq<Option<mctp::MsgType>>) -> int {
    choose|i: int| is_first_free(s, i)
}

/// Binding `typ`: the slots afterwards and the result.
pub open spec fn after_bind(s: Seq<Option<mctp::MsgType>>, typ: mctp::MsgType) -> (Seq<
    Option<mctp::MsgType>,
>, Result<AppCookie, RouterError>) {
    if has_type(s, typ) {
        (s, Err(RouterError::AddrInUse))
    } else if !has_free(s) {
        (s, Err(RouterError::NoSpace))
    } else {
        (s.update(first_free(s), Some(typ)), Ok(AppCookie(first_free(s) as usize)))
    }
}

/// Unbinding `c`: the slots afterwards and the result.
pub open spec fn unafter_bind(s: Seq<Option<mctp::MsgType>>, c: AppCookie) -> (Seq<
    Option<mctp::MsgType>,
>, Result<(), RouterError>) {
    if c.0 < s.len() && s[c.0 as int] is Some {
        (s.update(c.0 as int, None), Ok(()))
    } else {
        (s, Err(RouterError::BadArgument))
    }
}

proof fn lemma_first_free_unique(s: Seq<Option<mctp::MsgType>>, i: int)
    requires
        is_first_free(s, i),
    ensures
        first_free(s) == i,
{
    let k = first_free(s);
    assert(is_first_free(s, k));
    if k < i {
        assert(s[k] is Some);
    } else if i < k {
        assert(s[i] is Some);
    }
}

proof fn lemma_has_free_first(s: Seq<Option<mctp::MsgType>>)
    requires
        has_free(s),
    ensures
        is_first_free(s, first_free(s)),
    decreases s.len(),
{
    let i = choose|i: int| 0 <= i < s.len() && s[i] is None;
    if forall|j: int| 0 <= j < i ==> s[j] is Some {
        assert(is_first_free(s, i));
    } else {
        let j = choose|j: int| 0 <= j < i && !(s[j] is Some);
        let t = s.subrange(0, i);
        assert(t[j] is None);
        assert(has_free(t));
        lemma_has_free_first(t);
        let k = first_free(t);
        assert(s[k] == t[k]);
        assert forall|m: int| 0 <= m < k implies s[m] is Some by {
            assert(s[m] == t[m]);
        }
        assert(is_first_free(s, k));
        lemma_first_free_unique(s, k);
    }
}

/// The message types that listeners are bound to, one slot per listener.
///
/// A message type occupies at most one slot.
pub struct ListenerTable {
    slots: [Option<mctp::MsgType>; MAX_LISTENERS],
}

impl ListenerTable {
    pub closed spec fn view(&self) -> Seq<Option<mctp::MsgType>> {
        self.slots@
    }

    pub open spec fn wf(&self) -> bool {
        table_wf(self@)
    }

    /// A table with every slot free.
    pub fn new() -> (r: ListenerTable)
        ensures
            r.wf(),
            r@ == Seq::new(MAX_LISTENERS as nat, |i: int| None::<mctp::MsgType>),
    {
        let r = ListenerTable { slots: [None; MAX_LISTENERS] };
        assert(r.slots@ =~= Seq::new(MAX_LISTENERS as nat, |i: int| None::<mctp::MsgType>));
        r
    }

    /// Binds a listener for `typ` in the lowest free slot.
    ///
    /// Fails with `AddrInUse` if `typ` is bound already, and with
    /// `NoSpace` if every slot is taken.
    pub fn bind(&mut self, typ: mctp::MsgType) -> (r: Result<AppCookie, RouterError>)
        requires
            old(self).wf(),
        ensures
            final(self).wf(),
            (final(self)@, r) == after_bind(old(self)@, typ),
            r is Ok ==> is_first_free(old(self)@, slot_of(r->Ok_0)),
    {
        let ghost s = self.slots@;
        let mut i: usize = 0;
        while i < MAX_LISTENERS
            invariant
                s == self.slots@,
                s == old(self)@,
                table_wf(s),
                i <= MAX_LISTENERS,
                forall|j: int| 0 <= j < i ==> s[j] != Some(typ),
            decreases MAX_LISTENERS - i,
        {
            match self.slots[i] {
                Some(t) => {
                    if t.0 == typ.0 {
                        assert(s[i as int] == Some(typ));
                        return Err(RouterError::AddrInUse);
                    }
                },
                None => {},
            }
            i = i + 1;
        }
        assert(!has_type(s, typ));
        let mut k: usize = 0;
        while k < MAX_LISTENERS
            invariant
                s == self.slots@,
                s == old(self)@,
                table_wf(s),
                k <= MAX_LISTENERS,
                !has_type(s, typ),
                forall|j: int| 0 <= j < k ==> s[j] is Some,
            decreases MAX_LISTENERS - k,
        {
            if self.slots[k].is_none() {
                proof {
                    assert(is_first_free(s, k as int));
                    lemma_first_free_unique(s, k as int);
                    assert(has_free(s));
                }
                self.slots[k] = Some(typ);
                assert(self.slots@ =~= s.update(k as int, Some(typ)));
                proof {
                    lemma_bind_keeps_types_unique(s, typ);
                }
                return Ok(AppCookie(k));
            }
            k = k + 1;
        }
        assert(!has_free(s));
        Err(RouterError::NoSpace)
    }

    /// Frees the slot of `cookie`.
    ///
    /// Fails with `BadArgument` if the cookie names no bound slot.
    pub fn unbind(&mut self, cookie: AppCookie) -> (r: Result<(), RouterError>)
        requires
            old(self).wf(),
        ensures
            final(self).wf(),
            (final(self)@, r) == unafter_bind(old(self)@, cookie),
    {
        if cookie.0 >= MAX_LISTENERS {
            return Err(RouterError::BadArgument);
        }
        if self.slots[cookie.0].is_none() {
            return Err(RouterError::BadArgument);
        }
        self.slots[cookie.0] = None;
        Ok(())
    }

    /// Whether `cookie` names a bound slot.
    pub fn is_bound(&self, cookie: AppCookie) -> (r: bool)
        ensures
            r == (cookie.0 < self@.len() && self@[cookie.0 as int] is Some),
    {
        cookie.0 < MAX_LISTENERS && self.slots[cookie.0].is_some()
    }

    /// The slot bound to `typ`, if any.
    pub fn find(&self, typ: mctp::MsgType) -> (r: Option<AppCookie>)
        requires
            self.wf(),
        ensures
            r is None <==> !has_type(self@, typ),
            r is Some ==> slot_of(r->0) < self@.len() && self@[slot_of(r->0)] == Some(typ),
    {
        let mut i: usize = 0;
        while i < MAX_LISTENERS
            invariant
                i <= MAX_LISTENERS,
                self.wf(),
                forall|j: int| 0 <= j < i ==> self@[j] != Some(typ),
            decreases MAX_LISTENERS - i,
        {
            match self.slots[i] {
                Some(t) => {
                    if t.0 == typ.0 {
                        return Some(AppCookie(i));
                    }
                },
                None => {},
            }
            i = i + 1;
        }
        None
    }
}

/// A message type is never bound to two slots: binding keeps the
/// table's types unique whatever the result.
pub proof fn lemma_bind_keeps_types_unique(s: Seq<Option<mctp::MsgType>>, typ: mctp::MsgType)
    requires
        table_wf(s),
    ensures
        table_wf(after_bind(s, typ).0),
{
    if !has_type(s, typ) && has_free(s) {
        lemma_has_free_first(s);
        let t = after_bind(s, typ).0;
        assert forall|i: int, j: int|
            0 <= i < t.len() && 0 <= j < t.len() && i != j && t[i] is Some && t[j] is Some
                implies t[i] != t[j] by {
            if i == first_free(s) {
                assert(s[j] != Some(typ));
            } else if j == first_free(s) {
                assert(s[i] != Some(typ));
            }
        }
    }
}

/// Binding a type and then unbinding the cookie that came back leaves the
/// table as it was before the bind.
pub proof fn lemma_bind_unbind_restores(s: Seq<Option<mctp::MsgType>>, typ: mctp::MsgType)
    requires
        table_wf(s),
        after_bind(s, typ).1 is Ok,
    ensures
        unafter_bind(after_bind(s, typ).0, after_bind(s, typ).1->Ok_0).1 is Ok,
        unafter_bind(after_bind(s, typ).0, after_bind(s, typ).1->Ok_0).0 == s,
{
    lemma_has_free_first(s);
    let c = first_free(s);
    assert(s.update(c, Some(typ)).update(c, None) =~= s);
}

} // verus!


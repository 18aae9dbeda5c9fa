use crate::cookie::{
    decimal, header_text, max_age_text, opt_view, pair_text, CookieOptions, CookieOptionsView,
};
use crate::error::SessionError;
use crate::header::{header_text_ok, set_cookie_header, set_cookie_text};
use vstd::prelude::*;

verus! {

/// The one store operation that binding a session calls for.
#[derive(Clone, Copy, Debug, PartialEq, Eq, Structural)]
pub enum StoreOp {
    /// The session was destroyed: remove it from the store.
    Destroy,
    /// The session's data changed: persist it.
    Persist,
    /// Nothing to do.
    Keep,
}

/// Destruction dominates change.
pub open spec fn op_for(destroyed: bool, changed: bool) -> StoreOp {
    if destroyed {
        StoreOp::Destroy
    } else if changed {
        StoreOp::Persist
    } else {
        StoreOp::Keep
    }
}

/// What came back from the store operation that was performed.
#[derive(Debug)]
pub enum StoreEvent {
    /// `destroy_session` returned.
    Destroyed(Result<(), async_session::Error>),
    /// `store_session` returned, with the id to send where the store gave one.
    Stored(Result<Option<String>, async_session::Error>),
    /// No store operation was called.
    Skipped,
}

/// Whether `e` reports the outcome of `op`.
pub open spec fn event_fits(op: StoreOp, e: StoreEvent) -> bool {
    match op {
        StoreOp::Destroy => e is Destroyed,
        StoreOp::Persist => e is Stored,
        StoreOp::Keep => e is Skipped,
    }
}

/// `o` with its value and max-age replaced.
pub open spec fn with_cookie(o: CookieOptionsView, value: Option<Seq<char>>, max_age: Option<u64>) -> CookieOptionsView {
    CookieOptionsView { value: value, max_age: max_age, ..o }
}

/// The cookie decision once the operation succeeded: an expired empty
/// cookie after a destroy, the id the store returned after a persist (and
/// no cookie when it returned none), no cookie when nothing was stored.
pub open spec fn resolved_cookie(base: CookieOptionsView, e: StoreEvent) -> CookieOptionsView {
    match e {
        StoreEvent::Destroyed(_) => with_cookie(base, Some(Seq::empty()), Some(0u64)),
        StoreEvent::Stored(r) => match r {
            Ok(Some(id)) => with_cookie(base, Some(id@), base.max_age),
            _ => with_cookie(base, None, base.max_age),
        },
        StoreEvent::Skipped => with_cookie(base, None, base.max_age),
    }
}

/// Whether the store operation reported in `e` failed.
pub open spec fn event_failed(e: StoreEvent) -> bool {
    match e {
        StoreEvent::Destroyed(r) => r is Err,
        StoreEvent::Stored(r) => r is Err,
        StoreEvent::Skipped => false,
    }
}

/// The error that binding reports for a failed operation (meaningful only
/// where `event_failed(e)`).
pub open spec fn failure_of(e: StoreEvent) -> SessionError {
    match e {
        StoreEvent::Destroyed(Err(source)) => SessionError::DestroyError { source },
        StoreEvent::Stored(Err(source)) => SessionError::StoreError { source },
        _ => SessionError::CookieEncodingError,
    }
}

/// A reply with its session settled: the resolved cookie options and the
/// `Set-Cookie` header text to attach, if any.
pub struct BoundReply<T> {
    reply: T,
    cookie_options: CookieOptions,
    set_cookie: Option<String>,
}

impl<T> BoundReply<T> {
    pub closed spec fn spec_reply(&self) -> T {
        self.reply
    }

    pub closed spec fn spec_cookie(&self) -> CookieOptionsView {
        self.cookie_options@
    }

    pub closed spec fn spec_header(&self) -> Option<Seq<char>> {
        opt_view(self.set_cookie)
    }

    /// The resolved cookie options.
    pub fn cookie_options(&self) -> (r: &CookieOptions)
        ensures
            r@ == self.spec_cookie(),
    {
        &self.cookie_options
    }

    /// The reply, and the `Set-Cookie` header text to attach to it.
    pub fn into_parts(self) -> (r: (T, Option<String>))
        ensures
            r.0 == self.spec_reply(),
            opt_view(r.1) == self.spec_header(),
    {
        (self.reply, self.set_cookie)
    }
}

/// Whether binding, with the operation's outcome in `e`, ends in an error.
pub open spec fn bind_fails(base: CookieOptionsView, e: StoreEvent) -> bool {
    event_failed(e) || (resolved_cookie(base, e).value is Some && !header_text_ok(
        header_text(resolved_cookie(base, e)),
    ))
}

/// A binding in progress: the operation decided from the session's flags,
/// waiting for its outcome, and the configured cookie options.
pub struct PendingBind {
    op: StoreOp,
    cookie_options: CookieOptions,
}

impl PendingBind {
    pub closed spec fn spec_op(&self) -> StoreOp {
        self.op
    }

    pub closed spec fn base(&self) -> CookieOptionsView {
        self.cookie_options@
    }

    /// Decides, once, which store operation the session calls for.
    pub fn begin(destroyed: bool, changed: bool, cookie_options: CookieOptions) -> (r: PendingBind)
        ensures
            r.spec_op() == op_for(destroyed, changed),
            r.base() == cookie_options@,
    {
        let op = if destroyed {
            StoreOp::Destroy
        } else if changed {
            StoreOp::Persist
        } else {
            StoreOp::Keep
        };
        PendingBind { op, cookie_options }
    }

    /// The store operation to perform.
    pub fn op(&self) -> (r: StoreOp)
        ensures
            r == self.spec_op(),
    {
        self.op
    }

    /// Whether `event` reports the outcome of the operation to perform.
    pub fn fits(&self, event: &StoreEvent) -> (r: bool)
        ensures
            r == event_fits(self.spec_op(), *event),
    {
        match (self.op, event) {
            (StoreOp::Destroy, StoreEvent::Destroyed(_)) => true,
            (StoreOp::Persist, StoreEvent::Stored(_)) => true,
            (StoreOp::Keep, StoreEvent::Skipped) => true,
            _ => false,
        }
    }

    /// Resolves the cookie from the outcome of the store operation, or
    /// reports the operation's failure with its cause.
    pub fn finish(self, event: StoreEvent) -> (r: Result<CookieOptions, SessionError>)
        requires
            event_fits(self.spec_op(), event),
        ensures
            event_failed(event) <==> r is Err,
            r is Err ==> r->Err_0 == failure_of(event),
            r is Ok ==> r->Ok_0@ == resolved_cookie(self.base(), event),
    {
        let mut cookie_options = self.cookie_options;
        match event {
            StoreEvent::Destroyed(res) => {
                match res {
                    Ok(()) => {
                        cookie_options.cookie_value = Some(String::new());
                        cookie_options.max_age = Some(0);
                        Ok(cookie_options)
                    },
                    Err(source) => Err(SessionError::DestroyError { source }),
                }
            },
            StoreEvent::Stored(res) => {
                match res {
                    Ok(id) => {
                        cookie_options.cookie_value = id;
                        Ok(cookie_options)
                    },
                    Err(source) => Err(SessionError::StoreError { source }),
                }
            },
            StoreEvent::Skipped => {
                cookie_options.cookie_value = None;
                Ok(cookie_options)
            },
        }
    }

    /// Settles the binding: resolves the cookie from the store operation's
    /// outcome and builds its header, which is present exactly when a
    /// cookie value was decided. A failed operation, or a cookie that cannot
    /// be written as a header, yields an error and no reply.
    pub fn bind<T>(self, reply: T, event: StoreEvent) -> (r: Result<BoundReply<T>, SessionError>)
        requires
            event_fits(self.spec_op(), event),
        ensures
            r is Err <==> bind_fails(self.base(), event),
            event_failed(event) ==> r is Err && r->Err_0 == failure_of(event),
            !event_failed(event) && r is Err ==> r->Err_0 is CookieEncodingError,
            r matches Ok(b) ==> {
                &&& b.spec_reply() == reply
                &&& b.spec_cookie() == resolved_cookie(self.base(), event)
                &&& b.spec_header() == set_cookie_text(b.spec_cookie())
            },
    {
        match self.finish(event) {
            Err(e) => Err(e),
            Ok(cookie_options) => {
                match set_cookie_header(&cookie_options) {
                    Err(e) => Err(e),
                    Ok(set_cookie) => Ok(BoundReply { reply, cookie_options, set_cookie }),
                }
            },
        }
    }
}

/// A session that is neither changed nor destroyed calls for no store
/// operation, and binding it decides no cookie value, so the reply gets no
/// `Set-Cookie` header and binding cannot fail.
pub proof fn lemma_untouched_session_sets_no_cookie(base: CookieOptionsView)
    ensures
        op_for(false, false) == StoreOp::Keep,
        resolved_cookie(base, StoreEvent::Skipped).value is None,
        set_cookie_text(resolved_cookie(base, StoreEvent::Skipped)) is None,
        !bind_fails(base, StoreEvent::Skipped),
{
}

/// A changed session that is not destroyed calls for exactly one operation,
/// a persist; where the store returns an id, the cookie carries that id with
/// the configured max-age, and the header is `name=id` followed by the
/// configured attributes, its max-age among them.
pub proof fn lemma_changed_session_sends_returned_id(base: CookieOptionsView, id: String)
    ensures
        op_for(false, true) == StoreOp::Persist,
        ({
            let c = resolved_cookie(base, StoreEvent::Stored(Ok(Some(id))));
            &&& c.value == Some(id@)
            &&& c.max_age == base.max_age
            &&& set_cookie_text(c) == Some(header_text(c))
            &&& pair_text(c) == base.name + "="@ + id@
            &&& max_age_text(c.max_age) == max_age_text(base.max_age)
            &&& header_text(c) == header_text(CookieOptionsView { value: Some(id@), ..base })
        }),
{
}

/// A destroyed session, changed or not, calls for a destroy and never a
/// persist; once destroyed, the cookie is the empty value with max-age 0,
/// and the header is `name=` followed by `; Max-Age=0` and the configured
/// static attributes.
pub proof fn lemma_destroyed_session_expires_cookie(base: CookieOptionsView, changed: bool)
    ensures
        op_for(true, changed) == StoreOp::Destroy,
        ({
            let c = resolved_cookie(base, StoreEvent::Destroyed(Ok(())));
            &&& c.value == Some(Seq::<char>::empty())
            &&& c.max_age == Some(0u64)
            &&& set_cookie_text(c) == Some(header_text(c))
            &&& pair_text(c) == base.name + "="@
            &&& max_age_text(c.max_age) == "; Max-Age="@ + seq!['0']
        }),
{
    let c = resolved_cookie(base, StoreEvent::Destroyed(Ok(())));
    assert(pair_text(c) =~= base.name + "="@);
    assert(decimal(0) == seq!['0']);
}

/// A failed store operation makes binding fail, with the error that names
/// the operation and carries its cause, so that no reply is produced.
pub proof fn lemma_failed_operation_fails_binding(base: CookieOptionsView, e: StoreEvent)
    requires
        event_failed(e),
    ensures
        bind_fails(base, e),
        e is Destroyed ==> failure_of(e) is DestroyError,
        e is Stored ==> failure_of(e) is StoreError,
{
}

} // verus!

//! The per-invocation script sandbox, as far as the host decides anything
//! about it.
//!
//! A `Session` models one isolated execution context's global scope: the
//! named bindings the handler script established when its top-level code
//! ran. Exactly one session exists per invocation; it is created at the
//! start of dispatch and discarded at the end, so no binding survives into
//! another invocation's session.
//!
//! Dispatch splits into the host-side decisions, all verified here: finding
//! the entry point (a setup defect if absent or not callable), bridging the
//! input in, classifying what a call threw, and bridging the settled result
//! back out. Running the script itself is the engine's work; its outcome
//! reaches this module as a plain `ScriptOutcome` after the engine's pending
//! microtask queue has been drained to quiescence.
//!
//! Client-fault convention: a thrown value signals a caller/input fault —
//! and classifies as `ClientError` — exactly when it is an object whose
//! `clientError` property is boolean `true`. Every other thrown value
//! classifies as `ServerError` carrying a textual rendering: the thrown
//! string itself, or an object's string `message` property, or a fixed
//! description when neither yields non-empty text.

use vstd::prelude::*;
use vstd::string::{StrSliceExecFns, StringExecFns};

use crate::bridge::{bridge_to_guest, bridge_to_host, bridged_in, bridged_out};
use crate::errors::{ConfigurationError, HandlerError, HandlerErrorData};
use crate::value::{
    field_lookup, guest_data_fields, lemma_guest_data_fields, GuestData, GuestValue, HostValue,
};

verus! {

/// The global scope a fresh session starts from: no bindings at all.
pub open spec fn fresh_session_globals() -> Seq<(Seq<char>, GuestData)> {
    Seq::empty()
}

/// One isolated execution context's global scope: the ordered list of
/// global bindings, later bindings shadowing earlier ones.
pub struct Session {
    globals: Vec<(String, GuestValue)>,
}

impl View for Session {
    type V = Seq<(Seq<char>, GuestData)>;

    closed spec fn view(&self) -> Seq<(Seq<char>, GuestData)> {
        guest_data_fields(self.globals@)
    }
}

/// Finds the latest binding of `name`, scanning newest first, the way a
/// later definition of a global shadows an earlier one.
fn lookup_binding<'a>(fs: &'a Vec<(String, GuestValue)>, name: &String) -> (r: Option<
    &'a GuestValue,
>)
    ensures
        r matches Some(g) ==> field_lookup(guest_data_fields(fs@), name@) == Some(g@),
        r is None ==> field_lookup(guest_data_fields(fs@), name@) is None,
{
    proof {
        lemma_guest_data_fields(fs@);
        assert(guest_data_fields(fs@).subrange(0, fs@.len() as int) =~= guest_data_fields(fs@));
    }
    let mut j: usize = fs.len();
    while j > 0
        invariant
            j <= fs.len(),
            guest_data_fields(fs@).len() == fs@.len(),
            forall|i: int|
                0 <= i < fs@.len() ==> guest_data_fields(fs@)[i] == (
                    fs@[i].0@,
                    crate::value::guest_data(fs@[i].1),
                ),
            field_lookup(guest_data_fields(fs@), name@) == field_lookup(
                guest_data_fields(fs@).subrange(0, j as int),
                name@,
            ),
        decreases j,
    {
        j = j - 1;
        if fs[j].0 == *name {
            proof {
                let prefix = guest_data_fields(fs@).subrange(0, j + 1);
                assert(prefix[j as int] == guest_data_fields(fs@)[j as int]);
            }
            return Some(&fs[j].1);
        }
        proof {
            let prefix = guest_data_fields(fs@).subrange(0, j + 1);
            assert(prefix[j as int] == guest_data_fields(fs@)[j as int]);
            assert(prefix.drop_last() =~= guest_data_fields(fs@).subrange(0, j as int));
        }
    }
    proof {
        assert(guest_data_fields(fs@).subrange(0, 0) =~= Seq::<(Seq<char>, GuestData)>::empty());
    }
    None
}

impl Session {
    /// Creates a fresh, isolated session: its own scope, with no binding
    /// shared with any other session, past or future.
    pub fn fresh() -> (s: Session)
        ensures
            s@ == fresh_session_globals(),
    {
        Session { globals: Vec::new() }
    }

    /// Binds a global name in this session's scope, shadowing any earlier
    /// binding of the same name, the way a script's top-level assignment
    /// does.
    pub fn set_global(&mut self, name: String, value: GuestValue)
        ensures
            final(self)@ == old(self)@.push((name@, value@)),
    {
        let ghost pre = self.globals@;
        self.globals.push((name, value));
        proof {
            lemma_guest_data_fields(self.globals@);
            lemma_guest_data_fields(pre);
            assert(self.globals@.subrange(0, pre.len() as int) =~= pre);
            assert(guest_data_fields(self.globals@) =~= guest_data_fields(pre).push(
                (self.globals@[pre.len() as int].0@, crate::value::guest_data(
                    self.globals@[pre.len() as int].1,
                )),
            ));
        }
    }

    /// Resolves a global name in this session's scope, newest binding
    /// first.
    pub fn get_global<'a>(&'a self, name: &String) -> (r: Option<&'a GuestValue>)
        ensures
            r matches Some(g) ==> field_lookup(self@, name@) == Some(g@),
            r is None ==> field_lookup(self@, name@) is None,
    {
        lookup_binding(&self.globals, name)
    }
}

/// Sessions are isolated: even when an earlier session's scope binds a
/// name — script A set a global — a freshly created session resolves that
/// same name to nothing; script B can never observe script A's global.
pub proof fn lemma_session_isolation(earlier: Session, name: Seq<char>, value: GuestData)
    requires
        field_lookup(earlier@, name) == Some(value),
    ensures
        field_lookup(fresh_session_globals(), name) is None,
{
}

/// The reserved property name by which a thrown value signals a
/// caller/input fault.
pub open spec fn client_fault_property() -> Seq<char> {
    "clientError"@
}

/// The property a textual rendering of a thrown object is drawn from.
pub open spec fn message_property() -> Seq<char> {
    "message"@
}

/// The description used when a thrown value offers no non-empty text of
/// its own.
pub open spec fn default_exception_text() -> Seq<char> {
    "uncaught script exception"@
}

/// The description used when the script's result never settles, even after
/// the pending-task queue has been drained to quiescence.
pub open spec fn unsettled_result_text() -> Seq<char> {
    "handler result never settled"@
}

/// Whether a thrown value matches the client-fault signal: an object whose
/// `clientError` property is boolean `true`.
pub open spec fn is_client_fault_signal(g: GuestData) -> bool {
    g matches GuestData::Obj(fs) && field_lookup(fs, client_fault_property()) == Some(
        GuestData::Bool(true),
    )
}

/// The textual rendering of a thrown value: the thrown string itself, or
/// the object's string `message` property, or a fixed fallback; never
/// empty.
pub open spec fn rendered_exception(g: GuestData) -> Seq<char> {
    if g matches GuestData::Str(s) && s.len() > 0 {
        g->Str_0
    } else if g matches GuestData::Obj(fs) && field_lookup(fs, message_property()) matches Some(
        GuestData::Str(m),
    ) && m.len() > 0 {
        field_lookup(g->Obj_0, message_property())->Some_0->Str_0
    } else {
        default_exception_text()
    }
}

/// How a thrown value classifies: `ClientError` exactly on the client-fault
/// signal, `ServerError` with the textual rendering otherwise.
pub open spec fn classified_thrown(g: GuestData) -> HandlerErrorData {
    if is_client_fault_signal(g) {
        HandlerErrorData::ClientError
    } else {
        HandlerErrorData::ServerError(rendered_exception(g))
    }
}

/// The rendering of a thrown value is never empty.
pub proof fn lemma_rendered_exception_nonempty(g: GuestData)
    ensures
        rendered_exception(g).len() > 0,
{
    reveal_strlit("uncaught script exception");
}

/// The description of an entry point no global binding defines.
pub open spec fn entry_missing_text() -> Seq<char> {
    "entry point not found"@
}

/// The description of an entry point bound to something not invocable.
pub open spec fn entry_not_callable_text() -> Seq<char> {
    "entry point is not callable"@
}

/// How a call of the entry point ended, once the engine's pending
/// microtask queue has been drained to quiescence: it settled on a value,
/// it threw a value, or its result never settled at all.
#[derive(Debug, PartialEq, Eq)]
pub enum ScriptOutcome {
    Returned(GuestValue),
    Threw(GuestValue),
    Unsettled,
}

/// Decides whether dispatch may proceed in this session and bridges the
/// input in: the named entry point must be bound to an invocable value,
/// and an absent or non-invocable binding is a setup defect —
/// `ConfigurationError`, never retried and never reported per invocation.
pub fn prepare_dispatch(session: &Session, entry_name: &String, input: &HostValue) -> (r: Result<
    GuestValue,
    ConfigurationError,
>)
    ensures
        r is Ok <==> field_lookup(session@, entry_name@) == Some(GuestData::Function),
        r matches Ok(g) ==> g@ == bridged_in(input@),
        r matches Err(e) ==> e.message@ == (if field_lookup(session@, entry_name@) is None {
            entry_missing_text()
        } else {
            entry_not_callable_text()
        }),
{
    match session.get_global(entry_name) {
        None => Err(ConfigurationError::new(String::from_str("entry point not found"))),
        Some(g) => match g {
            GuestValue::Function => Ok(bridge_to_guest(input)),
            _ => Err(ConfigurationError::new(String::from_str("entry point is not callable"))),
        },
    }
}

/// Concludes dispatch from the settled outcome of the entry-point call: a
/// settled value bridges back to host data; a thrown value is classified
/// at this boundary; a result that never settled is a server fault.
pub fn conclude_dispatch(outcome: ScriptOutcome) -> (r: Result<HostValue, HandlerError>)
    ensures
        outcome matches ScriptOutcome::Returned(g) ==> (r matches Ok(h) && h@ == bridged_out(g@)),
        outcome matches ScriptOutcome::Threw(g) ==> (r matches Err(e) && e@ == classified_thrown(
            g@,
        )),
        outcome is Unsettled ==> (r matches Err(e) && e@ == HandlerErrorData::ServerError(
            unsettled_result_text(),
        )),
{
    match outcome {
        ScriptOutcome::Returned(g) => Ok(bridge_to_host(&g)),
        ScriptOutcome::Threw(g) => Err(classify_thrown(&g)),
        ScriptOutcome::Unsettled => Err(
            HandlerError::ServerError(String::from_str("handler result never settled")),
        ),
    }
}

/// Classifies a value thrown across the sandbox boundary, at that exact
/// boundary: the client-fault signal becomes `ClientError`; every other
/// thrown value becomes `ServerError` with a non-empty description.
pub fn classify_thrown(v: &GuestValue) -> (r: HandlerError)
    ensures
        r@ == classified_thrown(v@),
        is_client_fault_signal(v@) ==> r is ClientError,
        !is_client_fault_signal(v@) ==> (r@ matches HandlerErrorData::ServerError(m) && m.len()
            > 0),
{
    proof {
        lemma_rendered_exception_nonempty(v@);
    }
    match v {
        GuestValue::Str(s) => {
            if s.as_str().unicode_len() > 0 {
                HandlerError::ServerError(s.clone())
            } else {
                HandlerError::ServerError(String::from_str("uncaught script exception"))
            }
        }
        GuestValue::Obj(fs) => {
            let signal_name = String::from_str("clientError");
            let is_client = match lookup_binding(fs, &signal_name) {
                Some(g) => match g {
                    GuestValue::Bool(b) => *b,
                    _ => false,
                },
                None => false,
            };
            if is_client {
                HandlerError::ClientError
            } else {
                let message_name = String::from_str("message");
                match lookup_binding(fs, &message_name) {
                    Some(g) => match g {
                        GuestValue::Str(m) => {
                            if m.as_str().unicode_len() > 0 {
                                HandlerError::ServerError(m.clone())
                            } else {
                                HandlerError::ServerError(
                                    String::from_str("uncaught script exception"),
                                )
                            }
                        }
                        _ => HandlerError::ServerError(
                            String::from_str("uncaught script exception"),
                        ),
                    },
                    None => HandlerError::ServerError(
                        String::from_str("uncaught script exception"),
                    ),
                }
            }
        }
        _ => HandlerError::ServerError(String::from_str("uncaught script exception")),
    }
}

} // verus!

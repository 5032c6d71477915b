//! The contact entity, instants, and the error kinds of card operations.
use vstd::prelude::*;
use vstd::string::*;

verus! {

/// An instant in UTC: whole seconds since the Unix epoch and the nanoseconds
/// past that second (a leap second may carry up to two seconds of them).
#[derive(Clone, Copy, Debug, PartialEq, Eq, Structural)]
pub struct Timestamp {
    pub secs: i64,
    pub nanos: u32,
}

pub const NANOS_LIMIT: u32 = 2_000_000_000;

/// The current time in UTC, as seconds since the epoch and nanoseconds.
///
/// Relies on std's `SystemTime::now` taken to chrono's `DateTime<Utc>` by
/// its `From<SystemTime>`, which gives a clock set before 1970 negative
/// seconds rather than failing; nothing is known of the instant but that
/// its nanoseconds stay under two seconds' worth.
#[verifier::external_body]
fn utc_now() -> (r: (i64, u32))
    ensures
        r.1 < NANOS_LIMIT,
{
    let now: chrono::DateTime<chrono::Utc> = std::time::SystemTime::now().into();
    (now.timestamp(), now.timestamp_subsec_nanos())
}

impl Timestamp {
    pub open spec fn wf(&self) -> bool {
        self.nanos < NANOS_LIMIT
    }

    /// The current time.
    pub fn now() -> (r: Timestamp)
        ensures
            r.wf(),
    {
        let (secs, nanos) = utc_now();
        Timestamp { secs, nanos }
    }

    /// The instant `secs` seconds and `nanos` nanoseconds after the epoch.
    pub fn new(secs: i64, nanos: u32) -> (r: Option<Timestamp>)
        ensures
            r is Some <==> nanos < NANOS_LIMIT,
            r matches Some(t) ==> t.secs == secs && t.nanos == nanos && t.wf(),
    {
        if nanos < NANOS_LIMIT {
            Some(Timestamp { secs, nanos })
        } else {
            None
        }
    }
}

/// A contact resource: its identifier (the stem of its file name in the
/// collection), an instant attached to it, and the vCard text it holds,
/// which is carried as it is and never read.
#[derive(Clone, Debug)]
pub struct Card {
    pub id: String,
    pub date: Timestamp,
    pub raw: String,
}

impl PartialEq for Card {
    fn eq(&self, o: &Card) -> (r: bool) {
        self.id == o.id && self.date == o.date && self.raw == o.raw
    }
}

impl vstd::std_specs::cmp::PartialEqSpecImpl for Card {
    open spec fn obeys_eq_spec() -> bool {
        true
    }

    open spec fn eq_spec(&self, o: &Card) -> bool {
        self.id@ == o.id@ && self.date == o.date && self.raw@ == o.raw@
    }
}

impl Eq for Card {
}

/// What went wrong in a card operation.
#[derive(Clone, Debug)]
pub enum CardError {
    /// The request could not be sent or its reply could not be read: what was
    /// being done, and to which card or address.
    Transport { operation: String, target: String },
    /// A reply did not have the expected structure.
    Parse { context: String },
    /// A read was answered with a status other than 200.
    Protocol { id: String },
    /// The operation is part of the repository's contract but has no behaviour.
    NotImplemented { operation: String },
    /// A conditional write found the resource changed on the server.
    PreconditionFailed { id: String },
}

/// `t` occurs in `s`.
pub open spec fn contains(s: Seq<char>, t: Seq<char>) -> bool {
    exists|i: int| 0 <= i && i + t.len() <= s.len() && #[trigger] s.subrange(i, i + t.len()) == t
}

pub open spec fn quoted(s: Seq<char>) -> Seq<char> {
    "\""@ + s + "\""@
}

/// Appends `"s"` to `out`.
fn push_quoted(out: &mut String, s: &str)
    ensures
        final(out)@ == old(out)@ + quoted(s@),
{
    out.append("\"");
    out.append(s);
    out.append("\"");
}

impl CardError {
    pub open spec fn message_spec(&self) -> Seq<char> {
        match self {
            CardError::Transport { operation, target } =>
                "cannot "@ + operation@ + " "@ + quoted(target@),
            CardError::Parse { context } => "cannot parse "@ + context@,
            CardError::Protocol { id } => "cannot read card "@ + quoted(id@),
            CardError::NotImplemented { operation } => operation@ + " is not implemented"@,
            CardError::PreconditionFailed { id } =>
                "card "@ + quoted(id@) + " was modified on the server"@,
        }
    }

    /// The message that tells a user what failed.
    pub fn message(&self) -> (r: String)
        ensures
            r@ == self.message_spec(),
    {
        match self {
            CardError::Transport { operation, target } => {
                let mut s = String::from_str("cannot ");
                s.append(operation.as_str());
                s.append(" ");
                push_quoted(&mut s, target.as_str());
                s
            },
            CardError::Parse { context } => {
                let mut s = String::from_str("cannot parse ");
                s.append(context.as_str());
                s
            },
            CardError::Protocol { id } => {
                let mut s = String::from_str("cannot read card ");
                push_quoted(&mut s, id.as_str());
                s
            },
            CardError::NotImplemented { operation } => {
                let mut s = operation.clone();
                s.append(" is not implemented");
                s
            },
            CardError::PreconditionFailed { id } => {
                let mut s = String::from_str("card ");
                push_quoted(&mut s, id.as_str());
                s.append(" was modified on the server");
                s
            },
        }
    }
}

/// A protocol error's message names the card it is about.
pub proof fn protocol_error_names_card(e: CardError)
    requires
        e is Protocol,
    ensures
        contains(e.message_spec(), e->Protocol_id@),
{
    let id = e->Protocol_id@;
    let head = "cannot read card "@ + "\""@;
    let m = e.message_spec();
    assert(m =~= head + id + "\""@);
    assert(m.subrange(head.len() as int, (head.len() + id.len()) as int) =~= id);
}

} // verus!

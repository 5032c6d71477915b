//! Discovery of the addressbook collection: three PROPFIND queries, each
//! sent to the path that the one before resolved. A stage whose property is
//! absent from a well-formed reply keeps the path it was given; a request
//! that cannot be sent, a body that cannot be read, or a reply that cannot be
//! decoded ends discovery with an error.
//!
//! The third stage queries `{host}{path}` with the path that the second one
//! resolved, as the first two stages do, rather than the bare host.
use vstd::prelude::*;
use vstd::string::*;

use crate::card::CardError;
use crate::http::{concat, HttpMethod, HttpRequest};
use crate::multistatus::{
    ends_with, str_ends_with, AddressbookHomeSetProp, AddressbookProp, CurrentUserPrincipalProp,
    Multistatus, Response,
};

verus! {

#[derive(Clone, Copy, Debug, PartialEq, Eq, Structural)]
pub enum DiscoveryStage {
    CurrentUserPrincipal,
    AddressbookHomeSet,
    Addressbook,
}

/// Where discovery stands: the host, the path resolved so far, and the
/// stage whose query comes next.
#[derive(Clone, Debug)]
pub struct Discovery {
    pub host: String,
    pub path: String,
    pub stage: DiscoveryStage,
}

/// A decoded reply to one of the three queries.
#[derive(Debug)]
pub enum StageReply {
    CurrentUserPrincipal(Multistatus<CurrentUserPrincipalProp>),
    AddressbookHomeSet(Multistatus<AddressbookHomeSetProp>),
    Addressbook(Multistatus<AddressbookProp>),
}

/// What came of one stage's query.
#[derive(Debug)]
pub enum StageOutcome {
    /// The request could not be sent.
    NotSent,
    /// The reply's body could not be read.
    Unreadable,
    /// The body is not a multistatus document of the expected shape.
    Undecodable,
    Decoded(StageReply),
}

/// The next state, or the addressbook path (`host` followed by the resolved
/// path) once the last stage is through.
#[derive(Debug)]
pub enum DiscoveryStep {
    Next(Discovery),
    Done(String),
}

pub open spec fn root_path() -> Seq<char> {
    "/"@
}

pub open spec fn principal_choice(
    rs: Seq<Response<CurrentUserPrincipalProp>>,
    path: Seq<char>,
) -> Seq<char> {
    if rs.len() > 0 {
        rs[0].propstat.prop.current_user_principal.href.value@
    } else {
        path
    }
}

pub open spec fn home_set_choice(
    rs: Seq<Response<AddressbookHomeSetProp>>,
    path: Seq<char>,
) -> Seq<char> {
    if rs.len() > 0 {
        rs[0].propstat.prop.addressbook_home_set.href.value@
    } else {
        path
    }
}

/// An entry that names an addressbook: its status ends with `200 OK` and
/// its resource type carries the addressbook marker.
pub open spec fn is_addressbook_entry(r: Response<AddressbookProp>) -> bool {
    &&& r.propstat.status matches Some(s) && ends_with(s.value@, "200 OK"@)
    &&& r.propstat.prop.resourcetype.addressbook is Some
}

/// The href of the first addressbook entry at or after `i`, or `path`.
pub open spec fn addressbook_choice_from(
    rs: Seq<Response<AddressbookProp>>,
    i: int,
    path: Seq<char>,
) -> Seq<char>
    decreases rs.len() - i,
{
    if i < 0 || i >= rs.len() {
        path
    } else if is_addressbook_entry(rs[i]) {
        rs[i].href.value@
    } else {
        addressbook_choice_from(rs, i + 1, path)
    }
}

pub open spec fn addressbook_choice(
    rs: Seq<Response<AddressbookProp>>,
    path: Seq<char>,
) -> Seq<char> {
    addressbook_choice_from(rs, 0, path)
}

/// The path that a reply resolves, from the path the stage was given.
pub open spec fn reply_path(reply: StageReply, path: Seq<char>) -> Seq<char> {
    match reply {
        StageReply::CurrentUserPrincipal(ms) => principal_choice(ms.responses@, path),
        StageReply::AddressbookHomeSet(ms) => home_set_choice(ms.responses@, path),
        StageReply::Addressbook(ms) => addressbook_choice(ms.responses@, path),
    }
}

/// The path that three replies resolve, starting from `/`.
pub open spec fn resolved_path(r1: StageReply, r2: StageReply, r3: StageReply) -> Seq<char> {
    reply_path(r3, reply_path(r2, reply_path(r1, root_path())))
}

pub open spec fn reply_fits(stage: DiscoveryStage, reply: StageReply) -> bool {
    match stage {
        DiscoveryStage::CurrentUserPrincipal => reply is CurrentUserPrincipal,
        DiscoveryStage::AddressbookHomeSet => reply is AddressbookHomeSet,
        DiscoveryStage::Addressbook => reply is Addressbook,
    }
}

pub open spec fn stage_body(stage: DiscoveryStage) -> Seq<char> {
    match stage {
        DiscoveryStage::CurrentUserPrincipal =>
            "<D:propfind xmlns:D=\"DAV:\"><D:prop><D:current-user-principal/></D:prop></D:propfind>"@,
        DiscoveryStage::AddressbookHomeSet =>
            "<D:propfind xmlns:D=\"DAV:\" xmlns:C=\"urn:ietf:params:xml:ns:carddav\"><D:prop><C:addressbook-home-set/></D:prop></D:propfind>"@,
        DiscoveryStage::Addressbook =>
            "<D:propfind xmlns:D=\"DAV:\"><D:prop><D:resourcetype/></D:prop></D:propfind>"@,
    }
}

/// What the stage's query is about, as error messages name it.
pub open spec fn stage_subject(stage: DiscoveryStage) -> Seq<char> {
    match stage {
        DiscoveryStage::CurrentUserPrincipal => "current user principal"@,
        DiscoveryStage::AddressbookHomeSet => "addressbook home set"@,
        DiscoveryStage::Addressbook => "addressbook"@,
    }
}

pub open spec fn send_operation(stage: DiscoveryStage) -> Seq<char> {
    "send "@ + stage_subject(stage) + " request to"@
}

pub open spec fn read_operation(stage: DiscoveryStage) -> Seq<char> {
    "read "@ + stage_subject(stage) + " response from"@
}

pub open spec fn parse_context(stage: DiscoveryStage) -> Seq<char> {
    stage_subject(stage) + " response"@
}

pub open spec fn next_stage(stage: DiscoveryStage) -> Option<DiscoveryStage> {
    match stage {
        DiscoveryStage::CurrentUserPrincipal => Some(DiscoveryStage::AddressbookHomeSet),
        DiscoveryStage::AddressbookHomeSet => Some(DiscoveryStage::Addressbook),
        DiscoveryStage::Addressbook => None,
    }
}

/// The path that the first response names, or `path` where there is none.
pub fn resolve_current_user_principal(
    ms: &Multistatus<CurrentUserPrincipalProp>,
    path: String,
) -> (r: String)
    ensures
        r@ == principal_choice(ms.responses@, path@),
{
    if ms.responses.len() > 0 {
        ms.responses[0].propstat.prop.current_user_principal.href.value.clone()
    } else {
        path
    }
}

/// The home set that the first response names, or `path` where there is none.
pub fn resolve_addressbook_home_set(
    ms: &Multistatus<AddressbookHomeSetProp>,
    path: String,
) -> (r: String)
    ensures
        r@ == home_set_choice(ms.responses@, path@),
{
    if ms.responses.len() > 0 {
        ms.responses[0].propstat.prop.addressbook_home_set.href.value.clone()
    } else {
        path
    }
}

/// Tells whether a response names an addressbook.
pub fn is_addressbook_response(r: &Response<AddressbookProp>) -> (b: bool)
    ensures
        b == is_addressbook_entry(*r),
{
    let valid_status = match &r.propstat.status {
        Some(s) => str_ends_with(s.value.as_str(), "200 OK"),
        None => false,
    };
    valid_status && r.propstat.prop.resourcetype.addressbook.is_some()
}

/// The href of the first response that names an addressbook, or `path`.
pub fn resolve_addressbook(ms: &Multistatus<AddressbookProp>, path: String) -> (r: String)
    ensures
        r@ == addressbook_choice(ms.responses@, path@),
{
    let n = ms.responses.len();
    let mut i: usize = 0;
    while i < n
        invariant
            n == ms.responses@.len(),
            i <= n,
            addressbook_choice(ms.responses@, path@) == addressbook_choice_from(
                ms.responses@,
                i as int,
                path@,
            ),
        decreases n - i,
    {
        if is_addressbook_response(&ms.responses[i]) {
            return ms.responses[i].href.value.clone();
        }
        i = i + 1;
    }
    path
}

fn stage_body_text(stage: DiscoveryStage) -> (r: &'static str)
    ensures
        r@ == stage_body(stage),
{
    match stage {
        DiscoveryStage::CurrentUserPrincipal =>
            "<D:propfind xmlns:D=\"DAV:\"><D:prop><D:current-user-principal/></D:prop></D:propfind>",
        DiscoveryStage::AddressbookHomeSet =>
            "<D:propfind xmlns:D=\"DAV:\" xmlns:C=\"urn:ietf:params:xml:ns:carddav\"><D:prop><C:addressbook-home-set/></D:prop></D:propfind>",
        DiscoveryStage::Addressbook =>
            "<D:propfind xmlns:D=\"DAV:\"><D:prop><D:resourcetype/></D:prop></D:propfind>",
    }
}

fn stage_subject_text(stage: DiscoveryStage) -> (r: &'static str)
    ensures
        r@ == stage_subject(stage),
{
    match stage {
        DiscoveryStage::CurrentUserPrincipal => "current user principal",
        DiscoveryStage::AddressbookHomeSet => "addressbook home set",
        DiscoveryStage::Addressbook => "addressbook",
    }
}

impl Discovery {
    /// Discovery on `host`, from the path `/`, before the first query.
    pub fn start(host: &str) -> (r: Discovery)
        ensures
            r.host@ == host@,
            r.path@ == root_path(),
            r.stage == DiscoveryStage::CurrentUserPrincipal,
    {
        Discovery {
            host: String::from_str(host),
            path: String::from_str("/"),
            stage: DiscoveryStage::CurrentUserPrincipal,
        }
    }

    pub open spec fn url_spec(&self) -> Seq<char> {
        self.host@ + self.path@
    }

    /// The address that the next query goes to.
    pub fn url(&self) -> (r: String)
        ensures
            r@ == self.url_spec(),
    {
        concat(self.host.as_str(), self.path.as_str())
    }

    /// The next query: a PROPFIND on `{host}{path}` naming the stage's property.
    pub fn request(&self) -> (r: HttpRequest)
        ensures
            r.method == HttpMethod::Propfind,
            r.url@ == self.url_spec(),
            r.headers@.len() == 0,
            r.body matches Some(b) && b@ == stage_body(self.stage),
    {
        HttpRequest {
            method: HttpMethod::Propfind,
            url: self.url(),
            headers: Vec::new(),
            body: Some(String::from_str(stage_body_text(self.stage))),
        }
    }

    /// Takes in what came of the current stage's query: the next state, the
    /// addressbook path after the last stage, or the error that ends discovery.
    pub fn advance(self, outcome: StageOutcome) -> (r: Result<DiscoveryStep, CardError>)
        ensures
            match outcome {
                StageOutcome::NotSent => r matches Err(CardError::Transport { operation, target })
                    && operation@ == send_operation(self.stage) && target@ == self.url_spec(),
                StageOutcome::Unreadable => r matches Err(
                    CardError::Transport { operation, target },
                ) && operation@ == read_operation(self.stage) && target@ == self.url_spec(),
                StageOutcome::Undecodable => r matches Err(CardError::Parse { context })
                    && context@ == parse_context(self.stage),
                StageOutcome::Decoded(reply) => if !reply_fits(self.stage, reply) {
                    r matches Err(CardError::Parse { context }) && context@ == parse_context(
                        self.stage,
                    )
                } else {
                    match next_stage(self.stage) {
                        Some(st) => r matches Ok(DiscoveryStep::Next(d)) && d.host@ == self.host@
                            && d.path@ == reply_path(reply, self.path@) && d.stage == st,
                        None => r matches Ok(DiscoveryStep::Done(p)) && p@ == self.host@
                            + reply_path(reply, self.path@),
                    }
                },
            },
    {
        let subject = stage_subject_text(self.stage);
        match outcome {
            StageOutcome::NotSent => {
                let mut op = String::from_str("send ");
                op.append(subject);
                op.append(" request to");
                Err(CardError::Transport { operation: op, target: self.url() })
            },
            StageOutcome::Unreadable => {
                let mut op = String::from_str("read ");
                op.append(subject);
                op.append(" response from");
                Err(CardError::Transport { operation: op, target: self.url() })
            },
            StageOutcome::Undecodable => Err(CardError::Parse { context: concat(subject, " response") }),
            StageOutcome::Decoded(reply) => {
                match (self.stage, reply) {
                    (DiscoveryStage::CurrentUserPrincipal, StageReply::CurrentUserPrincipal(ms)) => {
                        let path = resolve_current_user_principal(&ms, self.path);
                        Ok(DiscoveryStep::Next(Discovery {
                            host: self.host,
                            path,
                            stage: DiscoveryStage::AddressbookHomeSet,
                        }))
                    },
                    (DiscoveryStage::AddressbookHomeSet, StageReply::AddressbookHomeSet(ms)) => {
                        let path = resolve_addressbook_home_set(&ms, self.path);
                        Ok(DiscoveryStep::Next(Discovery {
                            host: self.host,
                            path,
                            stage: DiscoveryStage::Addressbook,
                        }))
                    },
                    (DiscoveryStage::Addressbook, StageReply::Addressbook(ms)) => {
                        let path = resolve_addressbook(&ms, self.path);
                        Ok(DiscoveryStep::Done(concat(self.host.as_str(), path.as_str())))
                    },
                    _ => Err(CardError::Parse { context: concat(subject, " response") }),
                }
            },
        }
    }
}

/// The addressbook path that discovery on `host` ends with when the three
/// queries are answered with `r1`, `r2` and `r3` in turn: the host followed
/// by the path the replies resolve from `/`. A reply to another query than
/// the one asked is a parse error of that stage.
pub fn addressbook_path(host: &str, r1: StageReply, r2: StageReply, r3: StageReply) -> (r: Result<
    String,
    CardError,
>)
    ensures
        reply_fits(DiscoveryStage::CurrentUserPrincipal, r1) && reply_fits(
            DiscoveryStage::AddressbookHomeSet,
            r2,
        ) && reply_fits(DiscoveryStage::Addressbook, r3) ==> (r matches Ok(p) && p@ == host@
            + resolved_path(r1, r2, r3)),
        !reply_fits(DiscoveryStage::CurrentUserPrincipal, r1) ==> (r matches Err(
            CardError::Parse { context },
        ) && context@ == parse_context(DiscoveryStage::CurrentUserPrincipal)),
        reply_fits(DiscoveryStage::CurrentUserPrincipal, r1) && !reply_fits(
            DiscoveryStage::AddressbookHomeSet,
            r2,
        ) ==> (r matches Err(CardError::Parse { context }) && context@ == parse_context(
            DiscoveryStage::AddressbookHomeSet,
        )),
        reply_fits(DiscoveryStage::CurrentUserPrincipal, r1) && reply_fits(
            DiscoveryStage::AddressbookHomeSet,
            r2,
        ) && !reply_fits(DiscoveryStage::Addressbook, r3) ==> (r matches Err(
            CardError::Parse { context },
        ) && context@ == parse_context(DiscoveryStage::Addressbook)),
{
    let d = Discovery::start(host);
    let d = match d.advance(StageOutcome::Decoded(r1)) {
        Ok(DiscoveryStep::Next(d)) => d,
        Ok(DiscoveryStep::Done(p)) => return Ok(p),
        Err(e) => return Err(e),
    };
    let d = match d.advance(StageOutcome::Decoded(r2)) {
        Ok(DiscoveryStep::Next(d)) => d,
        Ok(DiscoveryStep::Done(p)) => return Ok(p),
        Err(e) => return Err(e),
    };
    match d.advance(StageOutcome::Decoded(r3)) {
        Ok(DiscoveryStep::Done(p)) => Ok(p),
        Ok(DiscoveryStep::Next(d)) => Ok(d.url()),
        Err(e) => Err(e),
    }
}

/// A stage whose reply holds no addressbook entry keeps the path it was given.
pub proof fn addressbook_fallback(rs: Seq<Response<AddressbookProp>>, path: Seq<char>)
    requires
        forall|i: int| 0 <= i < rs.len() ==> !is_addressbook_entry(#[trigger] rs[i]),
    ensures
        addressbook_choice(rs, path) == path,
{
    fallback_from(rs, 0, path);
}

proof fn fallback_from(rs: Seq<Response<AddressbookProp>>, k: int, path: Seq<char>)
    requires
        0 <= k,
        forall|i: int| 0 <= i < rs.len() ==> !is_addressbook_entry(#[trigger] rs[i]),
    ensures
        addressbook_choice_from(rs, k, path) == path,
    decreases rs.len() - k,
{
    if k < rs.len() {
        fallback_from(rs, k + 1, path);
    }
}

/// Where the principal and home-set replies are empty and the collection
/// reply holds no addressbook entry, discovery resolves the path `/`.
pub proof fn discovery_fallback(r1: StageReply, r2: StageReply, r3: StageReply)
    requires
        r1 matches StageReply::CurrentUserPrincipal(ms) && ms.responses@.len() == 0,
        r2 matches StageReply::AddressbookHomeSet(ms) && ms.responses@.len() == 0,
        r3 matches StageReply::Addressbook(ms) && forall|i: int|
            0 <= i < ms.responses@.len() ==> !is_addressbook_entry(#[trigger] ms.responses@[i]),
    ensures
        resolved_path(r1, r2, r3) == root_path(),
{
    if let StageReply::Addressbook(ms) = r3 {
        addressbook_fallback(ms.responses@, root_path());
    }
}

/// Where exactly one entry of the collection reply names an addressbook, the
/// stage resolves that entry's href, whatever the other entries hold.
pub proof fn addressbook_success(rs: Seq<Response<AddressbookProp>>, k: int, path: Seq<char>)
    requires
        0 <= k < rs.len(),
        is_addressbook_entry(rs[k]),
        forall|i: int| 0 <= i < rs.len() && i != k ==> !is_addressbook_entry(#[trigger] rs[i]),
    ensures
        addressbook_choice(rs, path) == rs[k].href.value@,
{
    success_from(rs, 0, k, path);
}

proof fn success_from(rs: Seq<Response<AddressbookProp>>, j: int, k: int, path: Seq<char>)
    requires
        0 <= j <= k < rs.len(),
        is_addressbook_entry(rs[k]),
        forall|i: int| 0 <= i < rs.len() && i != k ==> !is_addressbook_entry(#[trigger] rs[i]),
    ensures
        addressbook_choice_from(rs, j, path) == rs[k].href.value@,
    decreases k - j,
{
    if j < k {
        assert(!is_addressbook_entry(rs[j]));
        success_from(rs, j + 1, k, path);
    }
}

} // verus!

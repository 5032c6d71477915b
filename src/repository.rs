//! Operations on the contact resources of a discovered addressbook. The
//! repository says which request to send and what a reply means; its caller
//! sends the request with basic authentication and hands back the outcome.
//!
//! `create` and `delete` do not look at the reply's status: any reply that
//! came back counts as success. Only a request that could not be sent fails.
use vstd::prelude::*;
use vstd::string::*;

use crate::card::{Card, CardError, Timestamp};
use crate::http::{concat, header, HttpMethod, HttpOutcome, HttpRequest};

verus! {

/// The address of a card's resource: `{addressbook_path}{id}.vcf`.
pub open spec fn card_url_spec(addressbook_path: Seq<char>, id: Seq<char>) -> Seq<char> {
    addressbook_path + id + ".vcf"@
}

pub open spec fn content_type_header() -> (Seq<char>, Seq<char>) {
    ("Content-Type"@, "text/vcard; charset=utf-8"@)
}

pub open spec fn depth_header() -> (Seq<char>, Seq<char>) {
    ("Depth"@, "1"@)
}

/// Of a read's outcome: the identifier and text of the card it gives, or
/// none where the read fails.
pub open spec fn read_card_view(id: Seq<char>, outcome: HttpOutcome) -> Option<(Seq<char>, Seq<char>)> {
    match outcome {
        HttpOutcome::Received { status, body } => if status == 200 && body is Some {
            Some((id, body->Some_0@))
        } else {
            None
        },
        HttpOutcome::NotSent => None,
    }
}

/// The error of a write whose request could not be sent.
pub open spec fn write_error(operation: Seq<char>, id: Seq<char>, e: CardError) -> bool {
    e matches CardError::Transport { operation: op, target } && op@ == operation && target@ == id
}

/// A repository of cards kept under a remote addressbook collection.
#[derive(Clone, Debug)]
pub struct RemoteCardRepository {
    /// The collection's absolute address, ending in `/`.
    pub addressbook_path: String,
}

impl RemoteCardRepository {
    /// A repository on the collection at `addressbook_path`, as discovery
    /// resolved it.
    pub fn new(addressbook_path: &str) -> (r: RemoteCardRepository)
        ensures
            r.addressbook_path@ == addressbook_path@,
    {
        RemoteCardRepository { addressbook_path: String::from_str(addressbook_path) }
    }

    /// The address of the card `id`.
    pub fn card_url(&self, id: &str) -> (r: String)
        ensures
            r@ == card_url_spec(self.addressbook_path@, id@),
    {
        let mut url = concat(self.addressbook_path.as_str(), id);
        url.append(".vcf");
        url
    }

    /// The request that stores `card`: a PUT of its text to its address.
    pub fn create_request(&self, card: &Card) -> (r: HttpRequest)
        ensures
            r.method == HttpMethod::Put,
            r.url@ == card_url_spec(self.addressbook_path@, card.id@),
            r.headers@.len() == 1,
            (r.headers@[0].0@, r.headers@[0].1@) == content_type_header(),
            r.body matches Some(b) && b@ == card.raw@,
    {
        let mut headers = Vec::new();
        headers.push(header("Content-Type", "text/vcard; charset=utf-8"));
        HttpRequest {
            method: HttpMethod::Put,
            url: self.card_url(card.id.as_str()),
            headers,
            body: Some(card.raw.clone()),
        }
    }

    /// What a create's outcome means: any reply is success.
    pub fn create_response(&self, card: &Card, outcome: &HttpOutcome) -> (r: Result<(), CardError>)
        ensures
            r is Ok <==> outcome is Received,
            r matches Err(e) ==> write_error("send create request for card"@, card.id@, e),
    {
        match outcome {
            HttpOutcome::NotSent => Err(CardError::Transport {
                operation: String::from_str("send create request for card"),
                target: card.id.clone(),
            }),
            HttpOutcome::Received { .. } => Ok(()),
        }
    }

    /// The request that fetches the card `id`: a GET with `Depth: 1`.
    pub fn read_request(&self, id: &str) -> (r: HttpRequest)
        ensures
            r.method == HttpMethod::Get,
            r.url@ == card_url_spec(self.addressbook_path@, id@),
            r.headers@.len() == 1,
            (r.headers@[0].0@, r.headers@[0].1@) == depth_header(),
            r.body is None,
    {
        let mut headers = Vec::new();
        headers.push(header("Depth", "1"));
        HttpRequest {
            method: HttpMethod::Get,
            url: self.card_url(id),
            headers,
            body: None,
        }
    }

    /// What a read's outcome means. A 200 reply whose body could be read
    /// gives the card `id` with that body as its text, dated `now` (the time
    /// of the read, as `Timestamp::now` gives it); any other status is a
    /// protocol error.
    pub fn read_response(&self, id: &str, outcome: HttpOutcome, now: Timestamp) -> (r: Result<
        Card,
        CardError,
    >)
        ensures
            r is Ok <==> read_card_view(id@, outcome) is Some,
            r matches Ok(c) ==> read_card_view(id@, outcome) == Some((c.id@, c.raw@))
                && c.date == now,
            match outcome {
                HttpOutcome::NotSent => r matches Err(CardError::Transport { operation, target })
                    && operation@ == "send read request for card"@ && target@ == id@,
                HttpOutcome::Received { status, body } => if status != 200 {
                    r matches Err(CardError::Protocol { id: i }) && i@ == id@
                } else if body is None {
                    r matches Err(CardError::Transport { operation, target })
                        && operation@ == "read content of card"@ && target@ == id@
                } else {
                    true
                },
            },
    {
        match outcome {
            HttpOutcome::NotSent => Err(CardError::Transport {
                operation: String::from_str("send read request for card"),
                target: String::from_str(id),
            }),
            HttpOutcome::Received { status, body } => {
                if status != 200 {
                    return Err(CardError::Protocol { id: String::from_str(id) });
                }
                match body {
                    None => Err(CardError::Transport {
                        operation: String::from_str("read content of card"),
                        target: String::from_str(id),
                    }),
                    Some(raw) => Ok(Card { id: String::from_str(id), date: now, raw }),
                }
            },
        }
    }

    /// Listing every card has no behaviour yet.
    pub fn read_all(&self) -> (r: Result<Vec<Card>, CardError>)
        ensures
            r matches Err(CardError::NotImplemented { operation }) && operation@ == "read_all"@,
    {
        Err(CardError::NotImplemented { operation: String::from_str("read_all") })
    }

    /// Updating a card has no behaviour yet.
    pub fn update(&self, card: &Card) -> (r: Result<(), CardError>)
        ensures
            r matches Err(CardError::NotImplemented { operation }) && operation@ == "update"@,
    {
        Err(CardError::NotImplemented { operation: String::from_str("update") })
    }

    /// The request that removes the card `id`.
    pub fn delete_request(&self, id: &str) -> (r: HttpRequest)
        ensures
            r.method == HttpMethod::Delete,
            r.url@ == card_url_spec(self.addressbook_path@, id@),
            r.headers@.len() == 0,
            r.body is None,
    {
        HttpRequest { method: HttpMethod::Delete, url: self.card_url(id), headers: Vec::new(), body: None }
    }

    /// What a delete's outcome means: any reply is success.
    pub fn delete_response(&self, id: &str, outcome: &HttpOutcome) -> (r: Result<(), CardError>)
        ensures
            r is Ok <==> outcome is Received,
            r matches Err(e) ==> write_error("send delete request for card"@, id@, e),
    {
        match outcome {
            HttpOutcome::NotSent => Err(CardError::Transport {
                operation: String::from_str("send delete request for card"),
                target: String::from_str(id),
            }),
            HttpOutcome::Received { .. } => Ok(()),
        }
    }

    /// The request that removes the card `id` only while its entity tag is
    /// still `etag`.
    pub fn delete_if_unmodified_request(&self, id: &str, etag: &str) -> (r: HttpRequest)
        ensures
            r.method == HttpMethod::Delete,
            r.url@ == card_url_spec(self.addressbook_path@, id@),
            r.headers@.len() == 1,
            r.headers@[0].0@ == "If-Match"@ && r.headers@[0].1@ == etag@,
            r.body is None,
    {
        let mut headers = Vec::new();
        headers.push(header("If-Match", etag));
        HttpRequest { method: HttpMethod::Delete, url: self.card_url(id), headers, body: None }
    }

    /// What a conditional delete's outcome means: a 412 reply says that the
    /// card changed on the server; any other reply is success.
    pub fn delete_if_unmodified_response(&self, id: &str, outcome: &HttpOutcome) -> (r: Result<(), CardError>)
        ensures
            r is Ok <==> (outcome matches HttpOutcome::Received { status, .. } && status != 412),
            outcome is NotSent ==> (r matches Err(e) && write_error("send delete request for card"@, id@, e)),
            outcome matches HttpOutcome::Received { status, .. } && status == 412 ==> (r matches Err(
                CardError::PreconditionFailed { id: i },
            ) && i@ == id@),
    {
        match outcome {
            HttpOutcome::NotSent => self.delete_response(id, outcome),
            HttpOutcome::Received { status, .. } => {
                if *status == 412 {
                    Err(CardError::PreconditionFailed { id: String::from_str(id) })
                } else {
                    Ok(())
                }
            },
        }
    }
}

/// A repository of cards kept on this machine. It has no behaviour yet:
/// every operation reports that it is not implemented.
#[derive(Clone, Copy, Debug)]
pub struct LocalCardRepository;

pub open spec fn not_implemented(r: Result<(), CardError>, operation: Seq<char>) -> bool {
    r matches Err(CardError::NotImplemented { operation: op }) && op@ == operation
}

fn not_implemented_error(operation: &str) -> (e: CardError)
    ensures
        e matches CardError::NotImplemented { operation: op } && op@ == operation@,
{
    CardError::NotImplemented { operation: String::from_str(operation) }
}

/// The operations that a store of cards offers. Each gives a typed result,
/// and an operation that a store does not support gives
/// `CardError::NotImplemented`.
pub trait CardRepository {
    fn create(&self, card: &Card) -> Result<(), CardError>;

    fn read(&self, id: &str) -> Result<Card, CardError>;

    fn read_all(&self) -> Result<Vec<Card>, CardError>;

    fn update(&self, card: &Card) -> Result<(), CardError>;

    fn delete(&self, id: &str) -> Result<(), CardError>;
}

impl CardRepository for LocalCardRepository {
    fn create(&self, card: &Card) -> (r: Result<(), CardError>)
        ensures
            not_implemented(r, "create"@),
    {
        Err(not_implemented_error("create"))
    }

    fn read(&self, id: &str) -> (r: Result<Card, CardError>)
        ensures
            r matches Err(CardError::NotImplemented { operation }) && operation@ == "read"@,
    {
        Err(not_implemented_error("read"))
    }

    fn read_all(&self) -> (r: Result<Vec<Card>, CardError>)
        ensures
            r matches Err(CardError::NotImplemented { operation }) && operation@ == "read_all"@,
    {
        Err(not_implemented_error("read_all"))
    }

    fn update(&self, card: &Card) -> (r: Result<(), CardError>)
        ensures
            not_implemented(r, "update"@),
    {
        Err(not_implemented_error("update"))
    }

    fn delete(&self, id: &str) -> (r: Result<(), CardError>)
        ensures
            not_implemented(r, "delete"@),
    {
        Err(not_implemented_error("delete"))
    }
}

/// For a collection path that ends in `/` and an identifier without `/`, a
/// card's address is the path, the identifier and `.vcf`, and the path's own
/// trailing `/` is the one separator between path and identifier.
pub proof fn card_url_single_separator(path: Seq<char>, id: Seq<char>)
    requires
        path.len() > 0,
        path.last() == '/',
        forall|i: int| 0 <= i < id.len() ==> id[i] != '/',
    ensures
        card_url_spec(path, id).subrange(0, path.len() as int) == path,
        card_url_spec(path, id)[path.len() - 1] == '/',
        card_url_spec(path, id).subrange(path.len() as int, (path.len() + id.len()) as int) == id,
        forall|j: int|
            path.len() <= j < path.len() + id.len() ==> #[trigger] card_url_spec(path, id)[j] != '/',
{
    let url = card_url_spec(path, id);
    assert(url.subrange(0, path.len() as int) =~= path);
    assert(url.subrange(path.len() as int, (path.len() + id.len()) as int) =~= id);
    assert forall|j: int| path.len() <= j < path.len() + id.len() implies #[trigger] url[j] != '/' by {
        assert(url[j] == id[j - path.len()]);
    }
}

/// A card that was stored reads back as it was written: where the server
/// answers the read with 200 and the text that the create request carried,
/// the read gives the card's identifier and text.
pub proof fn create_then_read(card: Card, reply: HttpOutcome)
    requires
        reply matches HttpOutcome::Received { status, body } && status == 200 && (body matches Some(
            b,
        ) && b@ == card.raw@),
    ensures
        read_card_view(card.id@, reply) == Some((card.id@, card.raw@)),
{
}

/// Once a card is deleted the server answers its read with a status other
/// than 200: the read gives no card, and fails with a protocol error whose
/// message names the card.
pub proof fn read_after_delete(id: Seq<char>, reply: HttpOutcome, e: CardError)
    requires
        reply matches HttpOutcome::Received { status, .. } && status != 200,
        e matches CardError::Protocol { id: i } && i@ == id,
    ensures
        read_card_view(id, reply) is None,
        crate::card::contains(e.message_spec(), id),
{
    crate::card::protocol_error_names_card(e);
}

} // verus!

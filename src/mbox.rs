//! Mailboxes of the IMAP and Maildir backends.
use vstd::prelude::*;
use vstd::string::*;

use crate::config::{debug_quote, debug_quoted};

verus! {

/// The mailboxes that a backend lists.
pub trait Mboxes {
}

/// An attribute of an IMAP mailbox.
#[derive(Clone, Debug)]
pub enum ImapMboxAttr {
    NoInferiors,
    NoSelect,
    Marked,
    Unmarked,
    Custom(String),
}

impl ImapMboxAttr {
    pub open spec fn name_spec(&self) -> Seq<char> {
        match self {
            ImapMboxAttr::NoInferiors => "NoInferiors"@,
            ImapMboxAttr::NoSelect => "NoSelect"@,
            ImapMboxAttr::Marked => "Marked"@,
            ImapMboxAttr::Unmarked => "Unmarked"@,
            ImapMboxAttr::Custom(s) => s@,
        }
    }

    /// The attribute as it is shown.
    pub fn name(&self) -> (r: String)
        ensures
            r@ == self.name_spec(),
    {
        match self {
            ImapMboxAttr::NoInferiors => String::from_str("NoInferiors"),
            ImapMboxAttr::NoSelect => String::from_str("NoSelect"),
            ImapMboxAttr::Marked => String::from_str("Marked"),
            ImapMboxAttr::Unmarked => String::from_str("Unmarked"),
            ImapMboxAttr::Custom(s) => s.clone(),
        }
    }
}

pub open spec fn same_attr(a: ImapMboxAttr, b: ImapMboxAttr) -> bool {
    match (a, b) {
        (ImapMboxAttr::NoInferiors, ImapMboxAttr::NoInferiors) => true,
        (ImapMboxAttr::NoSelect, ImapMboxAttr::NoSelect) => true,
        (ImapMboxAttr::Marked, ImapMboxAttr::Marked) => true,
        (ImapMboxAttr::Unmarked, ImapMboxAttr::Unmarked) => true,
        (ImapMboxAttr::Custom(x), ImapMboxAttr::Custom(y)) => x@ == y@,
        _ => false,
    }
}

impl PartialEq for ImapMboxAttr {
    fn eq(&self, o: &ImapMboxAttr) -> (r: bool) {
        match self {
            ImapMboxAttr::NoInferiors => match o {
                ImapMboxAttr::NoInferiors => true,
                _ => false,
            },
            ImapMboxAttr::NoSelect => match o {
                ImapMboxAttr::NoSelect => true,
                _ => false,
            },
            ImapMboxAttr::Marked => match o {
                ImapMboxAttr::Marked => true,
                _ => false,
            },
            ImapMboxAttr::Unmarked => match o {
                ImapMboxAttr::Unmarked => true,
                _ => false,
            },
            ImapMboxAttr::Custom(x) => match o {
                ImapMboxAttr::Custom(y) => *x == *y,
                _ => false,
            },
        }
    }
}

impl vstd::std_specs::cmp::PartialEqSpecImpl for ImapMboxAttr {
    open spec fn obeys_eq_spec() -> bool {
        true
    }

    open spec fn eq_spec(&self, o: &ImapMboxAttr) -> bool {
        same_attr(*self, *o)
    }
}

impl Eq for ImapMboxAttr {
}

/// The attributes of an IMAP mailbox, in the order the server gave them.
#[derive(Clone, Debug)]
pub struct ImapMboxAttrs(pub Vec<ImapMboxAttr>);

pub open spec fn same_attrs(a: Seq<ImapMboxAttr>, b: Seq<ImapMboxAttr>) -> bool {
    a.len() == b.len() && forall|i: int| 0 <= i < a.len() ==> same_attr(#[trigger] a[i], b[i])
}

/// The names of `attrs`, separated by `, `.
pub open spec fn attrs_text(attrs: Seq<ImapMboxAttr>) -> Seq<char>
    decreases attrs.len(),
{
    if attrs.len() == 0 {
        Seq::empty()
    } else if attrs.len() == 1 {
        attrs[0].name_spec()
    } else {
        attrs_text(attrs.drop_last()) + ", "@ + attrs.last().name_spec()
    }
}

impl ImapMboxAttrs {
    /// The attributes' names, separated by `, `.
    pub fn to_string(&self) -> (r: String)
        ensures
            r@ == attrs_text(self.0@),
    {
        let mut out = String::new();
        let n = self.0.len();
        let mut i: usize = 0;
        while i < n
            invariant
                n == self.0@.len(),
                i <= n,
                out@ == attrs_text(self.0@.subrange(0, i as int)),
            decreases n - i,
        {
            if i > 0 {
                out.append(", ");
            }
            let name = self.0[i].name();
            out.append(name.as_str());
            proof {
                let s = self.0@.subrange(0, i + 1);
                assert(s.drop_last() =~= self.0@.subrange(0, i as int));
            }
            i = i + 1;
        }
        assert(self.0@.subrange(0, n as int) =~= self.0@);
        out
    }
}

impl PartialEq for ImapMboxAttrs {
    fn eq(&self, o: &ImapMboxAttrs) -> (r: bool) {
        if self.0.len() != o.0.len() {
            return false;
        }
        let n = self.0.len();
        let mut i: usize = 0;
        while i < n
            invariant
                n == self.0@.len(),
                n == o.0@.len(),
                i <= n,
                forall|j: int| 0 <= j < i ==> same_attr(#[trigger] self.0@[j], o.0@[j]),
            decreases n - i,
        {
            if self.0[i] != o.0[i] {
                return false;
            }
            i = i + 1;
        }
        true
    }
}

impl vstd::std_specs::cmp::PartialEqSpecImpl for ImapMboxAttrs {
    open spec fn obeys_eq_spec() -> bool {
        true
    }

    open spec fn eq_spec(&self, o: &ImapMboxAttrs) -> bool {
        same_attrs(self.0@, o.0@)
    }
}

impl Eq for ImapMboxAttrs {
}

/// An IMAP mailbox.
#[derive(Clone, Debug)]
pub struct ImapMbox {
    /// The mailbox hierarchy delimiter.
    pub delim: String,
    /// The mailbox name.
    pub name: String,
    /// The mailbox attributes.
    pub attrs: ImapMboxAttrs,
}

impl ImapMbox {
    /// A mailbox with the given name, no delimiter and no attributes.
    pub fn new(name: &str) -> (r: ImapMbox)
        ensures
            r.name@ == name@,
            r.delim@.len() == 0,
            r.attrs.0@.len() == 0,
    {
        ImapMbox { delim: String::new(), name: String::from_str(name), attrs: ImapMboxAttrs(Vec::new()) }
    }

    /// The mailbox as it is shown: its name.
    pub fn to_string(&self) -> (r: String)
        ensures
            r@ == self.name@,
    {
        self.name.clone()
    }
}

impl Default for ImapMbox {
    fn default() -> (r: ImapMbox)
        ensures
            r.name@.len() == 0,
            r.delim@.len() == 0,
            r.attrs.0@.len() == 0,
    {
        ImapMbox { delim: String::new(), name: String::new(), attrs: ImapMboxAttrs(Vec::new()) }
    }
}

impl PartialEq for ImapMbox {
    fn eq(&self, o: &ImapMbox) -> (r: bool) {
        self.delim == o.delim && self.name == o.name && self.attrs == o.attrs
    }
}

impl vstd::std_specs::cmp::PartialEqSpecImpl for ImapMbox {
    open spec fn obeys_eq_spec() -> bool {
        true
    }

    open spec fn eq_spec(&self, o: &ImapMbox) -> bool {
        self.delim@ == o.delim@ && self.name@ == o.name@ && same_attrs(self.attrs.0@, o.attrs.0@)
    }
}

impl Eq for ImapMbox {
}

/// The mailboxes of an IMAP account.
#[derive(Clone, Debug)]
pub struct ImapMboxes(pub Vec<ImapMbox>);

impl Mboxes for ImapMboxes {
}

/// A Maildir subdirectory whose name does not give a mailbox name: it is
/// not valid UTF-8 (`None`), or it is shorter than two characters.
#[derive(Clone, Debug)]
pub struct MboxError {
    pub subdir_name: Option<String>,
}

impl MboxError {
    pub open spec fn message_spec(&self) -> Seq<char> {
        "cannot parse maildir subdirectory name from path "@ + match self.subdir_name {
            Some(n) => "Some("@ + debug_quoted(n@) + ")"@,
            None => "None"@,
        }
    }

    /// The message that tells a user what failed, naming the subdirectory
    /// as `{:?}` shows it.
    pub fn message(&self) -> (r: String)
        ensures
            r@ == self.message_spec(),
    {
        let mut s = String::from_str("cannot parse maildir subdirectory name from path ");
        match &self.subdir_name {
            Some(n) => {
                s.append("Some(");
                let q = debug_quote(n.as_str());
                s.append(q.as_str());
                s.append(")");
            },
            None => s.append("None"),
        }
        s
    }
}

/// A Maildir mailbox.
#[derive(Clone, Debug)]
pub struct MaildirMbox {
    /// The mailbox name.
    pub name: String,
}

/// A subdirectory name gives a mailbox name when it has at least two
/// characters; the name is what follows the leading one (the `.` of a
/// Maildir++ folder).
pub open spec fn subdir_mbox_name(subdir: Option<Seq<char>>) -> Option<Seq<char>> {
    match subdir {
        Some(s) => if s.len() < 2 {
            None
        } else {
            Some(s.drop_first())
        },
        None => None,
    }
}

pub open spec fn opt_view(o: Option<String>) -> Option<Seq<char>> {
    match o {
        Some(s) => Some(s@),
        None => None,
    }
}

impl MaildirMbox {
    /// A mailbox with the given name.
    pub fn new(name: &str) -> (r: MaildirMbox)
        ensures
            r.name@ == name@,
    {
        MaildirMbox { name: String::from_str(name) }
    }

    /// The mailbox as it is shown: its name.
    pub fn to_string(&self) -> (r: String)
        ensures
            r@ == self.name@,
    {
        self.name.clone()
    }

    /// The mailbox that a Maildir subdirectory stands for, from the
    /// subdirectory's name (`None` where it is not valid UTF-8).
    pub fn try_from_subdir_name(subdir: Option<&str>) -> (r: Result<MaildirMbox, MboxError>)
        ensures
            r is Ok <==> subdir_mbox_name(
                match subdir {
                    Some(s) => Some(s@),
                    None => None,
                },
            ) is Some,
            r matches Ok(m) ==> Some(m.name@) == subdir_mbox_name(
                match subdir {
                    Some(s) => Some(s@),
                    None => None,
                },
            ),
            r matches Err(e) ==> opt_view(e.subdir_name) == match subdir {
                Some(s) => Some(s@),
                None => None,
            },
    {
        match subdir {
            Some(s) => {
                let n = s.unicode_len();
                if n < 2 {
                    Err(MboxError { subdir_name: Some(String::from_str(s)) })
                } else {
                    let rest = s.substring_char(1, n);
                    assert(rest@ =~= s@.drop_first());
                    Ok(MaildirMbox { name: String::from_str(rest) })
                }
            },
            None => Err(MboxError { subdir_name: None }),
        }
    }
}

impl Default for MaildirMbox {
    fn default() -> (r: MaildirMbox)
        ensures
            r.name@.len() == 0,
    {
        MaildirMbox { name: String::new() }
    }
}

impl PartialEq for MaildirMbox {
    fn eq(&self, o: &MaildirMbox) -> (r: bool) {
        self.name == o.name
    }
}

impl vstd::std_specs::cmp::PartialEqSpecImpl for MaildirMbox {
    open spec fn obeys_eq_spec() -> bool {
        true
    }

    open spec fn eq_spec(&self, o: &MaildirMbox) -> bool {
        self.name@ == o.name@
    }
}

impl Eq for MaildirMbox {
}

/// The mailboxes of a Maildir account.
#[derive(Clone, Debug)]
pub struct MaildirMboxes(pub Vec<MaildirMbox>);

impl Mboxes for MaildirMboxes {
}

impl MaildirMboxes {
    /// The mailboxes that the subdirectories stand for, in the same order;
    /// the first subdirectory whose name gives no mailbox name is the error.
    pub fn try_from_subdir_names(subdirs: &Vec<Option<String>>) -> (r: Result<MaildirMboxes, MboxError>)
        ensures
            r is Ok <==> forall|i: int|
                0 <= i < subdirs@.len() ==> subdir_mbox_name(opt_view(#[trigger] subdirs@[i])) is Some,
            r matches Ok(ms) ==> ms.0@.len() == subdirs@.len() && forall|i: int|
                0 <= i < subdirs@.len() ==> subdir_mbox_name(opt_view(#[trigger] subdirs@[i])) == Some(
                    ms.0@[i].name@,
                ),
            r matches Err(e) ==> exists|i: int|
                0 <= i < subdirs@.len() && subdir_mbox_name(opt_view(#[trigger] subdirs@[i])) is None
                    && opt_view(e.subdir_name) == opt_view(subdirs@[i])
                    && forall|j: int| 0 <= j < i ==> subdir_mbox_name(opt_view(#[trigger] subdirs@[j])) is Some,
    {
        let mut mboxes: Vec<MaildirMbox> = Vec::new();
        let n = subdirs.len();
        let mut i: usize = 0;
        while i < n
            invariant
                n == subdirs@.len(),
                i <= n,
                mboxes@.len() == i,
                forall|j: int| 0 <= j < i ==> subdir_mbox_name(opt_view(#[trigger] subdirs@[j])) == Some(
                    mboxes@[j].name@,
                ),
            decreases n - i,
        {
            let subdir: Option<&str> = match &subdirs[i] {
                Some(s) => Some(s.as_str()),
                None => None,
            };
            match MaildirMbox::try_from_subdir_name(subdir) {
                Ok(m) => mboxes.push(m),
                Err(e) => {
                    assert(subdir_mbox_name(opt_view(subdirs@[i as int])) is None);
                    return Err(e);
                },
            }
            i = i + 1;
        }
        Ok(MaildirMboxes(mboxes))
    }
}

} // verus!

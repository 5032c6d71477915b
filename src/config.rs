//! The mail client's configuration: global settings, and accounts that may
//! override them.
use vstd::prelude::*;
use vstd::string::*;

use crate::http::concat;

verus! {

pub const DEFAULT_PAGE_SIZE: usize = 10;

/// One account of the configuration.
#[derive(Clone, Debug)]
pub struct Account {
    pub name: Option<String>,
    pub downloads_dir: Option<String>,
    pub signature_delimiter: Option<String>,
    pub signature: Option<String>,
    pub default_page_size: Option<usize>,
    pub watch_cmds: Option<Vec<String>>,
    pub default: Option<bool>,
    pub email: String,
    pub imap_host: String,
    pub imap_port: u16,
    pub imap_starttls: Option<bool>,
    pub imap_insecure: Option<bool>,
    pub imap_login: String,
    pub imap_passwd_cmd: String,
    pub smtp_host: String,
    pub smtp_port: u16,
    pub smtp_starttls: Option<bool>,
    pub smtp_insecure: Option<bool>,
    pub smtp_login: String,
    pub smtp_passwd_cmd: String,
}

/// The whole configuration. Accounts are kept each under its name, in the
/// order that whoever builds the value chose: the default account found is
/// the first marked one in that order.
#[derive(Clone, Debug)]
pub struct Config {
    pub name: String,
    pub downloads_dir: Option<String>,
    pub notify_cmd: Option<String>,
    /// Overrides the default signature delimiter `-- \n`.
    pub signature_delimiter: Option<String>,
    pub signature: Option<String>,
    pub default_page_size: Option<usize>,
    pub watch_cmds: Option<Vec<String>>,
    pub accounts: Vec<(String, Account)>,
}

/// Why the configuration could not give what was asked.
#[derive(Clone, Debug)]
pub enum ConfigError {
    /// Neither `XDG_CONFIG_HOME` nor the home directory is known.
    PathNotFound,
    /// No account is marked as the default one.
    DefaultAccountNotFound,
    /// No account has the given name.
    AccountNotFound { name: String },
}

impl ConfigError {
    pub open spec fn message_spec(&self) -> Seq<char> {
        match self {
            ConfigError::PathNotFound => "cannot find config path"@,
            ConfigError::DefaultAccountNotFound => "cannot find default account"@,
            ConfigError::AccountNotFound { name } => "cannot find account `"@ + name@ + "`"@,
        }
    }

    /// The message that tells a user what failed.
    pub fn message(&self) -> (r: String)
        ensures
            r@ == self.message_spec(),
    {
        match self {
            ConfigError::PathNotFound => String::from_str("cannot find config path"),
            ConfigError::DefaultAccountNotFound => String::from_str("cannot find default account"),
            ConfigError::AccountNotFound { name } => {
                let mut s = String::from_str("cannot find account `");
                s.append(name.as_str());
                s.append("`");
                s
            },
        }
    }
}

/// `part` below the directory `base`; an absolute `part` (one that starts
/// with `/`) stands for itself, whatever the directory.
pub open spec fn join_path(base: Seq<char>, part: Seq<char>) -> Seq<char> {
    if base.len() == 0 || (part.len() > 0 && part[0] == '/') {
        part
    } else if base.last() == '/' {
        base + part
    } else {
        base + "/"@ + part
    }
}

/// The path of `part` below the directory `base`, or `part` itself where it
/// is absolute.
pub fn join(base: &str, part: &str) -> (r: String)
    ensures
        r@ == join_path(base@, part@),
{
    let n = base.unicode_len();
    if n == 0 || (part.unicode_len() > 0 && part.get_char(0) == '/') {
        String::from_str(part)
    } else if base.get_char(n - 1) == '/' {
        concat(base, part)
    } else {
        let mut s = concat(base, "/");
        s.append(part);
        s
    }
}

/// Where the configuration file is: under `XDG_CONFIG_HOME` where it is
/// set, else under `.config` in the home directory.
pub open spec fn config_path_spec(xdg_config_home: Option<Seq<char>>, home: Option<Seq<char>>) -> Option<Seq<char>> {
    match xdg_config_home {
        Some(x) => Some(join_path(join_path(x, "himalaya"@), "config.toml"@)),
        None => match home {
            Some(h) => Some(join_path(join_path(join_path(h, ".config"@), "himalaya"@), "config.toml"@)),
            None => None,
        },
    }
}

pub open spec fn str_opt_view(o: Option<&str>) -> Option<Seq<char>> {
    match o {
        Some(s) => Some(s@),
        None => None,
    }
}

pub open spec fn string_opt_view(o: Option<String>) -> Option<Seq<char>> {
    match o {
        Some(s) => Some(s@),
        None => None,
    }
}

/// The name to look an account up by: none where it is absent or empty,
/// which asks for the default account.
pub open spec fn account_key(name: Option<&str>) -> Option<Seq<char>> {
    match name {
        Some(n) => if n@.len() > 0 {
            Some(n@)
        } else {
            None
        },
        None => None,
    }
}

/// A directory setting that yields no directory: unset, or not expandable.
pub open spec fn unexpandable(d: Option<Seq<char>>) -> bool {
    match d {
        Some(s) => !expansion_safe(s),
        None => true,
    }
}

pub open spec fn is_default_account(a: Account) -> bool {
    a.default == Some(true)
}

pub open spec fn named(e: (String, Account), name: Seq<char>) -> bool {
    e.0@ == name
}

/// `i` is the first entry of `accs` under the name `name`.
pub open spec fn first_named(accs: Seq<(String, Account)>, i: int, name: Seq<char>) -> bool {
    0 <= i < accs.len() && named(accs[i], name) && forall|j: int|
        0 <= j < i ==> !named(#[trigger] accs[j], name)
}

/// `i` is the first entry of `accs` marked as the default one.
pub open spec fn first_default(accs: Seq<(String, Account)>, i: int) -> bool {
    0 <= i < accs.len() && is_default_account(accs[i].1) && forall|j: int|
        0 <= j < i ==> !is_default_account(#[trigger] accs[j].1)
}

/// The characters that make a display name need quotes in an address.
pub open spec fn is_special_char(c: char) -> bool {
    c == '(' || c == ')' || c == '<' || c == '>' || c == '[' || c == ']' || c == ':' || c == ';'
        || c == '@' || c == '.' || c == ','
}

pub open spec fn has_special_chars(s: Seq<char>) -> bool {
    exists|i: int| 0 <= i < s.len() && is_special_char(#[trigger] s[i])
}

/// The address of a mailbox with display name `name`: the bare email where
/// the name is empty, the name in quotes where it holds a special character.
pub open spec fn address_spec(name: Seq<char>, email: Seq<char>) -> Seq<char> {
    if name.len() == 0 {
        email
    } else if has_special_chars(name) {
        "\""@ + name + "\""@ + " <"@ + email + ">"@
    } else {
        name + " <"@ + email + ">"@
    }
}

fn special_char(c: char) -> (r: bool)
    ensures
        r == is_special_char(c),
{
    c == '(' || c == ')' || c == '<' || c == '>' || c == '[' || c == ']' || c == ':' || c == ';'
        || c == '@' || c == '.' || c == ','
}

/// Tells whether `s` holds one of the characters `()<>[]:;@.,`.
pub fn contains_special_chars(s: &str) -> (r: bool)
    ensures
        r == has_special_chars(s@),
{
    let n = s.unicode_len();
    let mut i: usize = 0;
    while i < n
        invariant
            n == s@.len(),
            i <= n,
            forall|j: int| 0 <= j < i ==> !is_special_char(#[trigger] s@[j]),
        decreases n - i,
    {
        if special_char(s.get_char(i)) {
            return true;
        }
        i = i + 1;
    }
    false
}

/// What `{:?}` makes of a string: the text in double quotes, with quotes,
/// backslashes and control characters escaped.
pub uninterp spec fn debug_quoted(s: Seq<char>) -> Seq<char>;

/// Relies on std's `Debug` for `str`, through `format!("{:?}")`.
#[verifier::external_body]
pub(crate) fn debug_quote(s: &str) -> (r: String)
    ensures
        r@ == debug_quoted(s@),
{
    format!("{:?}", s)
}

/// Text that shell expansion can take: no `$` is followed by a character
/// outside ASCII. (shellexpand slices one byte past a `$` followed by a
/// letter or digit, which fails on a multi-byte character.)
pub open spec fn expansion_safe(s: Seq<char>) -> bool {
    forall|i: int| 0 <= i < s.len() - 1 && s[i] == '$' ==> #[trigger] s[i + 1] <= '\u{7f}'
}

/// Tells whether shell expansion can take `s`.
pub fn is_expansion_safe(s: &str) -> (r: bool)
    ensures
        r == expansion_safe(s@),
{
    let n = s.unicode_len();
    if n < 2 {
        return true;
    }
    let mut i: usize = 0;
    while i < n - 1
        invariant
            n == s@.len(),
            n >= 2,
            i <= n - 1,
            forall|j: int| 0 <= j < i && s@[j] == '$' ==> #[trigger] s@[j + 1] <= '\u{7f}',
        decreases n - 1 - i,
    {
        if s.get_char(i) == '$' && s.get_char(i + 1) > '\u{7f}' {
            return false;
        }
        i = i + 1;
    }
    true
}

/// Relies on shellexpand's `full`: `~` and environment variables expanded.
/// The result depends on the environment, so nothing is stated of it.
#[verifier::external_body]
fn expand_full(s: &str) -> (r: Option<String>)
    requires
        expansion_safe(s@),
{
    shellexpand::full(s).ok().map(|c| c.to_string())
}

/// `s` with `~` and environment variables expanded; none where the
/// expansion fails or cannot take `s`.
pub fn expand(s: &str) -> (r: Option<String>)
    ensures
        !expansion_safe(s@) ==> r is None,
{
    if is_expansion_safe(s) {
        expand_full(s)
    } else {
        None
    }
}

/// The shell command that notifies of a new message: the configured command
/// followed by the subject and the sender, each as `{:?}` quotes it, or
/// `notify-send` where none is configured.
pub open spec fn notify_cmd_spec(
    cmd: Option<Seq<char>>,
    subject: Seq<char>,
    sender: Seq<char>,
    subject_quoted: Seq<char>,
    sender_quoted: Seq<char>,
) -> Seq<char> {
    match cmd {
        Some(c) => c + " "@ + subject_quoted + " "@ + sender_quoted,
        None => "notify-send \"\u{1F4EB} "@ + sender + "\" \""@ + subject + "\""@,
    }
}

pub open spec fn views_of(v: Seq<String>) -> Seq<Seq<char>> {
    v.map_values(|s: String| s@)
}

/// A copy of the strings of `v`.
pub fn clone_strings(v: &Vec<String>) -> (r: Vec<String>)
    ensures
        views_of(r@) == views_of(v@),
{
    let mut out: Vec<String> = Vec::new();
    let n = v.len();
    let mut i: usize = 0;
    while i < n
        invariant
            n == v@.len(),
            i <= n,
            out@.len() == i,
            forall|j: int| 0 <= j < i ==> (#[trigger] out@[j])@ == v@[j]@,
        decreases n - i,
    {
        out.push(v[i].clone());
        i = i + 1;
    }
    assert(views_of(out@) =~= views_of(v@));
    out
}

/// The first entry under the name `key`.
fn position_named(accs: &Vec<(String, Account)>, key: &String) -> (r: Option<usize>)
    ensures
        match r {
            Some(i) => first_named(accs@, i as int, key@),
            None => forall|j: int| 0 <= j < accs@.len() ==> !named(#[trigger] accs@[j], key@),
        },
{
    let n = accs.len();
    let mut i: usize = 0;
    while i < n
        invariant
            n == accs@.len(),
            i <= n,
            forall|j: int| 0 <= j < i ==> !named(#[trigger] accs@[j], key@),
        decreases n - i,
    {
        if accs[i].0 == *key {
            return Some(i);
        }
        i = i + 1;
    }
    None
}

/// The first entry marked as the default account.
fn position_default(accs: &Vec<(String, Account)>) -> (r: Option<usize>)
    ensures
        match r {
            Some(i) => first_default(accs@, i as int),
            None => forall|j: int| 0 <= j < accs@.len() ==> !is_default_account(#[trigger] accs@[j].1),
        },
{
    let n = accs.len();
    let mut i: usize = 0;
    while i < n
        invariant
            n == accs@.len(),
            i <= n,
            forall|j: int| 0 <= j < i ==> !is_default_account(#[trigger] accs@[j].1),
        decreases n - i,
    {
        if accs[i].1.default == Some(true) {
            return Some(i);
        }
        i = i + 1;
    }
    None
}

impl Config {
    /// Each account name appears once.
    pub open spec fn wf(&self) -> bool {
        forall|i: int, j: int|
            0 <= i < j < self.accounts@.len() ==> #[trigger] self.accounts@[i].0@
                != #[trigger] self.accounts@[j].0@
    }

    /// Where the configuration file is, from the values of `XDG_CONFIG_HOME`
    /// and of the home directory's variable, where they are set.
    pub fn path(xdg_config_home: Option<&str>, home: Option<&str>) -> (r: Result<String, ConfigError>)
        ensures
            match config_path_spec(str_opt_view(xdg_config_home), str_opt_view(home)) {
                Some(p) => r matches Ok(s) && s@ == p,
                None => r matches Err(ConfigError::PathNotFound),
            },
    {
        match xdg_config_home {
            Some(x) => {
                let dir = join(x, "himalaya");
                Ok(join(dir.as_str(), "config.toml"))
            },
            None => match home {
                Some(h) => {
                    let dir = join(h, ".config");
                    let dir = join(dir.as_str(), "himalaya");
                    Ok(join(dir.as_str(), "config.toml"))
                },
                None => Err(ConfigError::PathNotFound),
            },
        }
    }

    /// The account with the given name; where the name is absent or empty,
    /// the first account marked as the default one.
    pub fn find_account_by_name(&self, name: Option<&str>) -> (r: Result<&Account, ConfigError>)
        ensures
            account_key(name) is Some && r is Ok ==> exists|i: int|
                #[trigger] first_named(self.accounts@, i, account_key(name)->Some_0) && *r->Ok_0
                    == self.accounts@[i].1,
            self.wf() && account_key(name) is Some && r is Ok ==> forall|i: int|
                0 <= i < self.accounts@.len() && named(
                    #[trigger] self.accounts@[i],
                    account_key(name)->Some_0,
                ) ==> *r->Ok_0 == self.accounts@[i].1,
            account_key(name) is Some && r is Err ==> forall|i: int|
                0 <= i < self.accounts@.len() ==> !named(
                    #[trigger] self.accounts@[i],
                    account_key(name)->Some_0,
                ),
            account_key(name) is Some && r is Err ==> r->Err_0 is AccountNotFound
                && r->Err_0->AccountNotFound_name@ == account_key(name)->Some_0,
            account_key(name) is None ==> match r {
                Ok(a) => exists|i: int| #[trigger] first_default(self.accounts@, i) && *a == self.accounts@[i].1,
                Err(e) => (forall|i: int|
                    0 <= i < self.accounts@.len() ==> !is_default_account(
                        #[trigger] self.accounts@[i].1,
                    )) && e is DefaultAccountNotFound,
            },
    {
        let key: Option<String> = match name {
            Some(s) => if s.unicode_len() > 0 {
                Some(String::from_str(s))
            } else {
                None
            },
            None => None,
        };
        match key {
            Some(k) => match position_named(&self.accounts, &k) {
                Some(i) => {
                    let ghost key = account_key(name)->Some_0;
                    assert(first_named(self.accounts@, i as int, key));
                    assert forall|j: int|
                        self.wf() && 0 <= j < self.accounts@.len() && named(
                            #[trigger] self.accounts@[j],
                            key,
                        ) implies j == i by {
                        if j > i {
                            assert(self.accounts@[i as int].0@ != self.accounts@[j].0@);
                        }
                    }
                    Ok(&self.accounts[i].1)
                },
                None => Err(ConfigError::AccountNotFound { name: k }),
            },
            None => match position_default(&self.accounts) {
                Some(i) => Ok(&self.accounts[i].1),
                None => Err(ConfigError::DefaultAccountNotFound),
            },
        }
    }

    pub open spec fn display_name(&self, account: &Account) -> Seq<char> {
        match account.name {
            Some(n) => n@,
            None => self.name@,
        }
    }

    /// The address of `account` for a message header: its display name (the
    /// account's, else the configuration's) and its email.
    pub fn address(&self, account: &Account) -> (r: String)
        ensures
            r@ == address_spec(self.display_name(account), account.email@),
    {
        let name: &str = match &account.name {
            Some(n) => n.as_str(),
            None => self.name.as_str(),
        };
        if name.unicode_len() == 0 {
            account.email.clone()
        } else if contains_special_chars(name) {
            let mut s = String::from_str("\"");
            s.append(name);
            s.append("\"");
            s.append(" <");
            s.append(account.email.as_str());
            s.append(">");
            s
        } else {
            let mut s = String::from_str(name);
            s.append(" <");
            s.append(account.email.as_str());
            s.append(">");
            s
        }
    }

    /// The notification command for a message, from the subject and sender
    /// and what `{:?}` makes of each.
    pub fn notify_cmd_quoted(
        &self,
        subject: &str,
        sender: &str,
        subject_quoted: &str,
        sender_quoted: &str,
    ) -> (r: String)
        ensures
            r@ == notify_cmd_spec(
                string_opt_view(self.notify_cmd),
                subject@,
                sender@,
                subject_quoted@,
                sender_quoted@,
            ),
    {
        match &self.notify_cmd {
            Some(c) => {
                let mut s = c.clone();
                s.append(" ");
                s.append(subject_quoted);
                s.append(" ");
                s.append(sender_quoted);
                s
            },
            None => {
                let mut s = String::from_str("notify-send \"\u{1F4EB} ");
                s.append(sender);
                s.append("\" \"");
                s.append(subject);
                s.append("\"");
                s
            },
        }
    }

    /// The shell command that notifies of a message with the given subject
    /// and sender.
    pub fn notify_cmd(&self, subject: &str, sender: &str) -> (r: String)
        ensures
            r@ == notify_cmd_spec(
                string_opt_view(self.notify_cmd),
                subject@,
                sender@,
                debug_quoted(subject@),
                debug_quoted(sender@),
            ),
    {
        let subject_quoted = debug_quote(subject);
        let sender_quoted = debug_quote(sender);
        self.notify_cmd_quoted(subject, sender, subject_quoted.as_str(), sender_quoted.as_str())
    }

    pub open spec fn page_size_spec(&self, account: &Account) -> usize {
        match account.default_page_size {
            Some(s) => s,
            None => match self.default_page_size {
                Some(s) => s,
                None => DEFAULT_PAGE_SIZE,
            },
        }
    }

    /// The page size: the account's, else the configuration's, else 10.
    pub fn default_page_size(&self, account: &Account) -> (r: usize)
        ensures
            r == self.page_size_spec(account),
    {
        match account.default_page_size {
            Some(s) => s,
            None => match self.default_page_size {
                Some(s) => s,
                None => DEFAULT_PAGE_SIZE,
            },
        }
    }

    pub open spec fn watch_cmds_spec(&self, account: &Account) -> Seq<Seq<char>> {
        match account.watch_cmds {
            Some(c) => views_of(c@),
            None => match self.watch_cmds {
                Some(c) => views_of(c@),
                None => Seq::empty(),
            },
        }
    }

    /// The commands to run when new mail arrives: the account's, else the
    /// configuration's, else none.
    pub fn watch_cmds(&self, account: &Account) -> (r: Vec<String>)
        ensures
            views_of(r@) == self.watch_cmds_spec(account),
    {
        match &account.watch_cmds {
            Some(c) => clone_strings(c),
            None => match &self.watch_cmds {
                Some(c) => clone_strings(c),
                None => {
                    let v: Vec<String> = Vec::new();
                    assert(views_of(v@) =~= Seq::empty());
                    v
                },
            },
        }
    }

    pub open spec fn signature_delim_spec(&self, account: &Account) -> Seq<char> {
        match account.signature_delimiter {
            Some(d) => d@,
            None => match self.signature_delimiter {
                Some(d) => d@,
                None => "-- \n"@,
            },
        }
    }

    /// The signature setting in force: the account's, else the configuration's.
    pub open spec fn signature_setting(&self, account: &Account) -> Option<Seq<char>> {
        match account.signature {
            Some(s) => Some(s@),
            None => string_opt_view(self.signature),
        }
    }

    /// The signature setting in force: the account's, else the configuration's.
    pub fn signature_source<'a>(&'a self, account: &'a Account) -> (r: Option<&'a String>)
        ensures
            match r {
                Some(s) => self.signature_setting(account) == Some(s@),
                None => self.signature_setting(account) is None,
            },
    {
        match &account.signature {
            Some(s) => Some(s),
            None => self.signature.as_ref(),
        }
    }

    /// The file that may hold the signature: the signature setting in force
    /// (`signature_source`) with `~` and environment variables expanded. None
    /// where there is no setting or the expansion fails.
    pub fn signature_path(&self, account: &Account) -> (r: Option<String>)
        ensures
            self.signature_setting(account) is None ==> r is None,
            self.signature_setting(account) matches Some(s) && !expansion_safe(s) ==> r is None,
    {
        match self.signature_source(account) {
            Some(s) => expand(s.as_str()),
            None => None,
        }
    }

    /// The signature to append to a message: a newline, the delimiter
    /// (`-- \n` unless one is set), and the text of the signature file where
    /// it could be read (`file_content`), else the setting itself.
    pub fn signature(&self, account: &Account, file_content: Option<&str>) -> (r: Option<String>)
        ensures
            match self.signature_setting(account) {
                None => r is None,
                Some(s) => r matches Some(t) && t@ == "\n"@ + self.signature_delim_spec(account)
                    + match file_content {
                    Some(c) => c@,
                    None => s,
                },
            },
    {
        let setting = match &account.signature {
            Some(s) => Some(s),
            None => self.signature.as_ref(),
        };
        match setting {
            None => None,
            Some(s) => {
                let delim: &str = match &account.signature_delimiter {
                    Some(d) => d.as_str(),
                    None => match &self.signature_delimiter {
                        Some(d) => d.as_str(),
                        None => "-- \n",
                    },
                };
                let mut out = String::from_str("\n");
                out.append(delim);
                match file_content {
                    Some(c) => out.append(c),
                    None => out.append(s.as_str()),
                }
                Some(out)
            },
        }
    }

    /// Where an attachment named `filename` is saved, given the download
    /// directories of the account and of the configuration as expanded (none
    /// where unset or where the expansion failed) and the system's temporary
    /// directory.
    pub fn downloads_filepath_from(
        account_dir: Option<&str>,
        config_dir: Option<&str>,
        temp_dir: &str,
        filename: &str,
    ) -> (r: String)
        ensures
            r@ == join_path(
                match account_dir {
                    Some(d) => d@,
                    None => match config_dir {
                        Some(d) => d@,
                        None => temp_dir@,
                    },
                },
                filename@,
            ),
    {
        let dir = match account_dir {
            Some(d) => d,
            None => match config_dir {
                Some(d) => d,
                None => temp_dir,
            },
        };
        join(dir, filename)
    }

    /// Where an attachment named `filename` is saved: below the account's
    /// download directory, else the configuration's, each with `~` and
    /// environment variables expanded, else below `temp_dir`.
    pub fn downloads_filepath(&self, account: &Account, filename: &str, temp_dir: &str) -> (r: String)
        ensures
            unexpandable(string_opt_view(account.downloads_dir)) && unexpandable(
                string_opt_view(self.downloads_dir),
            ) ==> r@ == join_path(temp_dir@, filename@),
    {
        let account_dir = match &account.downloads_dir {
            Some(d) => expand(d.as_str()),
            None => None,
        };
        let config_dir = match &self.downloads_dir {
            Some(d) => expand(d.as_str()),
            None => None,
        };
        let a: Option<&str> = match &account_dir {
            Some(d) => Some(d.as_str()),
            None => None,
        };
        let c: Option<&str> = match &config_dir {
            Some(d) => Some(d.as_str()),
            None => None,
        };
        Config::downloads_filepath_from(a, c, temp_dir, filename)
    }
}

} // verus!

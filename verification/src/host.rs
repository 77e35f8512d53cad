//! Hosts and the host add/edit form.

use vstd::prelude::*;
use vstd::utf8::encode_utf8;

use crate::form::{byte_offset, FormField};
use crate::num::{decimal, decimal_chars, lemma_decimal_digits, lemma_parse_decimal, parse_unsigned, parse_unsigned_chars};
use crate::text::{
    append_chars, append_str, chars_of, join, join_strings, lemma_list_items_join, lemma_trim_trimmed,
    list_items, list_items_of, plain_item, string_of, trim, trim_chars, trimmed_text, views,
};

verus! {

/// Where a host entry came from.
#[derive(Debug, Clone, Copy, PartialEq, Eq, Default, Structural)]
pub enum HostSource {
    /// Added in the application.
    #[default]
    Manual,
    /// Imported from `~/.ssh/config`.
    SshConfig,
}

/// Runtime connection status of a host.
#[derive(Debug, Clone, PartialEq, Eq)]
pub enum ConnectionStatus {
    Unknown,
    Connecting,
    Connected,
    Failed(String),
}

/// A server the user can connect to.
#[derive(Debug, Clone, Default)]
pub struct Host {
    pub name: String,
    pub hostname: String,
    pub user: String,
    pub port: u16,
    pub identity_file: Option<String>,
    pub password: Option<String>,
    pub proxy_jump: Option<String>,
    pub tags: Vec<String>,
    pub notes: Option<String>,
    pub source: HostSource,
    /// Original `Host` alias when an imported entry was edited.
    pub original_ssh_host: Option<String>,
    pub key_setup_date: Option<String>,
    pub password_auth_disabled: Option<bool>,
}

/// The character view of an optional string.
pub open spec fn opt_view(o: Option<String>) -> Option<Seq<char>> {
    match o {
        Some(s) => Some(s@),
        None => None,
    }
}

/// `None` for empty text, the text otherwise.
pub open spec fn opt_text(v: Seq<char>) -> Option<Seq<char>> {
    if v.len() == 0 {
        None
    } else {
        Some(v)
    }
}

/// The form text of an optional value: empty when absent.
pub open spec fn or_empty(o: Option<String>) -> Seq<char> {
    match o {
        Some(s) => s@,
        None => Seq::empty(),
    }
}

/// The labels of the host form fields, in order.
pub open spec fn host_form_len() -> nat {
    8
}

/// The values of a list of form fields.
pub open spec fn field_values(fields: Seq<FormField>) -> Seq<Seq<char>> {
    fields.map_values(|f: FormField| f.value@)
}

/// A field showing `v` with the cursor at its end.
pub open spec fn shows(f: FormField, v: Seq<char>) -> bool {
    f.value@ == v && f.cursor == byte_offset(v, v.len() as int)
}

/// The port a form value stands for: 22 when blank, else its decimal value.
pub open spec fn form_port(v: Seq<char>) -> Option<nat> {
    if trim(v).len() == 0 {
        Some(22)
    } else {
        parse_unsigned(trim(v), 65535)
    }
}

/// Why the host form values `f` do not make a host, if they do not.
pub open spec fn host_form_error(f: Seq<Seq<char>>) -> Option<Seq<char>> {
    if trim(f[0]).len() == 0 {
        Some("Name cannot be empty"@)
    } else if trim(f[1]).len() == 0 {
        Some("Hostname / IP cannot be empty"@)
    } else if form_port(f[3]) is None {
        Some("Port must be a number between 1 and 65535, got '"@ + trim(f[3]) + "'"@)
    } else {
        None
    }
}

/// `h` is the host that the form values `f` describe, from `source`.
pub open spec fn host_of_form(h: Host, f: Seq<Seq<char>>, source: HostSource) -> bool {
    &&& host_fields_of_form(h, f, source)
    &&& h.original_ssh_host is None
}

/// Every field of `h` but the original SSH alias is what the form values
/// `f` describe, from `source`.
pub open spec fn host_fields_of_form(h: Host, f: Seq<Seq<char>>, source: HostSource) -> bool {
    &&& h.name@ == trim(f[0])
    &&& h.hostname@ == trim(f[1])
    &&& h.user@ == (if trim(f[2]).len() == 0 {
        "root"@
    } else {
        trim(f[2])
    })
    &&& form_port(f[3]) == Some(h.port as nat)
    &&& opt_view(h.identity_file) == opt_text(trim(f[4]))
    &&& opt_view(h.password) == opt_text(trim(f[5]))
    &&& h.proxy_jump is None
    &&& views(h.tags@) == list_items(f[6], ',')
    &&& opt_view(h.notes) == opt_text(trim(f[7]))
    &&& h.source == source
    &&& h.key_setup_date is None
    &&& h.password_auth_disabled is None
}

/// The host add/edit form: name, hostname, user, port, identity file,
/// password, comma-separated tags, notes.
#[derive(Debug, Clone)]
pub struct HostForm {
    pub fields: Vec<FormField>,
    /// Index of the focused field.
    pub focused_field: usize,
}

pub(crate) fn field_showing(v: &[char]) -> (res: FormField)
    ensures
        shows(res, v@),
{
    let value = string_of(v);
    let bytes = crate::text::utf8_bytes(v);
    assert(v@.take(v@.len() as int) =~= v@);
    FormField { value, cursor: bytes.len() }
}

pub(crate) fn field_showing_str(s: &str) -> (res: FormField)
    ensures
        shows(res, s@),
{
    let cs = chars_of(s);
    field_showing(&cs)
}

pub(crate) fn field_showing_opt(o: &Option<String>) -> (res: FormField)
    ensures
        shows(res, or_empty(*o)),
{
    match o {
        Some(s) => field_showing_str(s.as_str()),
        None => {
            let e: Vec<char> = Vec::new();
            assert(e@ =~= Seq::<char>::empty());
            field_showing(&e)
        },
    }
}

/// `None` for empty text, an owned copy otherwise.
pub(crate) fn opt_string(v: &[char]) -> (res: Option<String>)
    ensures
        opt_view(res) == opt_text(v@),
{
    if v.len() == 0 {
        None
    } else {
        Some(string_of(v))
    }
}

/// The trimmed characters of a form value.
pub(crate) fn trimmed(f: &FormField) -> (res: Vec<char>)
    ensures
        res@ == trim(f.value@),
{
    let cs = chars_of(f.value.as_str());
    trim_chars(&cs)
}

impl HostForm {
    /// An empty form for adding a new host.
    pub fn empty() -> (res: Self)
        ensures
            res.fields.len() == host_form_len(),
            forall|i: int| 0 <= i < 8 ==> res.fields@[i].value@.len() == 0 && res.fields@[i].cursor == 0,
            res.focused_field == 0,
    {
        let mut fields: Vec<FormField> = Vec::new();
        let mut i: usize = 0;
        while i < 8
            invariant
                i <= 8,
                fields.len() == i,
                forall|j: int| 0 <= j < i ==> fields@[j].value@.len() == 0 && fields@[j].cursor == 0,
            decreases 8 - i,
        {
            fields.push(FormField::default());
            i = i + 1;
        }
        HostForm { fields, focused_field: 0 }
    }

    /// A form pre-filled from `host`, each cursor at the end of its value.
    pub fn from_host(host: &Host) -> (res: Self)
        ensures
            res.fields.len() == host_form_len(),
            res.focused_field == 0,
            shows(res.fields@[0], host.name@),
            shows(res.fields@[1], host.hostname@),
            shows(res.fields@[2], host.user@),
            shows(res.fields@[3], decimal(host.port as nat)),
            shows(res.fields@[4], or_empty(host.identity_file)),
            shows(res.fields@[5], or_empty(host.password)),
            shows(res.fields@[6], join(views(host.tags@), ", "@)),
            shows(res.fields@[7], or_empty(host.notes)),
            field_values(res.fields@) == host_form_values(*host),
    {
        let port = decimal_chars(host.port as u64);
        let tags = join_strings(host.tags.as_slice(), ", ");
        let fields = vec![
            field_showing_str(host.name.as_str()),
            field_showing_str(host.hostname.as_str()),
            field_showing_str(host.user.as_str()),
            field_showing(&port),
            field_showing_opt(&host.identity_file),
            field_showing_opt(&host.password),
            field_showing_str(tags.as_str()),
            field_showing_opt(&host.notes),
        ];
        assert(field_values(fields@) =~= host_form_values(*host));
        HostForm { fields, focused_field: 0 }
    }

    /// Validates the form and converts it into a [`Host`] from `source`.
    ///
    /// # Errors
    /// A message when the name or the hostname is blank, or the port is
    /// neither blank nor a number of at most 65535.
    pub fn to_host(&self, source: HostSource) -> (res: Result<Host, String>)
        requires
            self.fields.len() >= host_form_len(),
        ensures
            res is Err <==> host_form_error(field_values(self.fields@)) is Some,
            res matches Err(e) ==> host_form_error(field_values(self.fields@)) == Some(e@),
            res matches Ok(h) ==> host_of_form(h, field_values(self.fields@), source),
    {
        let ghost f = field_values(self.fields@);
        assert(f[0] == self.fields@[0].value@);
        assert(f[1] == self.fields@[1].value@);
        assert(f[2] == self.fields@[2].value@);
        assert(f[3] == self.fields@[3].value@);
        assert(f[4] == self.fields@[4].value@);
        assert(f[5] == self.fields@[5].value@);
        assert(f[6] == self.fields@[6].value@);
        assert(f[7] == self.fields@[7].value@);
        let name = trimmed(&self.fields[0]);
        if name.len() == 0 {
            return Err("Name cannot be empty".to_owned());
        }
        let hostname = trimmed(&self.fields[1]);
        if hostname.len() == 0 {
            return Err("Hostname / IP cannot be empty".to_owned());
        }
        let user_v = trimmed(&self.fields[2]);
        let user = if user_v.len() == 0 {
            "root".to_owned()
        } else {
            string_of(&user_v)
        };
        let port_v = trimmed(&self.fields[3]);
        let port: u16 = if port_v.len() == 0 {
            22
        } else {
            match parse_unsigned_chars(&port_v, 65535) {
                Some(p) => p as u16,
                None => {
                    let mut msg: Vec<char> = Vec::new();
                    append_str(&mut msg, "Port must be a number between 1 and 65535, got '");
                    append_chars(&mut msg, &port_v);
                    append_str(&mut msg, "'");
                    return Err(string_of(&msg));
                },
            }
        };
        let identity_file = opt_string(&trimmed(&self.fields[4]));
        let password = opt_string(&trimmed(&self.fields[5]));
        let tags = list_items_of(self.fields[6].value.as_str(), ',');
        let notes = opt_string(&trimmed(&self.fields[7]));
        Ok(Host {
            name: string_of(&name),
            hostname: string_of(&hostname),
            user,
            port,
            identity_file,
            password,
            proxy_jump: None,
            tags,
            notes,
            source,
            original_ssh_host: None,
            key_setup_date: None,
            password_auth_disabled: None,
        })
    }

    /// Moves focus to the next field, wrapping around.
    pub fn focus_next(&mut self)
        requires
            old(self).fields.len() > 0,
            old(self).focused_field < usize::MAX,
        ensures
            final(self).focused_field == (old(self).focused_field + 1) % (old(self).fields.len() as int),
            final(self).fields == old(self).fields,
    {
        self.focused_field = (self.focused_field + 1) % self.fields.len();
    }

    /// Moves focus to the previous field, wrapping around.
    pub fn focus_prev(&mut self)
        requires
            old(self).fields.len() > 0,
        ensures
            final(self).focused_field == if old(self).focused_field == 0 {
                old(self).fields.len() - 1
            } else {
                old(self).focused_field - 1
            },
            final(self).fields == old(self).fields,
    {
        if self.focused_field == 0 {
            self.focused_field = self.fields.len() - 1;
        } else {
            self.focused_field = self.focused_field - 1;
        }
    }
}

/// On a field index in range, moving focus forward then back returns to it.
pub proof fn lemma_focus_round_trip(focused: int, n: int)
    requires
        0 <= focused < n,
    ensures
        ({
            let next = (focused + 1) % n;
            (if next == 0 { n - 1 } else { next - 1 }) == focused
        }),
{
    if focused + 1 < n {
        assert((focused + 1) % n == focused + 1) by (nonlinear_arith)
            requires 0 <= focused + 1 < n;
    } else {
        assert((focused + 1) % n == 0) by (nonlinear_arith)
            requires focused + 1 == n, n > 0;
    }
}


/// The values the edit form shows for `h`, field by field.
pub open spec fn host_form_values(h: Host) -> Seq<Seq<char>> {
    seq![
        h.name@,
        h.hostname@,
        h.user@,
        decimal(h.port as nat),
        or_empty(h.identity_file),
        or_empty(h.password),
        join(views(h.tags@), ", "@),
        or_empty(h.notes),
    ]
}

/// An optional text that is absent, or present and trimmed.
pub open spec fn opt_trimmed(o: Option<String>) -> bool {
    match o {
        Some(s) => trimmed_text(s@),
        None => true,
    }
}

/// A host that its own edit form describes exactly: name, hostname and user
/// trimmed, optional texts absent or trimmed, tags trimmed and free of
/// commas, and none of the fields that the form does not show.
pub open spec fn form_describable(h: Host) -> bool {
    &&& trimmed_text(h.name@)
    &&& trimmed_text(h.hostname@)
    &&& trimmed_text(h.user@)
    &&& opt_trimmed(h.identity_file)
    &&& opt_trimmed(h.password)
    &&& opt_trimmed(h.notes)
    &&& forall|i: int| 0 <= i < h.tags.len() ==> plain_item(#[trigger] h.tags@[i]@)
    &&& h.proxy_jump is None
    &&& h.key_setup_date is None
    &&& h.password_auth_disabled is None
}

proof fn lemma_opt_round_trip(o: Option<String>)
    requires
        opt_trimmed(o),
    ensures
        opt_text(trim(or_empty(o))) == opt_view(o),
{
    match o {
        Some(s) => {
            lemma_trim_trimmed(s@);
        },
        None => {
            assert(trim(Seq::<char>::empty()) =~= Seq::<char>::empty());
        },
    }
}

/// The edit form gives back the host it was filled from: its values are
/// valid, and the host read from them has the same fields (the source being
/// the one the form is confirmed with).
pub proof fn lemma_host_form_round_trip(h: Host, back: Host, source: HostSource)
    requires
        form_describable(h),
        host_of_form(back, host_form_values(h), source),
    ensures
        host_form_error(host_form_values(h)) is None,
        back.name@ == h.name@,
        back.hostname@ == h.hostname@,
        back.user@ == h.user@,
        back.port == h.port,
        opt_view(back.identity_file) == opt_view(h.identity_file),
        opt_view(back.password) == opt_view(h.password),
        opt_view(back.notes) == opt_view(h.notes),
        views(back.tags@) == views(h.tags@),
        back.proxy_jump == h.proxy_jump,
        back.key_setup_date == h.key_setup_date,
        back.password_auth_disabled == h.password_auth_disabled,
        back.source == source,
{
    let f = host_form_values(h);
    lemma_trim_trimmed(h.name@);
    lemma_trim_trimmed(h.hostname@);
    lemma_trim_trimmed(h.user@);
    lemma_decimal_digits(h.port as nat);
    lemma_parse_decimal(h.port as nat, 65535);
    let d = decimal(h.port as nat);
    assert(trimmed_text(d)) by {
        assert(crate::num::is_digit(d[0]));
        assert(crate::num::is_digit(d[d.len() - 1]));
    }
    lemma_trim_trimmed(d);
    lemma_opt_round_trip(h.identity_file);
    lemma_opt_round_trip(h.password);
    lemma_opt_round_trip(h.notes);
    assert forall|i: int| 0 <= i < views(h.tags@).len() implies plain_item(#[trigger] views(h.tags@)[i]) by {
        assert(views(h.tags@)[i] == h.tags@[i]@);
    }
    lemma_list_items_join(views(h.tags@));
    assert(f[3] == d);
    assert(form_port(f[3]) == Some(h.port as nat));
}

} // verus!

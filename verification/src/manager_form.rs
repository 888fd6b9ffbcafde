//! The manager's screens and forms: which page is shown, the fields of the
//! form being filled in, what a key does to it, and the request a submitted
//! form makes.
use vstd::prelude::*;
use crate::manager_install::{InitRequest, InstalledInstance, InstanceRequest};
use crate::manager_service::{service_label, ServiceId};
use crate::text::{chars_of, concat2, concat3, dec, has_prefix, push_all, trim_seq, trim_string};
use vstd::set_lib::{lemma_int_range, lemma_len_subset, set_int_range};

verus! {

/// The pages of the manager.
#[derive(Debug, Clone, Copy, PartialEq, Eq, Structural)]
pub enum ActivePage {
    Installed,
    Workspace,
    Output,
}

pub open spec fn page_index(p: ActivePage) -> int {
    match p {
        ActivePage::Installed => 0,
        ActivePage::Workspace => 1,
        ActivePage::Output => 2,
    }
}

pub open spec fn page_at(i: int) -> ActivePage {
    if i == 0 {
        ActivePage::Installed
    } else if i == 1 {
        ActivePage::Workspace
    } else {
        ActivePage::Output
    }
}

/// The page after `p`, the first after the last.
pub open spec fn spec_next_page(p: ActivePage) -> ActivePage {
    page_at((page_index(p) + 1) % 3)
}

/// The page before `p`, the last before the first.
pub open spec fn spec_previous_page(p: ActivePage) -> ActivePage {
    page_at(if page_index(p) == 0 {
        2
    } else {
        page_index(p) - 1
    })
}

impl ActivePage {
    /// The pages in the order of their tabs.
    pub fn all() -> (r: [ActivePage; 3])
        ensures
            r@ == seq![ActivePage::Installed, ActivePage::Workspace, ActivePage::Output],
    {
        [ActivePage::Installed, ActivePage::Workspace, ActivePage::Output]
    }
}

/// The position of a page among its tabs.
fn page_position(pages: &[ActivePage; 3], page: ActivePage) -> (r: usize)
    requires
        pages@ == seq![ActivePage::Installed, ActivePage::Workspace, ActivePage::Output],
    ensures
        r as int == page_index(page),
{
    let mut i: usize = 0;
    while i < 3
        invariant
            0 <= i <= 3,
            pages@ == seq![ActivePage::Installed, ActivePage::Workspace, ActivePage::Output],
            forall|j: int| 0 <= j < i ==> pages@[j] != page,
        decreases 3 - i,
    {
        if pages[i] == page {
            return i;
        }
        i += 1;
    }
    assert(pages@[page_index(page)] == page);
    0
}

/// The tab to the right of `page`.
pub fn next_page(page: ActivePage) -> (r: ActivePage)
    ensures
        r == spec_next_page(page),
{
    let pages = ActivePage::all();
    let index = page_position(&pages, page);
    pages[(index + 1) % 3]
}

/// The tab to the left of `page`.
pub fn previous_page(page: ActivePage) -> (r: ActivePage)
    ensures
        r == spec_previous_page(page),
{
    let pages = ActivePage::all();
    let index = page_position(&pages, page);
    let previous = if index == 0 {
        2
    } else {
        index - 1
    };
    pages[previous]
}

/// Moving one tab right and then one left (or left, then right) comes back
/// to the same page.
pub proof fn lemma_page_moves_undo(p: ActivePage)
    ensures
        spec_previous_page(spec_next_page(p)) == p,
        spec_next_page(spec_previous_page(p)) == p,
{
}

/// The fields a form can have.
#[derive(Debug, Clone, Copy, PartialEq, Eq, Structural)]
pub enum FormFieldKey {
    Service,
    InstanceName,
    BindHost,
    Port,
    DataPath,
    ServiceName,
    LanceDbRoot,
    DuckDbRoot,
    LanceDbPort,
    DuckDbPort,
    LanceDbServiceName,
    DuckDbServiceName,
}

/// What a field accepts: any text, digits only, or one of some options.
#[derive(Debug, Clone)]
pub enum FieldKind {
    Text,
    Number,
    Choice(Vec<String>),
}

/// A field of a form.
#[derive(Debug, Clone)]
pub struct FormField {
    pub key: FormFieldKey,
    pub kind: FieldKind,
    pub value: String,
}

/// What a form is for.
#[derive(Debug, Clone)]
pub enum FormMode {
    Initialize,
    Install,
    Configure(InstalledInstance),
}

/// A form being filled in: its fields and the one the cursor is on.
#[derive(Debug, Clone)]
pub struct FormState {
    pub mode: FormMode,
    pub fields: Vec<FormField>,
    pub selected_index: usize,
}

/// What a confirmation asks to do.
#[derive(Debug, Clone)]
pub enum ConfirmAction {
    UpdateBinaries,
    RemoveLauncher,
    UninstallInstance(InstalledInstance),
    UninstallAll,
}

/// A question the user confirms or declines.
#[derive(Debug, Clone)]
pub struct ConfirmState {
    pub title: String,
    pub message: String,
    pub action: ConfirmAction,
}

/// The window shown over a page.
#[derive(Debug, Clone)]
pub enum Modal {
    Form(FormState),
    Confirm(ConfirmState),
}

/// The index of the first field with `key`, if any.
pub open spec fn first_field_with(fields: Seq<FormField>, key: FormFieldKey) -> Option<int>
    decreases fields.len(),
{
    if fields.len() == 0 {
        None
    } else {
        match first_field_with(fields.drop_last(), key) {
            Some(i) => Some(i),
            None => if fields.last().key == key {
                Some(fields.len() - 1)
            } else {
                None
            },
        }
    }
}

/// The trimmed value of the first field with `key`.
pub open spec fn spec_field_value(fields: Seq<FormField>, key: FormFieldKey) -> Option<Seq<char>> {
    match first_field_with(fields, key) {
        Some(i) => Some(trim_seq(fields[i].value@)),
        None => None,
    }
}

proof fn lemma_first_field_scan(fields: Seq<FormField>, key: FormFieldKey, i: int)
    requires
        0 <= i <= fields.len(),
        forall|j: int| 0 <= j < i ==> (#[trigger] fields[j]).key != key,
    ensures
        first_field_with(fields.subrange(0, i), key) is None,
        i < fields.len() && fields[i].key == key ==> first_field_with(fields, key) == Some(i),
        i == fields.len() ==> first_field_with(fields, key) is None,
    decreases i,
{
    if i > 0 {
        lemma_first_field_scan(fields, key, i - 1);
        assert(fields.subrange(0, i).drop_last() =~= fields.subrange(0, i - 1));
    }
    if i < fields.len() && fields[i].key == key {
        lemma_first_field_extend(fields, key, i);
    }
    if i == fields.len() {
        assert(fields.subrange(0, i) =~= fields);
    }
}

proof fn lemma_first_field_extend(fields: Seq<FormField>, key: FormFieldKey, i: int)
    requires
        0 <= i < fields.len(),
        first_field_with(fields.subrange(0, i), key) is None,
        fields[i].key == key,
    ensures
        first_field_with(fields, key) == Some(i),
    decreases fields.len() - i,
{
    assert(fields.subrange(0, i + 1).drop_last() =~= fields.subrange(0, i));
    assert(first_field_with(fields.subrange(0, i + 1), key) == Some(i));
    lemma_first_field_prefix(fields, key, i + 1);
}

proof fn lemma_first_field_prefix(fields: Seq<FormField>, key: FormFieldKey, k: int)
    requires
        0 <= k <= fields.len(),
        first_field_with(fields.subrange(0, k), key) is Some,
    ensures
        first_field_with(fields, key) == first_field_with(fields.subrange(0, k), key),
    decreases fields.len() - k,
{
    if k < fields.len() {
        assert(fields.subrange(0, k + 1).drop_last() =~= fields.subrange(0, k));
        lemma_first_field_prefix(fields, key, k + 1);
    } else {
        assert(fields.subrange(0, k) =~= fields);
    }
}

/// The position of the first field with `key`.
fn find_field(fields: &Vec<FormField>, key: FormFieldKey) -> (r: Option<usize>)
    ensures
        r matches Some(a) ==> a < fields@.len() && fields@[a as int].key == key,
        match (r, first_field_with(fields@, key)) {
            (Some(a), Some(b)) => a as int == b,
            (None, None) => true,
            _ => false,
        },
{
    let mut i: usize = 0;
    while i < fields.len()
        invariant
            0 <= i <= fields.len(),
            forall|j: int| 0 <= j < i ==> (#[trigger] fields@[j]).key != key,
        decreases fields.len() - i,
    {
        if fields[i].key == key {
            proof {
                lemma_first_field_scan(fields@, key, i as int);
            }
            return Some(i);
        }
        i += 1;
    }
    proof {
        lemma_first_field_scan(fields@, key, i as int);
    }
    None
}

impl FormState {
    /// Moves the cursor to the field above, from the first to the last.
    pub fn previous_field(&mut self)
        ensures
            final(self).fields@ == old(self).fields@,
            final(self).mode == old(self).mode,
            old(self).selected_index == 0 ==> final(self).selected_index == (if old(self).fields@.len() == 0 {
                0
            } else {
                old(self).fields@.len() - 1
            }),
            old(self).selected_index != 0 ==> final(self).selected_index == old(self).selected_index - 1,
    {
        if self.selected_index == 0 {
            self.selected_index = if self.fields.len() == 0 {
                0
            } else {
                self.fields.len() - 1
            };
        } else {
            self.selected_index -= 1;
        }
    }

    /// Moves the cursor to the field below, from the last to the first.
    pub fn next_field(&mut self)
        requires
            old(self).selected_index < usize::MAX,
        ensures
            final(self).fields@ == old(self).fields@,
            final(self).mode == old(self).mode,
            final(self).selected_index == (old(self).selected_index + 1) % (if old(self).fields@.len()
                == 0 {
                1
            } else {
                old(self).fields@.len() as int
            }),
    {
        let n = if self.fields.len() == 0 {
            1
        } else {
            self.fields.len()
        };
        self.selected_index = (self.selected_index + 1) % n;
    }

    /// The trimmed value of the first field with `key`.
    pub fn field_value(&self, key: FormFieldKey) -> (r: Option<String>)
        ensures
            match (r, spec_field_value(self.fields@, key)) {
                (Some(a), Some(b)) => a@ == b,
                (None, None) => true,
                _ => false,
            },
    {
        match find_field(&self.fields, key) {
            Some(i) => Some(trim_string(&self.fields[i].value)),
            None => None,
        }
    }

    /// The trimmed value of the first field with `key`, or empty.
    pub fn field_value_or_empty(&self, key: FormFieldKey) -> (r: String)
        ensures
            r@ == value_or_empty(self.fields@, key),
    {
        match self.field_value(key) {
            Some(v) => v,
            None => String::new(),
        }
    }
}

/// The trimmed value of the first field with `key`, or empty.
pub open spec fn value_or_empty(fields: Seq<FormField>, key: FormFieldKey) -> Seq<char> {
    match spec_field_value(fields, key) {
        Some(v) => v,
        None => Seq::empty(),
    }
}

/// A text field.
pub fn text_field(key: FormFieldKey, value: String) -> (r: FormField)
    ensures
        r.key == key,
        r.kind is Text,
        r.value == value,
{
    FormField { key, kind: FieldKind::Text, value }
}

/// A field for digits.
pub fn number_field(key: FormFieldKey, value: String) -> (r: FormField)
    ensures
        r.key == key,
        r.kind is Number,
        r.value == value,
{
    FormField { key, kind: FieldKind::Number, value }
}

/// A field whose value is one of `options`.
pub fn choice_field(key: FormFieldKey, options: Vec<String>, value: String) -> (r: FormField)
    ensures
        r.key == key,
        r.kind == FieldKind::Choice(options),
        r.value == value,
{
    FormField { key, kind: FieldKind::Choice(options), value }
}

/// Sets the value of the first field with `key`; a form without such a
/// field stays as it is.
pub fn set_form_value(form: &mut FormState, key: FormFieldKey, value: String)
    ensures
        final(form).mode == old(form).mode,
        final(form).selected_index == old(form).selected_index,
        match first_field_with(old(form).fields@, key) {
            Some(i) => final(form).fields@ == old(form).fields@.update(
                i,
                FormField { key: old(form).fields@[i].key, kind: old(form).fields@[i].kind, value },
            ),
            None => final(form).fields@ == old(form).fields@,
        },
{
    match find_field(&form.fields, key) {
        Some(i) => {
            let mut fields = Vec::new();
            std::mem::swap(&mut fields, &mut form.fields);
            let mut field = fields.remove(i);
            field.value = value;
            fields.insert(i, field);
            form.fields = fields;
        },
        None => {},
    }
}

/// A path for display without the Windows verbatim prefix: `\\?\UNC\`
/// becomes `\\`, and `\\?\` is dropped.
pub open spec fn spec_sanitize(value: Seq<char>) -> Seq<char> {
    if has_prefix(value, "\\\\?\\UNC\\"@) {
        "\\\\"@ + value.subrange(8, value.len() as int)
    } else if has_prefix(value, "\\\\?\\"@) {
        value.subrange(4, value.len() as int)
    } else {
        value
    }
}

/// Removes the Windows verbatim prefix from a path for display.
pub fn sanitize_display_text(value: &str) -> (r: String)
    ensures
        r@ == spec_sanitize(value@),
{
    proof {
        reveal_strlit("\\\\?\\UNC\\");
        reveal_strlit("\\\\?\\");
    }
    let chars = chars_of(value);
    if crate::text::starts_with_seq(&chars, "\\\\?\\UNC\\") {
        let rest = crate::text::string_from_range(&chars, 8, chars.len());
        return concat2("\\\\", &rest);
    }
    if crate::text::starts_with_seq(&chars, "\\\\?\\") {
        return crate::text::string_from_range(&chars, 4, chars.len());
    }
    String::from_str(value)
}

/// The service a form names, by its package name.
pub open spec fn spec_parse_service(value: Seq<char>) -> Result<ServiceId, Seq<char>> {
    let t = trim_seq(value);
    if t == "vldb-lancedb"@ {
        Ok(ServiceId::LanceDb)
    } else if t == "vldb-duckdb"@ {
        Ok(ServiceId::DuckDb)
    } else {
        Err("未知服务 / Unknown service: "@ + t)
    }
}

/// Reads the service a form names.
pub fn parse_service_id(value: &str) -> (r: Result<ServiceId, String>)
    ensures
        match (r, spec_parse_service(value@)) {
            (Ok(a), Ok(b)) => a == b,
            (Err(a), Err(b)) => a@ == b,
            _ => false,
        },
{
    let t = crate::text::trim_chars(value);
    if crate::text::eq_str(&t, "vldb-lancedb") {
        return Ok(ServiceId::LanceDb);
    }
    if crate::text::eq_str(&t, "vldb-duckdb") {
        return Ok(ServiceId::DuckDb);
    }
    let ts = crate::text::string_from_chars(&t);
    Err(concat2("未知服务 / Unknown service: ", &ts))
}

/// Why `str::parse` refused an unsigned integer.
#[derive(Debug, Clone, Copy, PartialEq, Eq, Structural)]
pub enum IntParseFailure {
    Empty,
    InvalidDigit,
    PosOverflow,
}

/// How `str::parse` reads the digits of an unsigned integer no larger than
/// `max` from position `i` on, with `acc` read so far: a character that is no
/// digit and a value past `max` stop it, whichever comes first.
pub open spec fn scan_unsigned(body: Seq<char>, i: int, acc: nat, max: nat) -> Result<nat, IntParseFailure>
    decreases body.len() - i,
{
    if i >= body.len() {
        Ok(acc)
    } else if !crate::text::is_digit(body[i]) {
        Err(IntParseFailure::InvalidDigit)
    } else if acc * 10 + crate::text::digit_val(body[i]) > max {
        Err(IntParseFailure::PosOverflow)
    } else {
        scan_unsigned(body, i + 1, acc * 10 + crate::text::digit_val(body[i]), max)
    }
}

/// `str::parse` of an unsigned integer type whose largest value is `max`.
pub open spec fn spec_parse_uint(s: Seq<char>, max: nat) -> Result<nat, IntParseFailure> {
    if s.len() == 0 {
        Err(IntParseFailure::Empty)
    } else if s[0] == '+' && s.len() == 1 {
        Err(IntParseFailure::InvalidDigit)
    } else {
        scan_unsigned(crate::text::unsigned_body(s), 0, 0, max)
    }
}

/// The text of a `ParseIntError`.
pub open spec fn parse_failure_text(f: IntParseFailure) -> Seq<char> {
    match f {
        IntParseFailure::Empty => "cannot parse integer from empty string"@,
        IntParseFailure::InvalidDigit => "invalid digit found in string"@,
        IntParseFailure::PosOverflow => "number too large to fit in target type"@,
    }
}

/// Reads a port number (`u16`) as `str::parse` does.
pub fn parse_u16(s: &Vec<char>) -> (r: Result<u16, IntParseFailure>)
    ensures
        match (r, spec_parse_uint(s@, 65535)) {
            (Ok(a), Ok(b)) => a as nat == b,
            (Err(a), Err(b)) => a == b,
            _ => false,
        },
{
    if s.len() == 0 {
        return Err(IntParseFailure::Empty);
    }
    if s[0] == '+' && s.len() == 1 {
        return Err(IntParseFailure::InvalidDigit);
    }
    let start: usize = if s[0] == '+' {
        1
    } else {
        0
    };
    let mut b: Vec<char> = Vec::new();
    let mut k = start;
    while k < s.len()
        invariant
            start <= k <= s.len(),
            b@ =~= s@.subrange(start as int, k as int),
        decreases s.len() - k,
    {
        b.push(s[k]);
        k += 1;
    }
    assert(b@ =~= crate::text::unsigned_body(s@));
    let mut acc: u32 = 0;
    let mut i: usize = 0;
    while i < b.len()
        invariant
            0 <= i <= b.len(),
            acc <= 65535,
            spec_parse_uint(s@, 65535) == scan_unsigned(b@, i as int, acc as nat, 65535),
        decreases b.len() - i,
    {
        let c = b[i];
        if !('0' <= c && c <= '9') {
            return Err(IntParseFailure::InvalidDigit);
        }
        let d = (c as u32) - 48;
        assert(d == crate::text::digit_val(c));
        let next = acc * 10 + d;
        if next > 65535 {
            return Err(IntParseFailure::PosOverflow);
        }
        acc = next;
        i += 1;
    }
    Ok(acc as u16)
}

/// The message a port field that is no port gets.
pub open spec fn bad_port_message(value: Seq<char>, f: IntParseFailure) -> Seq<char> {
    "端口无效 / Invalid port `"@ + trim_seq(value) + "`: "@ + parse_failure_text(f)
}

/// Reads the port a form gives.
pub fn parse_port(value: &str) -> (r: Result<u16, String>)
    ensures
        match (r, spec_parse_uint(trim_seq(value@), 65535)) {
            (Ok(a), Ok(b)) => a as nat == b,
            (Err(m), Err(f)) => m@ == bad_port_message(value@, f),
            _ => false,
        },
{
    let t = crate::text::trim_chars(value);
    match parse_u16(&t) {
        Ok(p) => Ok(p),
        Err(f) => {
            let ts = crate::text::string_from_chars(&t);
            let mut msg = concat3("端口无效 / Invalid port `", &ts, "`: ");
            push_all(
                &mut msg,
                match f {
                    IntParseFailure::Empty => "cannot parse integer from empty string",
                    IntParseFailure::InvalidDigit => "invalid digit found in string",
                    IntParseFailure::PosOverflow => "number too large to fit in target type",
                },
            );
            Err(msg)
        },
    }
}

/// A copy of an instance record.
pub fn copy_instance(inst: &InstalledInstance) -> (r: InstalledInstance)
    ensures
        r.service == inst.service,
        r.instance_name@ == inst.instance_name@,
        r.config_path@ == inst.config_path@,
        r.host@ == inst.host@,
        r.port == inst.port,
        r.db_path@ == inst.db_path@,
        r.service_name@ == inst.service_name@,
        r.registered == inst.registered,
        r.running == inst.running,
{
    InstalledInstance {
        service: inst.service,
        instance_name: inst.instance_name.clone(),
        config_path: inst.config_path.clone(),
        host: inst.host.clone(),
        port: inst.port,
        db_path: inst.db_path.clone(),
        service_name: inst.service_name.clone(),
        registered: inst.registered,
        running: inst.running,
    }
}

/// What a submitted form asks the manager to do.
#[derive(Debug)]
pub enum FormRequest {
    Initialize(InitRequest),
    Install(InstanceRequest),
    Configure { original: InstalledInstance, request: InstanceRequest },
}

/// The port a field gives, or the message for it.
pub open spec fn port_field(fields: Seq<FormField>, key: FormFieldKey) -> Result<nat, Seq<char>> {
    let v = value_or_empty(fields, key);
    match spec_parse_uint(trim_seq(v), 65535) {
        Ok(p) => Ok(p),
        Err(f) => Err(bad_port_message(v, f)),
    }
}

/// A request holds the values of the form's instance fields.
pub open spec fn holds_instance_fields(req: InstanceRequest, fields: Seq<FormField>) -> bool {
    &&& req.bind_host@ == value_or_empty(fields, FormFieldKey::BindHost)
    &&& port_field(fields, FormFieldKey::Port) == Ok::<nat, Seq<char>>(req.port as nat)
    &&& req.data_path@ == value_or_empty(fields, FormFieldKey::DataPath)
    &&& req.service_name@ == value_or_empty(fields, FormFieldKey::ServiceName)
}

/// Reads a port field.
fn read_port(form: &FormState, key: FormFieldKey) -> (r: Result<u16, String>)
    ensures
        match (r, port_field(form.fields@, key)) {
            (Ok(a), Ok(b)) => a as nat == b,
            (Err(a), Err(b)) => a@ == b,
            _ => false,
        },
{
    let v = form.field_value_or_empty(key);
    parse_port(&v)
}

/// The request a submitted form makes, or the message for the first field
/// that cannot be read: for a first installation both roots, the address,
/// both ports and both service names; for a new instance its service,
/// name, address, port, data path and service name; for a changed one its
/// address, port, data path and service name. A missing field reads as
/// empty.
pub fn form_request(form: &FormState) -> (r: Result<FormRequest, String>)
    ensures
        form.mode is Initialize ==> {
            let f = form.fields@;
            match (port_field(f, FormFieldKey::LanceDbPort), port_field(f, FormFieldKey::DuckDbPort)) {
                (Err(m), _) => r matches Err(e) && e@ == m,
                (Ok(_), Err(m)) => r matches Err(e) && e@ == m,
                (Ok(lp), Ok(dp)) => r matches Ok(FormRequest::Initialize(req)) && req.lancedb_root@
                    == value_or_empty(f, FormFieldKey::LanceDbRoot) && req.duckdb_root@
                    == value_or_empty(f, FormFieldKey::DuckDbRoot) && req.bind_host@
                    == value_or_empty(f, FormFieldKey::BindHost) && req.lancedb_port as nat == lp
                    && req.duckdb_port as nat == dp && req.lancedb_service_name@ == value_or_empty(
                    f,
                    FormFieldKey::LanceDbServiceName,
                ) && req.duckdb_service_name@ == value_or_empty(f, FormFieldKey::DuckDbServiceName),
            }
        },
        form.mode is Install ==> {
            let f = form.fields@;
            match (spec_parse_service(value_or_empty(f, FormFieldKey::Service)), port_field(f, FormFieldKey::Port)) {
                (Err(m), _) => r matches Err(e) && e@ == m,
                (Ok(_), Err(m)) => r matches Err(e) && e@ == m,
                (Ok(service), Ok(_)) => r matches Ok(FormRequest::Install(req)) && req.service
                    == service && req.instance_name@ == value_or_empty(f, FormFieldKey::InstanceName)
                    && holds_instance_fields(req, f),
            }
        },
        form.mode is Configure ==> {
            let f = form.fields@;
            let orig = form.mode->Configure_0;
            match port_field(f, FormFieldKey::Port) {
                Err(m) => r matches Err(e) && e@ == m,
                Ok(_) => r matches Ok(FormRequest::Configure { original, request }) && original.service
                    == orig.service && original.instance_name@ == orig.instance_name@
                    && original.service_name@ == orig.service_name@ && original.port == orig.port
                    && original.registered == orig.registered && original.running == orig.running
                    && original.config_path@ == orig.config_path@ && request.service == orig.service
                    && request.instance_name@ == orig.instance_name@ && holds_instance_fields(request, f),
            }
        },
{
    match &form.mode {
        FormMode::Initialize => {
            let lancedb_root = form.field_value_or_empty(FormFieldKey::LanceDbRoot);
            let duckdb_root = form.field_value_or_empty(FormFieldKey::DuckDbRoot);
            let bind_host = form.field_value_or_empty(FormFieldKey::BindHost);
            let lancedb_port = read_port(form, FormFieldKey::LanceDbPort)?;
            let duckdb_port = read_port(form, FormFieldKey::DuckDbPort)?;
            let lancedb_service_name = form.field_value_or_empty(FormFieldKey::LanceDbServiceName);
            let duckdb_service_name = form.field_value_or_empty(FormFieldKey::DuckDbServiceName);
            Ok(
                FormRequest::Initialize(
                    InitRequest {
                        lancedb_root,
                        duckdb_root,
                        bind_host,
                        lancedb_port,
                        duckdb_port,
                        lancedb_service_name,
                        duckdb_service_name,
                    },
                ),
            )
        },
        FormMode::Install => {
            let service_text = form.field_value_or_empty(FormFieldKey::Service);
            let service = parse_service_id(&service_text)?;
            let instance_name = form.field_value_or_empty(FormFieldKey::InstanceName);
            let bind_host = form.field_value_or_empty(FormFieldKey::BindHost);
            let port = read_port(form, FormFieldKey::Port)?;
            let data_path = form.field_value_or_empty(FormFieldKey::DataPath);
            let service_name = form.field_value_or_empty(FormFieldKey::ServiceName);
            Ok(
                FormRequest::Install(
                    InstanceRequest { service, instance_name, bind_host, port, data_path, service_name },
                ),
            )
        },
        FormMode::Configure(original) => {
            let bind_host = form.field_value_or_empty(FormFieldKey::BindHost);
            let port = read_port(form, FormFieldKey::Port)?;
            let data_path = form.field_value_or_empty(FormFieldKey::DataPath);
            let service_name = form.field_value_or_empty(FormFieldKey::ServiceName);
            let request = InstanceRequest {
                service: original.service,
                instance_name: original.instance_name.clone(),
                bind_host,
                port,
                data_path,
                service_name,
            };
            Ok(FormRequest::Configure { original: copy_instance(original), request })
        },
    }
}

/// The position of the option equal to `value`, or 0.
pub open spec fn choice_position(options: Seq<String>, value: Seq<char>) -> int
    decreases options.len(),
{
    if options.len() == 0 {
        0
    } else if choice_has(options.drop_last(), value) {
        choice_position(options.drop_last(), value)
    } else if options.last()@ == value {
        options.len() - 1
    } else {
        0
    }
}

/// Some option equals `value`.
pub open spec fn choice_has(options: Seq<String>, value: Seq<char>) -> bool {
    exists|i: int| 0 <= i < options.len() && (#[trigger] options[i])@ == value
}

/// The option a step to the right (`forward`) or to the left selects.
pub open spec fn stepped_choice(options: Seq<String>, value: Seq<char>, forward: bool) -> int {
    let current = choice_position(options, value);
    if forward {
        (current + 1) % (options.len() as int)
    } else if current == 0 {
        options.len() - 1
    } else {
        current - 1
    }
}

proof fn lemma_choice_position_scan(options: Seq<String>, value: Seq<char>, i: int)
    requires
        0 <= i <= options.len(),
        forall|j: int| 0 <= j < i ==> (#[trigger] options[j])@ != value,
    ensures
        !choice_has(options.subrange(0, i), value),
        i < options.len() && options[i]@ == value ==> choice_position(options, value) == i,
        i == options.len() ==> choice_position(options, value) == 0,
    decreases options.len() - i,
{
    if i < options.len() && options[i]@ == value {
        lemma_choice_position_at(options, value, i, options.len() as int);
        assert(options.subrange(0, options.len() as int) =~= options);
    }
    if i == options.len() {
        assert(options.subrange(0, i) =~= options);
        lemma_choice_position_none(options, value);
    }
}

proof fn lemma_choice_position_none(options: Seq<String>, value: Seq<char>)
    requires
        !choice_has(options, value),
    ensures
        choice_position(options, value) == 0,
    decreases options.len(),
{
    if options.len() > 0 {
        assert(!choice_has(options.drop_last(), value)) by {
            if choice_has(options.drop_last(), value) {
                let k = choice_pick(options.drop_last(), value);
                assert(options[k]@ == value);
            }
        }
        assert(options.last()@ != value) by {
            if options.last()@ == value {
                assert(options[options.len() - 1]@ == value);
            }
        }
    }
}

spec fn choice_pick(options: Seq<String>, value: Seq<char>) -> int {
    choose|i: int| 0 <= i < options.len() && (#[trigger] options[i])@ == value
}

/// `choice_position` on a prefix of length `k` that holds the first match at `i`.
proof fn lemma_choice_position_at(options: Seq<String>, value: Seq<char>, i: int, k: int)
    requires
        0 <= i < k <= options.len(),
        options[i]@ == value,
        forall|j: int| 0 <= j < i ==> (#[trigger] options[j])@ != value,
    ensures
        choice_position(options.subrange(0, k), value) == i,
    decreases k,
{
    let pre = options.subrange(0, k);
    assert(pre.drop_last() =~= options.subrange(0, k - 1));
    if k == i + 1 {
        assert(!choice_has(pre.drop_last(), value)) by {
            if choice_has(pre.drop_last(), value) {
                let q = choice_pick(pre.drop_last(), value);
                assert(options[q]@ == value);
            }
        }
        assert(pre.last() == options[i]);
    } else {
        lemma_choice_position_at(options, value, i, k - 1);
        assert(pre.drop_last()[i] == options[i]);
        assert(choice_has(pre.drop_last(), value));
    }
    if k == options.len() {
        assert(pre =~= options);
    }
}

/// Steps the choice of the field under the cursor; `true` where it had a
/// field with options to step through.
pub fn adjust_choice_field(form: &mut FormState, forward: bool) -> (stepped: bool)
    ensures
        final(form).mode == old(form).mode,
        final(form).selected_index == old(form).selected_index,
        final(form).fields@.len() == old(form).fields@.len(),
        ({
            let i = old(form).selected_index as int;
            let f = old(form).fields@;
            if i < f.len() && f[i].kind is Choice && f[i].kind->Choice_0@.len() > 0 {
                let opts = f[i].kind->Choice_0@;
                &&& stepped
                &&& forall|j: int| 0 <= j < f.len() && j != i ==> final(form).fields@[j] == f[j]
                &&& final(form).fields@[i].key == f[i].key
                &&& final(form).fields@[i].kind == f[i].kind
                &&& final(form).fields@[i].value@ == opts[stepped_choice(opts, f[i].value@, forward)]@
            } else {
                !stepped && final(form).fields@ == f
            }
        }),
{
    let i = form.selected_index;
    if i >= form.fields.len() {
        return false;
    }
    let next_value = match &form.fields[i].kind {
        FieldKind::Choice(options) => {
            if options.len() == 0 {
                return false;
            }
            let value = &form.fields[i].value;
            let vc = chars_of(value);
            let mut k: usize = 0;
            let mut current: usize = 0;
            let mut found = false;
            while k < options.len() && !found
                invariant
                    0 <= k <= options.len(),
                    options@.len() > 0,
                    vc@ == value@,
                    !found ==> current == 0,
                    !found ==> forall|j: int| 0 <= j < k ==> (#[trigger] options@[j])@ != value@,
                    found ==> current < options.len() && options@[current as int]@ == value@
                        && forall|j: int| 0 <= j < current ==> (#[trigger] options@[j])@ != value@,
                decreases options.len() - k + (if found { 0int } else { 1int }),
            {
                if crate::text::eq_str(&vc, &options[k]) {
                    current = k;
                    found = true;
                } else {
                    k += 1;
                }
            }
            proof {
                if found {
                    lemma_choice_position_scan(options@, value@, current as int);
                } else {
                    lemma_choice_position_scan(options@, value@, options@.len() as int);
                }
            }
            let next = if forward {
                (current + 1) % options.len()
            } else if current == 0 {
                options.len() - 1
            } else {
                current - 1
            };
            options[next].clone()
        },
        _ => {
            return false;
        },
    };
    let mut fields = Vec::new();
    std::mem::swap(&mut fields, &mut form.fields);
    let mut field = fields.remove(i);
    field.value = next_value;
    fields.insert(i, field);
    form.fields = fields;
    true
}

/// A key as the form sees it.
#[derive(Debug, Clone, Copy, PartialEq, Eq, Structural)]
pub enum FormKey {
    Esc,
    Up,
    Down,
    Tab,
    BackTab,
    Left,
    Right,
    Backspace,
    Enter,
    /// A character typed without Control.
    Char(char),
    /// A character typed with Control.
    ControlChar(char),
    Other,
}

/// What a key in a form leads to.
#[derive(Debug, Clone, Copy, PartialEq, Eq, Structural)]
pub enum FormKeyOutcome {
    /// The form closes.
    Close,
    /// The form stays open.
    KeepOpen,
    /// The form is submitted.
    Submit,
    /// An install form changed service: its defaults are to be refreshed.
    RefreshInstallDefaults,
}

/// The value of a field after a typed character: a text field takes any
/// character, a number field only ASCII digits, a choice field none.
pub open spec fn typed_value(kind: FieldKind, value: Seq<char>, c: char) -> Seq<char> {
    match kind {
        FieldKind::Text => value.push(c),
        FieldKind::Number => if '0' <= c <= '9' {
            value.push(c)
        } else {
            value
        },
        FieldKind::Choice(_) => value,
    }
}

/// The value of a field after Backspace: the last character removed,
/// except from a choice field.
pub open spec fn erased_value(kind: FieldKind, value: Seq<char>) -> Seq<char> {
    match kind {
        FieldKind::Choice(_) => value,
        _ => if value.len() > 0 {
            value.drop_last()
        } else {
            value
        },
    }
}

/// Replaces the value of the field at `i`.
fn replace_value(form: &mut FormState, i: usize, value: String)
    requires
        i < old(form).fields@.len(),
    ensures
        final(form).mode == old(form).mode,
        final(form).selected_index == old(form).selected_index,
        final(form).fields@ == old(form).fields@.update(
            i as int,
            FormField { key: old(form).fields@[i as int].key, kind: old(form).fields@[i as int].kind, value },
        ),
{
    let mut fields = Vec::new();
    std::mem::swap(&mut fields, &mut form.fields);
    let mut field = fields.remove(i);
    field.value = value;
    fields.insert(i, field);
    form.fields = fields;
    assert(form.fields@ =~= old(form).fields@.update(
        i as int,
        FormField { key: old(form).fields@[i as int].key, kind: old(form).fields@[i as int].kind, value },
    ));
}

/// Applies a key to a form: Esc closes it; Up/BackTab and Down/Tab move the
/// cursor; Left/Right step a choice (an install form then refreshes its
/// defaults); Backspace and typed characters edit the field under the
/// cursor; Enter submits.
pub fn handle_form_key(form: &mut FormState, key: FormKey) -> (r: FormKeyOutcome)
    requires
        old(form).selected_index < usize::MAX,
    ensures
        final(form).mode == old(form).mode,
        key == FormKey::Esc ==> r == FormKeyOutcome::Close && final(form).fields@ == old(form).fields@,
        key == FormKey::Enter ==> r == FormKeyOutcome::Submit && final(form).fields@ == old(form).fields@,
        key is Up || key is BackTab ==> r == FormKeyOutcome::KeepOpen && final(form).fields@
            == old(form).fields@ && final(form).selected_index == (if old(form).selected_index == 0 {
            if old(form).fields@.len() == 0 {
                0
            } else {
                old(form).fields@.len() - 1
            }
        } else {
            old(form).selected_index - 1
        }),
        key is Down || key is Tab ==> r == FormKeyOutcome::KeepOpen && final(form).fields@
            == old(form).fields@ && final(form).selected_index == (old(form).selected_index + 1) % (
        if old(form).fields@.len() == 0 {
            1
        } else {
            old(form).fields@.len() as int
        }),
        key is Left || key is Right ==> (r == FormKeyOutcome::RefreshInstallDefaults <==> (old(
            form,
        ).mode is Install && ({
            let i = old(form).selected_index as int;
            let f = old(form).fields@;
            i < f.len() && f[i].kind is Choice && f[i].kind->Choice_0@.len() > 0
        }))) && (r == FormKeyOutcome::RefreshInstallDefaults || r == FormKeyOutcome::KeepOpen),
        key is Backspace ==> r == FormKeyOutcome::KeepOpen && final(form).selected_index == old(
            form,
        ).selected_index && ({
            let i = old(form).selected_index as int;
            let f = old(form).fields@;
            if i < f.len() {
                final(form).fields@[i].value@ == erased_value(f[i].kind, f[i].value@)
                    && final(form).fields@.len() == f.len() && forall|j: int|
                    0 <= j < f.len() && j != i ==> final(form).fields@[j] == f[j]
            } else {
                final(form).fields@ == f
            }
        }),
        key matches FormKey::Char(c) ==> r == FormKeyOutcome::KeepOpen && final(form).selected_index
            == old(form).selected_index && ({
            let i = old(form).selected_index as int;
            let f = old(form).fields@;
            if i < f.len() {
                final(form).fields@[i].value@ == typed_value(f[i].kind, f[i].value@, c)
                    && final(form).fields@.len() == f.len() && forall|j: int|
                    0 <= j < f.len() && j != i ==> final(form).fields@[j] == f[j]
            } else {
                final(form).fields@ == f
            }
        }),
        key is ControlChar || key is Other ==> r == FormKeyOutcome::KeepOpen && final(form).fields@
            == old(form).fields@ && final(form).selected_index == old(form).selected_index,
{
    match key {
        FormKey::Esc => FormKeyOutcome::Close,
        FormKey::Up | FormKey::BackTab => {
            form.previous_field();
            FormKeyOutcome::KeepOpen
        },
        FormKey::Down | FormKey::Tab => {
            form.next_field();
            FormKeyOutcome::KeepOpen
        },
        FormKey::Left | FormKey::Right => {
            let install = match form.mode {
                FormMode::Install => true,
                _ => false,
            };
            let forward = match key {
                FormKey::Right => true,
                _ => false,
            };
            let stepped = adjust_choice_field(form, forward);
            if stepped && install {
                FormKeyOutcome::RefreshInstallDefaults
            } else {
                FormKeyOutcome::KeepOpen
            }
        },
        FormKey::Backspace => {
            let i = form.selected_index;
            if i < form.fields.len() {
                let erase = match &form.fields[i].kind {
                    FieldKind::Choice(_) => false,
                    _ => true,
                };
                if erase {
                    let chars = chars_of(&form.fields[i].value);
                    if chars.len() > 0 {
                        let shorter = crate::text::string_from_range(&chars, 0, chars.len() - 1);
                        replace_value(form, i, shorter);
                    }
                }
            }
            FormKeyOutcome::KeepOpen
        },
        FormKey::Enter => FormKeyOutcome::Submit,
        FormKey::Char(c) => {
            let i = form.selected_index;
            if i < form.fields.len() {
                let accept = match &form.fields[i].kind {
                    FieldKind::Choice(_) => false,
                    FieldKind::Number => '0' <= c && c <= '9',
                    FieldKind::Text => true,
                };
                if accept {
                    let mut v = form.fields[i].value.clone();
                    crate::text::push_char(&mut v, c);
                    replace_value(form, i, v);
                }
            }
            FormKeyOutcome::KeepOpen
        },
        FormKey::ControlChar(_) | FormKey::Other => FormKeyOutcome::KeepOpen,
    }
}

/// Some instance listens on `port`.
pub open spec fn port_in_use(instances: Seq<InstalledInstance>, port: int) -> bool {
    exists|i: int| 0 <= i < instances.len() && (#[trigger] instances[i]).port == port
}

/// The port a new instance of `service` starts from.
pub open spec fn base_port(service: ServiceId) -> int {
    match service {
        ServiceId::LanceDb => 19301,
        ServiceId::DuckDb => 19401,
    }
}

/// Whether some instance listens on `port`.
fn port_used(instances: &Vec<InstalledInstance>, port: u16) -> (r: bool)
    ensures
        r == port_in_use(instances@, port as int),
{
    let mut i: usize = 0;
    while i < instances.len()
        invariant
            0 <= i <= instances.len(),
            forall|j: int| 0 <= j < i ==> (#[trigger] instances@[j]).port != port,
        decreases instances.len() - i,
    {
        if instances[i].port == port {
            return true;
        }
        i += 1;
    }
    false
}

/// The port a new instance of `service` is offered: the first from the
/// service's default port up that no instance listens on. There must be one
/// up to 65535; past it the search would never end.
pub fn suggested_port(instances: &Vec<InstalledInstance>, service: ServiceId) -> (r: u16)
    requires
        exists|p: int| base_port(service) <= p <= 65535 && !port_in_use(instances@, p),
    ensures
        base_port(service) <= r,
        !port_in_use(instances@, r as int),
        forall|p: int| base_port(service) <= p < r ==> port_in_use(instances@, p),
{
    let mut candidate: u16 = match service {
        ServiceId::LanceDb => 19301,
        ServiceId::DuckDb => 19401,
    };
    loop
        invariant
            base_port(service) <= candidate,
            exists|p: int| candidate <= p <= 65535 && !port_in_use(instances@, p),
            forall|p: int| base_port(service) <= p < candidate ==> port_in_use(instances@, p),
        decreases 65535 - candidate,
    {
        if !port_used(instances, candidate) {
            return candidate;
        }
        assert(candidate < 65535);
        candidate = candidate + 1;
    }
}

/// The port a new instance of `service` is offered, where there is one:
/// the first from the service's default port up to 65535 that no instance
/// listens on; `None` where every one is taken, on which `suggested_port`
/// would search without end.
pub fn free_port_from(instances: &Vec<InstalledInstance>, service: ServiceId) -> (r: Option<u16>)
    ensures
        match r {
            Some(p) => base_port(service) <= p && !port_in_use(instances@, p as int) && forall|q: int|
                base_port(service) <= q < p ==> port_in_use(instances@, q),
            None => forall|q: int| base_port(service) <= q <= 65535 ==> port_in_use(instances@, q),
        },
{
    let mut candidate: u16 = match service {
        ServiceId::LanceDb => 19301,
        ServiceId::DuckDb => 19401,
    };
    loop
        invariant
            base_port(service) <= candidate,
            forall|q: int| base_port(service) <= q < candidate ==> port_in_use(instances@, q),
        decreases 65535 - candidate,
    {
        if !port_used(instances, candidate) {
            return Some(candidate);
        }
        if candidate == 65535 {
            return None;
        }
        candidate = candidate + 1;
    }
}

proof fn lemma_dec_len(k: nat)
    ensures
        dec(k).len() >= 1,
{
    crate::text::lemma_dec_nonempty(k);
}

/// The name of the `k`-th suggested instance.
pub open spec fn numbered_instance(k: nat) -> Seq<char> {
    "instance-"@ + dec(k)
}

/// Some instance of `service` has the name.
pub open spec fn name_in_use(instances: Seq<InstalledInstance>, service: ServiceId, name: Seq<char>) -> bool {
    exists|i: int|
        0 <= i < instances.len() && (#[trigger] instances[i]).service == service && instances[i].instance_name@
            == name
}

/// Whether some instance of `service` has the name.
fn name_used(instances: &Vec<InstalledInstance>, service: ServiceId, name: &str) -> (r: Option<usize>)
    ensures
        r is Some <==> name_in_use(instances@, service, name@),
        r matches Some(i) ==> i < instances@.len() && instances@[i as int].service == service
            && instances@[i as int].instance_name@ == name@,
{
    let mut i: usize = 0;
    while i < instances.len()
        invariant
            0 <= i <= instances.len(),
            forall|j: int|
                0 <= j < i ==> !((#[trigger] instances@[j]).service == service
                    && instances@[j].instance_name@ == name@),
        decreases instances.len() - i,
    {
        if instances[i].service == service && crate::text::eq_str(
            &chars_of(&instances[i].instance_name),
            name,
        ) {
            return Some(i);
        }
        i += 1;
    }
    None
}

/// The name a new instance of `service` is offered: `default` for the very
/// first instance of an installation, else the first `instance-<k>`, from
/// `k = 2` up, that no instance of the service has.
pub fn suggested_instance_name(instances: &Vec<InstalledInstance>, initialized: bool, service: ServiceId) -> (r: String)
    ensures
        instances@.len() == 0 && !initialized ==> r@ == "default"@,
        !(instances@.len() == 0 && !initialized) ==> exists|k: nat|
            k >= 2 && r@ == numbered_instance(k) && !name_in_use(instances@, service, numbered_instance(k))
                && forall|j: nat| 2 <= j < k ==> name_in_use(instances@, service, #[trigger] numbered_instance(j)),
{
    if instances.len() == 0 && !initialized {
        return String::from_str("default");
    }
    let n = instances.len();
    let mut index: u128 = 2;
    let ghost mut used: Set<int> = Set::empty();
    proof {
        lemma_int_range(0, n as int);
        reveal_strlit("instance-");
    }
    loop
        invariant
            n == instances@.len(),
            !(instances@.len() == 0 && !initialized),
            "instance-"@.len() == 9,
            2 <= index,
            index - 2 <= n,
            used.finite(),
            used.len() == index - 2,
            used.subset_of(set_int_range(0, n as int)),
            set_int_range(0, n as int).finite(),
            set_int_range(0, n as int).len() == n,
            forall|u: int|
                used.contains(u) ==> exists|j: nat|
                    2 <= j < index && instances@[u].service == service && instances@[u].instance_name@
                        == #[trigger] numbered_instance(j),
            forall|j: nat| 2 <= j < index ==> name_in_use(instances@, service, #[trigger] numbered_instance(j)),
        decreases n + 2 - index,
    {
        let number = crate::text::render_u128(index);
        let candidate = concat2("instance-", &number);
        match name_used(instances, service, &candidate) {
            None => {
                assert(candidate@ == numbered_instance(index as nat));
                assert(!name_in_use(instances@, service, numbered_instance(index as nat)));
                return candidate;
            },
            Some(u) => {
                proof {
                    if used.contains(u as int) {
                        let j = choose|j: nat|
                            2 <= j < index && instances@[u as int].service == service
                                && instances@[u as int].instance_name@ == #[trigger] numbered_instance(j);
                        assert(numbered_instance(j) == numbered_instance(index as nat));
                        lemma_dec_len(j);
                        lemma_dec_len(index as nat);
                        assert(dec(j) =~= numbered_instance(j).subrange(9, numbered_instance(j).len() as int));
                        assert(dec(index as nat) =~= numbered_instance(index as nat).subrange(
                            9,
                            numbered_instance(index as nat).len() as int,
                        ));
                        crate::text::lemma_dec_injective(j, index as nat);
                    }
                    let used2 = used.insert(u as int);
                    assert(used2.subset_of(set_int_range(0, n as int)));
                    lemma_len_subset(used2, set_int_range(0, n as int));
                    assert forall|v: int| used2.contains(v) implies exists|j: nat|
                        2 <= j < index + 1 && instances@[v].service == service
                            && instances@[v].instance_name@ == #[trigger] numbered_instance(j) by {
                        if v == u as int {
                            assert(instances@[v].instance_name@ == numbered_instance(index as nat));
                        } else {
                            assert(used.contains(v));
                        }
                    }
                    used = used2;
                }
                index = index + 1;
            },
        }
    }
}


/// The field has the key, a kind of the given tag and the value.
pub open spec fn field_is(f: FormField, key: FormFieldKey, number: bool, value: Seq<char>) -> bool {
    &&& f.key == key
    &&& if number {
        f.kind is Number
    } else {
        f.kind is Text
    }
    &&& f.value@ == value
}

/// The form of a first installation: the two data roots, the bind address
/// (`127.0.0.1`), the two ports (19301 and 19401) and the two service names.
pub fn initialize_form(lancedb_root: &str, duckdb_root: &str, lance_service_name: String, duck_service_name: String) -> (r: FormState)
    ensures
        r.mode is Initialize,
        r.selected_index == 0,
        r.fields@.len() == 7,
        field_is(r.fields@[0], FormFieldKey::LanceDbRoot, false, lancedb_root@),
        field_is(r.fields@[1], FormFieldKey::DuckDbRoot, false, duckdb_root@),
        field_is(r.fields@[2], FormFieldKey::BindHost, false, "127.0.0.1"@),
        field_is(r.fields@[3], FormFieldKey::LanceDbPort, true, "19301"@),
        field_is(r.fields@[4], FormFieldKey::DuckDbPort, true, "19401"@),
        field_is(r.fields@[5], FormFieldKey::LanceDbServiceName, false, lance_service_name@),
        field_is(r.fields@[6], FormFieldKey::DuckDbServiceName, false, duck_service_name@),
{
    let mut fields: Vec<FormField> = Vec::new();
    fields.push(text_field(FormFieldKey::LanceDbRoot, String::from_str(lancedb_root)));
    fields.push(text_field(FormFieldKey::DuckDbRoot, String::from_str(duckdb_root)));
    fields.push(text_field(FormFieldKey::BindHost, String::from_str("127.0.0.1")));
    fields.push(number_field(FormFieldKey::LanceDbPort, String::from_str("19301")));
    fields.push(number_field(FormFieldKey::DuckDbPort, String::from_str("19401")));
    fields.push(text_field(FormFieldKey::LanceDbServiceName, lance_service_name));
    fields.push(text_field(FormFieldKey::DuckDbServiceName, duck_service_name));
    FormState { mode: FormMode::Initialize, fields, selected_index: 0 }
}

/// The form that installs one more instance: the service (a choice between
/// the two, starting at `service`), the instance's name, bind address,
/// port, data path and service name.
pub fn install_form(service: ServiceId, instance_name: String, host: String, port: u16, data_path: String, service_name: String) -> (r: FormState)
    ensures
        r.mode is Install,
        r.selected_index == 0,
        r.fields@.len() == 6,
        r.fields@[0].key == FormFieldKey::Service,
        r.fields@[0].kind matches FieldKind::Choice(o) && o@.len() == 2 && o@[0]@ == service_label(ServiceId::LanceDb)
            && o@[1]@ == service_label(ServiceId::DuckDb),
        r.fields@[0].value@ == service_label(service),
        field_is(r.fields@[1], FormFieldKey::InstanceName, false, instance_name@),
        field_is(r.fields@[2], FormFieldKey::BindHost, false, host@),
        field_is(r.fields@[3], FormFieldKey::Port, true, dec(port as nat)),
        field_is(r.fields@[4], FormFieldKey::DataPath, false, data_path@),
        field_is(r.fields@[5], FormFieldKey::ServiceName, false, service_name@),
{
    let mut options: Vec<String> = Vec::new();
    options.push(String::from_str(ServiceId::LanceDb.label()));
    options.push(String::from_str(ServiceId::DuckDb.label()));
    let mut fields: Vec<FormField> = Vec::new();
    fields.push(choice_field(FormFieldKey::Service, options, String::from_str(service.label())));
    fields.push(text_field(FormFieldKey::InstanceName, instance_name));
    fields.push(text_field(FormFieldKey::BindHost, host));
    fields.push(number_field(FormFieldKey::Port, crate::text::render_u128(port as u128)));
    fields.push(text_field(FormFieldKey::DataPath, data_path));
    fields.push(text_field(FormFieldKey::ServiceName, service_name));
    FormState { mode: FormMode::Install, fields, selected_index: 0 }
}

/// The form that changes an instance: its bind address, port, data path and
/// service name, as they stand.
pub fn configure_form(instance: InstalledInstance) -> (r: FormState)
    ensures
        r.mode == FormMode::Configure(instance),
        r.selected_index == 0,
        r.fields@.len() == 4,
        field_is(r.fields@[0], FormFieldKey::BindHost, false, instance.host@),
        field_is(r.fields@[1], FormFieldKey::Port, true, dec(instance.port as nat)),
        field_is(r.fields@[2], FormFieldKey::DataPath, false, instance.db_path@),
        field_is(r.fields@[3], FormFieldKey::ServiceName, false, instance.service_name@),
{
    let mut fields: Vec<FormField> = Vec::new();
    fields.push(text_field(FormFieldKey::BindHost, instance.host.clone()));
    fields.push(number_field(FormFieldKey::Port, crate::text::render_u128(instance.port as u128)));
    fields.push(text_field(FormFieldKey::DataPath, instance.db_path.clone()));
    fields.push(text_field(FormFieldKey::ServiceName, instance.service_name.clone()));
    FormState { mode: FormMode::Configure(instance), fields, selected_index: 0 }
}

/// Why no form opens: the installation exists already (`initialized`), or
/// there is no instance to change (`!initialized`).
pub fn no_form_message(initialized: bool, zh: bool) -> (r: &'static str)
    ensures
        initialized ==> r@ == crate::manager_install::pick(
            zh,
            "已经存在实例配置，请直接新增实例或修改现有实例。"@,
            "The installation is already initialized. Add or edit instances instead."@,
        ),
        !initialized ==> r@ == crate::manager_install::pick(
            zh,
            "当前没有可修改的实例。"@,
            "There is no installed instance to configure."@,
        ),
{
    if initialized {
        crate::manager_install::pick_text(
            zh,
            "已经存在实例配置，请直接新增实例或修改现有实例。",
            "The installation is already initialized. Add or edit instances instead.",
        )
    } else {
        crate::manager_install::pick_text(zh, "当前没有可修改的实例。", "There is no installed instance to configure.")
    }
}

} // verus!

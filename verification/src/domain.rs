//! The card domain: closed enumerations, the validation pipeline, the
//! validated entity, the injected collaborator traits, and the creation
//! service that ties them together.

use vstd::prelude::*;

use vstd::string::StringExecFns;

use crate::checks::canon_id;
use crate::checks::check_cvv;
use crate::checks::check_expiration_date;
use crate::checks::check_password;
use crate::checks::check_printed_name;
use crate::checks::is_cvv;
use crate::checks::is_expiration_date;
use crate::checks::is_id_format;
use crate::checks::is_password;
use crate::checks::is_printed_name;
use crate::checks::parse_id;
use crate::instant::Instant;
use crate::instant::instant_text;
use crate::protocol::Card;
use crate::protocol::ValidationError;
use crate::text::is_hex_char;
use crate::text::is_numeric;
use crate::text::lower_hex_char;

verus! {

/// The lifecycle status of a card. Creation always yields `Enabled`.
#[derive(Clone, Copy, Debug, PartialEq, Eq, Structural)]
pub enum Status {
    Enabled,
    Cancelled,
    Blocked,
}

/// The canonical uppercase name of a status.
pub open spec fn status_name(st: Status) -> Seq<char> {
    match st {
        Status::Enabled => "ENABLED"@,
        Status::Cancelled => "CANCELLED"@,
        Status::Blocked => "BLOCKED"@,
    }
}

impl Status {
    /// Renders the status under its canonical uppercase name.
    pub fn to_string(&self) -> (r: Result<String, String>)
        ensures
            match r {
                Ok(s) => s@ == status_name(*self),
                Err(_) => false,
            },
    {
        match self {
            Status::Enabled => Ok(String::from_str("ENABLED")),
            Status::Cancelled => Ok(String::from_str("CANCELLED")),
            Status::Blocked => Ok(String::from_str("BLOCKED")),
        }
    }
}

/// The closed enumeration of card kinds.
#[derive(Clone, Copy, Debug, PartialEq, Eq, Structural)]
pub enum Kind {
    Plastic,
    Recurring,
    Temporary,
}

/// `c` equals `u` exactly or as its lowercase ASCII form.
pub open spec fn char_eq_ci(c: char, u: char) -> bool {
    c == u || c as int == u as int + 32
}

/// `s` equals the uppercase word `w` up to ASCII case.
pub open spec fn seq_eq_ci(s: Seq<char>, w: Seq<char>) -> bool {
    s.len() == w.len() && forall|i: int| 0 <= i < w.len() ==> char_eq_ci(#[trigger] s[i], w[i])
}

/// The kind named by `s`, compared case-insensitively against the three
/// canonical kind names.
pub open spec fn kind_code(s: Seq<char>) -> Option<Kind> {
    if seq_eq_ci(s, "PLASTIC"@) {
        Some(Kind::Plastic)
    } else if seq_eq_ci(s, "RECURRING"@) {
        Some(Kind::Recurring)
    } else if seq_eq_ci(s, "TEMPORARY"@) {
        Some(Kind::Temporary)
    } else {
        None
    }
}

/// The canonical uppercase name of a kind.
pub open spec fn kind_name(k: Kind) -> Seq<char> {
    match k {
        Kind::Plastic => "PLASTIC"@,
        Kind::Recurring => "RECURRING"@,
        Kind::Temporary => "TEMPORARY"@,
    }
}

/// Compares `s` against `w` character by character, accepting each
/// character of `w` or the character 32 positions above it, so that a
/// word in uppercase ASCII is matched case-insensitively.
fn eq_ignore_case(s: &str, w: &str) -> (r: bool)
    ensures
        r == seq_eq_ci(s@, w@),
{
    let n = s.unicode_len();
    let m = w.unicode_len();
    if n != m {
        return false;
    }
    let mut i: usize = 0;
    while i < n
        invariant
            n == s@.len(),
            n == w@.len(),
            0 <= i <= n,
            forall|j: int| 0 <= j < i ==> char_eq_ci(#[trigger] s@[j], w@[j]),
        decreases n - i,
    {
        let c = s.get_char(i);
        let u = w.get_char(i);
        if !(c == u || c as u32 == u as u32 + 32) {
            return false;
        }
        i = i + 1;
    }
    true
}

impl Kind {
    /// Parses a kind description, case-insensitively, against the closed
    /// enumeration; an unrecognized value is reported with its raw text.
    pub fn from(description: &str) -> (r: Result<Kind, String>)
        ensures
            match r {
                Ok(k) => kind_code(description@) == Some(k),
                Err(m) => kind_code(description@) is None && m@ == "Unknown kind "@
                    + description@,
            },
    {
        if eq_ignore_case(description, "PLASTIC") {
            Ok(Kind::Plastic)
        } else if eq_ignore_case(description, "RECURRING") {
            Ok(Kind::Recurring)
        } else if eq_ignore_case(description, "TEMPORARY") {
            Ok(Kind::Temporary)
        } else {
            let mut m = String::from_str("Unknown kind ");
            m.append(description);
            Err(m)
        }
    }

    /// Renders the kind under its canonical uppercase name.
    pub fn to_string(&self) -> (r: Result<String, String>)
        ensures
            match r {
                Ok(s) => s@ == kind_name(*self),
                Err(_) => false,
            },
    {
        match self {
            Kind::Plastic => Ok(String::from_str("PLASTIC")),
            Kind::Recurring => Ok(String::from_str("RECURRING")),
            Kind::Temporary => Ok(String::from_str("TEMPORARY")),
        }
    }
}

/// The typed outcome of a successful validation, ready for entity
/// assembly: identifiers canonicalized, formats established.
#[derive(Debug)]
pub struct ValidatedFields {
    pub customer_id: String,
    pub org_id: String,
    pub program_id: String,
    pub account_id: String,
    pub printed_name: String,
    pub password: String,
    pub expiration_date: String,
    pub cvv: String,
    pub kind: Kind,
}

impl ValidatedFields {
    /// Every field satisfies its format rule.
    pub open spec fn wf(self) -> bool {
        &&& is_id_format(self.customer_id@)
        &&& is_id_format(self.org_id@)
        &&& is_id_format(self.program_id@)
        &&& is_id_format(self.account_id@)
        &&& is_printed_name(self.printed_name@)
        &&& is_password(self.password@)
        &&& is_cvv(self.cvv@)
        &&& is_expiration_date(self.expiration_date@)
    }
}

/// All nine validated fields of the request are well-formed.
pub open spec fn valid_request(c: Card) -> bool {
    &&& is_id_format(c.customer_id@)
    &&& is_id_format(c.org_id@)
    &&& is_id_format(c.program_id@)
    &&& is_id_format(c.account_id@)
    &&& is_printed_name(c.printed_name@)
    &&& is_password(c.password@)
    &&& is_cvv(c.cvv@)
    &&& is_expiration_date(c.expiration_date@)
    &&& kind_code(c.kind@) is Some
}

/// Whether the field at position `k` of the fixed pipeline order is
/// well-formed.
pub open spec fn field_ok(c: Card, k: int) -> bool {
    if k == 0 {
        is_id_format(c.customer_id@)
    } else if k == 1 {
        is_id_format(c.org_id@)
    } else if k == 2 {
        is_id_format(c.program_id@)
    } else if k == 3 {
        is_id_format(c.account_id@)
    } else if k == 4 {
        is_printed_name(c.printed_name@)
    } else if k == 5 {
        is_password(c.password@)
    } else if k == 6 {
        is_cvv(c.cvv@)
    } else if k == 7 {
        is_expiration_date(c.expiration_date@)
    } else {
        kind_code(c.kind@) is Some
    }
}

/// The reported name of the field at position `k` of the pipeline order.
pub open spec fn field_name_at(k: int) -> Seq<char> {
    if k == 0 {
        "customer_id"@
    } else if k == 1 {
        "org_id"@
    } else if k == 2 {
        "program_id"@
    } else if k == 3 {
        "account_id"@
    } else if k == 4 {
        "printed_name"@
    } else if k == 5 {
        "password"@
    } else if k == 6 {
        "cvv"@
    } else if k == 7 {
        "expiration_date"@
    } else {
        "kind"@
    }
}

/// The raw input of the field at position `k` of the pipeline order.
pub open spec fn field_value_at(c: Card, k: int) -> Seq<char> {
    if k == 0 {
        c.customer_id@
    } else if k == 1 {
        c.org_id@
    } else if k == 2 {
        c.program_id@
    } else if k == 3 {
        c.account_id@
    } else if k == 4 {
        c.printed_name@
    } else if k == 5 {
        c.password@
    } else if k == 6 {
        c.cvv@
    } else if k == 7 {
        c.expiration_date@
    } else {
        c.kind@
    }
}

/// The name of the first field, in pipeline order, that fails its rule.
pub open spec fn first_error_field(c: Card) -> Seq<char> {
    if !is_id_format(c.customer_id@) {
        "customer_id"@
    } else if !is_id_format(c.org_id@) {
        "org_id"@
    } else if !is_id_format(c.program_id@) {
        "program_id"@
    } else if !is_id_format(c.account_id@) {
        "account_id"@
    } else if !is_printed_name(c.printed_name@) {
        "printed_name"@
    } else if !is_password(c.password@) {
        "password"@
    } else if !is_cvv(c.cvv@) {
        "cvv"@
    } else if !is_expiration_date(c.expiration_date@) {
        "expiration_date"@
    } else {
        "kind"@
    }
}

/// The raw input of the first field, in pipeline order, that fails its
/// rule.
pub open spec fn first_error_value(c: Card) -> Seq<char> {
    if !is_id_format(c.customer_id@) {
        c.customer_id@
    } else if !is_id_format(c.org_id@) {
        c.org_id@
    } else if !is_id_format(c.program_id@) {
        c.program_id@
    } else if !is_id_format(c.account_id@) {
        c.account_id@
    } else if !is_printed_name(c.printed_name@) {
        c.printed_name@
    } else if !is_password(c.password@) {
        c.password@
    } else if !is_cvv(c.cvv@) {
        c.cvv@
    } else if !is_expiration_date(c.expiration_date@) {
        c.expiration_date@
    } else {
        c.kind@
    }
}

/// How a successful validation relates the typed fields to the request:
/// identifiers canonicalized, the other fields echoed, the kind parsed.
pub open spec fn validated_from(c: Card, v: ValidatedFields) -> bool {
    &&& v.customer_id@ == canon_id(c.customer_id@)
    &&& v.org_id@ == canon_id(c.org_id@)
    &&& v.program_id@ == canon_id(c.program_id@)
    &&& v.account_id@ == canon_id(c.account_id@)
    &&& v.printed_name@ == c.printed_name@
    &&& v.password@ == c.password@
    &&& v.cvv@ == c.cvv@
    &&& v.expiration_date@ == c.expiration_date@
    &&& kind_code(c.kind@) == Some(v.kind)
}

/// Canonicalization keeps the identifier format: dashes stay in place and
/// hexadecimal digits stay hexadecimal.
proof fn lemma_canon_id_format(s: Seq<char>)
    requires
        is_id_format(s),
    ensures
        is_id_format(canon_id(s)),
{
    assert forall|i: int| 0 <= i < 36 implies (if crate::checks::id_dash_position(i) {
        #[trigger] canon_id(s)[i] == '-'
    } else {
        is_hex_char(canon_id(s)[i])
    }) by {
        assert(canon_id(s)[i] == lower_hex_char(s[i]));
    }
}

/// Validates the request fields in the fixed pipeline order and stops at
/// the first failure, naming that field and echoing its raw value; on
/// success returns the typed field values ready for entity assembly.
pub fn validate(card: &Card) -> (r: Result<ValidatedFields, ValidationError>)
    ensures
        match r {
            Ok(v) => valid_request(*card) && validated_from(*card, v) && v.wf(),
            Err(e) => {
                &&& !valid_request(*card)
                &&& e.field_name@ == first_error_field(*card)
                &&& e.inputted_value@ == first_error_value(*card)
            },
        },
{
    let customer_id = match parse_id(card.customer_id.as_str()) {
        Some(t) => t,
        None => {
            return Err(
                ValidationError::new(String::from_str("customer_id"), card.customer_id.clone()),
            );
        },
    };
    let org_id = match parse_id(card.org_id.as_str()) {
        Some(t) => t,
        None => {
            return Err(ValidationError::new(String::from_str("org_id"), card.org_id.clone()));
        },
    };
    let program_id = match parse_id(card.program_id.as_str()) {
        Some(t) => t,
        None => {
            return Err(
                ValidationError::new(String::from_str("program_id"), card.program_id.clone()),
            );
        },
    };
    let account_id = match parse_id(card.account_id.as_str()) {
        Some(t) => t,
        None => {
            return Err(
                ValidationError::new(String::from_str("account_id"), card.account_id.clone()),
            );
        },
    };
    if !check_printed_name(card.printed_name.as_str()) {
        return Err(
            ValidationError::new(String::from_str("printed_name"), card.printed_name.clone()),
        );
    }
    if !check_password(card.password.as_str()) {
        return Err(ValidationError::new(String::from_str("password"), card.password.clone()));
    }
    if !check_cvv(card.cvv.as_str()) {
        return Err(ValidationError::new(String::from_str("cvv"), card.cvv.clone()));
    }
    if !check_expiration_date(card.expiration_date.as_str()) {
        return Err(
            ValidationError::new(
                String::from_str("expiration_date"),
                card.expiration_date.clone(),
            ),
        );
    }
    let kind = match Kind::from(card.kind.as_str()) {
        Ok(k) => k,
        Err(_) => {
            return Err(ValidationError::new(String::from_str("kind"), card.kind.clone()));
        },
    };
    proof {
        lemma_canon_id_format(card.customer_id@);
        lemma_canon_id_format(card.org_id@);
        lemma_canon_id_format(card.program_id@);
        lemma_canon_id_format(card.account_id@);
    }
    Ok(
        ValidatedFields {
            customer_id,
            org_id,
            program_id,
            account_id,
            printed_name: card.printed_name.clone(),
            password: card.password.clone(),
            expiration_date: card.expiration_date.clone(),
            cvv: card.cvv.clone(),
            kind,
        },
    )
}

/// Law: a request whose fields before position `k` of the pipeline order
/// are all valid and whose field at `k` is not is rejected with an error
/// that names exactly the field at `k` and echoes its raw value,
/// whatever the fields after `k` hold.
pub proof fn lemma_first_invalid_field_reported(c: Card, k: int)
    requires
        0 <= k < 9,
        !field_ok(c, k),
        forall|j: int| 0 <= j < k ==> field_ok(c, j),
    ensures
        !valid_request(c),
        first_error_field(c) == field_name_at(k),
        first_error_value(c) == field_value_at(c, k),
{
    if k > 0 {
        assert(field_ok(c, 0));
    }
    if k > 1 {
        assert(field_ok(c, 1));
    }
    if k > 2 {
        assert(field_ok(c, 2));
    }
    if k > 3 {
        assert(field_ok(c, 3));
    }
    if k > 4 {
        assert(field_ok(c, 4));
    }
    if k > 5 {
        assert(field_ok(c, 5));
    }
    if k > 6 {
        assert(field_ok(c, 6));
    }
    if k > 7 {
        assert(field_ok(c, 7));
    }
}

/// Law: when several fields are invalid, the reported field is the first
/// invalid one in pipeline order, never any later one.
pub proof fn lemma_later_invalid_field_not_reported(c: Card, k: int, j: int)
    requires
        0 <= k < j < 9,
        !field_ok(c, k),
        !field_ok(c, j),
        forall|i: int| 0 <= i < k ==> field_ok(c, i),
    ensures
        first_error_field(c) == field_name_at(k),
        first_error_field(c) != field_name_at(j),
{
    lemma_first_invalid_field_reported(c, k);
    reveal_strlit("customer_id");
    reveal_strlit("org_id");
    reveal_strlit("program_id");
    reveal_strlit("account_id");
    reveal_strlit("printed_name");
    reveal_strlit("password");
    reveal_strlit("cvv");
    reveal_strlit("expiration_date");
    reveal_strlit("kind");
    assert("customer_id"@.len() == 11);
    assert("org_id"@.len() == 6);
    assert("program_id"@.len() == 10);
    assert("account_id"@.len() == 10);
    assert("printed_name"@.len() == 12);
    assert("password"@.len() == 8);
    assert("cvv"@.len() == 3);
    assert("expiration_date"@.len() == 15);
    assert("kind"@.len() == 4);
    assert("program_id"@[0] == 'p');
    assert("account_id"@[0] == 'a');
    assert(field_name_at(k) != field_name_at(j));
}

/// A generator or persistence-gateway fault: the core could not complete
/// an otherwise-valid request. Distinct from a client-input fault.
#[derive(Clone, Debug, PartialEq)]
pub struct SystemError {
    pub message: String,
}

impl SystemError {
    /// Builds a system error carrying `message`.
    pub fn new(message: String) -> (r: SystemError)
        ensures
            r.message@ == message@,
    {
        SystemError { message }
    }
}

/// The failure taxonomy of the creation service: a client-input fault
/// naming the first offending field, or a collaborator fault.
#[derive(Clone, Debug, PartialEq)]
pub enum CreateError {
    Validation(ValidationError),
    System(SystemError),
}

/// Produces unique identity values on demand. Implemented outside the
/// library (the production one draws random identifiers).
pub trait UuidGenerator {
    /// Generates a fresh identifier in the canonical format, or reports
    /// a system fault.
    fn generate(&self) -> (r: Result<String, SystemError>)
        ensures
            r matches Ok(s) ==> is_id_format(s@),
    ;
}

/// Supplies the current instant for timestamping. Implemented outside
/// the library (the production one reads the system clock).
pub trait TimeService {
    /// The current instant, within calendar bounds.
    fn now(&self) -> (r: Instant)
        ensures
            r.wf(),
    ;
}

/// Derives a numeric card number from a program identifier. Implemented
/// outside the library; its numbering policy is not fixed here.
pub trait PanGenerator {
    /// Derives a non-empty numeric code from the validated program
    /// identifier, or reports a system fault.
    fn generate(&self, program_id: &str) -> (r: Result<String, SystemError>)
        requires
            is_id_format(program_id@),
        ensures
            r matches Ok(s) ==> is_numeric(s@),
    ;
}

/// Accepts a finished card record for durable storage; a failure is
/// reported as a value, not thrown.
pub trait Repository {
    /// Stores the record; `None` on success, the fault otherwise.
    fn save(&self, card: &Card) -> (r: Option<SystemError>);
}

/// The validated, fully-typed internal representation of a card,
/// producible only through the validation pipeline and the generators.
pub struct Entity {
    pub id: String,
    pub customer_id: String,
    pub org_id: String,
    pub program_id: String,
    pub account_id: String,
    pub printed_name: String,
    pub password: String,
    pub expiration_date: String,
    pub issuing_date: Instant,
    pub pan: String,
    pub kind: Kind,
    pub status: Status,
    pub cvv: String,
}

impl Entity {
    /// Every field satisfies its rule and the instant is within bounds.
    pub open spec fn wf(self) -> bool {
        &&& is_id_format(self.id@)
        &&& is_id_format(self.customer_id@)
        &&& is_id_format(self.org_id@)
        &&& is_id_format(self.program_id@)
        &&& is_id_format(self.account_id@)
        &&& is_printed_name(self.printed_name@)
        &&& is_password(self.password@)
        &&& is_cvv(self.cvv@)
        &&& is_expiration_date(self.expiration_date@)
        &&& self.issuing_date.wf()
        &&& is_numeric(self.pan@)
    }

    /// Assembles an entity from validated fields and the three
    /// generator-supplied values; the status of a new entity is always
    /// `Enabled`.
    pub fn new(fields: ValidatedFields, id: String, issuing_date: Instant, pan: String) -> (r:
        Entity)
        requires
            fields.wf(),
            is_id_format(id@),
            issuing_date.wf(),
            is_numeric(pan@),
        ensures
            r.wf(),
            r.id@ == id@,
            r.customer_id@ == fields.customer_id@,
            r.org_id@ == fields.org_id@,
            r.program_id@ == fields.program_id@,
            r.account_id@ == fields.account_id@,
            r.printed_name@ == fields.printed_name@,
            r.password@ == fields.password@,
            r.expiration_date@ == fields.expiration_date@,
            r.issuing_date == issuing_date,
            r.pan@ == pan@,
            r.kind == fields.kind,
            r.status == Status::Enabled,
            r.cvv@ == fields.cvv@,
    {
        Entity {
            id,
            customer_id: fields.customer_id,
            org_id: fields.org_id,
            program_id: fields.program_id,
            account_id: fields.account_id,
            printed_name: fields.printed_name,
            password: fields.password,
            expiration_date: fields.expiration_date,
            issuing_date,
            pan,
            kind: fields.kind,
            status: Status::Enabled,
            cvv: fields.cvv,
        }
    }

    /// Converts the entity back to the external record shape: identifier
    /// and text fields verbatim, the kind and status under their
    /// canonical names, the instant in the fixed timestamp format.
    pub fn to_protocol(&self) -> (r: Card)
        requires
            self.issuing_date.wf(),
        ensures
            r.id@ == self.id@,
            r.customer_id@ == self.customer_id@,
            r.org_id@ == self.org_id@,
            r.program_id@ == self.program_id@,
            r.account_id@ == self.account_id@,
            r.printed_name@ == self.printed_name@,
            r.password@ == self.password@,
            r.expiration_date@ == self.expiration_date@,
            r.issuing_date@ == instant_text(self.issuing_date),
            r.pan@ == self.pan@,
            r.kind@ == kind_name(self.kind),
            r.status@ == status_name(self.status),
            r.cvv@ == self.cvv@,
    {
        Card {
            id: self.id.clone(),
            customer_id: self.customer_id.clone(),
            org_id: self.org_id.clone(),
            program_id: self.program_id.clone(),
            account_id: self.account_id.clone(),
            printed_name: self.printed_name.clone(),
            password: self.password.clone(),
            expiration_date: self.expiration_date.clone(),
            issuing_date: self.issuing_date.render(),
            pan: self.pan.clone(),
            kind: self.kind.to_string().unwrap(),
            status: self.status.to_string().unwrap(),
            cvv: self.cvv.clone(),
        }
    }
}

/// How a returned record relates to a valid request: identifiers
/// canonicalized, text fields echoed, kind and status canonical, and the
/// generator-supplied fields in their promised formats.
pub open spec fn created_card(input: Card, out: Card) -> bool {
    &&& is_id_format(out.id@)
    &&& out.customer_id@ == canon_id(input.customer_id@)
    &&& out.org_id@ == canon_id(input.org_id@)
    &&& out.program_id@ == canon_id(input.program_id@)
    &&& out.account_id@ == canon_id(input.account_id@)
    &&& out.printed_name@ == input.printed_name@
    &&& out.password@ == input.password@
    &&& out.expiration_date@ == input.expiration_date@
    &&& (exists|i: Instant| i.wf() && out.issuing_date@ == #[trigger] instant_text(i))
    &&& is_numeric(out.pan@)
    &&& (match kind_code(input.kind@) {
        Some(k) => out.kind@ == kind_name(k),
        None => false,
    })
    &&& out.status@ == "ENABLED"@
    &&& out.cvv@ == input.cvv@
}

/// The public contract of card creation: a validation error exactly when
/// the request is invalid, naming the first offending field; on a valid
/// request, either the created record or a collaborator fault.
pub open spec fn create_contract(input: Card, r: Result<Card, CreateError>) -> bool {
    match r {
        Ok(out) => valid_request(input) && created_card(input, out),
        Err(CreateError::Validation(e)) => {
            &&& !valid_request(input)
            &&& e.field_name@ == first_error_field(input)
            &&& e.inputted_value@ == first_error_value(input)
        },
        Err(CreateError::System(_)) => valid_request(input),
    }
}

/// The public operation consumed by the transport shell.
pub trait Creator {
    /// Validates the request, assembles and persists the entity, and
    /// returns its external record; fails with the first field error or
    /// with a collaborator fault.
    fn create(&self, dto: Card) -> (r: Result<Card, CreateError>)
        ensures
            create_contract(dto, r),
    ;
}

/// The creation service: the validation pipeline wired to the injected
/// identity, clock, number and persistence collaborators.
pub struct Service<U: UuidGenerator, T: TimeService, P: PanGenerator, R: Repository> {
    pub uuid_generator: U,
    pub time_service: T,
    pub pan_generator: P,
    pub repository: R,
}

impl<U: UuidGenerator, T: TimeService, P: PanGenerator, R: Repository> Service<U, T, P, R> {
    /// Builds a service over the four injected collaborators.
    pub fn new(uuid_generator: U, time_service: T, pan_generator: P, repository: R) -> (r: Service<
        U,
        T,
        P,
        R,
    >)
        ensures
            r.uuid_generator == uuid_generator,
            r.time_service == time_service,
            r.pan_generator == pan_generator,
            r.repository == repository,
    {
        Service { uuid_generator, time_service, pan_generator, repository }
    }
}

impl<U: UuidGenerator, T: TimeService, P: PanGenerator, R: Repository> Creator for Service<
    U,
    T,
    P,
    R,
> {
    fn create(&self, dto: Card) -> (r: Result<Card, CreateError>) {
        let fields = match validate(&dto) {
            Ok(f) => f,
            Err(e) => {
                return Err(CreateError::Validation(e));
            },
        };
        let id = match self.uuid_generator.generate() {
            Ok(s) => s,
            Err(e) => {
                return Err(CreateError::System(e));
            },
        };
        let issuing_date = self.time_service.now();
        let pan = match self.pan_generator.generate(fields.program_id.as_str()) {
            Ok(s) => s,
            Err(e) => {
                return Err(CreateError::System(e));
            },
        };
        let entity = Entity::new(fields, id, issuing_date, pan);
        let output = entity.to_protocol();
        proof {
            assert(entity.issuing_date.wf() && output.issuing_date@ == instant_text(
                entity.issuing_date,
            ));
        }
        match self.repository.save(&output) {
            Some(e) => Err(CreateError::System(e)),
            None => Ok(output),
        }
    }
}

} // verus!

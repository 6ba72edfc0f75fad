//! The records of the service: devices, the forms that change them, and the
//! rules a form must meet before it reaches the database.
use crate::text::{
    is_blank, is_blank_spec, owned, text_contains, text_eq, to_lowercase, unicode_lowercase,
    unicode_white_space,
};
use vstd::prelude::*;

verus! {

/// The earliest second a time stamp can hold, in seconds from 1970-01-01
/// 00:00:00 UTC: that of chrono's `NaiveDateTime::MIN`.
pub const MIN_TIMESTAMP: i64 = -8334601228800;

/// The latest second a time stamp can hold: that of chrono's
/// `NaiveDateTime::MAX`, +262142-12-31 23:59:59 UTC.
pub const MAX_TIMESTAMP: i64 = 8210266876799;

/// Whether seconds and nanoseconds from 1970-01-01 00:00:00 UTC name a moment
/// that chrono's `DateTime::from_timestamp` accepts: one between
/// `MIN_TIMESTAMP` and `MAX_TIMESTAMP`.
/// Nanoseconds past a full second mark a leap second, which only the last
/// second of a minute may have.
pub open spec fn timestamp_valid(secs: int, nsecs: int) -> bool {
    &&& MIN_TIMESTAMP <= secs <= MAX_TIMESTAMP
    &&& 0 <= nsecs
    &&& (nsecs < 1_000_000_000 || (nsecs < 2_000_000_000 && secs % 60 == 59))
}

/// A moment in UTC, as seconds and nanoseconds from 1970-01-01 00:00:00.
#[derive(Clone, Copy, Debug, PartialEq, Eq, PartialOrd, Ord, Hash)]
pub struct DateTime {
    secs: i64,
    nsecs: u32,
}

impl View for DateTime {
    type V = (int, int);

    closed spec fn view(&self) -> (int, int) {
        (self.secs as int, self.nsecs as int)
    }
}

impl DateTime {
    #[verifier::type_invariant]
    spec fn inv(self) -> bool {
        timestamp_valid(self.secs as int, self.nsecs as int)
    }

    /// The moment `secs` seconds and `nsecs` nanoseconds after 1970-01-01
    /// 00:00:00 UTC, when it can be held.
    pub fn new(secs: i64, nsecs: u32) -> (r: Option<DateTime>)
        ensures
            r is Some <==> timestamp_valid(secs as int, nsecs as int),
            r matches Some(d) ==> d@ == (secs as int, nsecs as int),
    {
        let leap_ok = nsecs < 2_000_000_000 && (secs % 60 == 59 || secs % 60 == -1);
        if MIN_TIMESTAMP <= secs && secs <= MAX_TIMESTAMP && (nsecs < 1_000_000_000 || leap_ok) {
            Some(DateTime { secs, nsecs })
        } else {
            None
        }
    }

    /// Seconds from 1970-01-01 00:00:00 UTC.
    pub fn secs(&self) -> (r: i64)
        ensures
            r == self@.0,
            timestamp_valid(self@.0, self@.1),
    {
        proof {
            use_type_invariant(self);
        }
        self.secs
    }

    /// Nanoseconds past the second.
    pub fn nsecs(&self) -> (r: u32)
        ensures
            r == self@.1,
            timestamp_valid(self@.0, self@.1),
    {
        proof {
            use_type_invariant(self);
        }
        self.nsecs
    }
}

/// Whether a device is free to take or held by someone.
#[derive(PartialEq, Eq, Structural, Clone, Copy, Debug, Hash, PartialOrd, Ord)]
pub enum ReservationStatus {
    Available,
    Reserved,
}

impl ReservationStatus {
    /// The other status: what a device becomes when it is taken or handed back.
    pub open spec fn toggled(self) -> ReservationStatus {
        match self {
            ReservationStatus::Available => ReservationStatus::Reserved,
            ReservationStatus::Reserved => ReservationStatus::Available,
        }
    }

    /// The status a form value names, once it is lowercased.
    pub open spec fn from_lowercase_spec(lower: Seq<char>) -> Option<ReservationStatus> {
        if lower == "available"@ {
            Some(ReservationStatus::Available)
        } else if lower == "reserved"@ {
            Some(ReservationStatus::Reserved)
        } else {
            None
        }
    }

    /// Reads a status from a form value that is already lowercase: `available`
    /// or `reserved`; any other text is handed back as the error.
    pub fn from_lowercase_value(lower: &str) -> (r: Result<ReservationStatus, String>)
        ensures
            match Self::from_lowercase_spec(lower@) {
                Some(s) => r == Ok::<ReservationStatus, String>(s),
                None => r is Err && r->Err_0@ == lower@,
            },
    {
        if text_eq(lower, "available") {
            Ok(ReservationStatus::Available)
        } else if text_eq(lower, "reserved") {
            Ok(ReservationStatus::Reserved)
        } else {
            Err(owned(lower))
        }
    }

    /// Reads a status from a form value, ignoring case: the value is
    /// lowercased and must then read `available` or `reserved`. Any other
    /// value is handed back unchanged as the error.
    pub fn from_form_value(v: &str) -> (r: Result<ReservationStatus, String>)
        ensures
            match Self::from_lowercase_spec(unicode_lowercase(v@)) {
                Some(s) => r == Ok::<ReservationStatus, String>(s),
                None => r is Err && r->Err_0@ == v@,
            },
    {
        let lower = to_lowercase(v);
        match Self::from_lowercase_value(lower.as_str()) {
            Ok(s) => Ok(s),
            Err(_) => Err(owned(v)),
        }
    }
}

/// Toggling a status twice gives it back, and toggling always changes it.
pub proof fn lemma_toggle_involutive(s: ReservationStatus)
    ensures
        s.toggled().toggled() == s,
        s.toggled() != s,
{
}

impl Default for ReservationStatus {
    /// A device starts out available.
    fn default() -> (s: Self)
        ensures
            s == ReservationStatus::Available,
    {
        ReservationStatus::Available
    }
}

impl std::ops::Not for ReservationStatus {
    type Output = ReservationStatus;

    /// The other status.
    fn not(self) -> (r: ReservationStatus)
        ensures
            r == self.toggled(),
    {
        match self {
            ReservationStatus::Available => ReservationStatus::Reserved,
            ReservationStatus::Reserved => ReservationStatus::Available,
        }
    }
}

impl vstd::std_specs::ops::NotSpecImpl for ReservationStatus {
    open spec fn obeys_not_spec() -> bool {
        true
    }

    open spec fn not_req(self) -> bool {
        true
    }

    open spec fn not_spec(self) -> ReservationStatus {
        self.toggled()
    }
}

/// A device as the database holds it.
#[derive(Clone, Debug, PartialEq, Eq, PartialOrd, Ord, Hash)]
pub struct Device {
    pub id: i32,
    pub device_name: String,
    pub device_url: Option<String>,
    pub device_owner: Option<String>,
    pub comments: Option<String>,
    pub reservation_status: ReservationStatus,
    pub created_at: DateTime,
    pub updated_at: DateTime,
}

/// The main form: take or hand back one device.
#[derive(Clone, Debug, PartialEq, Eq)]
pub struct DeviceUpdate {
    pub id: i32,
    pub device_owner: Option<String>,
    pub comments: Option<String>,
    pub reservation_status: ReservationStatus,
}

/// Which device a reservation request asks for: any free device of a pool.
#[derive(Clone, Debug, PartialEq, Eq)]
pub struct ReservationRequestDevice {
    pub pool_id: i32,
}

/// A pool of devices that a reservation may draw from; the service keeps
/// its pools as the rooms its devices stand in.
#[derive(Clone, Debug, PartialEq, Eq)]
pub struct Pool {
    pub id: i32,
    pub pool_name: String,
}

/// A request, through the json api, to reserve some free device of a pool.
#[derive(Clone, Debug, PartialEq, Eq)]
pub struct ReservationRequest {
    pub device: ReservationRequestDevice,
    pub device_owner: Option<String>,
    pub comments: Option<String>,
}

/// A granted reservation: the device now held, and by whom. Its id is the
/// id of the device.
#[derive(Debug, PartialEq, Eq)]
pub struct Reservation {
    pub id: i32,
    pub device: Device,
    pub device_owner: String,
    pub comments: Option<String>,
}

/// The form that renames a device or changes its url.
#[derive(Clone, Debug, PartialEq, Eq)]
pub struct DeviceEdit {
    pub id: i32,
    pub device_name: String,
    pub device_url: String,
}

/// The form that removes a device.
#[derive(Clone, Debug, PartialEq, Eq)]
pub struct DeviceDelete {
    pub id: i32,
}

/// The form that adds a device.
#[derive(Clone, Debug, PartialEq, Eq)]
pub struct DeviceInsert {
    pub device_name: String,
    pub device_url: String,
}

/// One rule that a form broke: the field it concerns (`__all__` for a rule
/// over the whole form), a short code, and the message shown to the user.
#[derive(Clone, Debug, PartialEq, Eq)]
pub struct ValidationError {
    pub field: String,
    pub code: String,
    pub message: Option<String>,
}

/// A plain view of a broken rule: field, code, message.
pub type ValidationErrorView = (Seq<char>, Seq<char>, Option<Seq<char>>);

pub open spec fn opt_text(o: Option<String>) -> Option<Seq<char>> {
    match o {
        Some(s) => Some(s@),
        None => None,
    }
}

impl View for ValidationError {
    type V = ValidationErrorView;

    open spec fn view(&self) -> ValidationErrorView {
        (self.field@, self.code@, opt_text(self.message))
    }
}

/// Every rule a form broke, in the order the fields are declared.
#[derive(Clone, Debug, PartialEq, Eq)]
pub struct ValidationErrors {
    pub errors: Vec<ValidationError>,
}

impl View for ValidationErrors {
    type V = Seq<ValidationErrorView>;

    open spec fn view(&self) -> Seq<ValidationErrorView> {
        self.errors@.map_values(|e: ValidationError| e@)
    }
}

/// Whether a text parses as an absolute url (`url::Url::parse` succeeds).
pub uninterp spec fn url_parses(s: Seq<char>) -> bool;

/// Trusted: `validator::validate_url`, which returns whether
/// `url::Url::parse` accepts the text.
#[verifier::external_body]
fn validate_url(s: &str) -> (r: bool)
    ensures
        r == url_parses(s@),
{
    validator::validate_url(s)
}

pub open spec fn name_error() -> ValidationErrorView {
    ("device_name"@, "length"@, Some("Device names cannot be empty"@))
}

pub open spec fn url_error() -> ValidationErrorView {
    ("device_url"@, "url"@, Some("URL was invalid"@))
}

pub open spec fn checkout_error() -> ValidationErrorView {
    ("__all__"@, "reservation"@, Some("Please supply a username when reserving a device"@))
}

/// Whether a text may stand as a device's url: it is not empty, and it is
/// either an absolute url that parses, or a relative reference, which a
/// browser resolves against the page that links to it. A text without any
/// `:` has no scheme, so it is such a reference (`testurl`).
pub open spec fn url_acceptable(url: Seq<char>) -> bool {
    url.len() > 0 && (url_parses(url) || !url.contains(':'))
}

/// The rules a device's name and url must meet: the name holds at least one
/// character, and the url is acceptable.
pub open spec fn details_errors(name: Seq<char>, url: Seq<char>) -> Seq<ValidationErrorView> {
    (if name.len() == 0 {
        seq![name_error()]
    } else {
        Seq::empty()
    }) + (if !url_acceptable(url) {
        seq![url_error()]
    } else {
        Seq::empty()
    })
}

/// Whatever answer meets the rules of the main form accepts an update exactly
/// when it takes nobody's device or names its owner by some character that
/// is not white space; a refusal gives the one message about the owner.
pub proof fn lemma_update_rules(u: DeviceUpdate, r: Result<(), ValidationErrors>)
    ensures
        validation_result(r, u.errors_spec()) ==> (r is Ok <==> (u.reservation_status
            == ReservationStatus::Reserved ==> (u.device_owner matches Some(o) && exists|i: int|
            0 <= i < o@.len() && !unicode_white_space(#[trigger] o@[i])))),
        validation_result(r, u.errors_spec()) && r is Err ==> r->Err_0@ == seq![
            ("__all__"@, "reservation"@, Some("Please supply a username when reserving a device"@)),
        ],
{
    if let Some(o) = u.device_owner {
        if exists|i: int| 0 <= i < o@.len() && !unicode_white_space(#[trigger] o@[i]) {
            let i = choose|i: int| 0 <= i < o@.len() && !unicode_white_space(#[trigger] o@[i]);
            assert(!unicode_white_space(o@[i]));
        }
    }
}

/// Whatever answer meets the rules of the add or edit form accepts a name
/// and url exactly when the name has a character and the url is not empty and
/// either parses as an absolute url or holds no `:`; an empty name is always
/// reported, as is a refused url.
pub proof fn lemma_details_rules(name: Seq<char>, url: Seq<char>, r: Result<(), ValidationErrors>)
    ensures
        validation_result(r, details_errors(name, url)) ==> (r is Ok <==> (name.len() >= 1
            && url.len() >= 1 && (url_parses(url) || !url.contains(':')))),
        validation_result(r, details_errors(name, url)) && name.len() == 0 ==> r is Err
            && r->Err_0@.contains(
            ("device_name"@, "length"@, Some("Device names cannot be empty"@)),
        ),
        validation_result(r, details_errors(name, url)) && (url.len() == 0 || (!url_parses(url)
            && url.contains(':'))) ==> r is Err && r->Err_0@.contains(
            ("device_url"@, "url"@, Some("URL was invalid"@)),
        ),
{
    let errs = details_errors(name, url);
    if name.len() == 0 {
        assert(errs[0] == name_error());
    }
    if !url_acceptable(url) {
        assert(errs[errs.len() - 1] == url_error());
    }
}

/// Whether a form update names someone who takes the device: a reservation
/// needs an owner that is not blank.
pub open spec fn checkout_ok(status: ReservationStatus, owner: Option<String>) -> bool {
    status == ReservationStatus::Reserved ==> match owner {
        Some(o) => !is_blank_spec(o@),
        None => false,
    }
}

pub open spec fn checkout_errors(status: ReservationStatus, owner: Option<String>) -> Seq<
    ValidationErrorView,
> {
    if checkout_ok(status, owner) {
        Seq::empty()
    } else {
        seq![checkout_error()]
    }
}

/// The result of checking a form against the rules that give `errors`.
pub open spec fn validation_result(
    r: Result<(), ValidationErrors>,
    errors: Seq<ValidationErrorView>,
) -> bool {
    match r {
        Ok(()) => errors.len() == 0,
        Err(e) => errors.len() > 0 && e@ == errors,
    }
}

fn error_entry(field: &str, code: &str, message: &str) -> (e: ValidationError)
    ensures
        e@ == (field@, code@, Some(message@)),
{
    ValidationError { field: owned(field), code: owned(code), message: Some(owned(message)) }
}

fn name_and_url_errors(name: &String, url: &String) -> (r: Result<(), ValidationErrors>)
    ensures
        validation_result(r, details_errors(name@, url@)),
{
    let mut errors: Vec<ValidationError> = Vec::new();
    if name.as_str().is_empty() {
        let e = error_entry("device_name", "length", "Device names cannot be empty");
        errors.push(e);
    }
    let url_ok = !url.as_str().is_empty() && (validate_url(url.as_str()) || !text_contains(
        url.as_str(),
        ':',
    ));
    if !url_ok {
        let e = error_entry("device_url", "url", "URL was invalid");
        errors.push(e);
    }
    let ghost spec_errors = details_errors(name@, url@);
    let r = ValidationErrors { errors };
    assert(r@ =~= spec_errors) by {
        reveal_strlit("device_name");
        reveal_strlit("length");
        reveal_strlit("Device names cannot be empty");
        reveal_strlit("device_url");
        reveal_strlit("url");
        reveal_strlit("URL was invalid");
    }
    if r.errors.len() == 0 {
        Ok(())
    } else {
        Err(r)
    }
}

impl DeviceUpdate {
    /// The rules of the main form: whoever reserves a device must give a
    /// name that is not blank.
    pub open spec fn errors_spec(&self) -> Seq<ValidationErrorView> {
        checkout_errors(self.reservation_status, self.device_owner)
    }

    pub fn validate(&self) -> (r: Result<(), ValidationErrors>)
        ensures
            validation_result(r, self.errors_spec()),
            r is Ok <==> (self.reservation_status == ReservationStatus::Reserved ==> (
            self.device_owner matches Some(o) && exists|i: int|
                0 <= i < o@.len() && !unicode_white_space(#[trigger] o@[i]))),
    {
        let ok = match self.reservation_status {
            ReservationStatus::Reserved => match &self.device_owner {
                Some(owner) => !is_blank(owner.as_str()),
                None => false,
            },
            ReservationStatus::Available => true,
        };
        if ok {
            Ok(())
        } else {
            let e = error_entry(
                "__all__",
                "reservation",
                "Please supply a username when reserving a device",
            );
            let mut errors: Vec<ValidationError> = Vec::new();
            errors.push(e);
            let r = ValidationErrors { errors };
            assert(r@ =~= self.errors_spec());
            Err(r)
        }
    }
}

impl DeviceEdit {
    /// The rules of the edit form: a name of at least one character and a
    /// url that may stand as a link (see `url_acceptable`).
    pub open spec fn errors_spec(&self) -> Seq<ValidationErrorView> {
        details_errors(self.device_name@, self.device_url@)
    }

    pub fn validate(&self) -> (r: Result<(), ValidationErrors>)
        ensures
            validation_result(r, self.errors_spec()),
            r is Ok <==> (self.device_name@.len() >= 1 && self.device_url@.len() >= 1 && (
            url_parses(self.device_url@) || !self.device_url@.contains(':'))),
    {
        let r = name_and_url_errors(&self.device_name, &self.device_url);
        proof {
            lemma_details_rules(self.device_name@, self.device_url@, r);
        }
        r
    }
}

impl DeviceInsert {
    /// The rules of the add form: a name of at least one character and a
    /// url that may stand as a link (see `url_acceptable`).
    pub open spec fn errors_spec(&self) -> Seq<ValidationErrorView> {
        details_errors(self.device_name@, self.device_url@)
    }

    pub fn validate(&self) -> (r: Result<(), ValidationErrors>)
        ensures
            validation_result(r, self.errors_spec()),
            r is Ok <==> (self.device_name@.len() >= 1 && self.device_url@.len() >= 1 && (
            url_parses(self.device_url@) || !self.device_url@.contains(':'))),
    {
        let r = name_and_url_errors(&self.device_name, &self.device_url);
        proof {
            lemma_details_rules(self.device_name@, self.device_url@, r);
        }
        r
    }
}

} // verus!

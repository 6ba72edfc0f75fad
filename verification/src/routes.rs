//! What each page and api endpoint of the service decides. The service
//! reads and writes its database between these steps; every step here takes
//! what the database answered and says what to answer or what to write next.
use crate::models::{
    checkout_ok, opt_text, timestamp_valid, DateTime, Pool, Device, DeviceDelete, DeviceEdit, DeviceInsert, DeviceUpdate,
    Reservation, ReservationRequest, ReservationStatus, ValidationErrorView, ValidationErrors,
};
use crate::text::{owned, text_eq};
use chrono::Offset;
use vstd::prelude::*;

verus! {

// ---------------------------------------------------------------------------
// The routing table
// ---------------------------------------------------------------------------

/// The http method a route answers.
#[derive(PartialEq, Eq, Structural, Clone, Copy, Debug)]
pub enum Method {
    Get,
    Post,
    Delete,
}

/// The handler a route leads to.
#[derive(PartialEq, Eq, Structural, Clone, Copy, Debug)]
pub enum Handler {
    Index,
    GetDevices,
    PostDevices,
    GetEditDevices,
    PostEditDevices,
    PostAddDevices,
    PostDeleteDevices,
    ApiGetDevice,
    ApiGetDevices,
    ApiPostReservations,
    ApiDeleteReservation,
}

/// One entry of the routing table: method, path pattern, the media type the
/// request body must have (when the route demands one), handler.
#[derive(Clone, Debug)]
pub struct Route {
    pub method: Method,
    pub path: String,
    pub format: Option<String>,
    pub handler: Handler,
}

pub open spec fn route_view(r: Route) -> (Method, Seq<char>, Option<Seq<char>>, Handler) {
    (r.method, r.path@, opt_text(r.format), r.handler)
}

fn route(method: Method, path: &str, handler: Handler) -> (r: Route)
    ensures
        route_view(r) == (method, path@, None::<Seq<char>>, handler),
{
    Route { method, path: owned(path), format: None, handler }
}

fn route_with_format(method: Method, path: &str, format: &str, handler: Handler) -> (r: Route)
    ensures
        route_view(r) == (method, path@, Some(format@), handler),
{
    Route { method, path: owned(path), format: Some(owned(format)), handler }
}

/// The pages of the web interface, mounted at `/`.
pub open spec fn html_routes_spec() -> Seq<(Method, Seq<char>, Option<Seq<char>>, Handler)> {
    seq![
        (Method::Get, "/"@, None, Handler::Index),
        (Method::Get, "/devices"@, None, Handler::GetDevices),
        (Method::Post, "/devices"@, None, Handler::PostDevices),
        (Method::Get, "/editDevices"@, None, Handler::GetEditDevices),
        (Method::Post, "/editDevices"@, None, Handler::PostEditDevices),
        (Method::Post, "/addDevices"@, None, Handler::PostAddDevices),
        (Method::Post, "/deleteDevices"@, None, Handler::PostDeleteDevices),
    ]
}

/// The json api, mounted at `/api/`.
pub open spec fn api_routes_spec() -> Seq<(Method, Seq<char>, Option<Seq<char>>, Handler)> {
    seq![
        (Method::Get, "/devices/<name>"@, None, Handler::ApiGetDevice),
        (Method::Get, "/devices"@, None, Handler::ApiGetDevices),
        (Method::Post, "/reservations"@, Some("application/json"@), Handler::ApiPostReservations),
        (Method::Delete, "/reservations/<id>"@, None, Handler::ApiDeleteReservation),
    ]
}

/// The routes of the web interface.
pub fn html_routes() -> (r: Vec<Route>)
    ensures
        r@.map_values(|x: Route| route_view(x)) == html_routes_spec(),
{
    let mut r: Vec<Route> = Vec::new();
    r.push(route(Method::Get, "/", Handler::Index));
    r.push(route(Method::Get, "/devices", Handler::GetDevices));
    r.push(route(Method::Post, "/devices", Handler::PostDevices));
    r.push(route(Method::Get, "/editDevices", Handler::GetEditDevices));
    r.push(route(Method::Post, "/editDevices", Handler::PostEditDevices));
    r.push(route(Method::Post, "/addDevices", Handler::PostAddDevices));
    r.push(route(Method::Post, "/deleteDevices", Handler::PostDeleteDevices));
    assert(r@.map_values(|x: Route| route_view(x)) =~= html_routes_spec());
    r
}

/// The routes of the json api.
pub fn api_routes() -> (r: Vec<Route>)
    ensures
        r@.map_values(|x: Route| route_view(x)) == api_routes_spec(),
{
    let mut r: Vec<Route> = Vec::new();
    r.push(route(Method::Get, "/devices/<name>", Handler::ApiGetDevice));
    r.push(route(Method::Get, "/devices", Handler::ApiGetDevices));
    r.push(
        route_with_format(
            Method::Post,
            "/reservations",
            "application/json",
            Handler::ApiPostReservations,
        ),
    );
    r.push(route(Method::Delete, "/reservations/<id>", Handler::ApiDeleteReservation));
    assert(r@.map_values(|x: Route| route_view(x)) =~= api_routes_spec());
    r
}

// ---------------------------------------------------------------------------
// Answers
// ---------------------------------------------------------------------------

/// A redirect to another page.
#[derive(Clone, Debug, PartialEq, Eq)]
pub struct Redirect {
    pub location: String,
}

/// The root page sends the browser to the list of devices.
pub fn index() -> (r: Redirect)
    ensures
        r.location@ == "/devices"@,
{
    Redirect { location: owned("/devices") }
}

/// Whether a one-off message reports a success or an error.
#[derive(PartialEq, Eq, Structural, Clone, Copy, Debug)]
pub enum FlashKind {
    Success,
    Error,
}

impl FlashKind {
    /// The name the message travels under to the next page.
    pub open spec fn name_spec(self) -> Seq<char> {
        match self {
            FlashKind::Success => "success"@,
            FlashKind::Error => "error"@,
        }
    }

    pub fn name(&self) -> (n: String)
        ensures
            n@ == self.name_spec(),
    {
        match self {
            FlashKind::Success => owned("success"),
            FlashKind::Error => owned("error"),
        }
    }
}

/// A redirect that carries a one-off message for the next page.
#[derive(Clone, Debug, PartialEq, Eq)]
pub struct Flash {
    pub kind: FlashKind,
    pub message: String,
    pub location: String,
}

pub open spec fn flash_is(f: Flash, kind: FlashKind, message: Seq<char>, location: Seq<char>) -> bool {
    &&& f.kind == kind
    &&& f.message@ == message
    &&& f.location@ == location
}

fn flash(kind: FlashKind, message: &str, location: &str) -> (f: Flash)
    ensures
        flash_is(f, kind, message@, location@),
{
    Flash { kind, message: owned(message), location: owned(location) }
}

/// A one-off message as the next page receives it.
#[derive(Clone, Debug, PartialEq, Eq)]
pub struct FlashMessage {
    pub name: String,
    pub msg: String,
}

/// The http statuses the api answers with, besides a body.
#[derive(PartialEq, Eq, Structural, Clone, Copy, Debug)]
pub enum Status {
    NoContent,
    BadRequest,
    NotFound,
    InternalServerError,
}

impl Status {
    pub open spec fn code_spec(self) -> u16 {
        match self {
            Status::NoContent => 204,
            Status::BadRequest => 400,
            Status::NotFound => 404,
            Status::InternalServerError => 500,
        }
    }

    /// The numeric http status code.
    pub fn code(&self) -> (c: u16)
        ensures
            c == self.code_spec(),
    {
        match self {
            Status::NoContent => 204,
            Status::BadRequest => 400,
            Status::NotFound => 404,
            Status::InternalServerError => 500,
        }
    }
}

/// A status with a text body.
#[derive(Clone, Debug, PartialEq, Eq)]
pub struct Custom {
    pub status: Status,
    pub body: String,
}

/// The database could not answer; what it said.
#[derive(Clone, Debug, PartialEq, Eq)]
pub struct DbError {
    pub message: String,
}

/// What a form handler does next: answer at once, or write to the database.
#[derive(Debug, PartialEq, Eq)]
pub enum FormStep<T> {
    Respond(Flash),
    Write(T),
}

/// Whether a write changed at least one row.
pub open spec fn write_succeeded(r: Result<usize, DbError>) -> bool {
    r matches Ok(n) && n > 0
}

fn write_outcome(
    result: &Result<usize, DbError>,
    location: &str,
    failure: &str,
    success: &str,
) -> (f: Flash)
    ensures
        if write_succeeded(*result) {
            flash_is(f, FlashKind::Success, success@, location@)
        } else {
            flash_is(f, FlashKind::Error, failure@, location@)
        },
{
    match result {
        Ok(n) => if *n == 0 {
            flash(FlashKind::Error, failure, location)
        } else {
            flash(FlashKind::Success, success, location)
        },
        Err(_) => flash(FlashKind::Error, failure, location),
    }
}

// ---------------------------------------------------------------------------
// Messages of broken rules
// ---------------------------------------------------------------------------

/// The first message among the broken rules, in their order.
pub open spec fn first_message(errs: Seq<ValidationErrorView>) -> Option<Seq<char>>
    decreases errs.len(),
{
    if errs.len() == 0 {
        None
    } else {
        match errs[0].2 {
            Some(m) => Some(m),
            None => first_message(errs.drop_first()),
        }
    }
}

/// The message a refused form is answered with.
pub open spec fn refusal_message(errs: Seq<ValidationErrorView>) -> Seq<char> {
    match first_message(errs) {
        Some(m) => m,
        None => "Failed to parse form data"@,
    }
}

/// The message of the first broken rule that has one.
pub fn find_first_validation_message(errors: &ValidationErrors) -> (r: Option<String>)
    ensures
        opt_text(r) == first_message(errors@),
{
    let n = errors.errors.len();
    let mut i: usize = 0;
    assert(errors@.skip(0) =~= errors@);
    while i < n
        invariant
            n == errors.errors@.len(),
            i <= n,
            first_message(errors@) == first_message(errors@.skip(i as int)),
        decreases n - i,
    {
        let ghost rest = errors@.skip(i as int);
        assert(rest[0] == errors.errors@[i as int]@);
        assert(rest.drop_first() =~= errors@.skip(i + 1));
        match &errors.errors[i].message {
            Some(m) => {
                return Some(m.clone());
            },
            None => {},
        }
        i = i + 1;
    }
    assert(errors@.skip(n as int) =~= Seq::<ValidationErrorView>::empty());
    None
}

fn refusal_flash(errors: &ValidationErrors, location: &str) -> (f: Flash)
    ensures
        flash_is(f, FlashKind::Error, refusal_message(errors@), location@),
{
    match find_first_validation_message(errors) {
        Some(m) => Flash { kind: FlashKind::Error, message: m, location: owned(location) },
        None => flash(FlashKind::Error, "Failed to parse form data", location),
    }
}

// ---------------------------------------------------------------------------
// The main page: take or hand back a device
// ---------------------------------------------------------------------------

/// The update the main form asks for: the device goes to the other status,
/// and a device handed back keeps no owner and no comments.
pub open spec fn prepared_update(form: DeviceUpdate) -> DeviceUpdate {
    let status = form.reservation_status.toggled();
    if status == ReservationStatus::Available {
        DeviceUpdate { id: form.id, device_owner: None, comments: None, reservation_status: status }
    } else {
        DeviceUpdate { reservation_status: status, ..form }
    }
}

/// The main form, which shows the status the device had when the page was
/// drawn. A form that could not be read is refused; otherwise the device is
/// toggled to the other status, and when it is handed back its owner and
/// comments are cleared. If the result breaks a rule (a reservation without
/// an owner) the form is refused with that rule's message; else the update is
/// written, on condition that the device still has the status the form showed.
pub fn post_devices(form: Option<DeviceUpdate>) -> (r: FormStep<(DeviceUpdate, ReservationStatus)>)
    ensures
        match form {
            None => r matches FormStep::Respond(f) && flash_is(
                f,
                FlashKind::Error,
                "Failed to parse form data"@,
                "/devices"@,
            ),
            Some(form) => {
                let u = prepared_update(form);
                if u.errors_spec().len() == 0 {
                    r == FormStep::Write((u, form.reservation_status))
                } else {
                    r matches FormStep::Respond(f) && flash_is(
                        f,
                        FlashKind::Error,
                        refusal_message(u.errors_spec()),
                        "/devices"@,
                    )
                }
            },
        },
{
    let mut device = match form {
        Some(d) => d,
        None => return FormStep::Respond(
            flash(FlashKind::Error, "Failed to parse form data", "/devices"),
        ),
    };
    let current_reservation_status = device.reservation_status;
    device.reservation_status = std::ops::Not::not(device.reservation_status);
    if device.reservation_status == ReservationStatus::Available {
        device.device_owner = None;
        device.comments = None;
    }
    match device.validate() {
        Err(errors) => FormStep::Respond(refusal_flash(&errors, "/devices")),
        Ok(()) => FormStep::Write((device, current_reservation_status)),
    }
}

/// The answer to the main form once the update was tried: a success only if
/// a row changed. When the device no longer had the status the form showed
/// (someone else took it meanwhile), nothing changed and the answer is an
/// error.
pub fn post_devices_outcome(result: &Result<usize, DbError>) -> (f: Flash)
    ensures
        if write_succeeded(*result) {
            flash_is(f, FlashKind::Success, "Successfully updated device"@, "/devices"@)
        } else {
            flash_is(f, FlashKind::Error, "Failed to update device"@, "/devices"@)
        },
{
    write_outcome(result, "/devices", "Failed to update device", "Successfully updated device")
}

/// Reserving a free device in the name of someone: the update reserves it,
/// keeps the owner and comments, meets the rules, and applies only while the
/// device is still available.
pub proof fn lemma_reserving_keeps_owner(form: DeviceUpdate)
    requires
        form.reservation_status == ReservationStatus::Available,
        checkout_ok(ReservationStatus::Reserved, form.device_owner),
    ensures
        prepared_update(form).reservation_status == ReservationStatus::Reserved,
        prepared_update(form).device_owner == form.device_owner,
        prepared_update(form).comments == form.comments,
        prepared_update(form).id == form.id,
        prepared_update(form).errors_spec().len() == 0,
{
}

/// Handing a device back: the update makes it available, clears owner and
/// comments, always meets the rules, and applies only while the device is
/// still reserved.
pub proof fn lemma_returning_clears_fields(form: DeviceUpdate)
    requires
        form.reservation_status == ReservationStatus::Reserved,
    ensures
        prepared_update(form).reservation_status == ReservationStatus::Available,
        prepared_update(form).device_owner is None,
        prepared_update(form).comments is None,
        prepared_update(form).id == form.id,
        prepared_update(form).errors_spec().len() == 0,
{
}

// ---------------------------------------------------------------------------
// The edit page: add, edit and remove devices
// ---------------------------------------------------------------------------

/// The form that adds a device: refused when it could not be read or breaks
/// a rule (with the rule's message); else the device is inserted.
pub fn post_add_devices(form: Option<DeviceInsert>) -> (r: FormStep<DeviceInsert>)
    ensures
        match form {
            None => r matches FormStep::Respond(f) && flash_is(
                f,
                FlashKind::Error,
                "Failed to parse form data"@,
                "/editDevices"@,
            ),
            Some(form) => if form.errors_spec().len() == 0 {
                r == FormStep::Write(form)
            } else {
                r matches FormStep::Respond(f) && flash_is(
                    f,
                    FlashKind::Error,
                    refusal_message(form.errors_spec()),
                    "/editDevices"@,
                )
            },
        },
{
    let device = match form {
        Some(d) => d,
        None => return FormStep::Respond(
            flash(FlashKind::Error, "Failed to parse form data", "/editDevices"),
        ),
    };
    match device.validate() {
        Err(errors) => FormStep::Respond(refusal_flash(&errors, "/editDevices")),
        Ok(()) => FormStep::Write(device),
    }
}

/// The answer to the add form once the insert was tried.
pub fn post_add_devices_outcome(result: &Result<usize, DbError>) -> (f: Flash)
    ensures
        if write_succeeded(*result) {
            flash_is(f, FlashKind::Success, "Successfully added device"@, "/editDevices"@)
        } else {
            flash_is(f, FlashKind::Error, "Failed to add device"@, "/editDevices"@)
        },
{
    write_outcome(result, "/editDevices", "Failed to add device", "Successfully added device")
}

/// The form that renames a device or changes its url: refused when it could
/// not be read or breaks a rule (with the rule's message); else written.
pub fn post_edit_devices(form: Option<DeviceEdit>) -> (r: FormStep<DeviceEdit>)
    ensures
        match form {
            None => r matches FormStep::Respond(f) && flash_is(
                f,
                FlashKind::Error,
                "Failed to parse form data"@,
                "/editDevices"@,
            ),
            Some(form) => if form.errors_spec().len() == 0 {
                r == FormStep::Write(form)
            } else {
                r matches FormStep::Respond(f) && flash_is(
                    f,
                    FlashKind::Error,
                    refusal_message(form.errors_spec()),
                    "/editDevices"@,
                )
            },
        },
{
    let device = match form {
        Some(d) => d,
        None => return FormStep::Respond(
            flash(FlashKind::Error, "Failed to parse form data", "/editDevices"),
        ),
    };
    match device.validate() {
        Err(errors) => FormStep::Respond(refusal_flash(&errors, "/editDevices")),
        Ok(()) => FormStep::Write(device),
    }
}

/// The answer to the edit form once the update was tried.
pub fn post_edit_devices_outcome(result: &Result<usize, DbError>) -> (f: Flash)
    ensures
        if write_succeeded(*result) {
            flash_is(f, FlashKind::Success, "Successfully updated device"@, "/editDevices"@)
        } else {
            flash_is(f, FlashKind::Error, "Failed to update device"@, "/editDevices"@)
        },
{
    write_outcome(result, "/editDevices", "Failed to update device", "Successfully updated device")
}

/// The form that removes a device: refused when it could not be read; else
/// the device is deleted.
pub fn post_delete_devices(form: Option<DeviceDelete>) -> (r: FormStep<DeviceDelete>)
    ensures
        match form {
            None => r matches FormStep::Respond(f) && flash_is(
                f,
                FlashKind::Error,
                "Failed to parse form data"@,
                "/editDevices"@,
            ),
            Some(form) => r == FormStep::Write(form),
        },
{
    match form {
        Some(d) => FormStep::Write(d),
        None => FormStep::Respond(
            flash(FlashKind::Error, "Failed to parse form data", "/editDevices"),
        ),
    }
}

/// The answer to the remove form once the delete was tried.
pub fn post_delete_devices_outcome(result: &Result<usize, DbError>) -> (f: Flash)
    ensures
        if write_succeeded(*result) {
            flash_is(f, FlashKind::Success, "Successfully deleted device"@, "/editDevices"@)
        } else {
            flash_is(f, FlashKind::Error, "Failed to delete device"@, "/editDevices"@)
        },
{
    write_outcome(result, "/editDevices", "Failed to delete device", "Successfully deleted device")
}

// ---------------------------------------------------------------------------
// The pages that list devices
// ---------------------------------------------------------------------------

/// One device as a page shows it.
#[derive(Debug)]
pub struct PerDeviceContext {
    pub device: Device,
    pub is_reserved: bool,
    pub updated_at_local: String,
}

/// Everything a page that lists devices shows.
#[derive(Debug)]
pub struct DevicesContext {
    pub devices: Vec<PerDeviceContext>,
    pub pools: Vec<Pool>,
    pub error_message: Option<String>,
    pub success_message: Option<String>,
}

/// Trusted: `chrono::Local::now()`, then the offset of that moment from UTC
/// in seconds (`offset().fix().local_minus_utc()`). It depends on the clock
/// and the machine's time zone; all that is promised is what chrono's
/// `FixedOffset` keeps of every offset: it lies strictly within a day.
#[verifier::external_body]
fn local_offset_now() -> (r: i32)
    ensures
        -86_400 < r < 86_400,
{
    chrono::Local::now().offset().fix().local_minus_utc()
}

/// The text that chrono writes for the moment `secs` seconds and `nsecs`
/// nanoseconds after 1970-01-01 00:00:00 UTC, seen at `offset` seconds east
/// of UTC, with the strftime-like `pattern`.
pub uninterp spec fn local_time_text(secs: int, nsecs: int, offset: int, pattern: Seq<char>) -> Seq<
    char,
>;

/// The pattern the pages show times with: date, then 12-hour time with
/// seconds and AM/PM, as in `2018-07-01 09:05:02 PM`.
pub open spec fn page_time_pattern() -> Seq<char> {
    "%F %r"@
}

/// Trusted: `chrono::DateTime::<FixedOffset>::format`, written out with
/// `format!`, for the moment `DateTime::from_timestamp(secs, nsecs)` seen at
/// `FixedOffset::east_opt(offset)`. Both conversions succeed on the inputs
/// admitted, and the pattern is one chrono reads without error; the text is
/// a function of the four arguments alone.
#[verifier::external_body]
fn format_local_time(secs: i64, nsecs: u32, offset: i32, pattern: &str) -> (r: String)
    requires
        timestamp_valid(secs as int, nsecs as int),
        -86_400 < offset < 86_400,
        pattern@ == page_time_pattern(),
    ensures
        r@ == local_time_text(secs as int, nsecs as int, offset as int, pattern@),
{
    let utc = chrono::DateTime::from_timestamp(secs, nsecs).unwrap();
    let zone = chrono::FixedOffset::east_opt(offset).unwrap();
    format!("{}", utc.with_timezone(&zone).format(pattern))
}

/// The local time text the pages show for a moment, at a given offset.
pub open spec fn page_time(at: DateTime, offset: int) -> Seq<char> {
    local_time_text(at@.0, at@.1, offset, page_time_pattern())
}

/// A device as the pages show it, when local time is `offset` seconds east of
/// UTC: whether it is reserved, and when it last changed in local time.
pub fn format_device_with_offset(device: Device, offset: i32) -> (c: PerDeviceContext)
    requires
        -86_400 < offset < 86_400,
    ensures
        c.device == device,
        c.is_reserved == (device.reservation_status == ReservationStatus::Reserved),
        c.updated_at_local@ == page_time(device.updated_at, offset as int),
{
    let is_reserved = device.reservation_status == ReservationStatus::Reserved;
    let secs = device.updated_at.secs();
    let nsecs = device.updated_at.nsecs();
    let updated_at_local = format_local_time(secs, nsecs, offset, "%F %r");
    PerDeviceContext { device, is_reserved, updated_at_local }
}

/// A device as the pages show it: whether it is reserved, and when it last
/// changed, in the local time of the moment of the call.
pub fn format_device(device: Device) -> (c: PerDeviceContext)
    ensures
        c.device == device,
        c.is_reserved == (device.reservation_status == ReservationStatus::Reserved),
        exists|offset: int|
            -86_400 < offset < 86_400 && c.updated_at_local@ == page_time(device.updated_at, offset),
{
    let offset = local_offset_now();
    format_device_with_offset(device, offset)
}

/// Where the one-off message of the previous answer is shown: a message named
/// `success` as a success, any other as an error.
pub open spec fn shown_messages(status_message: Option<FlashMessage>) -> (
    Option<Seq<char>>,
    Option<Seq<char>>,
) {
    match status_message {
        None => (None, None),
        Some(m) => if m.name@ == "success"@ {
            (Some(m.msg@), None)
        } else {
            (None, Some(m.msg@))
        },
    }
}

/// What a page that lists devices shows: the one-off message of the previous
/// answer, every device in the order the database gave them, and the pools.
pub fn gen_device_context(
    status_message: Option<FlashMessage>,
    devices: Vec<Device>,
    pools: Vec<Pool>,
) -> (c: DevicesContext)
    ensures
        (opt_text(c.success_message), opt_text(c.error_message)) == shown_messages(status_message),
        c.pools@ == pools@,
        c.devices@.len() == devices@.len(),
        forall|i: int|
            0 <= i < devices@.len() ==> {
                &&& (#[trigger] c.devices@[i]).device == devices@[i]
                &&& c.devices@[i].is_reserved == (devices@[i].reservation_status
                    == ReservationStatus::Reserved)
                &&& exists|offset: int|
                    -86_400 < offset < 86_400 && c.devices@[i].updated_at_local@ == page_time(
                        devices@[i].updated_at,
                        offset,
                    )
            },
{
    let mut success_message: Option<String> = None;
    let mut error_message: Option<String> = None;
    match status_message {
        Some(m) => {
            if text_eq(m.name.as_str(), "success") {
                success_message = Some(m.msg);
            } else {
                error_message = Some(m.msg);
            }
        },
        None => {},
    }
    let ghost all = devices@;
    let mut rest = devices;
    let mut shown: Vec<PerDeviceContext> = Vec::new();
    while rest.len() > 0
        invariant
            shown@.len() + rest@.len() == all.len(),
            rest@ == all.subrange(shown@.len() as int, all.len() as int),
            forall|i: int|
                0 <= i < shown@.len() ==> {
                    &&& (#[trigger] shown@[i]).device == all[i]
                    &&& shown@[i].is_reserved == (all[i].reservation_status
                        == ReservationStatus::Reserved)
                    &&& exists|offset: int|
                        -86_400 < offset < 86_400 && shown@[i].updated_at_local@ == page_time(
                            all[i].updated_at,
                            offset,
                        )
                },
        decreases rest@.len(),
    {
        let d = rest.remove(0);
        shown.push(format_device(d));
        assert(rest@ =~= all.subrange(shown@.len() as int, all.len() as int));
    }
    DevicesContext { devices: shown, pools, error_message, success_message }
}

/// A one-off message that a form handler sends with its redirect is shown
/// on the page it leads to: in the success slot for a success, in the error
/// slot for an error.
pub proof fn lemma_flash_shown_on_next_page(f: Flash, m: FlashMessage)
    requires
        m.name@ == f.kind.name_spec(),
        m.msg@ == f.message@,
    ensures
        shown_messages(Some(m)) == if f.kind == FlashKind::Success {
            (Some(f.message@), None::<Seq<char>>)
        } else {
            (None::<Seq<char>>, Some(f.message@))
        },
{
    reveal_strlit("success");
    reveal_strlit("error");
    assert("success"@.len() != "error"@.len());
}

// ---------------------------------------------------------------------------
// The json api
// ---------------------------------------------------------------------------

/// The api's answer to a lookup of one device by name: the device, `404 Not
/// Found` when there is none, `500 Internal Server Error` when the database
/// failed.
pub fn api_get_device(lookup: Result<Option<Device>, DbError>) -> (r: Result<Device, Custom>)
    ensures
        match lookup {
            Err(_) => r matches Err(c) && c.status == Status::InternalServerError && c.body@
                == "500 Internal Server Error"@,
            Ok(None) => r matches Err(c) && c.status == Status::NotFound && c.body@
                == "404 Not Found"@,
            Ok(Some(d)) => r matches Ok(x) && x == d,
        },
{
    match lookup {
        Err(_) => Err(
            Custom { status: Status::InternalServerError, body: owned("500 Internal Server Error") },
        ),
        Ok(None) => Err(Custom { status: Status::NotFound, body: owned("404 Not Found") }),
        Ok(Some(d)) => Ok(d),
    }
}

/// What a reservation endpoint does next: answer at once, or write the update
/// on condition that the device has the given status.
#[derive(Debug, PartialEq, Eq)]
pub enum ReservationChange {
    Respond(Status),
    Update(DeviceUpdate, ReservationStatus),
}

/// The update that hands a device back: available, with no owner and no
/// comments.
pub open spec fn release_update(id: i32) -> DeviceUpdate {
    DeviceUpdate {
        id,
        reservation_status: ReservationStatus::Available,
        comments: None,
        device_owner: None,
    }
}

/// Ending a reservation (its id is the device's id), once the device was
/// looked up by id: `404` when there is no such device; otherwise the device
/// is handed back, on condition that it is reserved. A failed lookup does not
/// stop the attempt.
pub fn api_delete_reservation(id: i32, lookup: &Result<Option<Device>, DbError>) -> (r:
    ReservationChange)
    ensures
        if *lookup matches Ok(None) {
            r == ReservationChange::Respond(Status::NotFound)
        } else {
            r == ReservationChange::Update(release_update(id), ReservationStatus::Reserved)
        },
{
    if let Ok(None) = lookup {
        return ReservationChange::Respond(Status::NotFound);
    }
    let device_update = DeviceUpdate {
        id: id,
        reservation_status: ReservationStatus::Available,
        comments: None,
        device_owner: None,
    };
    ReservationChange::Update(device_update, ReservationStatus::Reserved)
}

/// The answer once the hand-back was tried: `204 No Content` when the device
/// was handed back, `400 Bad Request` when it was not reserved, `500` when
/// the database failed.
pub fn api_delete_reservation_outcome(result: &Result<usize, DbError>) -> (s: Status)
    ensures
        s == match *result {
            Ok(0) => Status::BadRequest,
            Err(_) => Status::InternalServerError,
            Ok(_) => Status::NoContent,
        },
{
    match result {
        Ok(n) => if *n == 0 {
            Status::BadRequest
        } else {
            Status::NoContent
        },
        Err(_) => Status::InternalServerError,
    }
}

/// The update a reservation request writes, and the name of the device to
/// read back afterwards.
#[derive(Debug, PartialEq, Eq)]
pub struct ReservationPlan {
    pub update: DeviceUpdate,
    pub expected: ReservationStatus,
    pub device_name: String,
}

fn copy_text(o: &Option<String>) -> (r: Option<String>)
    ensures
        opt_text(r) == opt_text(*o),
{
    match o {
        Some(s) => Some(s.clone()),
        None => None,
    }
}

/// A reservation request, once a free device of the pool was looked up:
/// `500` when the database failed, `404` when the pool has no free device;
/// otherwise that device is reserved for the requested owner with the
/// requested comments, on condition that it is still available.
pub fn api_post_reservations(
    request: &ReservationRequest,
    available: Result<Option<Device>, DbError>,
) -> (r: Result<ReservationPlan, Status>)
    ensures
        match available {
            Err(_) => r matches Err(s) && s == Status::InternalServerError,
            Ok(None) => r matches Err(s) && s == Status::NotFound,
            Ok(Some(d)) => r matches Ok(p) && {
                &&& p.update.id == d.id
                &&& opt_text(p.update.device_owner) == opt_text(request.device_owner)
                &&& opt_text(p.update.comments) == opt_text(request.comments)
                &&& p.update.reservation_status == ReservationStatus::Reserved
                &&& p.expected == ReservationStatus::Available
                &&& p.device_name@ == d.device_name@
            },
        },
{
    let device = match available {
        Err(_) => return Err(Status::InternalServerError),
        Ok(None) => return Err(Status::NotFound),
        Ok(Some(d)) => d,
    };
    let update = DeviceUpdate {
        id: device.id,
        device_owner: copy_text(&request.device_owner),
        comments: copy_text(&request.comments),
        reservation_status: ReservationStatus::Reserved,
    };
    Ok(ReservationPlan { update, expected: ReservationStatus::Available, device_name: device.device_name })
}

/// A reservation request once the update was tried: it goes on only if a row
/// changed; otherwise (the device was taken meanwhile, or the database
/// failed) the answer is `500`.
pub fn api_post_reservations_updated(result: &Result<usize, DbError>) -> (r: Result<(), Status>)
    ensures
        r is Ok <==> write_succeeded(*result),
        r matches Err(s) ==> s == Status::InternalServerError,
{
    match result {
        Ok(n) => if *n == 0 {
            Err(Status::InternalServerError)
        } else {
            Ok(())
        },
        Err(_) => Err(Status::InternalServerError),
    }
}

/// A reservation request once the reserved device was read back: `500` when
/// the database failed, `404` when it is gone; otherwise the reservation, whose
/// id is the device's, held by the requested owner with the requested
/// comments. A request without an owner cannot be granted this way.
pub fn api_post_reservations_finish(
    request: &ReservationRequest,
    fetched: Result<Option<Device>, DbError>,
) -> (r: Result<Reservation, Status>)
    requires
        fetched matches Ok(Some(_)) ==> request.device_owner is Some,
    ensures
        match fetched {
            Err(_) => r matches Err(s) && s == Status::InternalServerError,
            Ok(None) => r matches Err(s) && s == Status::NotFound,
            Ok(Some(d)) => r matches Ok(res) && {
                &&& res.id == d.id
                &&& res.device == d
                &&& res.device_owner@ == request.device_owner->0@
                &&& opt_text(res.comments) == opt_text(request.comments)
            },
        },
{
    let device = match fetched {
        Err(_) => return Err(Status::InternalServerError),
        Ok(None) => return Err(Status::NotFound),
        Ok(Some(d)) => d,
    };
    let owner = match &request.device_owner {
        Some(o) => o.clone(),
        None => {
            assert(false);
            String::new()
        },
    };
    Ok(Reservation { id: device.id, device, device_owner: owner, comments: copy_text(&request.comments) })
}

} // verus!

use chrono::Offset;
use device_checkout::models::{
    DateTime, Device, DeviceDelete, Pool, DeviceEdit, DeviceInsert, DeviceUpdate, ReservationRequest,
    ReservationRequestDevice, ReservationStatus, ValidationError, ValidationErrors,
};
use device_checkout::routes::{
    api_delete_reservation, api_delete_reservation_outcome, api_get_device,
    api_post_reservations, api_post_reservations_finish, api_post_reservations_updated,
    api_routes, find_first_validation_message, format_device, format_device_with_offset,
    gen_device_context, html_routes,
    index, post_add_devices, post_add_devices_outcome, post_delete_devices,
    post_delete_devices_outcome, post_devices, post_devices_outcome, post_edit_devices,
    post_edit_devices_outcome, DbError, Flash, FlashKind, FlashMessage, FormStep, Handler, Method,
    ReservationChange, Status,
};

fn when() -> DateTime {
    // 2018-07-01 21:05:02 UTC
    DateTime::new(1530479102, 0).unwrap()
}

fn device(id: i32, name: &str, status: ReservationStatus) -> Device {
    Device {
        id,
        device_name: name.to_string(),
        device_url: Some(format!("http://{}", name)),
        device_owner: None,
        comments: None,
        reservation_status: status,
        created_at: when(),
        updated_at: when(),
    }
}

fn flash(kind: FlashKind, message: &str, location: &str) -> Flash {
    Flash { kind, message: message.to_string(), location: location.to_string() }
}

fn db_error() -> DbError {
    DbError { message: "disk I/O error".to_string() }
}

#[test]
fn routing_table() {
    let html: Vec<(Method, String, Option<String>, Handler)> =
        html_routes().into_iter().map(|r| (r.method, r.path, r.format, r.handler)).collect();
    assert_eq!(
        html,
        vec![
            (Method::Get, "/".to_string(), None, Handler::Index),
            (Method::Get, "/devices".to_string(), None, Handler::GetDevices),
            (Method::Post, "/devices".to_string(), None, Handler::PostDevices),
            (Method::Get, "/editDevices".to_string(), None, Handler::GetEditDevices),
            (Method::Post, "/editDevices".to_string(), None, Handler::PostEditDevices),
            (Method::Post, "/addDevices".to_string(), None, Handler::PostAddDevices),
            (Method::Post, "/deleteDevices".to_string(), None, Handler::PostDeleteDevices),
        ]
    );
    let api: Vec<(Method, String, Option<String>, Handler)> =
        api_routes().into_iter().map(|r| (r.method, r.path, r.format, r.handler)).collect();
    assert_eq!(
        api,
        vec![
            (Method::Get, "/devices/<name>".to_string(), None, Handler::ApiGetDevice),
            (Method::Get, "/devices".to_string(), None, Handler::ApiGetDevices),
            (
                Method::Post,
                "/reservations".to_string(),
                Some("application/json".to_string()),
                Handler::ApiPostReservations
            ),
            (Method::Delete, "/reservations/<id>".to_string(), None, Handler::ApiDeleteReservation),
        ]
    );
}

#[test]
fn root_redirects_to_devices() {
    assert_eq!(index().location, "/devices");
}

#[test]
fn reserving_sends_owner_and_expects_available() {
    let form = DeviceUpdate {
        id: 1,
        device_owner: Some("Owner".into()),
        comments: Some("xyzzy".into()),
        reservation_status: ReservationStatus::Available,
    };
    let expected = DeviceUpdate {
        reservation_status: ReservationStatus::Reserved,
        ..form.clone()
    };
    assert_eq!(
        post_devices(Some(form)),
        FormStep::Write((expected, ReservationStatus::Available))
    );
}

#[test]
fn returning_clears_owner_and_comments() {
    let form = DeviceUpdate {
        id: 1,
        device_owner: Some("Owner".into()),
        comments: Some("xyzzy".into()),
        reservation_status: ReservationStatus::Reserved,
    };
    let expected = DeviceUpdate {
        id: 1,
        device_owner: None,
        comments: None,
        reservation_status: ReservationStatus::Available,
    };
    assert_eq!(
        post_devices(Some(form)),
        FormStep::Write((expected, ReservationStatus::Reserved))
    );
}

#[test]
fn reserving_without_owner_is_refused() {
    let form = DeviceUpdate {
        id: 1,
        device_owner: Some("  ".into()),
        comments: None,
        reservation_status: ReservationStatus::Available,
    };
    assert_eq!(
        post_devices(Some(form)),
        FormStep::Respond(flash(
            FlashKind::Error,
            "Please supply a username when reserving a device",
            "/devices"
        ))
    );
    assert_eq!(
        post_devices(None),
        FormStep::Respond(flash(FlashKind::Error, "Failed to parse form data", "/devices"))
    );
}

#[test]
fn update_outcomes() {
    assert_eq!(
        post_devices_outcome(&Ok(1)),
        flash(FlashKind::Success, "Successfully updated device", "/devices")
    );
    // A device that was reserved meanwhile: no row matched.
    assert_eq!(
        post_devices_outcome(&Ok(0)),
        flash(FlashKind::Error, "Failed to update device", "/devices")
    );
    assert_eq!(
        post_devices_outcome(&Err(db_error())),
        flash(FlashKind::Error, "Failed to update device", "/devices")
    );
}

#[test]
fn add_form() {
    let form = DeviceInsert { device_name: "unit3".into(), device_url: "http://unit3".into() };
    assert_eq!(post_add_devices(Some(form.clone())), FormStep::Write(form));
    let bad = DeviceInsert { device_name: "".into(), device_url: "http://unit3".into() };
    assert_eq!(
        post_add_devices(Some(bad)),
        FormStep::Respond(flash(FlashKind::Error, "Device names cannot be empty", "/editDevices"))
    );
    assert_eq!(
        post_add_devices(None),
        FormStep::Respond(flash(FlashKind::Error, "Failed to parse form data", "/editDevices"))
    );
    assert_eq!(
        post_add_devices_outcome(&Ok(1)),
        flash(FlashKind::Success, "Successfully added device", "/editDevices")
    );
    assert_eq!(
        post_add_devices_outcome(&Ok(0)),
        flash(FlashKind::Error, "Failed to add device", "/editDevices")
    );
}

#[test]
fn edit_form() {
    let form = DeviceEdit { id: 1, device_name: "testunit".into(), device_url: "http://x".into() };
    assert_eq!(post_edit_devices(Some(form.clone())), FormStep::Write(form));
    let relative = DeviceEdit { id: 1, device_name: "testunit".into(), device_url: "testurl".into() };
    assert_eq!(post_edit_devices(Some(relative.clone())), FormStep::Write(relative));
    let bad = DeviceEdit { id: 1, device_name: "testunit".into(), device_url: "ht tp://x".into() };
    assert_eq!(
        post_edit_devices(Some(bad)),
        FormStep::Respond(flash(FlashKind::Error, "URL was invalid", "/editDevices"))
    );
    assert_eq!(
        post_edit_devices_outcome(&Ok(2)),
        flash(FlashKind::Success, "Successfully updated device", "/editDevices")
    );
    assert_eq!(
        post_edit_devices_outcome(&Err(db_error())),
        flash(FlashKind::Error, "Failed to update device", "/editDevices")
    );
}

#[test]
fn delete_form() {
    assert_eq!(post_delete_devices(Some(DeviceDelete { id: 1 })), FormStep::Write(DeviceDelete { id: 1 }));
    assert_eq!(
        post_delete_devices(None),
        FormStep::Respond(flash(FlashKind::Error, "Failed to parse form data", "/editDevices"))
    );
    assert_eq!(
        post_delete_devices_outcome(&Ok(1)),
        flash(FlashKind::Success, "Successfully deleted device", "/editDevices")
    );
    assert_eq!(
        post_delete_devices_outcome(&Ok(0)),
        flash(FlashKind::Error, "Failed to delete device", "/editDevices")
    );
}

#[test]
fn first_message_in_order() {
    let errors = ValidationErrors {
        errors: vec![
            ValidationError { field: "a".into(), code: "x".into(), message: None },
            ValidationError { field: "b".into(), code: "y".into(), message: Some("second".into()) },
            ValidationError { field: "c".into(), code: "z".into(), message: Some("third".into()) },
        ],
    };
    assert_eq!(find_first_validation_message(&errors), Some("second".to_string()));
    let none = ValidationErrors {
        errors: vec![ValidationError { field: "a".into(), code: "x".into(), message: None }],
    };
    assert_eq!(find_first_validation_message(&none), None);
    assert_eq!(find_first_validation_message(&ValidationErrors { errors: vec![] }), None);
}

#[test]
fn api_get_device_answers() {
    let d = device(1, "unit1", ReservationStatus::Available);
    let got = api_get_device(Ok(Some(device(1, "unit1", ReservationStatus::Available)))).unwrap();
    assert_eq!(got, d);
    assert_eq!(got.device_url, Some("http://unit1".to_string()));
    let e = api_get_device(Ok(None)).unwrap_err();
    assert_eq!((e.status, e.body.as_str()), (Status::NotFound, "404 Not Found"));
    assert_eq!(e.status.code(), 404);
    let e = api_get_device(Err(db_error())).unwrap_err();
    assert_eq!(
        (e.status, e.body.as_str()),
        (Status::InternalServerError, "500 Internal Server Error")
    );
    assert_eq!(e.status.code(), 500);
}

#[test]
fn api_delete_reservation_answers() {
    assert_eq!(api_delete_reservation(5, &Ok(None)), ReservationChange::Respond(Status::NotFound));
    let release = DeviceUpdate {
        id: 5,
        device_owner: None,
        comments: None,
        reservation_status: ReservationStatus::Available,
    };
    assert_eq!(
        api_delete_reservation(5, &Ok(Some(device(5, "u", ReservationStatus::Reserved)))),
        ReservationChange::Update(release.clone(), ReservationStatus::Reserved)
    );
    assert_eq!(
        api_delete_reservation(5, &Err(db_error())),
        ReservationChange::Update(release, ReservationStatus::Reserved)
    );
    assert_eq!(api_delete_reservation_outcome(&Ok(1)), Status::NoContent);
    assert_eq!(api_delete_reservation_outcome(&Ok(0)), Status::BadRequest);
    assert_eq!(api_delete_reservation_outcome(&Err(db_error())), Status::InternalServerError);
    assert_eq!(Status::NoContent.code(), 204);
    assert_eq!(Status::BadRequest.code(), 400);
}

#[test]
fn api_post_reservations_answers() {
    let request = ReservationRequest {
        device: ReservationRequestDevice { pool_id: 2 },
        device_owner: Some("ann".into()),
        comments: Some("testing".into()),
    };
    assert_eq!(api_post_reservations(&request, Err(db_error())), Err(Status::InternalServerError));
    assert_eq!(api_post_reservations(&request, Ok(None)), Err(Status::NotFound));
    // Without an owner the write is still planned; only the answer needs one.
    let anonymous = ReservationRequest { device_owner: None, ..request.clone() };
    let plan = api_post_reservations(&anonymous, Ok(Some(device(4, "unit4", ReservationStatus::Available))))
        .unwrap();
    assert_eq!(plan.update.device_owner, None);
    let plan = api_post_reservations(&request, Ok(Some(device(4, "unit4", ReservationStatus::Available))))
        .unwrap();
    assert_eq!(
        plan.update,
        DeviceUpdate {
            id: 4,
            device_owner: Some("ann".into()),
            comments: Some("testing".into()),
            reservation_status: ReservationStatus::Reserved,
        }
    );
    assert_eq!(plan.expected, ReservationStatus::Available);
    assert_eq!(plan.device_name, "unit4");
    assert_eq!(api_post_reservations_updated(&Ok(1)), Ok(()));
    assert_eq!(api_post_reservations_updated(&Ok(0)), Err(Status::InternalServerError));
    assert_eq!(api_post_reservations_updated(&Err(db_error())), Err(Status::InternalServerError));
    let mut held = device(4, "unit4", ReservationStatus::Reserved);
    held.device_owner = Some("ann".into());
    let reservation = api_post_reservations_finish(&request, Ok(Some(held))).unwrap();
    assert_eq!(reservation.id, 4);
    assert_eq!(reservation.device.device_name, "unit4");
    assert_eq!(reservation.device_owner, "ann");
    assert_eq!(reservation.comments, Some("testing".to_string()));
    assert_eq!(api_post_reservations_finish(&request, Ok(None)).unwrap_err(), Status::NotFound);
    assert_eq!(
        api_post_reservations_finish(&request, Err(db_error())).unwrap_err(),
        Status::InternalServerError
    );
}

#[test]
fn device_pages_show_flash_and_devices() {
    let devices = vec![
        device(1, "unit1", ReservationStatus::Available),
        device(2, "unit2", ReservationStatus::Reserved),
    ];
    let pools = vec![
        Pool { id: 1, pool_name: "lab".into() },
        Pool { id: 2, pool_name: "rack".into() },
    ];
    let c = gen_device_context(
        Some(FlashMessage { name: FlashKind::Success.name(), msg: "done".into() }),
        devices,
        pools.clone(),
    );
    assert_eq!(c.pools, pools);
    assert_eq!(c.success_message, Some("done".to_string()));
    assert_eq!(c.error_message, None);
    assert_eq!(c.devices.len(), 2);
    assert_eq!(c.devices[0].device.device_name, "unit1");
    assert!(!c.devices[0].is_reserved);
    assert_eq!(c.devices[1].device.device_name, "unit2");
    assert!(c.devices[1].is_reserved);

    let c = gen_device_context(
        Some(FlashMessage { name: FlashKind::Error.name(), msg: "nope".into() }),
        vec![],
        vec![],
    );
    assert_eq!(c.success_message, None);
    assert_eq!(c.error_message, Some("nope".to_string()));
    assert!(c.devices.is_empty());

    let c = gen_device_context(None, vec![], vec![]);
    assert_eq!((c.success_message, c.error_message), (None, None));
}

#[test]
fn formatted_device_shows_time_at_an_offset() {
    let c = format_device_with_offset(device(3, "unit3", ReservationStatus::Reserved), 0);
    assert!(c.is_reserved);
    assert_eq!(c.device.id, 3);
    assert_eq!(c.updated_at_local, "2018-07-01 09:05:02 PM");
    let c = format_device_with_offset(device(3, "unit3", ReservationStatus::Available), 3 * 3600);
    assert!(!c.is_reserved);
    assert_eq!(c.updated_at_local, "2018-07-02 12:05:02 AM");
    let c = format_device_with_offset(device(3, "unit3", ReservationStatus::Available), -(9 * 3600 + 30 * 60));
    assert_eq!(c.updated_at_local, "2018-07-01 11:35:02 AM");
}

#[test]
fn formatted_device_shows_local_time() {
    let before = chrono::Local::now().offset().fix().local_minus_utc();
    let c = format_device(device(3, "unit3", ReservationStatus::Reserved));
    let after = chrono::Local::now().offset().fix().local_minus_utc();
    assert!(c.is_reserved);
    let expected: Vec<String> = [before, after]
        .iter()
        .map(|&o| format_device_with_offset(device(3, "unit3", ReservationStatus::Reserved), o).updated_at_local)
        .collect();
    assert!(expected.contains(&c.updated_at_local), "{}", c.updated_at_local);
}

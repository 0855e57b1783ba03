use poem_toy::hello::{hello, not_found_response, NOT_FOUND_STATUS};
use poem_toy::pages::{Files, MODULE_FIVE_SUBMITTED_PAGE, UPLOAD_FORM_PAGE};

#[test]
fn hello_echoes_name() {
    assert_eq!(hello("world"), "hello: world");
    assert_eq!(hello(""), "hello: ");
    assert_eq!(hello("Grüße"), "hello: Grüße");
}

#[test]
fn unmapped_path_is_not_found() {
    let (status, body) = not_found_response();
    assert_eq!(status, 404);
    assert_eq!(status, NOT_FOUND_STATUS);
    assert_eq!(body, "Something Went Wrong");
}

#[test]
fn static_pages() {
    assert!(UPLOAD_FORM_PAGE.contains("action=\"/upload_save\""));
    assert!(UPLOAD_FORM_PAGE.contains("name=\"upload\""));
    assert!(MODULE_FIVE_SUBMITTED_PAGE.contains("href=\"/module_five\""));
    assert_eq!(Files::index_path(), "index.html");
}

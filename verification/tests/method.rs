use tokio_request::Method;

#[test]
fn standard_methods_have_upper_case_tokens() {
    assert_eq!(Method::Get.as_text(), "GET");
    assert_eq!(Method::Post.as_text(), "POST");
    assert_eq!(Method::Put.as_text(), "PUT");
    assert_eq!(Method::Delete.as_text(), "DELETE");
    assert_eq!(Method::Head.as_text(), "HEAD");
    assert_eq!(Method::Trace.as_text(), "TRACE");
    assert_eq!(Method::Connect.as_text(), "CONNECT");
    assert_eq!(Method::Patch.as_text(), "PATCH");
    assert_eq!(Method::Options.as_text(), "OPTIONS");
}

#[test]
fn token_is_the_same_on_every_call() {
    let m = Method::Options;
    assert_eq!(m.as_text(), m.as_text());
    assert_eq!(m.display(), m.as_text());
}

#[test]
fn custom_method_is_written_verbatim() {
    assert_eq!(Method::Custom(String::from("PURGE")).as_text(), "PURGE");
    assert_eq!(Method::Custom(String::from("purge")).as_text(), "purge");
    assert_eq!(Method::Custom(String::from("not a token")).as_text(), "not a token");
    assert_eq!(Method::Custom(String::new()).as_text(), "");
    assert_eq!(Method::Custom(String::from("GET")).as_text(), "GET");
}

#[test]
fn custom_method_differs_from_the_standard_one_of_the_same_name() {
    assert_ne!(Method::Custom(String::from("GET")), Method::Get);
}

#[test]
fn default_method_is_get() {
    assert_eq!(Method::default(), Method::Get);
}

#[test]
fn display_gives_the_wire_token() {
    assert_eq!(Method::Patch.display(), "PATCH");
    assert_eq!(Method::Custom(String::from("LINK")).display(), "LINK");
}

#[test]
fn only_post_put_and_patch_take_a_form_body() {
    assert!(Method::Post.sends_form_body());
    assert!(Method::Put.sends_form_body());
    assert!(Method::Patch.sends_form_body());
    assert!(!Method::Get.sends_form_body());
    assert!(!Method::Delete.sends_form_body());
    assert!(!Method::Head.sends_form_body());
    assert!(!Method::Trace.sends_form_body());
    assert!(!Method::Connect.sends_form_body());
    assert!(!Method::Options.sends_form_body());
    assert!(!Method::Custom(String::from("POST")).sends_form_body());
}

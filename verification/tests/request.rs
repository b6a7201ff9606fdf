use std::collections::BTreeMap;

use rustc_serialize::json::{self, Json};
use tokio_request::{
    Body, EncodeError, Header, Method, Param, Part, Request, RequestError, Url, WireRequest,
};

fn home() -> Url {
    Url::parse("http://example.com/").unwrap()
}

fn wire(r: Request) -> WireRequest {
    r.finalize().unwrap()
}

fn a_and_b() -> Vec<u8> {
    let mut fields = BTreeMap::new();
    fields.insert(String::from("a"), Json::U64(10));
    fields.insert(String::from("b"), Json::U64(15));
    json::encode(&Json::Object(fields)).unwrap().into_bytes()
}

#[test]
fn new_request_is_bare() {
    let r = Request::new(&home(), Method::Put);
    assert_eq!(r.method(), &Method::Put);
    assert_eq!(r.url(), &home());
    assert!(r.headers().is_empty());
    assert!(r.params().is_empty());
    assert_eq!(r.body_choice(), &Body::Empty);
}

#[test]
fn headers_are_kept_in_order_and_not_merged() {
    let r = Request::new(&home(), Method::Get)
        .header("Accept", "text/plain")
        .header("X-Trace", "1")
        .header("Accept", "text/html");
    let expected = vec![
        Header::new("Accept", "text/plain"),
        Header::new("X-Trace", "1"),
        Header::new("Accept", "text/html"),
    ];
    assert_eq!(r.headers(), &expected);
    assert_eq!(wire(r).headers, expected);
}

#[test]
fn params_are_kept_in_order() {
    let r = Request::new(&home(), Method::Get).param("b", "2").param("a", "1").param("b", "3");
    assert_eq!(r.params(), &vec![Param::new("b", "2"), Param::new("a", "1"), Param::new("b", "3")]);
}

#[test]
fn the_last_body_choice_wins() {
    let r = Request::new(&home(), Method::Post)
        .json(Ok(b"{}".to_vec()))
        .body(b"raw".to_vec(), "text/plain");
    assert_eq!(
        r.body_choice(),
        &Body::Raw { bytes: b"raw".to_vec(), content_type: String::from("text/plain") }
    );
    let r = r.json(Ok(b"[]".to_vec()));
    assert_eq!(r.body_choice(), &Body::Json(Ok(b"[]".to_vec())));
    let w = wire(r);
    assert_eq!(w.body, Some(b"[]".to_vec()));
    assert_eq!(w.headers, vec![Header::new("Content-Type", "application/json")]);
}

#[test]
fn get_with_params_targets_the_query_and_has_no_body() {
    let w = wire(Request::new(&home(), Method::Get).param("a", "1").param("b", "2 c"));
    assert_eq!(w.method, "GET");
    assert_eq!(w.target, "http://example.com/?a=1&b=2%20c");
    assert_eq!(w.body, None);
    assert!(w.headers.is_empty());
}

#[test]
fn get_query_holds_each_param_percent_encoded() {
    let params = [("q", "rust lang"), ("page", "2"), ("tag", "a&b")];
    let mut r = Request::new(&home(), Method::Get);
    for (k, v) in params {
        r = r.param(k, v);
    }
    let target = wire(r).target;
    let query = target.split('?').nth(1).unwrap();
    assert!(query.contains("q=rust%20lang"));
    assert!(query.contains("page=2"));
    assert!(query.contains("tag=a%26b"));
}

#[test]
fn get_params_follow_the_query_of_the_url() {
    let url = Url::parse("http://example.com/search?lang=en#results").unwrap();
    let w = wire(Request::new(&url, Method::Get).param("q", "x"));
    assert_eq!(w.target, "http://example.com/search?lang=en&q=x#results");
}

#[test]
fn delete_and_the_other_bodiless_methods_use_the_query() {
    for m in [
        Method::Delete,
        Method::Head,
        Method::Options,
        Method::Trace,
        Method::Connect,
        Method::Custom(String::from("PURGE")),
    ] {
        let w = wire(Request::new(&home(), m).param("a", "1"));
        assert_eq!(w.target, "http://example.com/?a=1");
        assert_eq!(w.body, None);
        assert!(w.headers.is_empty());
    }
}

#[test]
fn post_with_params_sends_a_form_body() {
    let w = wire(Request::new(&home(), Method::Post).param("a", "1").param("b", "2 c"));
    assert_eq!(w.method, "POST");
    assert_eq!(w.target, "http://example.com/");
    assert_eq!(w.body, Some(b"a=1&b=2+c".to_vec()));
    assert_eq!(w.headers, vec![Header::new("Content-Type", "application/x-www-form-urlencoded")]);
}

#[test]
fn put_and_patch_send_a_form_body_too() {
    for m in [Method::Put, Method::Patch] {
        let w = wire(Request::new(&home(), m).header("X", "y").param("k", "v"));
        assert_eq!(w.target, "http://example.com/");
        assert_eq!(w.body, Some(b"k=v".to_vec()));
        assert_eq!(
            w.headers,
            vec![
                Header::new("X", "y"),
                Header::new("Content-Type", "application/x-www-form-urlencoded")
            ]
        );
    }
}

#[test]
fn without_params_and_body_nothing_is_added() {
    for m in [Method::Get, Method::Post] {
        let w = wire(Request::new(&home(), m).header("X", "y"));
        assert_eq!(w.target, "http://example.com/");
        assert_eq!(w.body, None);
        assert_eq!(w.headers, vec![Header::new("X", "y")]);
    }
}

#[test]
fn json_after_params_replaces_the_form_encoding() {
    let w = wire(
        Request::new(&home(), Method::Post).param("secret", "hidden").json(Ok(b"{\"v\":1}".to_vec())),
    );
    assert_eq!(w.body, Some(b"{\"v\":1}".to_vec()));
    assert_eq!(w.headers, vec![Header::new("Content-Type", "application/json")]);
    let body = String::from_utf8(w.body.unwrap()).unwrap();
    assert!(!body.contains("hidden"));
    assert_eq!(w.target, "http://example.com/?secret=hidden");
}

#[test]
fn post_with_json_sends_the_serialized_value() {
    let w = wire(Request::new(&home(), Method::Post).json(Ok(a_and_b())));
    assert_eq!(w.method, "POST");
    assert_eq!(w.headers, vec![Header::new("Content-Type", "application/json")]);
    assert_eq!(w.body, Some(b"{\"a\":10,\"b\":15}".to_vec()));
    assert_eq!(w.target, "http://example.com/");
}

#[test]
fn a_failed_serialization_fails_the_finalization() {
    let e = EncodeError { message: String::from("key is not a string") };
    let r = Request::new(&home(), Method::Post).param("a", "1").json(Err(e.clone()));
    assert_eq!(r.finalize(), Err(RequestError::Build(e)));
}

#[test]
fn a_failed_serialization_is_forgotten_when_another_body_is_chosen() {
    let e = EncodeError { message: String::from("no") };
    let r = Request::new(&home(), Method::Post).json(Err(e)).body(Vec::new(), "text/plain");
    let w = wire(r);
    assert_eq!(w.body, Some(Vec::new()));
    assert_eq!(w.headers, vec![Header::new("Content-Type", "text/plain")]);
}

#[test]
fn a_raw_body_is_sent_verbatim() {
    let w = wire(
        Request::new(&home(), Method::Get).param("a", "1").body(vec![0, 159, 255], "application/x-thing"),
    );
    assert_eq!(w.body, Some(vec![0, 159, 255]));
    assert_eq!(w.headers, vec![Header::new("Content-Type", "application/x-thing")]);
    assert_eq!(w.target, "http://example.com/?a=1");
}

#[test]
fn the_content_type_follows_the_headers_of_the_caller() {
    let w = wire(
        Request::new(&home(), Method::Post)
            .header("Content-Type", "text/csv")
            .header("X", "y")
            .body(b"a,b".to_vec(), "text/plain"),
    );
    assert_eq!(
        w.headers,
        vec![
            Header::new("Content-Type", "text/csv"),
            Header::new("X", "y"),
            Header::new("Content-Type", "text/plain")
        ]
    );
}

#[test]
fn a_multipart_body_is_an_envelope_under_its_boundary() {
    let w = wire(
        Request::new(&home(), Method::Post)
            .param("a", "1")
            .multipart(vec![Part::file("f", "a.txt", b"abc".to_vec(), None)], "BOUND"),
    );
    let expected = "--BOUND\r\nContent-Disposition: form-data; name=\"f\"; filename=\"a.txt\"\r\n\
                    Content-Type: text/plain\r\n\r\nabc\r\n--BOUND--\r\n";
    assert_eq!(w.body, Some(expected.as_bytes().to_vec()));
    assert_eq!(w.headers, vec![Header::new("Content-Type", "multipart/form-data; boundary=BOUND")]);
    assert_eq!(w.target, "http://example.com/?a=1");
}

#[test]
fn a_custom_method_goes_on_the_wire_as_written() {
    let w = wire(Request::new(&home(), Method::Custom(String::from("m-search"))));
    assert_eq!(w.method, "m-search");
}

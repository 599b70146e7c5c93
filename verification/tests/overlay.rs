use http::HeaderMap;
use tower_livereload::message::{Progress, RequestParts, Response};
use tower_livereload::overlay::{OverlayBody, OverlayError, OverlayFuture, OverlayService};

fn parts(path: &str) -> RequestParts {
    RequestParts { method: String::from("GET"), path: String::from(path) }
}

fn plain(status: u16, body: &'static str) -> Response<&'static str> {
    Response { status, headers: HeaderMap::new(), body }
}

fn rule(parts: &RequestParts) -> Option<Result<Response<&'static str>, String>> {
    if parts.path == "/virtual" {
        Some(Ok(plain(200, "synthetic")))
    } else if parts.path == "/broken" {
        Some(Err(String::from("cannot build")))
    } else {
        None
    }
}

#[test]
fn matched_path_never_reaches_the_handler() {
    let mut calls = 0u32;
    let overlay = OverlayService::new((), rule);
    for path in ["/virtual", "/page", "/virtual", "/broken", "/virtual/", "/"] {
        match overlay.call(&parts(path), path) {
            OverlayFuture::Inner { inner } => {
                assert_eq!(inner, path);
                calls += 1;
            }
            OverlayFuture::Alternative { alternative } => assert!(alternative.is_some()),
        }
    }
    assert_eq!(calls, 3);
}

#[test]
fn synthetic_answer_is_marked_as_the_rules() {
    let overlay = OverlayService::new((), rule);
    let mut future = overlay.call(&parts("/virtual"), "request");
    match future.poll::<(), ()>(Progress::Pending) {
        Progress::Ready(Ok(response)) => {
            assert_eq!(response.status, 200);
            assert!(matches!(response.body, OverlayBody::A { a: "synthetic" }));
        }
        _ => panic!("a synthetic answer is ready at once"),
    }
    assert!(matches!(future, OverlayFuture::Alternative { alternative: None }));
}

#[test]
fn synthetic_failure_is_marked_as_the_rules() {
    let overlay = OverlayService::new((), rule);
    let mut future = overlay.call(&parts("/broken"), "request");
    match future.poll::<(), ()>(Progress::Pending) {
        Progress::Ready(Err(OverlayError::A(error))) => assert_eq!(error, "cannot build"),
        _ => panic!("the failure of the rule is handed on"),
    }
}

#[test]
fn answer_of_the_handler_is_marked_as_the_handlers() {
    let overlay = OverlayService::new((), rule);
    let mut future = overlay.call(&parts("/page"), "request");
    assert!(matches!(future.poll::<&str, &str>(Progress::Pending), Progress::Pending));
    match future.poll::<&str, &str>(Progress::Ready(Ok(plain(201, "made")))) {
        Progress::Ready(Ok(response)) => {
            assert_eq!(response.status, 201);
            assert!(matches!(response.body, OverlayBody::B { b: "made" }));
        }
        _ => panic!("the answer of the handler is handed on"),
    }
    match future.poll::<&str, &str>(Progress::Ready(Err("down"))) {
        Progress::Ready(Err(OverlayError::B(error))) => assert_eq!(error, "down"),
        _ => panic!("the failure of the handler is handed on"),
    }
}

#[test]
fn frames_keep_their_content_and_failures_get_their_mark() {
    let data: Progress<Option<Result<u8, &str>>> = Progress::Ready(Some(Ok(7)));
    assert!(matches!(
        OverlayBody::<(), ()>::frame_a::<u8, &str, ()>(data),
        Progress::Ready(Some(Ok(7)))
    ));
    assert!(matches!(
        OverlayBody::<(), ()>::frame_b::<u8, (), &str>(data),
        Progress::Ready(Some(Ok(7)))
    ));
    let lost: Progress<Option<Result<u8, &str>>> = Progress::Ready(Some(Err("lost")));
    assert!(matches!(
        OverlayBody::<(), ()>::frame_a::<u8, &str, ()>(lost),
        Progress::Ready(Some(Err(OverlayError::A("lost"))))
    ));
    assert!(matches!(
        OverlayBody::<(), ()>::frame_b::<u8, (), &str>(lost),
        Progress::Ready(Some(Err(OverlayError::B("lost"))))
    ));
    let end: Progress<Option<Result<u8, &str>>> = Progress::Ready(None);
    assert!(matches!(OverlayBody::<(), ()>::frame_a::<u8, &str, ()>(end), Progress::Ready(None)));
    let pending: Progress<Option<Result<u8, &str>>> = Progress::Pending;
    assert!(matches!(OverlayBody::<(), ()>::frame_b::<u8, (), &str>(pending), Progress::Pending));
}

#[test]
fn overlays_stack() {
    fn other(parts: &RequestParts) -> Option<Result<Response<&'static str>, String>> {
        if parts.path == "/other" {
            Some(Ok(plain(200, "other")))
        } else {
            None
        }
    }
    let inner = OverlayService::new((), rule);
    let outer = OverlayService::new(inner.clone(), other);
    let mut reached = Vec::new();
    for path in ["/other", "/virtual", "/page"] {
        match outer.call(&parts(path), path) {
            OverlayFuture::Alternative { .. } => reached.push("outer"),
            OverlayFuture::Inner { inner: request } => match inner.call(&parts(path), request) {
                OverlayFuture::Alternative { .. } => reached.push("inner"),
                OverlayFuture::Inner { .. } => reached.push("handler"),
            },
        }
    }
    assert_eq!(reached, vec!["outer", "inner", "handler"]);
}

#[test]
fn overlay_hands_out_the_wrapped_handler() {
    let mut overlay: OverlayService<&'static str, String, u32, _> = OverlayService::new(0u32, rule);
    *overlay.service_mut() += 5;
    assert_eq!(*overlay.service_mut(), 5);
}

#[test]
fn overlay_describes_itself_without_the_rule() {
    let overlay: OverlayService<&'static str, String, Vec<u8>, _> = OverlayService::new(vec![1u8, 2], rule);
    assert_eq!(overlay.describe(false), "OverlayService: { alternative: ..., service: [1, 2] }");
    assert_eq!(
        overlay.describe(true),
        "OverlayService: {\n    alternative: ...,\n    service: [\n    1,\n    2,\n]\n}"
    );
}

#[test]
fn failure_shows_what_is_inside() {
    let synthetic: OverlayError<&str, u32> = OverlayError::A("no such header");
    let passed: OverlayError<&str, u32> = OverlayError::B(502);
    assert_eq!(synthetic.message(), "no such header");
    assert_eq!(passed.message(), "502");
}

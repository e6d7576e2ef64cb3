use postbox::outcome::{classify, Outcome};
use postbox::scramble::derive_scramble;
use postbox::store::{
    on_body_received, plan_store, store_result_response, Context, FsOutcome, NextAction,
};

fn context() -> Context {
    Context {
        file_root: b"/srv/files".to_vec(),
        key: b"K".to_vec(),
        root_url: b"http://x/".to_vec(),
    }
}

fn header_value(r: &postbox::respond::HttpResponse, name: &[u8]) -> Vec<u8> {
    for (n, v) in r.headers.iter() {
        if n.as_slice() == name {
            return v.clone();
        }
    }
    panic!("header not present");
}

#[test]
fn plan_confines_directory_under_root() {
    let ctx = context();
    let plan = plan_store(&ctx, &b"greeting.txt".to_vec());
    assert_eq!(plan.scramble.len(), 21);
    assert!(plan.dir.starts_with(b"/srv/files/"));
    assert!(!plan.scramble.contains(&b'/'));
    assert!(!plan.scramble.contains(&b'.'));
    assert_eq!(plan.dir.len(), b"/srv/files/".len() + 21);
}

#[test]
fn plan_builds_expected_paths_and_url() {
    let ctx = context();
    let name = b"greeting.txt".to_vec();
    let scramble = derive_scramble(&ctx.key, &name);
    let plan = plan_store(&ctx, &name);
    assert_eq!(plan.scramble, scramble);

    let mut dir = b"/srv/files/".to_vec();
    dir.extend_from_slice(&scramble);
    assert_eq!(plan.dir, dir);

    let mut file = dir.clone();
    file.push(b'/');
    file.extend_from_slice(&name);
    assert_eq!(plan.file, file);

    let mut url = b"http://x/".to_vec();
    url.extend_from_slice(&scramble);
    url.push(b'/');
    url.extend_from_slice(&name);
    assert_eq!(plan.url, url);
}

#[test]
fn store_flow_returns_url_on_success() {
    let ctx = context();
    let (outcome, _) = classify(&b"POST".to_vec(), &b"/greeting.txt".to_vec());
    let action = on_body_received(&ctx, outcome);
    let plan = match action {
        NextAction::WriteFile { plan } => plan,
        NextAction::Respond { .. } => panic!("expected a write plan"),
    };
    let scramble = derive_scramble(&ctx.key, &b"greeting.txt".to_vec());
    let mut url = b"http://x/".to_vec();
    url.extend_from_slice(&scramble);
    url.extend_from_slice(b"/greeting.txt");
    assert_eq!(plan.url, url);

    let r = store_result_response(&plan, &FsOutcome::Created);
    assert_eq!(r.status, 200);
    assert_eq!(r.body, url);
    assert_eq!(header_value(&r, b"Location"), url);
}

#[test]
fn duplicate_name_is_a_defined_error() {
    let ctx = context();
    let plan = plan_store(&ctx, &b"greeting.txt".to_vec());
    let r = store_result_response(&plan, &FsOutcome::DirExists);
    assert_ne!(r.status, 200);
    assert_eq!(r.status, 500);
    assert_eq!(r.body, b"500 Internal Server Error\n".to_vec());
    assert_ne!(r.body, plan.url);
}

#[test]
fn write_failure_is_a_defined_error() {
    let ctx = context();
    let plan = plan_store(&ctx, &b"greeting.txt".to_vec());
    let r = store_result_response(&plan, &FsOutcome::WriteFailed);
    assert_eq!(r.status, 500);
}

#[test]
fn non_store_outcomes_respond_at_once() {
    let ctx = context();
    let action = on_body_received(&ctx, Outcome::PageNotFound);
    match action {
        NextAction::Respond { response } => {
            assert_eq!(response.status, 404);
            assert_eq!(response.body, b"404 Not Found\n".to_vec());
        }
        NextAction::WriteFile { .. } => panic!("expected a response"),
    }
    let action = on_body_received(&ctx, Outcome::MethodNotAllowed { allow: b"POST".to_vec() });
    match action {
        NextAction::Respond { response } => {
            assert_eq!(response.status, 405);
            assert_eq!(header_value(&response, b"Allow"), b"POST".to_vec());
        }
        NextAction::WriteFile { .. } => panic!("expected a response"),
    }
}

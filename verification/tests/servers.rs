use supervisor_webui::api::RpcCall;
use supervisor_webui::request_params::RequestParams;
use supervisor_webui::routing::route_request;
use supervisor_webui::servers::ServerRegistry;

fn s(x: &str) -> String {
    x.to_string()
}

#[test]
fn registry_reads_back_what_was_inserted() {
    let mut r = ServerRegistry::new();
    r.insert(s("a"), s("http://a:9000/RPC2"));
    r.insert(s("b"), s("http://b:9000/RPC2"));
    r.insert(s("a"), s("http://a:9001/RPC2"));
    assert_eq!(r.lookup(&s("a")), Some(s("http://a:9001/RPC2")));
    assert_eq!(r.lookup(&s("b")), Some(s("http://b:9000/RPC2")));
    assert_eq!(r.lookup(&s("c")), None);
    let mut hosts = r.hosts();
    hosts.sort();
    assert_eq!(hosts, vec![s("a"), s("b")]);
}

#[test]
fn registering_a_url_uses_its_host() {
    let mut r = ServerRegistry::new();
    assert!(r.register_url(s("http://172.14.0.2:9000/RPC2")));
    assert_eq!(r.lookup(&s("172.14.0.2")), Some(s("http://172.14.0.2:9000/RPC2")));
    assert_eq!(r.lookup(&s("http://172.14.0.2:9000/RPC2")), None);
    assert!(r.register_url(s("http://Example.COM/RPC2")));
    assert_eq!(r.lookup(&s("example.com")), Some(s("http://Example.COM/RPC2")));
}

#[test]
fn urls_without_a_host_are_not_registered() {
    let mut r = ServerRegistry::new();
    assert!(!r.register_url(s("not a url")));
    assert!(!r.register_url(s("unix:/run/supervisor.sock")));
    assert!(r.hosts().is_empty());
}

#[test]
fn registry_from_args_skips_program_and_port() {
    let args = vec![
        s("supervisor_webui"),
        s("8080"),
        s("http://172.14.0.2:9000/RPC2"),
        s("http://172.14.0.3:9000/RPC2"),
        s("http://172.14.0.2:9001/RPC2"),
    ];
    let r = ServerRegistry::from_args(&args).ok().unwrap();
    let mut hosts = r.hosts();
    hosts.sort();
    assert_eq!(hosts, vec![s("172.14.0.2"), s("172.14.0.3")]);
    assert_eq!(r.lookup(&s("172.14.0.2")), Some(s("http://172.14.0.2:9001/RPC2")));
}

#[test]
fn registry_from_args_refuses_an_invalid_url() {
    let args = vec![s("prog"), s("8080"), s("http://ok:9000/RPC2"), s("::bad::")];
    assert!(matches!(ServerRegistry::from_args(&args), Err(ref e) if e == "Invalid Url."));
    let empty = ServerRegistry::from_args(&vec![s("prog"), s("8080")]).ok().unwrap();
    assert!(empty.hosts().is_empty());
}

fn registry() -> ServerRegistry {
    ServerRegistry::from_urls(&vec![s("http://10.0.0.1:9000/RPC2")]).ok().unwrap()
}

#[test]
fn route_to_an_unknown_server_is_refused() {
    let r = route_request(&registry(), &s("10.0.0.2"), "getState", RequestParams::Empty {});
    assert!(matches!(r, Err(ref e) if e == "Server not found."));
    let r = route_request(&registry(), &s("10.0.0.2"), "nonsense", RequestParams::Bool { a: true });
    assert!(matches!(r, Err(ref e) if e == "Server not found."));
}

#[test]
fn route_with_an_unknown_method_is_refused() {
    let r = route_request(&registry(), &s("10.0.0.1"), "getStat", RequestParams::Empty {});
    assert!(matches!(r, Err(ref e) if e == "Bad request."));
}

#[test]
fn route_with_wrong_parameters_is_refused() {
    let r = route_request(&registry(), &s("10.0.0.1"), "getState", RequestParams::Bool { a: true });
    assert!(matches!(r, Err(ref e) if e == "Bad request"));
}

#[test]
fn route_gives_url_and_call() {
    let r = route_request(
        &registry(),
        &s("10.0.0.1"),
        "startProcess",
        RequestParams::StringBool { a: s("worker"), b: false },
    );
    match r {
        Ok((url, RpcCall::StartProcess { name, wait })) => {
            assert_eq!(url, "http://10.0.0.1:9000/RPC2");
            assert_eq!(name, "worker");
            assert!(!wait);
        }
        _ => panic!("unexpected route"),
    }
}

#[test]
fn route_ignores_the_case_of_the_method_name() {
    for n in ["getState", "GETSTATE", "getstate"] {
        let r = route_request(&registry(), &s("10.0.0.1"), n, RequestParams::Empty {});
        assert!(matches!(r, Ok((ref url, RpcCall::GetState)) if url == "http://10.0.0.1:9000/RPC2"));
    }
}

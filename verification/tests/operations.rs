use mygpoclient::subscription::{read_device_list, read_subscriptions, read_upload};
use mygpoclient::{Client, DecodeError, Error, Method, Request, Response};

fn alice() -> Client {
    Client::new("alice", "secret")
}

fn answer(status: u16, body: &[u8]) -> Result<Response, String> {
    Ok(Response { status, body: body.to_vec() })
}

fn refused() -> Result<Response, String> {
    Err(String::from("connection refused"))
}

#[test]
fn client_keeps_its_credentials() {
    let client = Client::new("alice", "secret");
    assert_eq!(client.username(), "alice");
    assert_eq!(client.password(), "secret");
    let empty = Client::new("", "");
    assert_eq!(empty.username(), "");
    assert_eq!(empty.password(), "");
}

#[test]
fn get_all_subscriptions_sends_one_get() {
    let mut seen: Vec<Request> = Vec::new();
    let outcome = alice().get_all_subscriptions(|request: Request| {
        seen.push(request);
        answer(200, b"[]")
    });
    assert_eq!(outcome.unwrap(), vec![]);
    assert_eq!(seen.len(), 1);
    assert_eq!(seen[0].method, Method::Get);
    assert_eq!(seen[0].url, "https://gpodder.net/subscriptions/alice.json");
    assert_eq!(seen[0].authorization, "Basic YWxpY2U6c2VjcmV0");
    assert_eq!(seen[0].user_agent, "mygpoclient/0.1.0");
    assert_eq!(seen[0].body, None);
    assert!(seen[0].wants_body);
}

#[test]
fn get_all_subscriptions_keeps_large_counts() {
    let body = b"[{\"url\":\"u\",\"title\":\"t\",\"description\":\"d\",\"subscribers\":70000,\
        \"subscribers_last_week\":66000,\"mygpo_link\":\"m\"}]";
    let list = alice().get_all_subscriptions(|_request: Request| answer(200, body)).unwrap();
    assert_eq!(list.len(), 1);
    assert_eq!(list[0].subscribers, 70000);
    assert_eq!(list[0].subscribers_last_week, 66000);
}

#[test]
fn get_all_subscriptions_decodes_the_body() {
    let body = b"[{\"url\": \"https://feed.example/a.xml\", \"title\": \"A\",
        \"description\": \"About A\", \"subscribers\": 12, \"subscribers_last_week\": 10,
        \"logo_url\": \"https://feed.example/a.png\", \"scaled_logo_url\": null,
        \"mygpo_link\": \"https://gpodder.net/podcast/a\"}]";
    let list = alice().get_all_subscriptions(|_request: Request| answer(200, body)).unwrap();
    assert_eq!(list.len(), 1);
    assert_eq!(list[0].url, "https://feed.example/a.xml");
    assert_eq!(list[0].title, "A");
    assert_eq!(list[0].description, "About A");
    assert_eq!(list[0].subscribers, 12);
    assert_eq!(list[0].subscribers_last_week, 10);
    assert_eq!(list[0].logo_url, Some(String::from("https://feed.example/a.png")));
    assert_eq!(list[0].scaled_logo_url, None);
    assert_eq!(list[0].website, None);
    assert_eq!(list[0].mygpo_link, "https://gpodder.net/podcast/a");
}

#[test]
fn get_subscriptions_of_alices_phone() {
    let mut seen: Vec<Request> = Vec::new();
    let outcome = alice().get_subscriptions("phone", |request: Request| {
        seen.push(request);
        answer(200, b"[\"https://feed.example/a.xml\",\"https://feed.example/b.xml\"]")
    });
    assert_eq!(
        outcome.unwrap(),
        vec![String::from("https://feed.example/a.xml"), String::from("https://feed.example/b.xml")]
    );
    assert_eq!(seen.len(), 1);
    assert_eq!(seen[0].method, Method::Get);
    assert_eq!(seen[0].url, "https://gpodder.net/subscriptions/alice/phone.json");
    assert_eq!(seen[0].authorization, "Basic YWxpY2U6c2VjcmV0");
    assert_eq!(seen[0].user_agent, "mygpoclient/0.1.0");
    assert_eq!(seen[0].body, None);
    assert!(seen[0].wants_body);
}

#[test]
fn put_subscriptions_to_alices_phone() {
    let list = vec![String::from("https://feed.example/a.xml")];
    for status in [200u16, 204, 400, 401, 404, 500] {
        let mut seen: Vec<Request> = Vec::new();
        let outcome = alice().put_subscriptions(&list, "phone", |request: Request| {
            seen.push(request);
            answer(status, b"{\"error\": \"whatever\"}")
        });
        assert!(matches!(outcome, Ok(())));
        assert_eq!(seen.len(), 1);
        assert_eq!(seen[0].method, Method::Put);
        assert_eq!(seen[0].url, "https://gpodder.net/subscriptions/alice/phone.json");
        assert_eq!(seen[0].authorization, "Basic YWxpY2U6c2VjcmV0");
        assert_eq!(seen[0].user_agent, "mygpoclient/0.1.0");
        assert_eq!(seen[0].body, Some(b"[\"https://feed.example/a.xml\"]".to_vec()));
        assert!(!seen[0].wants_body);
    }
}

#[test]
fn get_and_put_differ_in_method_and_body_alone() {
    for device in ["phone", "", "my laptop", "a/b"] {
        let client = Client::new("bob", "pw");
        let list = vec![String::from("x"), String::from("y")];
        let fetch = client.device_list_request(device);
        let upload = client.upload_request(&list, device);
        assert_eq!(fetch.url, format!("https://gpodder.net/subscriptions/bob/{}.json", device));
        assert_eq!(upload.url, fetch.url);
        assert_eq!(upload.authorization, fetch.authorization);
        assert_eq!(upload.user_agent, fetch.user_agent);
        assert_eq!(fetch.method, Method::Get);
        assert_eq!(upload.method, Method::Put);
        assert_eq!(fetch.body, None);
        assert_eq!(upload.body, Some(b"[\"x\",\"y\"]".to_vec()));
        assert!(fetch.wants_body);
        assert!(!upload.wants_body);
    }
}

#[test]
fn requests_are_the_ones_that_the_operations_send() {
    let client = alice();
    let list = vec![String::from("x")];
    let mut seen: Vec<Request> = Vec::new();
    let _ = client.get_all_subscriptions(|request: Request| {
        seen.push(request);
        refused()
    });
    let _ = client.get_subscriptions("phone", |request: Request| {
        seen.push(request);
        refused()
    });
    let _ = client.put_subscriptions(&list, "phone", |request: Request| {
        seen.push(request);
        refused()
    });
    assert_eq!(
        seen,
        vec![
            client.all_subscriptions_request(),
            client.device_list_request("phone"),
            client.upload_request(&list, "phone"),
        ]
    );
}

#[test]
fn uploaded_list_comes_back_from_an_echoing_transport() {
    let client = alice();
    let list = vec![
        String::from("https://feed.example/b.xml"),
        String::from("https://feed.example/a.xml"),
        String::from("https://feed.example/b.xml"),
        String::from("with \"quotes\" and \\ and \u{e9}\n"),
    ];
    let mut stored: Vec<u8> = Vec::new();
    let sent = client.put_subscriptions(&list, "phone", |request: Request| {
        stored = request.body.unwrap();
        answer(200, b"")
    });
    assert!(matches!(sent, Ok(())));
    let fetched = client.get_subscriptions("phone", |_request: Request| answer(200, &stored));
    assert_eq!(fetched.unwrap(), list);
}

#[test]
fn transport_failure_is_handed_on() {
    let client = alice();
    let all = client.get_all_subscriptions(|_request: Request| refused());
    assert!(matches!(all, Err(Error::Transport(ref e)) if e == "connection refused"));
    let one = client.get_subscriptions("phone", |_request: Request| refused());
    assert!(matches!(one, Err(Error::Transport(ref e)) if e == "connection refused"));
    let list = vec![String::from("x")];
    let put = client.put_subscriptions(&list, "phone", |_request: Request| refused());
    assert!(matches!(put, Err(Error::Transport(ref e)) if e == "connection refused"));
}

#[test]
fn body_that_is_no_json_fails_to_decode() {
    let client = alice();
    for body in [&b"<html>oops</html>"[..], b"", b"[\"a\"", b"nul"] {
        let all = client.get_all_subscriptions(|_request: Request| answer(200, body));
        assert!(matches!(all, Err(Error::Decode(DecodeError::Syntax))));
        let one = client.get_subscriptions("phone", |_request: Request| answer(200, body));
        assert!(matches!(one, Err(Error::Decode(DecodeError::Syntax))));
    }
}

#[test]
fn body_that_is_no_array_fails_to_decode() {
    let client = alice();
    for body in [&b"{}"[..], b"{\"subscriptions\": []}", b"null", b"\"a\"", b"3"] {
        let all = client.get_all_subscriptions(|_request: Request| answer(200, body));
        assert!(matches!(all, Err(Error::Decode(DecodeError::Shape))));
        let one = client.get_subscriptions("phone", |_request: Request| answer(200, body));
        assert!(matches!(one, Err(Error::Decode(DecodeError::Shape))));
    }
}

#[test]
fn status_is_not_looked_at() {
    let client = alice();
    for status in [200u16, 301, 401, 404, 500] {
        let one = client.get_subscriptions("phone", |_request: Request| answer(status, b"[\"a\"]"));
        assert_eq!(one.unwrap(), vec![String::from("a")]);
        let all = client.get_all_subscriptions(|_request: Request| answer(status, b"[]"));
        assert_eq!(all.unwrap(), vec![]);
        let bad = client.get_subscriptions("phone", |_request: Request| {
            answer(status, b"{\"detail\": \"not found\"}")
        });
        assert!(matches!(bad, Err(Error::Decode(DecodeError::Shape))));
    }
}

#[test]
fn read_functions_take_any_exchange() {
    assert!(matches!(read_upload(refused()), Err(Error::Transport(_))));
    assert!(matches!(read_upload(answer(500, b"no")), Ok(())));
    assert!(matches!(read_device_list(refused()), Err(Error::Transport(_))));
    assert_eq!(read_device_list(answer(200, b"[\"a\"]")).unwrap(), vec![String::from("a")]);
    assert!(matches!(
        read_device_list(answer(200, b"[1]")),
        Err(Error::Decode(DecodeError::Shape))
    ));
    assert!(matches!(read_subscriptions(refused()), Err(Error::Transport(_))));
    assert_eq!(read_subscriptions(answer(200, b"[]")).unwrap(), vec![]);
    assert!(matches!(
        read_subscriptions(answer(200, b"[{}]")),
        Err(Error::Decode(DecodeError::Shape))
    ));
    assert!(matches!(
        read_subscriptions(answer(200, b"[")),
        Err(Error::Decode(DecodeError::Syntax))
    ));
}

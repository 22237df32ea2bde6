use rust_study::server::{
    format_response, status_line, Action, Connection, Event, Outcome, Phase, RouteTable, Status,
    SLEEP_DELAY_SECS,
};

const INDEX_HTML: &str = "<!DOCTYPE html>\n<html lang=\"en\">\n  <body>\n    <h1>Hello!</h1>\n  </body>\n</html>\n";
const NOT_FOUND_HTML: &str = "<!DOCTYPE html>\n<html lang=\"en\">\n  <body>\n    <h1>Oops!</h1>\n  </body>\n</html>\n";

/// Feeds the request lines and then the blank line that ends the request.
fn read_request(conn: &mut Connection, table: &RouteTable, lines: &[&str]) -> Action {
    for line in lines {
        let a = conn.step(table, Event::Line(line.to_string()));
        assert!(matches!(a, Action::ReadLine));
    }
    conn.step(table, Event::Line(String::new()))
}

fn expected_response(status: &str, body: &str) -> Vec<u8> {
    format!("{status}\r\nContent-Length: {}\r\n\r\n{body}", body.len()).into_bytes()
}

/// Runs one connection to its end; the two known files hold the pages above.
fn serve(table: &RouteTable, lines: &[&str]) -> (Vec<Action>, Vec<u8>) {
    let mut conn = Connection::new();
    let mut actions = Vec::new();
    let mut written = Vec::new();
    let mut action = read_request(&mut conn, table, lines);
    loop {
        let event = match &action {
            Action::ReadLine => Event::EndOfInput,
            Action::Sleep(_) => Event::Woke,
            Action::LoadFile(name) => match name.as_str() {
                "index.html" => Event::BodyLoaded(INDEX_HTML.as_bytes().to_vec()),
                "404.html" => Event::BodyLoaded(NOT_FOUND_HTML.as_bytes().to_vec()),
                _ => Event::FileMissing,
            },
            Action::Write(bytes) => {
                written = bytes.clone();
                Event::Written
            }
            Action::Close(_) => {
                actions.push(action);
                return (actions, written);
            }
        };
        assert!(conn.expects(&event));
        let next = conn.step(table, event);
        actions.push(action);
        action = next;
    }
}

#[test]
fn index_request_gets_ok_and_index_body() {
    let table = RouteTable::standard();
    let (actions, written) = serve(&table, &["GET / HTTP/1.1", "Host: 127.0.0.1:8080"]);
    assert_eq!(written, expected_response("HTTP/1.1 200 OK", INDEX_HTML));
    assert!(matches!(actions[0], Action::LoadFile(ref f) if f == "index.html"));
    assert!(matches!(actions.last(), Some(Action::Close(Outcome::Served))));
}

#[test]
fn unknown_request_gets_not_found_body() {
    let table = RouteTable::standard();
    for line in ["GET /missing HTTP/1.1", "POST / HTTP/1.1", "GET / HTTP/1.0", "get / http/1.1", "GET /  HTTP/1.1"] {
        let (_, written) = serve(&table, &[line]);
        assert_eq!(written, expected_response("HTTP/1.1 404 NOT FOUND", NOT_FOUND_HTML));
    }
}

#[test]
fn sleep_request_sleeps_before_loading_and_writing() {
    let table = RouteTable::standard();
    let (actions, written) = serve(&table, &["GET /sleep HTTP/1.1"]);
    assert!(matches!(actions[0], Action::Sleep(SLEEP_DELAY_SECS)));
    assert!(matches!(actions[1], Action::LoadFile(ref f) if f == "index.html"));
    assert!(matches!(actions[2], Action::Write(_)));
    assert_eq!(written, expected_response("HTTP/1.1 200 OK", INDEX_HTML));
    assert_eq!(SLEEP_DELAY_SECS, 5);
}

#[test]
fn sleeping_connection_expects_only_waking() {
    let table = RouteTable::standard();
    let mut conn = Connection::new();
    let a = read_request(&mut conn, &table, &["GET /sleep HTTP/1.1"]);
    assert!(matches!(a, Action::Sleep(5)));
    assert_eq!(conn.phase(), Phase::Sleeping);
    assert!(!conn.expects(&Event::BodyLoaded(vec![1, 2, 3])));
    assert!(!conn.expects(&Event::Written));
    assert!(conn.expects(&Event::Woke));
}

#[test]
fn ten_interleaved_connections_keep_their_own_responses() {
    let table = RouteTable::standard();
    let requests = [
        "GET / HTTP/1.1", "GET /nope HTTP/1.1", "GET /sleep HTTP/1.1", "GET / HTTP/1.1", "x",
        "GET /sleep HTTP/1.1", "GET /a HTTP/1.1", "GET / HTTP/1.1", "", "GET /sleep HTTP/1.1",
    ];
    let mut conns: Vec<Connection> = (0..10).map(|_| Connection::new()).collect();
    let mut pending: Vec<Action> = Vec::new();
    for (i, conn) in conns.iter_mut().enumerate() {
        if requests[i].is_empty() {
            pending.push(conn.step(&table, Event::Line(String::new())));
        } else {
            conn.step(&table, Event::Line(requests[i].to_string()));
            pending.push(Action::ReadLine);
        }
    }
    let mut written: Vec<Option<Vec<u8>>> = vec![None; 10];
    let mut done = 0;
    while done < 10 {
        done = 0;
        for i in (0..10).rev() {
            let event = match &pending[i] {
                Action::ReadLine => Event::Line(String::new()),
                Action::Sleep(_) => Event::Woke,
                Action::LoadFile(name) if name == "index.html" => {
                    Event::BodyLoaded(INDEX_HTML.as_bytes().to_vec())
                }
                Action::LoadFile(_) => Event::BodyLoaded(NOT_FOUND_HTML.as_bytes().to_vec()),
                Action::Write(bytes) => {
                    written[i] = Some(bytes.clone());
                    Event::Written
                }
                Action::Close(_) => {
                    done += 1;
                    continue;
                }
            };
            pending[i] = conns[i].step(&table, event);
        }
    }
    for i in 0..10 {
        let ok = requests[i] == "GET / HTTP/1.1" || requests[i] == "GET /sleep HTTP/1.1";
        let expected = if ok {
            expected_response("HTTP/1.1 200 OK", INDEX_HTML)
        } else {
            expected_response("HTTP/1.1 404 NOT FOUND", NOT_FOUND_HTML)
        };
        assert_eq!(written[i].as_ref(), Some(&expected), "connection {i}");
    }
}

#[test]
fn empty_request_is_not_found() {
    let table = RouteTable::standard();
    let mut conn = Connection::new();
    let a = conn.step(&table, Event::EndOfInput);
    assert!(matches!(a, Action::LoadFile(ref f) if f == "404.html"));
}

#[test]
fn read_failure_closes_without_response() {
    let table = RouteTable::standard();
    let mut conn = Connection::new();
    conn.step(&table, Event::Line("GET / HTTP/1.1".to_string()));
    let a = conn.step(&table, Event::ReadFailed);
    assert!(matches!(a, Action::Close(Outcome::ReadError)));
    assert_eq!(conn.phase(), Phase::Closed);
}

#[test]
fn missing_file_closes_that_connection() {
    let table = RouteTable::standard();
    let mut conn = Connection::new();
    read_request(&mut conn, &table, &["GET / HTTP/1.1"]);
    let a = conn.step(&table, Event::FileMissing);
    assert!(matches!(a, Action::Close(Outcome::FileNotFound)));
}

#[test]
fn write_failure_is_reported() {
    let table = RouteTable::standard();
    let mut conn = Connection::new();
    read_request(&mut conn, &table, &["GET / HTTP/1.1"]);
    conn.step(&table, Event::BodyLoaded(b"x".to_vec()));
    assert_eq!(conn.phase(), Phase::WritingResponse);
    let a = conn.step(&table, Event::WriteFailed);
    assert!(matches!(a, Action::Close(Outcome::WriteError)));
}

#[test]
fn only_lines_before_the_blank_line_count() {
    let table = RouteTable::standard();
    let mut conn = Connection::new();
    let a = read_request(&mut conn, &table, &["GET /x HTTP/1.1", "GET / HTTP/1.1"]);
    assert!(matches!(a, Action::LoadFile(ref f) if f == "404.html"));
}

#[test]
fn content_length_counts_bytes() {
    let body = "héllo wörld".as_bytes();
    let r = format_response(Status::Success, body);
    assert_eq!(r, b"HTTP/1.1 200 OK\r\nContent-Length: 13\r\n\r\nh\xc3\xa9llo w\xc3\xb6rld".to_vec());
    assert_eq!(format_response(Status::NotFound, b""), b"HTTP/1.1 404 NOT FOUND\r\nContent-Length: 0\r\n\r\n".to_vec());
    let big = vec![b'a'; 1234567];
    let r = format_response(Status::Success, &big);
    assert!(r.starts_with(b"HTTP/1.1 200 OK\r\nContent-Length: 1234567\r\n\r\naaa"));
    assert_eq!(r.len(), 15 + 18 + 7 + 4 + 1234567);
}

#[test]
fn status_lines() {
    assert_eq!(status_line(Status::Success), "HTTP/1.1 200 OK");
    assert_eq!(status_line(Status::NotFound), "HTTP/1.1 404 NOT FOUND");
}

#[test]
fn classify_finds_first_matching_route() {
    let table = RouteTable::standard();
    assert_eq!(table.classify(&"GET / HTTP/1.1".to_string()), Some(0));
    assert_eq!(table.classify(&"GET /sleep HTTP/1.1".to_string()), Some(1));
    assert_eq!(table.classify(&"GET /sleep HTTP/1.1 ".to_string()), None);
    assert_eq!(table.routes.len(), 2);
    assert_eq!(table.not_found_file, "404.html");
}

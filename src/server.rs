//! The connection handler of a minimal HTTP-like server.
//!
//! A connection is read line by line until the first empty line. Its first
//! line is matched verbatim against a table of routes; the matching route (or
//! the "not found" fallback) names the status line, the resource file whose
//! bytes form the body, and an optional delay. The handler is a state machine:
//! the caller performs each requested action (read a line, sleep, load a file,
//! write the response) and feeds back what happened.
use vstd::prelude::*;
use vstd::string::StringSliceAdditionalSpecFns;

verus! {

/// The status of a response.
#[derive(Clone, Copy, Debug, PartialEq, Eq, Structural)]
pub enum Status {
    Success,
    NotFound,
}

/// The text of the status line for `status`.
pub open spec fn status_text(status: Status) -> &'static str {
    match status {
        Status::Success => "HTTP/1.1 200 OK",
        Status::NotFound => "HTTP/1.1 404 NOT FOUND",
    }
}

/// The text that separates the status line from the body length.
pub open spec fn length_header_text() -> &'static str {
    "\r\nContent-Length: "
}

/// The text that ends the response head.
pub open spec fn head_end_text() -> &'static str {
    "\r\n\r\n"
}

/// The ASCII decimal digits of `n`, most significant first, without leading zeros.
pub open spec fn decimal_bytes(n: nat) -> Seq<u8>
    decreases n,
{
    if n < 10 {
        seq![(48 + n) as u8]
    } else {
        decimal_bytes(n / 10).push((48 + n % 10) as u8)
    }
}

/// The number that a sequence of ASCII decimal digits denotes.
pub open spec fn decimal_value(digits: Seq<u8>) -> nat
    decreases digits.len(),
{
    if digits.len() == 0 {
        0
    } else {
        decimal_value(digits.drop_last()) * 10 + (digits.last() - 48) as nat
    }
}

/// Whether every byte of `s` is an ASCII decimal digit.
pub open spec fn all_digits(s: Seq<u8>) -> bool {
    forall|i: int| 0 <= i < s.len() ==> 48 <= #[trigger] s[i] <= 57
}

/// The bytes of a response: the status line, the `Content-Length` header that
/// gives the body's length in bytes, a blank line and the body.
pub open spec fn response_bytes(status: Status, body: Seq<u8>) -> Seq<u8> {
    status_text(status).spec_bytes() + length_header_text().spec_bytes() + decimal_bytes(
        body.len(),
    ) + head_end_text().spec_bytes() + body
}

/// Appends the bytes of `src` to `out`.
fn push_bytes(out: &mut Vec<u8>, src: &[u8])
    ensures
        final(out)@ == old(out)@ + src@,
{
    let mut i: usize = 0;
    while i < src.len()
        invariant
            i <= src@.len(),
            out@ == old(out)@ + src@.subrange(0, i as int),
        decreases src@.len() - i,
    {
        out.push(src[i]);
        i = i + 1;
        assert(src@.subrange(0, i as int) == src@.subrange(0, i - 1).push(src@[i - 1]));
    }
    assert(src@.subrange(0, src@.len() as int) == src@);
}

/// Appends the decimal digits of `n` to `out`.
fn push_decimal(out: &mut Vec<u8>, n: usize)
    ensures
        final(out)@ == old(out)@ + decimal_bytes(n as nat),
    decreases n,
{
    if n >= 10 {
        push_decimal(out, n / 10);
    }
    out.push((48 + n % 10) as u8);
}

/// The status line that belongs to `status`.
pub fn status_line(status: Status) -> (r: &'static str)
    ensures
        r == status_text(status),
{
    match status {
        Status::Success => "HTTP/1.1 200 OK",
        Status::NotFound => "HTTP/1.1 404 NOT FOUND",
    }
}

/// Frames `body` as a response with the status line of `status`.
pub fn format_response(status: Status, body: &[u8]) -> (r: Vec<u8>)
    ensures
        r@ == response_bytes(status, body@),
{
    let mut out: Vec<u8> = Vec::new();
    push_bytes(&mut out, status_line(status).as_bytes());
    push_bytes(&mut out, "\r\nContent-Length: ".as_bytes());
    push_decimal(&mut out, body.len());
    push_bytes(&mut out, "\r\n\r\n".as_bytes());
    push_bytes(&mut out, body);
    out
}

/// How long the `/sleep` route waits before it answers, in seconds.
pub const SLEEP_DELAY_SECS: u64 = 5;

/// One entry of the route table: a request line and what answers it.
pub struct Route {
    pub pattern: String,
    pub status: Status,
    pub file_name: String,
    pub delay_secs: u64,
}

/// The mathematical value of a [`Route`].
pub struct RouteView {
    pub pattern: Seq<char>,
    pub status: Status,
    pub file_name: Seq<char>,
    pub delay_secs: u64,
}

impl View for Route {
    type V = RouteView;

    open spec fn view(&self) -> RouteView {
        RouteView {
            pattern: self.pattern@,
            status: self.status,
            file_name: self.file_name@,
            delay_secs: self.delay_secs,
        }
    }
}

/// The immutable configuration of the handler: the routes, tried in order,
/// and the file that answers a request that no route matches.
pub struct RouteTable {
    pub routes: Vec<Route>,
    pub not_found_file: String,
}

/// The mathematical value of a [`RouteTable`].
pub struct RouteTableView {
    pub routes: Seq<RouteView>,
    pub not_found_file: Seq<char>,
}

impl View for RouteTable {
    type V = RouteTableView;

    open spec fn view(&self) -> RouteTableView {
        RouteTableView {
            routes: self.routes@.map_values(|r: Route| r@),
            not_found_file: self.not_found_file@,
        }
    }
}

/// The index of the first route at or after `i` whose pattern is `line`.
pub open spec fn first_match_from(routes: Seq<RouteView>, line: Seq<char>, i: int) -> Option<int>
    decreases routes.len() - i,
{
    if i < 0 || i >= routes.len() {
        None
    } else if routes[i].pattern == line {
        Some(i)
    } else {
        first_match_from(routes, line, i + 1)
    }
}

/// The index of the first route whose pattern is `line`.
pub open spec fn first_match(routes: Seq<RouteView>, line: Seq<char>) -> Option<int> {
    first_match_from(routes, line, 0)
}

/// What answers a request whose first line is `first` (`None`: the request had no line).
pub open spec fn answer_for(table: RouteTableView, first: Option<Seq<char>>) -> RouteView {
    match first {
        Some(line) => match first_match(table.routes, line) {
            Some(i) => table.routes[i],
            None => not_found_answer(table),
        },
        None => not_found_answer(table),
    }
}

/// The answer to a request that no route matches.
pub open spec fn not_found_answer(table: RouteTableView) -> RouteView {
    RouteView {
        pattern: Seq::empty(),
        status: Status::NotFound,
        file_name: table.not_found_file,
        delay_secs: 0,
    }
}

proof fn lemma_first_match_from_bounds(routes: Seq<RouteView>, line: Seq<char>, i: int)
    ensures
        first_match_from(routes, line, i) matches Some(j) ==> i <= j < routes.len()
            && routes[j].pattern == line,
    decreases routes.len() - i,
{
    if 0 <= i < routes.len() && routes[i].pattern != line {
        lemma_first_match_from_bounds(routes, line, i + 1);
    }
}

/// The table of the standard server.
pub open spec fn standard_table() -> RouteTableView {
    RouteTableView {
        routes: seq![
            RouteView {
                pattern: "GET / HTTP/1.1"@,
                status: Status::Success,
                file_name: "index.html"@,
                delay_secs: 0,
            },
            RouteView {
                pattern: "GET /sleep HTTP/1.1"@,
                status: Status::Success,
                file_name: "index.html"@,
                delay_secs: SLEEP_DELAY_SECS,
            },
        ],
        not_found_file: "404.html"@,
    }
}

impl RouteTable {
    /// The table of the standard server: `GET /` and `GET /sleep` answer
    /// with `index.html`, the latter after a delay; anything else with `404.html`.
    pub fn standard() -> (r: RouteTable)
        ensures
            r@ == standard_table(),
    {
        let mut routes: Vec<Route> = Vec::new();
        routes.push(
            Route {
                pattern: String::from_str("GET / HTTP/1.1"),
                status: Status::Success,
                file_name: String::from_str("index.html"),
                delay_secs: 0,
            },
        );
        routes.push(
            Route {
                pattern: String::from_str("GET /sleep HTTP/1.1"),
                status: Status::Success,
                file_name: String::from_str("index.html"),
                delay_secs: SLEEP_DELAY_SECS,
            },
        );
        let r = RouteTable { routes, not_found_file: String::from_str("404.html") };
        assert(r@.routes =~= standard_table().routes);
        r
    }

    /// The index of the first route whose pattern is exactly `line`.
    pub fn classify(&self, line: &String) -> (r: Option<usize>)
        ensures
            r matches Some(i) ==> Some(i as int) == first_match(self@.routes, line@),
            r is None ==> first_match(self@.routes, line@) is None,
    {
        let mut i: usize = 0;
        while i < self.routes.len()
            invariant
                i <= self.routes@.len(),
                first_match(self@.routes, line@) == first_match_from(self@.routes, line@, i as int),
            decreases self.routes@.len() - i,
        {
            if self.routes[i].pattern == *line {
                return Some(i);
            }
            i = i + 1;
        }
        None
    }
}

/// Where a connection stands.
#[derive(Clone, Copy, Debug, PartialEq, Eq, Structural)]
pub enum Phase {
    ReadingRequest,
    Sleeping,
    LoadingBody,
    WritingResponse,
    Closed,
}

/// How a connection ended.
#[derive(Clone, Copy, Debug, PartialEq, Eq, Structural)]
pub enum Outcome {
    /// The response was written.
    Served,
    /// Reading the request failed; nothing was sent.
    ReadError,
    /// The resource file could not be loaded; nothing was sent.
    FileNotFound,
    /// Writing the response failed.
    WriteError,
}

/// What the caller reports back to the handler.
pub enum Event {
    /// A line of the request, without its line terminator.
    Line(String),
    /// The peer closed its side before sending an empty line.
    EndOfInput,
    ReadFailed,
    /// The requested delay has elapsed.
    Woke,
    /// The contents of the requested file.
    BodyLoaded(Vec<u8>),
    FileMissing,
    Written,
    WriteFailed,
}

/// The mathematical value of an [`Event`].
pub enum EventView {
    Line(Seq<char>),
    EndOfInput,
    ReadFailed,
    Woke,
    BodyLoaded(Seq<u8>),
    FileMissing,
    Written,
    WriteFailed,
}

impl View for Event {
    type V = EventView;

    open spec fn view(&self) -> EventView {
        match self {
            Event::Line(l) => EventView::Line(l@),
            Event::EndOfInput => EventView::EndOfInput,
            Event::ReadFailed => EventView::ReadFailed,
            Event::Woke => EventView::Woke,
            Event::BodyLoaded(b) => EventView::BodyLoaded(b@),
            Event::FileMissing => EventView::FileMissing,
            Event::Written => EventView::Written,
            Event::WriteFailed => EventView::WriteFailed,
        }
    }
}

/// What the handler asks the caller to do next.
pub enum Action {
    ReadLine,
    Sleep(u64),
    LoadFile(String),
    Write(Vec<u8>),
    Close(Outcome),
}

/// The mathematical value of an [`Action`].
pub enum ActionView {
    ReadLine,
    Sleep(u64),
    LoadFile(Seq<char>),
    Write(Seq<u8>),
    Close(Outcome),
}

impl View for Action {
    type V = ActionView;

    open spec fn view(&self) -> ActionView {
        match self {
            Action::ReadLine => ActionView::ReadLine,
            Action::Sleep(s) => ActionView::Sleep(*s),
            Action::LoadFile(f) => ActionView::LoadFile(f@),
            Action::Write(b) => ActionView::Write(b@),
            Action::Close(o) => ActionView::Close(*o),
        }
    }
}

/// The state of one connection.
pub struct Connection {
    phase: Phase,
    request: Vec<String>,
    status: Status,
    file_name: String,
    delay_secs: u64,
    slept: bool,
}

/// The mathematical value of a [`Connection`].
pub struct ConnectionView {
    pub phase: Phase,
    /// The lines read so far, up to the first empty line.
    pub request: Seq<Seq<char>>,
    /// What answers the request, once it has been read.
    pub status: Status,
    pub file_name: Seq<char>,
    pub delay_secs: u64,
    /// Whether the requested delay has elapsed.
    pub slept: bool,
}

impl View for Connection {
    type V = ConnectionView;

    closed spec fn view(&self) -> ConnectionView {
        ConnectionView {
            phase: self.phase,
            request: self.request@.map_values(|l: String| l@),
            status: self.status,
            file_name: self.file_name@,
            delay_secs: self.delay_secs,
            slept: self.slept,
        }
    }
}

/// Whether a connection in `phase` can take `e`: each phase takes the
/// answers to the action that led to it.
pub open spec fn expects(phase: Phase, e: EventView) -> bool {
    match phase {
        Phase::ReadingRequest => e is Line || e is EndOfInput || e is ReadFailed,
        Phase::Sleeping => e is Woke,
        Phase::LoadingBody => e is BodyLoaded || e is FileMissing,
        Phase::WritingResponse => e is Written || e is WriteFailed,
        Phase::Closed => false,
    }
}

/// The first line of a request, if it has one.
pub open spec fn first_line(request: Seq<Seq<char>>) -> Option<Seq<char>> {
    if request.len() > 0 {
        Some(request[0])
    } else {
        None
    }
}

/// The step taken once the request head has been read: classify its first
/// line, then sleep if the route asks for it, else load the body.
pub open spec fn after_request(table: RouteTableView, c: ConnectionView) -> (ConnectionView, ActionView) {
    let a = answer_for(table, first_line(c.request));
    let c2 = ConnectionView {
        status: a.status,
        file_name: a.file_name,
        delay_secs: a.delay_secs,
        slept: false,
        ..c
    };
    if a.delay_secs > 0 {
        (ConnectionView { phase: Phase::Sleeping, ..c2 }, ActionView::Sleep(a.delay_secs))
    } else {
        (ConnectionView { phase: Phase::LoadingBody, ..c2 }, ActionView::LoadFile(a.file_name))
    }
}

/// The transition of a connection on an event that it expects.
pub open spec fn next(table: RouteTableView, c: ConnectionView, e: EventView) -> (ConnectionView, ActionView) {
    let closed = ConnectionView { phase: Phase::Closed, ..c };
    match e {
        EventView::Line(l) => if l.len() > 0 {
            (ConnectionView { request: c.request.push(l), ..c }, ActionView::ReadLine)
        } else {
            after_request(table, c)
        },
        EventView::EndOfInput => after_request(table, c),
        EventView::ReadFailed => (closed, ActionView::Close(Outcome::ReadError)),
        EventView::Woke => (
            ConnectionView { phase: Phase::LoadingBody, slept: true, ..c },
            ActionView::LoadFile(c.file_name),
        ),
        EventView::BodyLoaded(body) => (
            ConnectionView { phase: Phase::WritingResponse, ..c },
            ActionView::Write(response_bytes(c.status, body)),
        ),
        EventView::FileMissing => (closed, ActionView::Close(Outcome::FileNotFound)),
        EventView::Written => (closed, ActionView::Close(Outcome::Served)),
        EventView::WriteFailed => (closed, ActionView::Close(Outcome::WriteError)),
    }
}

/// A connection that is loading or writing its body has waited out the delay
/// of its route.
pub open spec fn delay_respected(c: ConnectionView) -> bool {
    (c.phase == Phase::LoadingBody || c.phase == Phase::WritingResponse) ==> (c.delay_secs == 0
        || c.slept)
}

impl Connection {
    /// A freshly accepted connection, about to read its request.
    pub fn new() -> (r: Connection)
        ensures
            r@.phase == Phase::ReadingRequest,
            r@.request == Seq::<Seq<char>>::empty(),
            delay_respected(r@),
            forall|table: RouteTableView| answers_own_request(table, r@),
    {
        let r = Connection {
            phase: Phase::ReadingRequest,
            request: Vec::new(),
            status: Status::NotFound,
            file_name: String::new(),
            delay_secs: 0,
            slept: false,
        };
        assert(r@.request =~= Seq::<Seq<char>>::empty());
        r
    }

    /// Where the connection stands.
    pub fn phase(&self) -> (r: Phase)
        ensures
            r == self@.phase,
    {
        self.phase
    }

    /// Whether the connection can take `event` now.
    pub fn expects(&self, event: &Event) -> (r: bool)
        ensures
            r == expects(self@.phase, event@),
    {
        match self.phase {
            Phase::ReadingRequest => match event {
                Event::Line(_) | Event::EndOfInput | Event::ReadFailed => true,
                _ => false,
            },
            Phase::Sleeping => match event {
                Event::Woke => true,
                _ => false,
            },
            Phase::LoadingBody => match event {
                Event::BodyLoaded(_) | Event::FileMissing => true,
                _ => false,
            },
            Phase::WritingResponse => match event {
                Event::Written | Event::WriteFailed => true,
                _ => false,
            },
            Phase::Closed => false,
        }
    }

    fn finish_request(&mut self, table: &RouteTable) -> (r: Action)
        ensures
            (final(self)@, r@) == after_request(table@, old(self)@),
    {
        let mut status = Status::NotFound;
        let mut file_name = table.not_found_file.clone();
        let mut delay_secs: u64 = 0;
        if self.request.len() > 0 {
            match table.classify(&self.request[0]) {
                Some(i) => {
                    proof {
                        lemma_first_match_from_bounds(table@.routes, self@.request[0], 0);
                    }
                    status = table.routes[i].status;
                    file_name = table.routes[i].file_name.clone();
                    delay_secs = table.routes[i].delay_secs;
                },
                None => {},
            }
        }
        self.status = status;
        self.file_name = file_name.clone();
        self.delay_secs = delay_secs;
        self.slept = false;
        if delay_secs > 0 {
            self.phase = Phase::Sleeping;
            Action::Sleep(delay_secs)
        } else {
            self.phase = Phase::LoadingBody;
            Action::LoadFile(file_name)
        }
    }

    /// Takes `event`, the answer to the last action, and returns the next action.
    pub fn step(&mut self, table: &RouteTable, event: Event) -> (r: Action)
        requires
            expects(old(self)@.phase, event@),
        ensures
            (final(self)@, r@) == next(table@, old(self)@, event@),
    {
        match event {
            Event::Line(line) => {
                if !line.as_str().is_empty() {
                    self.request.push(line);
                    assert(self@.request =~= old(self)@.request.push(event@->Line_0));
                    Action::ReadLine
                } else {
                    self.finish_request(table)
                }
            },
            Event::EndOfInput => self.finish_request(table),
            Event::ReadFailed => {
                self.phase = Phase::Closed;
                Action::Close(Outcome::ReadError)
            },
            Event::Woke => {
                self.phase = Phase::LoadingBody;
                self.slept = true;
                Action::LoadFile(self.file_name.clone())
            },
            Event::BodyLoaded(body) => {
                self.phase = Phase::WritingResponse;
                Action::Write(format_response(self.status, body.as_slice()))
            },
            Event::FileMissing => {
                self.phase = Phase::Closed;
                Action::Close(Outcome::FileNotFound)
            },
            Event::Written => {
                self.phase = Phase::Closed;
                Action::Close(Outcome::Served)
            },
            Event::WriteFailed => {
                self.phase = Phase::Closed;
                Action::Close(Outcome::WriteError)
            },
        }
    }
}

proof fn lemma_decimal_bytes(n: nat)
    ensures
        decimal_bytes(n).len() > 0,
        all_digits(decimal_bytes(n)),
        decimal_value(decimal_bytes(n)) == n,
    decreases n,
{
    if n >= 10 {
        lemma_decimal_bytes(n / 10);
        let d = decimal_bytes(n);
        let last = (48 + n % 10) as u8;
        assert(d == decimal_bytes(n / 10).push(last));
        assert(d.drop_last() =~= decimal_bytes(n / 10));
        assert(d.last() == last);
        assert(n == (n / 10) * 10 + n % 10);
        assert(decimal_value(d) == decimal_value(d.drop_last()) * 10 + (d.last() - 48) as nat);
        assert forall|i: int| 0 <= i < d.len() implies 48 <= #[trigger] d[i] <= 57 by {
            if i < d.len() - 1 {
                assert(d[i] == decimal_bytes(n / 10)[i]);
            }
        }
    } else {
        let d = decimal_bytes(n);
        assert(d.drop_last() =~= Seq::<u8>::empty());
        assert(d.last() == (48 + n) as u8);
        assert(decimal_value(d) == decimal_value(d.drop_last()) * 10 + (d.last() - 48) as nat);
    }
}

/// Every response is its status line, then a `Content-Length` header whose
/// value, written in decimal digits, is the length of the body in bytes, then
/// a blank line and the body itself.
pub proof fn content_length_is_body_length(status: Status, body: Seq<u8>)
    ensures
        exists|digits: Seq<u8>|
            {
                &&& response_bytes(status, body) == status_text(status).spec_bytes()
                    + length_header_text().spec_bytes() + digits + head_end_text().spec_bytes()
                    + body
                &&& digits.len() > 0
                &&& all_digits(digits)
                &&& decimal_value(digits) == body.len()
            },
{
    lemma_decimal_bytes(body.len());
    let digits = decimal_bytes(body.len());
    assert(response_bytes(status, body) == status_text(status).spec_bytes()
        + length_header_text().spec_bytes() + digits + head_end_text().spec_bytes() + body);
}

/// With the standard table, the two known request lines are answered with
/// their own entry (`200 OK` and `index.html`, the second after the sleep
/// delay), and every other request line is answered with `404 NOT FOUND` and
/// `404.html`, without delay.
pub proof fn standard_routes_answer(line: Seq<char>)
    ensures
        line == "GET / HTTP/1.1"@ ==> answer_for(standard_table(), Some(line))
            == standard_table().routes[0],
        line == "GET /sleep HTTP/1.1"@ ==> answer_for(standard_table(), Some(line))
            == standard_table().routes[1],
        standard_table().routes[0].status == Status::Success,
        standard_table().routes[1].status == Status::Success,
        standard_table().routes[1].delay_secs == SLEEP_DELAY_SECS,
        line != "GET / HTTP/1.1"@ && line != "GET /sleep HTTP/1.1"@ ==> answer_for(
            standard_table(),
            Some(line),
        ) == not_found_answer(standard_table()),
        (answer_for(standard_table(), Some(line)).status == Status::Success) <==> (line
            == "GET / HTTP/1.1"@ || line == "GET /sleep HTTP/1.1"@),
        answer_for(standard_table(), None) == not_found_answer(standard_table()),
{
    reveal_strlit("GET / HTTP/1.1");
    reveal_strlit("GET /sleep HTTP/1.1");
    let t = standard_table();
    assert("GET / HTTP/1.1"@.len() != "GET /sleep HTTP/1.1"@.len());
    assert(first_match_from(t.routes, line, 2) is None);
    assert(first_match_from(t.routes, line, 1) == if t.routes[1].pattern == line {
        Some(1int)
    } else {
        None
    });
    assert(first_match_from(t.routes, line, 0) == if t.routes[0].pattern == line {
        Some(0int)
    } else {
        first_match_from(t.routes, line, 1)
    });
}

/// A connection never writes a response before the delay of its route has
/// elapsed: a connection whose route carries a delay asks to sleep for exactly
/// that long, and it asks to load and to write the body only once it has been
/// woken. Each step keeps this so, from a freshly accepted connection on.
pub proof fn delay_precedes_response(table: RouteTableView, c: ConnectionView, e: EventView)
    requires
        delay_respected(c),
        expects(c.phase, e),
    ensures
        delay_respected(next(table, c, e).0),
        next(table, c, e).1 is Write ==> next(table, c, e).0.delay_secs == 0 || next(
            table,
            c,
            e,
        ).0.slept,
        next(table, c, e).1 is LoadFile ==> next(table, c, e).0.delay_secs == 0 || next(
            table,
            c,
            e,
        ).0.slept,
        next(table, c, e).1 matches ActionView::Sleep(d) ==> d == next(table, c, e).0.delay_secs
            && d > 0 && next(table, c, e).0.phase == Phase::Sleeping,
        next(table, c, e).0.slept ==> c.slept || e is Woke,
{
}

/// A connection past its request holds the answer that the table gives to
/// the first line of its own request.
pub open spec fn answers_own_request(table: RouteTableView, c: ConnectionView) -> bool {
    c.phase != Phase::ReadingRequest && c.phase != Phase::Closed ==> {
        let a = answer_for(table, first_line(c.request));
        &&& c.status == a.status
        &&& c.file_name == a.file_name
        &&& c.delay_secs == a.delay_secs
    }
}

/// Each connection is answered from its own request alone: the file it asks
/// to load and the status line it writes are those that the table gives to
/// the first line of that connection's request, whatever other connections
/// do. Each step keeps this so, from a freshly accepted connection on.
pub proof fn responses_follow_own_request(table: RouteTableView, c: ConnectionView, e: EventView)
    requires
        answers_own_request(table, c),
        expects(c.phase, e),
    ensures
        answers_own_request(table, next(table, c, e).0),
        next(table, c, e).1 matches ActionView::LoadFile(f) ==> f == answer_for(
            table,
            first_line(c.request),
        ).file_name,
        next(table, c, e).1 matches ActionView::Sleep(d) ==> d == answer_for(
            table,
            first_line(c.request),
        ).delay_secs,
        e matches EventView::BodyLoaded(body) ==> next(table, c, e).1 == ActionView::Write(
            response_bytes(answer_for(table, first_line(c.request)).status, body),
        ),
{
}

} // verus!

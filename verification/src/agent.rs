//! The Spark agent that runs inside a job's driver container: the report it
//! sends back when `spark-submit` ends, and the HTTP request that carries it.
use vstd::prelude::*;
use crate::text::{chars_of, owned, concat2, push_char, push_decimal, push_signed_decimal, decimal, signed_decimal,
    splitn, splitn_char, starts_with, string_of_range, parse_unsigned, parse_unsigned_exec};

verus! {

/// The JSON string escape of one character of the logs.
pub open spec fn escape_char(c: char) -> Seq<char> {
    if c == '\\' {
        seq!['\\', '\\']
    } else if c == '"' {
        seq!['\\', '"']
    } else if c == '\n' {
        seq!['\\', 'n']
    } else if c == '\r' {
        seq!['\\', 'r']
    } else if c == '\t' {
        seq!['\\', 't']
    } else {
        seq![c]
    }
}

/// `s` with backslashes, quotes, newlines, carriage returns and tabs escaped.
pub open spec fn escape(s: Seq<char>) -> Seq<char>
    decreases s.len(),
{
    if s.len() == 0 { Seq::<char>::empty() } else { escape(s.drop_last()) + escape_char(s.last()) }
}

/// Escapes the logs for the JSON body of the report.
pub fn escape_logs(logs: &str) -> (r: String)
    ensures r@ == escape(logs@),
{
    let cs = chars_of(logs);
    let mut r = String::new();
    let mut i: usize = 0;
    while i < cs.len()
        invariant
            cs@ == logs@,
            0 <= i <= cs.len(),
            r@ == escape(cs@.take(i as int)),
        decreases cs.len() - i,
    {
        let c = cs[i];
        assert(cs@.take(i + 1).drop_last() =~= cs@.take(i as int));
        let ghost before = r@;
        if c == '\\' {
            push_char(&mut r, '\\');
            push_char(&mut r, '\\');
        } else if c == '"' {
            push_char(&mut r, '\\');
            push_char(&mut r, '"');
        } else if c == '\n' {
            push_char(&mut r, '\\');
            push_char(&mut r, 'n');
        } else if c == '\r' {
            push_char(&mut r, '\\');
            push_char(&mut r, 'r');
        } else if c == '\t' {
            push_char(&mut r, '\\');
            push_char(&mut r, 't');
        } else {
            push_char(&mut r, c);
        }
        assert(r@ =~= before + escape_char(c));
        i += 1;
    }
    assert(cs@.take(cs@.len() as int) =~= cs@);
    r
}

/// The path the report goes to: `/admin/api/emr/jobs/{id}/complete` for exit
/// code 0, `/admin/api/emr/jobs/{id}/fail` otherwise.
pub open spec fn report_path(job_run_id: Seq<char>, exit_code: i32) -> Seq<char> {
    if exit_code == 0 {
        "/admin/api/emr/jobs/"@ + job_run_id + "/complete"@
    } else {
        "/admin/api/emr/jobs/"@ + job_run_id + "/fail"@
    }
}

/// The body of the report: `{"logs":"<escaped logs>","exit_code":<code>}`.
pub open spec fn report_body(logs: Seq<char>, exit_code: i32) -> Seq<char> {
    "{\"logs\":\""@ + escape(logs) + "\",\"exit_code\":"@ + signed_decimal(exit_code as int) + "}"@
}

/// The path and body of the report the agent sends when `spark-submit` ends;
/// none where the endpoint or the job run is unknown.
pub fn report_request(endpoint: &str, job_run_id: &str, logs: &str, exit_code: i32) -> (r: Option<(String, String)>)
    ensures
        match r {
            Some(req) => endpoint@.len() > 0 && job_run_id@.len() > 0
                && req.0@ == report_path(job_run_id@, exit_code) && req.1@ == report_body(logs@, exit_code),
            None => endpoint@.len() == 0 || job_run_id@.len() == 0,
        },
{
    if endpoint.is_empty() || job_run_id.is_empty() {
        return None;
    }
    let mut path = concat2("/admin/api/emr/jobs/", job_run_id);
    if exit_code == 0 {
        path.append("/complete");
    } else {
        path.append("/fail");
    }
    let mut body = owned("{\"logs\":\"");
    let esc = escape_logs(logs);
    body.append(esc.as_str());
    body.append("\",\"exit_code\":");
    push_signed_decimal(&mut body, exit_code as i64);
    body.append("}");
    Some((path, body))
}

/// The number `s` spells as a `u16` (`str::parse::<u16>`).
pub open spec fn parse_u16(s: Seq<char>) -> Option<u16> {
    match parse_unsigned(s, 65535) {
        Some(v) => Some(v as u16),
        None => None,
    }
}

/// Reads a port number as `str::parse::<u16>` does.
pub fn parse_u16_exec(s: &str) -> (r: Option<u16>)
    ensures r == parse_u16(s@),
{
    match parse_unsigned_exec(s, 65535) {
        Some(v) => Some(v as u16),
        None => None,
    }
}

/// Host, port and base path of the emulator's endpoint.
pub struct Endpoint {
    pub host: String,
    pub port: u16,
    pub base_path: String,
}

/// The endpoint an address names: an optional `http://`, then `host[:port]`,
/// then an optional path. The port is 80 where none is given or it is no
/// number; the base path keeps its leading `/`.
pub open spec fn endpoint_of(base_url: Seq<char>) -> (Seq<char>, u16, Seq<char>) {
    let rest = if "http://"@.is_prefix_of(base_url) { base_url.skip(7) } else { base_url };
    let a = splitn_char(rest, 2, '/');
    let hostport = a[0];
    let base_path = if a.len() == 2 { seq!['/'] + a[1] } else { Seq::<char>::empty() };
    let b = splitn_char(hostport, 2, ':');
    let host = b[0];
    let port = if b.len() == 2 {
        match parse_u16(b[1]) {
            Some(p) => p,
            None => 80u16,
        }
    } else {
        80u16
    };
    (host, port, base_path)
}

/// Reads the emulator's endpoint from its address.
pub fn parse_endpoint(base_url: &str) -> (e: Endpoint)
    ensures endpoint_of(base_url@) == (e.host@, e.port, e.base_path@),
{
    proof {
        reveal_strlit("http://");
        crate::text::lemma_splitn_len(base_url@, 2, '/');
    }
    let cs = chars_of(base_url);
    let rest = if starts_with(base_url, "http://") {
        string_of_range(&cs, 7, cs.len())
    } else {
        owned(base_url)
    };
    assert("http://"@.is_prefix_of(base_url@) ==> rest@ =~= base_url@.skip(7));
    let a = splitn(rest.as_str(), 2, '/');
    proof {
        crate::text::lemma_splitn_len(rest@, 2, '/');
    }
    let base_path = if a.len() == 2 { concat2("/", a[1].as_str()) } else { String::new() };
    proof {
        reveal_strlit("/");
    }
    let b = splitn(a[0].as_str(), 2, ':');
    proof {
        crate::text::lemma_splitn_len(a@[0]@, 2, ':');
    }
    let port = if b.len() == 2 {
        match parse_u16_exec(b[1].as_str()) {
            Some(p) => p,
            None => 80,
        }
    } else {
        80
    };
    Endpoint { host: b[0].clone(), port, base_path }
}

/// The text of the `POST` request that carries a report of `body_len` bytes.
pub open spec fn post_request(host: Seq<char>, full_path: Seq<char>, body: Seq<char>, body_len: nat) -> Seq<char> {
    "POST "@ + full_path + " HTTP/1.1\r\nHost: "@ + host + "\r\nContent-Type: application/json\r\nContent-Length: "@
        + decimal(body_len) + "\r\nConnection: close\r\n\r\n"@ + body
}

/// The path the report is posted to (`{base_path}{path}`) and the text of
/// the request.
pub fn post_request_text(endpoint: &Endpoint, path: &str, body: &str) -> (r: (String, String))
    ensures
        r.0@ == endpoint.base_path@ + path@,
        r.1@ == post_request(endpoint.host@, endpoint.base_path@ + path@, body@, body.len() as nat),
{
    let full_path = concat2(endpoint.base_path.as_str(), path);
    let mut req = concat2("POST ", full_path.as_str());
    req.append(" HTTP/1.1\r\nHost: ");
    req.append(endpoint.host.as_str());
    req.append("\r\nContent-Type: application/json\r\nContent-Length: ");
    push_decimal(&mut req, body.len() as u64);
    req.append("\r\nConnection: close\r\n\r\n");
    req.append(body);
    (full_path, req)
}


/// The logs the agent reports: the output of `spark-submit`, and its error
/// output on a line of its own where there is any.
pub open spec fn agent_logs_spec(stdout: Seq<char>, stderr: Seq<char>) -> Seq<char> {
    if stderr.len() == 0 { stdout } else { stdout + seq!['\n'] + stderr }
}

/// Joins the two outputs of `spark-submit` into the logs the agent reports.
pub fn agent_logs(stdout: &str, stderr: &str) -> (r: String)
    ensures r@ == agent_logs_spec(stdout@, stderr@),
{
    if stderr.is_empty() {
        owned(stdout)
    } else {
        let mut r = owned(stdout);
        push_char(&mut r, '\n');
        r.append(stderr);
        r
    }
}

/// The logs reported where `spark-submit` could not be started.
pub fn spawn_failure_logs(error: &str) -> (r: String)
    ensures r@ == "Failed to execute spark-submit: "@ + error@,
{
    concat2("Failed to execute spark-submit: ", error)
}
/// The escaped logs hold no line break, carriage return or tab, and every
/// quote in them follows a backslash: the report body is one line of JSON.
pub proof fn lemma_escape_is_one_line(s: Seq<char>)
    ensures
        forall|i: int| 0 <= i < escape(s).len() ==>
            #[trigger] escape(s)[i] != '\n' && escape(s)[i] != '\r' && escape(s)[i] != '\t',
        escape(s).len() > 0 ==> escape(s)[0] != '"',
        forall|i: int| 0 < i < escape(s).len() && #[trigger] escape(s)[i] == '"' ==> escape(s)[i - 1] == '\\',
    decreases s.len(),
{
    if s.len() > 0 {
        lemma_escape_is_one_line(s.drop_last());
        let a = escape(s.drop_last());
        let b = escape_char(s.last());
        let e = escape(s);
        assert(e == a + b);
        assert forall|i: int| 0 <= i < e.len() implies #[trigger] e[i] != '\n' && e[i] != '\r' && e[i] != '\t' by {
            if i >= a.len() {
                assert(e[i] == b[i - a.len()]);
            } else {
                assert(e[i] == a[i]);
            }
        }
        if a.len() > 0 {
            assert(e[0] == a[0]);
        } else {
            assert(e[0] == b[0]);
        }
        assert forall|i: int| 0 < i < e.len() && #[trigger] e[i] == '"' implies e[i - 1] == '\\' by {
            if i >= a.len() {
                assert(e[i] == b[i - a.len()]);
                assert(i - a.len() == 1);
                assert(e[i - 1] == b[0]);
            } else {
                assert(e[i] == a[i]);
                assert(e[i - 1] == a[i - 1]);
            }
        }
    }
}

} // verus!

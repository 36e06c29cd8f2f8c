use vstd::prelude::*;
use vstd::string::{StrSliceExecFns, StringExecFns};

use crate::shader::push_char;

verus! {

/// A score as the internet ranking server reports it.
#[derive(Debug, Clone, PartialEq, Eq)]
pub struct ServerScore {
    pub score: i32,
    pub lamp: u8,
    pub timestamp: u64,
    pub crit: i32,
    pub near: i32,
    pub error: i32,
    pub ranking: i32,
    pub gauge_mod: String,
    pub note_mod: String,
    pub username: String,
    pub extra: ServerScoreExtra,
}

/// What the server adds to a score about the player asking.
#[derive(Debug, Clone, Copy, Default, PartialEq, Eq, Structural)]
pub struct ServerScoreExtra {
    pub yours: bool,
    pub just_set: bool,
}

/// The server's answer to a submitted score.
#[derive(Debug, Clone)]
pub struct ScoreSubmitResponse {
    pub score: ServerScore,
    pub server_record: ServerScore,
    pub adjacent_above: Vec<ServerScore>,
    pub adjacent_below: Vec<ServerScore>,
    pub is_pb: bool,
    pub is_server_record: bool,
    pub send_replay: String,
}

/// The body of a server response, by request.
#[derive(Debug)]
pub enum IrResponseBody {
    Heartbeat { server_time: u64, server_name: String, ir_version: String },
    Record { record: ServerScore },
    Leaderboard { scores: Vec<ServerScore> },
    ScoreSubmit(ScoreSubmitResponse),
    Empty {},
}

/// A response of the internet ranking server.
#[derive(Debug)]
pub struct IrServerResponse {
    pub status_code: i32,
    pub description: String,
    pub body: Option<IrResponseBody>,
}

/// The states of a ranking request that skin scripts test a response's status against.
#[derive(Debug, Clone, Copy, PartialEq, Eq, Structural)]
pub enum IrState {
    Unused,
    Pending,
    Success,
    Accepted,
    BadRequest,
    Unauthorized,
    ChartRefused,
    Forbidden,
    NotFound,
    ServerError,
    RequestFailure,
}

pub open spec fn ir_state_code(s: IrState) -> i32 {
    match s {
        IrState::Unused => 0,
        IrState::Pending => 10,
        IrState::Success => 20,
        IrState::Accepted => 22,
        IrState::BadRequest => 40,
        IrState::Unauthorized => 41,
        IrState::ChartRefused => 42,
        IrState::Forbidden => 43,
        IrState::NotFound => 44,
        IrState::ServerError => 50,
        IrState::RequestFailure => 60,
    }
}

impl IrState {
    /// The status code of the state.
    pub fn code(self) -> (c: i32)
        ensures
            c == ir_state_code(self),
    {
        match self {
            IrState::Unused => 0,
            IrState::Pending => 10,
            IrState::Success => 20,
            IrState::Accepted => 22,
            IrState::BadRequest => 40,
            IrState::Unauthorized => 41,
            IrState::ChartRefused => 42,
            IrState::Forbidden => 43,
            IrState::NotFound => 44,
            IrState::ServerError => 50,
            IrState::RequestFailure => 60,
        }
    }
}

/// Distinct states have distinct codes, so a code names its state.
pub proof fn law_state_codes_distinct(a: IrState, b: IrState)
    ensures
        ir_state_code(a) == ir_state_code(b) ==> a == b,
{
}

/// The functions the skin scripts call for the internet ranking.
pub struct InternetRankingLua;

impl InternetRankingLua {
    /// Whether the internet ranking is in use: an endpoint is configured.
    pub fn get_active(ir_endpoint: &str) -> (b: bool)
        ensures
            b == (ir_endpoint@.len() > 0),
    {
        !ir_endpoint.is_empty()
    }
}

/// The text without the slashes at its end.
pub open spec fn trim_end_slashes(s: Seq<char>) -> Seq<char>
    decreases s.len(),
{
    if s.len() > 0 && s.last() == '/' {
        trim_end_slashes(s.drop_last())
    } else {
        s
    }
}

/// The endpoint without the slashes at its end.
fn trimmed_endpoint(endpoint: &str) -> (r: &str)
    ensures
        r@ == trim_end_slashes(endpoint@),
{
    let mut end: usize = endpoint.unicode_len();
    assert(endpoint@.subrange(0, end as int) =~= endpoint@);
    while end > 0 && endpoint.get_char(end - 1) == '/'
        invariant
            end <= endpoint@.len(),
            trim_end_slashes(endpoint@) == trim_end_slashes(endpoint@.subrange(0, end as int)),
        decreases end,
    {
        assert(endpoint@.subrange(0, end as int).drop_last() =~= endpoint@.subrange(
            0,
            end - 1,
        ));
        end = end - 1;
    }
    let r = endpoint.substring_char(0, end);
    assert(r@ == trim_end_slashes(r@));
    r
}

/// The address of a ranking request: the endpoint without its trailing slashes, a slash,
/// and the request's path.
pub open spec fn request_url_spec(endpoint: Seq<char>, path: Seq<char>) -> Seq<char> {
    trim_end_slashes(endpoint) + "/"@ + path
}

/// The path of a chart's requests: `charts/`, the chart's hash, a slash and the request.
pub open spec fn chart_path_spec(hash: Seq<char>, request: Seq<char>) -> Seq<char> {
    "charts/"@ + hash + "/"@ + request
}

/// The requests of the internet ranking, as paths below the endpoint.
pub struct InternetRanking;

impl InternetRanking {
    /// Whether the internet ranking is in use: an endpoint is configured.
    pub fn enabled(ir_endpoint: &str) -> (b: bool)
        ensures
            b == (ir_endpoint@.len() > 0),
    {
        !ir_endpoint.is_empty()
    }

    /// The address of the request at `path` below the endpoint.
    pub fn request_url(ir_endpoint: &str, path: &str) -> (url: String)
        ensures
            url@ == request_url_spec(ir_endpoint@, path@),
    {
        let mut url = String::from_str(trimmed_endpoint(ir_endpoint));
        proof {
            reveal_strlit("/");
        }
        url.append("/");
        url.append(path);
        url
    }

    /// The path of the server's heartbeat.
    pub fn heartbeat_path() -> (p: String)
        ensures
            p@ == "heartbeat"@,
    {
        String::from_str("heartbeat")
    }

    /// The path where scores are submitted.
    pub fn submit_path() -> (p: String)
        ensures
            p@ == "scores"@,
    {
        String::from_str("scores")
    }

    fn chart_path(hash: &str, request: &str) -> (p: String)
        ensures
            p@ == chart_path_spec(hash@, request@),
    {
        let mut p = String::from_str("charts/");
        p.append(hash);
        p.append("/");
        p.append(request);
        p
    }

    /// The path that tells whether the server tracks a chart.
    pub fn chart_tracked_path(hash: &str) -> (p: String)
        ensures
            p@ == chart_path_spec(hash@, ""@),
    {
        Self::chart_path(hash, "")
    }

    /// The path of a chart's server record.
    pub fn record_path(hash: &str) -> (p: String)
        ensures
            p@ == chart_path_spec(hash@, "record"@),
    {
        Self::chart_path(hash, "record")
    }

    /// The path of a chart's leaderboard.
    pub fn leaderboard_path(hash: &str) -> (p: String)
        ensures
            p@ == chart_path_spec(hash@, "leaderboard"@),
    {
        Self::chart_path(hash, "leaderboard")
    }
}

/// Slashes at the end of the endpoint make no difference to a request's address.
pub proof fn law_trailing_slashes_ignored(endpoint: Seq<char>, path: Seq<char>)
    ensures
        request_url_spec(endpoint + "/"@, path) == request_url_spec(endpoint, path),
{
    reveal_strlit("/");
    let e = endpoint + "/"@;
    assert(e.drop_last() =~= endpoint);
}

/// The character of the decimal digit `d`.
pub open spec fn digit_char(d: int) -> char {
    (48 + d) as char
}

/// `n` written in decimal, without leading zeros.
pub open spec fn decimal_digits(n: nat) -> Seq<char>
    decreases n,
{
    if n < 10 {
        seq![digit_char(n as int)]
    } else {
        decimal_digits(n / 10).push(digit_char((n % 10) as int))
    }
}

/// Appends `n` written in decimal.
fn push_decimal(s: &mut String, n: u32)
    ensures
        final(s)@ == old(s)@ + decimal_digits(n as nat),
    decreases n,
{
    if n >= 10 {
        push_decimal(s, n / 10);
    }
    let d: u8 = (n % 10) as u8;
    let c = (48 + d) as char;
    push_char(s, c);
}

impl InternetRanking {
    /// The query a leaderboard request carries: the play mode and how many scores to
    /// fetch, as `(name, value)` pairs in that order.
    pub fn leaderboard_query(mode: String, n: u32) -> (q: Vec<(String, String)>)
        ensures
            q@.len() == 2,
            q@[0].0@ == "mode"@,
            q@[0].1@ == mode@,
            q@[1].0@ == "n"@,
            q@[1].1@ == decimal_digits(n as nat),
    {
        let mut count = String::new();
        push_decimal(&mut count, n);
        proof {
            assert(Seq::<char>::empty() + decimal_digits(n as nat) =~= decimal_digits(n as nat));
        }
        let mut q: Vec<(String, String)> = Vec::new();
        q.push((String::from_str("mode"), mode));
        q.push((String::from_str("n"), count));
        q
    }
}

} // verus!

//! The explorer facade: the public surface of the harness.
//!
//! A launch produces three values: the [`Explorer`] itself (the resolved
//! endpoint plus the verbose-logging flag), the [`LaunchPlan`] telling the
//! unverified shell exactly how to spawn the service binary and how long to
//! probe it, and the [`crate::supervisor::HandleGroup`] that counts the
//! clones sharing the spawned process. Each query method builds the exact
//! request for its kind; [`Explorer::run`] frames the one HTTP call to make,
//! and [`Explorer::settle`] turns the call's outcome into the typed result
//! the caller sees.

use vstd::prelude::*;
use vstd::string::*;
use crate::bootstrap::ProbeSchedule;
use crate::hex::hex_of;
use crate::request::{
    QueryKind, QueryRequest, VarValue, is_int_var, is_str_var, op_name_of, query_body_json,
    render_query_body, operation_name,
};
use crate::supervisor::HandleGroup;
use crate::text::{dec_of, u64_dec};

verus! {

/// What a query can fail with: a transport/connection failure, a response
/// body that is not the expected JSON envelope, or an error reported by the
/// HTTP layer itself.
#[derive(Debug, Clone, PartialEq, Eq)]
pub enum ExplorerError {
    ClientError(String),
    SerializationError(String),
    ReqwestError(String),
}

/// The resolved network address of the running service, with the flag that
/// controls verbose request/response logging.
#[derive(Debug, Clone)]
pub struct ClientEndpoint {
    /// `host:port` the service listens on; immutable after launch.
    pub address: String,
    /// Whether the transport layer echoes requests and responses.
    pub print: bool,
}

/// The public surface of the harness: one launched explorer service.
#[derive(Clone)]
pub struct Explorer {
    pub client: ClientEndpoint,
    pub print_log: bool,
}

/// Everything the unverified shell needs to start and probe the service.
pub struct LaunchPlan {
    /// Command-line arguments for the service binary, in order.
    pub args: Vec<String>,
    /// The `host:port` the service is told to bind.
    pub listen_address: String,
    /// The root URL probed for reachability.
    pub probe_url: String,
    /// The bounded bootstrap retry budget.
    pub bootstrap: ProbeSchedule,
}

/// One HTTP call the shell must perform: where, what, and the optional
/// request log line.
pub struct HttpCall {
    pub url: String,
    pub body: String,
    pub log: Option<String>,
}

/// What came back from performing an [`HttpCall`].
#[derive(Debug, Clone, PartialEq, Eq)]
pub enum QueryOutcome {
    /// The service answered with this body.
    Response(String),
    /// The connection itself failed.
    ConnectionFailed(String),
    /// The HTTP layer reported an error.
    HttpFailed(String),
    /// The answer was not the expected JSON envelope.
    InvalidBody(String),
}

/// A block's position in ledger time: epoch and slot.
#[derive(Debug, Clone, Copy, PartialEq, Eq, Structural)]
pub struct BlockDate {
    pub epoch: u32,
    pub slot: u32,
}

/// The decoded answer of the last-block query, as far as the harness reads
/// it: the date of the tip block.
#[derive(Debug, Clone, Copy, PartialEq, Eq, Structural)]
pub struct LastBlockResponse {
    pub date: BlockDate,
}

impl LastBlockResponse {
    pub fn new(date: BlockDate) -> (r: LastBlockResponse)
        ensures
            r.date == date,
    {
        LastBlockResponse { date }
    }

    pub fn block_date(&self) -> (r: BlockDate)
        ensures
            r == self.date,
    {
        self.date
    }
}

/// A transaction identifier, modelled as its raw bytes; it is sent to the
/// service as lowercase hexadecimal text.
#[derive(Debug, Clone, PartialEq, Eq)]
pub struct Hash {
    pub bytes: Vec<u8>,
}

/// The local address the service is told to bind, given the chosen port.
pub open spec fn spec_listen_address(port: u16) -> Seq<char> {
    "127.0.0.1:"@ + dec_of(port as nat)
}

/// The base URL of a service listening on `address`.
pub open spec fn spec_uri(address: Seq<char>) -> Seq<char> {
    "http://"@ + address + "/"@
}

fn uri_of(address: &str) -> (r: String)
    ensures
        r@ == spec_uri(address@),
{
    let mut s: String = "http://".to_owned();
    s.append(address);
    s.append("/");
    proof {
        assert(s@ =~= spec_uri(address@));
    }
    s
}

impl Explorer {
    /// Prepares one launch: the explorer facade over `127.0.0.1:<port>`, the
    /// plan that spawns the service binary watching `node_address` (probing
    /// its root URL once a second, ten times at most), and the handle group
    /// that will tear the process down exactly once. Verbose logging starts
    /// enabled.
    pub fn new(node_address: String, logs_dir: Option<String>, port: u16) -> (r: (
        Explorer,
        LaunchPlan,
        HandleGroup,
    ))
        ensures
            r.0.client.address@ == spec_listen_address(port),
            r.0.client.print,
            r.0.print_log,
            r.1.listen_address@ == spec_listen_address(port),
            r.1.probe_url@ == spec_uri(spec_listen_address(port)),
            r.1.args@.len() == 6,
            r.1.args@[0]@ == "--node"@,
            r.1.args@[1]@ == node_address@,
            r.1.args@[2]@ == "--binding-address"@,
            r.1.args@[3]@ == spec_listen_address(port),
            r.1.args@[4]@ == "--log-output"@,
            r.1.args@[5]@ == "stdout"@,
            r.1.bootstrap.interval_ms == 1000,
            r.1.bootstrap.max_attempts == 10,
            r.1.bootstrap.attempts == 0,
            r.2.handles == 1,
            !r.2.torn_down,
            r.2.logs_dir == logs_dir,
            r.2.wf(),
    {
        let mut listen: String = "127.0.0.1:".to_owned();
        let rendered_port = u64_dec(port as u64);
        listen.append(rendered_port.as_str());
        proof {
            assert(listen@ =~= spec_listen_address(port));
        }

        let mut args: Vec<String> = Vec::new();
        args.push("--node".to_owned());
        args.push(node_address);
        args.push("--binding-address".to_owned());
        args.push(listen.clone());
        args.push("--log-output".to_owned());
        args.push("stdout".to_owned());

        let probe_url = uri_of(listen.as_str());
        let bootstrap = ProbeSchedule::new(1000, 10);
        let group = HandleGroup::launch(logs_dir);

        let explorer = Explorer {
            client: ClientEndpoint { address: listen.clone(), print: true },
            print_log: true,
        };
        let plan = LaunchPlan { args, listen_address: listen, probe_url, bootstrap };
        (explorer, plan, group)
    }

    /// The base URL queries are sent to.
    pub fn uri(&self) -> (r: String)
        ensures
            r@ == spec_uri(self.client.address@),
    {
        uri_of(self.client.address.as_str())
    }

    /// Turns verbose request/response logging off. Only observability
    /// changes: no query result depends on this flag.
    pub fn disable_logs(&mut self)
        ensures
            final(self).client.address == old(self).client.address,
            !final(self).print_log,
            !final(self).client.print,
    {
        self.print_log = false;
        self.client.print = false;
    }

    /// Turns verbose request/response logging on.
    pub fn enable_logs(&mut self)
        ensures
            final(self).client.address == old(self).client.address,
            final(self).print_log,
            final(self).client.print,
    {
        self.print_log = true;
        self.client.print = true;
    }

    /// The request log line, produced exactly when verbose logging is on.
    pub fn print_request(&self, query: &QueryRequest) -> (r: Option<String>)
        ensures
            r is Some <==> self.print_log,
            r matches Some(line) ==> line@ == "running query: "@ + op_name_of(query.kind)
                + ", against: "@ + spec_uri(self.client.address@),
    {
        if !self.print_log {
            return None;
        }
        let mut line: String = "running query: ".to_owned();
        line.append(operation_name(query.kind));
        line.append(", against: ");
        let uri = self.uri();
        line.append(uri.as_str());
        proof {
            assert(line@ =~= "running query: "@ + op_name_of(query.kind) + ", against: "@
                + spec_uri(self.client.address@));
        }
        Some(line)
    }

    /// The response log line, produced exactly when verbose logging is on.
    pub fn response_log(&self, response: &str) -> (r: Option<String>)
        ensures
            r is Some <==> self.print_log,
            r matches Some(line) ==> line@ == "Response: "@ + response@,
    {
        if !self.print_log {
            return None;
        }
        let mut line: String = "Response: ".to_owned();
        line.append(response);
        Some(line)
    }

    /// The address-lookup query for one bech32 address.
    pub fn address(&self, bech32_address: String) -> (r: QueryRequest)
        ensures
            r.kind == QueryKind::Address,
            r.variables@.len() == 1,
            is_str_var(r.variables@[0], "bech32"@, bech32_address@),
    {
        let mut variables: Vec<(String, VarValue)> = Vec::new();
        variables.push(("bech32".to_owned(), VarValue::Str(bech32_address)));
        QueryRequest { kind: QueryKind::Address, variables }
    }

    /// The paginated stake-pool listing, `limit` entries at most.
    pub fn stake_pools(&self, limit: i64) -> (r: QueryRequest)
        ensures
            r.kind == QueryKind::AllStakePools,
            r.variables@.len() == 1,
            is_int_var(r.variables@[0], "first"@, limit as int),
    {
        let mut variables: Vec<(String, VarValue)> = Vec::new();
        variables.push(("first".to_owned(), VarValue::Int(limit)));
        QueryRequest { kind: QueryKind::AllStakePools, variables }
    }

    /// The paginated block listing, the last `limit` blocks.
    pub fn blocks(&self, limit: i64) -> (r: QueryRequest)
        ensures
            r.kind == QueryKind::AllBlocks,
            r.variables@.len() == 1,
            is_int_var(r.variables@[0], "last"@, limit as int),
    {
        let mut variables: Vec<(String, VarValue)> = Vec::new();
        variables.push(("last".to_owned(), VarValue::Int(limit)));
        QueryRequest { kind: QueryKind::AllBlocks, variables }
    }

    /// The last-block query; it takes no variables.
    pub fn last_block(&self) -> (r: QueryRequest)
        ensures
            r.kind == QueryKind::LastBlock,
            r.variables@.len() == 0,
    {
        QueryRequest { kind: QueryKind::LastBlock, variables: Vec::new() }
    }

    /// The block-at-height lookup; the service takes the height as text.
    pub fn blocks_at_chain_length(&self, length: u32) -> (r: QueryRequest)
        ensures
            r.kind == QueryKind::BlocksByChainLength,
            r.variables@.len() == 1,
            is_str_var(r.variables@[0], "length"@, dec_of(length as nat)),
    {
        let mut variables: Vec<(String, VarValue)> = Vec::new();
        variables.push(("length".to_owned(), VarValue::Str(u64_dec(length as u64))));
        QueryRequest { kind: QueryKind::BlocksByChainLength, variables }
    }

    /// The epoch summary with paginated blocks; the epoch number goes over
    /// the wire as text, the page size as an integer.
    pub fn epoch(&self, epoch_number: u32, limit: i64) -> (r: QueryRequest)
        ensures
            r.kind == QueryKind::Epoch,
            r.variables@.len() == 2,
            is_str_var(r.variables@[0], "id"@, dec_of(epoch_number as nat)),
            is_int_var(r.variables@[1], "blocks_limit"@, limit as int),
    {
        let mut variables: Vec<(String, VarValue)> = Vec::new();
        variables.push(("id".to_owned(), VarValue::Str(u64_dec(epoch_number as u64))));
        variables.push(("blocks_limit".to_owned(), VarValue::Int(limit)));
        QueryRequest { kind: QueryKind::Epoch, variables }
    }

    /// The single stake-pool detail, with paginated delegators.
    pub fn stake_pool(&self, id: String, limit: i64) -> (r: QueryRequest)
        ensures
            r.kind == QueryKind::StakePool,
            r.variables@.len() == 2,
            is_str_var(r.variables@[0], "id"@, id@),
            is_int_var(r.variables@[1], "first"@, limit as int),
    {
        let mut variables: Vec<(String, VarValue)> = Vec::new();
        variables.push(("id".to_owned(), VarValue::Str(id)));
        variables.push(("first".to_owned(), VarValue::Int(limit)));
        QueryRequest { kind: QueryKind::StakePool, variables }
    }

    /// The network settings query; it takes no variables.
    pub fn settings(&self) -> (r: QueryRequest)
        ensures
            r.kind == QueryKind::Settings,
            r.variables@.len() == 0,
    {
        QueryRequest { kind: QueryKind::Settings, variables: Vec::new() }
    }

    /// The paginated vote-plan listing, `limit` entries at most.
    pub fn vote_plans(&self, limit: i64) -> (r: QueryRequest)
        ensures
            r.kind == QueryKind::AllVotePlans,
            r.variables@.len() == 1,
            is_int_var(r.variables@[0], "first"@, limit as int),
    {
        let mut variables: Vec<(String, VarValue)> = Vec::new();
        variables.push(("first".to_owned(), VarValue::Int(limit)));
        QueryRequest { kind: QueryKind::AllVotePlans, variables }
    }

    /// The transaction-by-id lookup; the identifier goes over the wire as
    /// lowercase hexadecimal text.
    pub fn transaction(&self, hash: Hash) -> (r: QueryRequest)
        ensures
            r.kind == QueryKind::TransactionById,
            r.variables@.len() == 1,
            is_str_var(r.variables@[0], "id"@, hex_of(hash.bytes@)),
    {
        let rendered = crate::hex::hex_encode(&hash.bytes);
        let mut variables: Vec<(String, VarValue)> = Vec::new();
        variables.push(("id".to_owned(), VarValue::Str(rendered)));
        QueryRequest { kind: QueryKind::TransactionById, variables }
    }

    /// Frames the one HTTP call for `query`, with `document` as the query
    /// document its kind stands for: the exact URL, the exact body, and the
    /// request log line when verbose logging is on. Neither URL nor body
    /// depends on the logging flags.
    pub fn run(&self, document: &str, query: &QueryRequest) -> (c: HttpCall)
        ensures
            c.url@ == spec_uri(self.client.address@),
            c.body@ == query_body_json(document@, op_name_of(query.kind), query.variables@),
            c.log is Some <==> self.print_log,
    {
        let log = self.print_request(query);
        let url = self.uri();
        let body = render_query_body(document, query);
        HttpCall { url, body, log }
    }

    /// Turns the outcome of an [`HttpCall`] into what the caller sees: an
    /// answered call returns its body unchanged, and each failure maps to
    /// its own error kind — connection failures to `ClientError`, HTTP-layer
    /// errors to `ReqwestError`, and a malformed envelope to
    /// `SerializationError`.
    pub fn settle(&self, outcome: QueryOutcome) -> (r: Result<String, ExplorerError>)
        ensures
            outcome matches QueryOutcome::Response(body) ==> r == Result::<
                String,
                ExplorerError,
            >::Ok(body),
            outcome matches QueryOutcome::ConnectionFailed(m) ==> r == Result::<
                String,
                ExplorerError,
            >::Err(ExplorerError::ClientError(m)),
            outcome matches QueryOutcome::HttpFailed(m) ==> r == Result::<
                String,
                ExplorerError,
            >::Err(ExplorerError::ReqwestError(m)),
            outcome matches QueryOutcome::InvalidBody(m) ==> r == Result::<
                String,
                ExplorerError,
            >::Err(ExplorerError::SerializationError(m)),
    {
        match outcome {
            QueryOutcome::Response(body) => Ok(body),
            QueryOutcome::ConnectionFailed(m) => Err(ExplorerError::ClientError(m)),
            QueryOutcome::HttpFailed(m) => Err(ExplorerError::ReqwestError(m)),
            QueryOutcome::InvalidBody(m) => Err(ExplorerError::SerializationError(m)),
        }
    }

    /// Reads the current ledger time off a decoded last-block answer. The
    /// caller is expected to have a running service: it obtains `last` by
    /// issuing [`Explorer::last_block`] and aborting on failure.
    pub fn current_time(&self, last: &LastBlockResponse) -> (r: BlockDate)
        ensures
            r == last.date,
    {
        last.block_date()
    }
}

/// Toggling verbose logging does not alter the returned query result: two
/// explorers at the same endpoint, whatever their logging flags, frame the
/// same URL and the same body for the same request, and the settled result
/// is a function of the call's outcome alone.
pub proof fn lemma_logging_neutral(
    e1: Explorer,
    e2: Explorer,
    c1: HttpCall,
    c2: HttpCall,
    doc: Seq<char>,
    kind: QueryKind,
    vs: Seq<(String, VarValue)>,
)
    requires
        e1.client.address@ == e2.client.address@,
        c1.url@ == spec_uri(e1.client.address@),
        c1.body@ == query_body_json(doc, op_name_of(kind), vs),
        c2.url@ == spec_uri(e2.client.address@),
        c2.body@ == query_body_json(doc, op_name_of(kind), vs),
    ensures
        c1.url@ == c2.url@,
        c1.body@ == c2.body@,
{
}

} // verus!

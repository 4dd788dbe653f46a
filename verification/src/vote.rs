//! The vote subcommands that read the node's REST interface.
//!
//! Each command resolves to one GET request against the node: the path
//! segments under the REST root, the endpoint to ask, and the format the
//! answer is to be printed in. Performing the request and printing the
//! formatted answer is the shell's part.

use vstd::prelude::*;
use vstd::string::*;

verus! {

/// How a command's answer is printed.
#[derive(Debug, Clone, Copy, PartialEq, Eq, Structural)]
pub enum OutputFormat {
    Json,
    Yaml,
}

/// The node REST endpoint a command was pointed at.
#[derive(Debug, Clone)]
pub struct RestArgs {
    /// The endpoint's base address.
    pub host: String,
}

/// One resolved REST request: ask `host` for the resource under `segments`
/// and print the answer as `output_format` says.
#[derive(Debug, Clone)]
pub struct RestRequest {
    pub host: String,
    pub segments: Vec<String>,
    pub output_format: OutputFormat,
}

/// The committee-members subcommand.
#[derive(Debug, Clone)]
pub enum Committees {
    /// Get committee members list
    Get { args: RestArgs, output_format: OutputFormat },
}

/// The active-vote-plans subcommand.
#[derive(Debug, Clone)]
pub enum Plans {
    /// Get active vote plans list
    Get { args: RestArgs, output_format: OutputFormat },
}

/// The active-votes subcommands.
#[derive(Debug, Clone)]
pub enum Active {
    /// Committee members
    Committees(Committees),
    /// Active vote plans
    Plans(Plans),
}

pub open spec fn committees_args(c: Committees) -> RestArgs {
    match c {
        Committees::Get { args, .. } => args,
    }
}

pub open spec fn committees_format(c: Committees) -> OutputFormat {
    match c {
        Committees::Get { output_format, .. } => output_format,
    }
}

pub open spec fn plans_args(p: Plans) -> RestArgs {
    match p {
        Plans::Get { args, .. } => args,
    }
}

pub open spec fn plans_format(p: Plans) -> OutputFormat {
    match p {
        Plans::Get { output_format, .. } => output_format,
    }
}

/// The path segments after the first, each preceded by a separator.
pub open spec fn path_tail(segments: Seq<String>) -> Seq<char>
    decreases segments.len(),
{
    if segments.len() == 0 {
        Seq::empty()
    } else {
        seq!['/'] + segments[0]@ + path_tail(segments.drop_first())
    }
}

/// The resource path a request's segments name, separated by `/`.
pub open spec fn rest_path_of(segments: Seq<String>) -> Seq<char> {
    if segments.len() == 0 {
        Seq::empty()
    } else {
        segments[0]@ + path_tail(segments.drop_first())
    }
}

fn append_path_tail(out: &mut String, segments: &Vec<String>, i: usize)
    requires
        1 <= i <= segments.len(),
    ensures
        final(out)@ == old(out)@ + path_tail(segments@.skip(i as int)),
    decreases segments.len() - i,
{
    if i < segments.len() {
        proof {
            reveal_strlit("/");
            assert("/"@ =~= seq!['/']);
        }
        out.append("/");
        let segment: &String = &segments[i];
        out.append(segment.as_str());
        append_path_tail(out, segments, i + 1);
        proof {
            assert(segments@.skip(i as int).drop_first() =~= segments@.skip(i as int + 1));
            assert(segments@.skip(i as int)[0] == segments@[i as int]);
            assert(out@ =~= old(out)@ + path_tail(segments@.skip(i as int)));
        }
    } else {
        proof {
            assert(segments@.skip(i as int).len() == 0);
        }
    }
}

impl RestRequest {
    /// The resource path under the endpoint's root, segments joined by `/`.
    pub fn path(&self) -> (r: String)
        ensures
            r@ == rest_path_of(self.segments@),
    {
        let mut out = String::new();
        if self.segments.len() > 0 {
            let first: &String = &self.segments[0];
            out.append(first.as_str());
            append_path_tail(&mut out, &self.segments, 1);
            proof {
                assert(self.segments@.skip(1) =~= self.segments@.drop_first());
                assert(out@ =~= rest_path_of(self.segments@));
            }
        }
        out
    }
}

/// The segments name the resource `v0/vote/active/<last>`.
pub open spec fn is_active_vote_path(segments: Seq<String>, last: Seq<char>) -> bool {
    segments.len() == 4 && segments[0]@ == "v0"@ && segments[1]@ == "vote"@ && segments[2]@
        == "active"@ && segments[3]@ == last
}

fn active_vote_path(last_segment: &str) -> (r: Vec<String>)
    ensures
        is_active_vote_path(r@, last_segment@),
{
    let mut segments: Vec<String> = Vec::new();
    segments.push("v0".to_owned());
    segments.push("vote".to_owned());
    segments.push("active".to_owned());
    segments.push(last_segment.to_owned());
    segments
}

impl Committees {
    /// Resolves to the GET of `v0/vote/active/committees` against the
    /// command's endpoint, printed in the command's format.
    pub fn exec(self) -> (r: RestRequest)
        ensures
            r.host == committees_args(self).host,
            r.output_format == committees_format(self),
            is_active_vote_path(r.segments@, "committees"@),
    {
        match self {
            Committees::Get { args, output_format } => RestRequest {
                host: args.host,
                segments: active_vote_path("committees"),
                output_format,
            },
        }
    }
}

impl Plans {
    /// Resolves to the GET of `v0/vote/active/plans` against the command's
    /// endpoint, printed in the command's format.
    pub fn exec(self) -> (r: RestRequest)
        ensures
            r.host == plans_args(self).host,
            r.output_format == plans_format(self),
            is_active_vote_path(r.segments@, "plans"@),
    {
        match self {
            Plans::Get { args, output_format } => RestRequest {
                host: args.host,
                segments: active_vote_path("plans"),
                output_format,
            },
        }
    }
}

impl Active {
    /// Resolves whichever subcommand was chosen to its REST request.
    pub fn exec(self) -> (r: RestRequest)
        ensures
            self matches Active::Committees(c) ==> r.host == committees_args(c).host
                && r.output_format == committees_format(c) && is_active_vote_path(
                r.segments@,
                "committees"@,
            ),
            self matches Active::Plans(p) ==> r.host == plans_args(p).host && r.output_format
                == plans_format(p) && is_active_vote_path(r.segments@, "plans"@),
    {
        match self {
            Active::Committees(committees) => committees.exec(),
            Active::Plans(plans) => plans.exec(),
        }
    }
}

} // verus!

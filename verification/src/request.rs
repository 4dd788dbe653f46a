//! Typed query requests and their wire framing.
//!
//! A request is a query kind plus its named variables. The catalog of query
//! documents is an injected table: the caller supplies the document text for
//! a kind, and the framing below renders the exact JSON body that goes over
//! the wire — variables first, then the document, then the operation name.

use vstd::prelude::*;
use vstd::string::*;
use crate::text::{int_dec_of, quoted, append_quoted};

verus! {

/// The value of one query variable.
#[derive(Debug, Clone, PartialEq, Eq)]
pub enum VarValue {
    Str(String),
    Int(i64),
}

/// The supported query kinds, one per facade method.
#[derive(Debug, Clone, Copy, PartialEq, Eq, Structural)]
pub enum QueryKind {
    Address,
    AllStakePools,
    AllBlocks,
    LastBlock,
    BlocksByChainLength,
    Epoch,
    StakePool,
    Settings,
    AllVotePlans,
    TransactionById,
}

/// One query document to send: its kind and its variables, in order.
#[derive(Debug, Clone)]
pub struct QueryRequest {
    pub kind: QueryKind,
    pub variables: Vec<(String, VarValue)>,
}

/// The variable named `name` holds the text `s`.
pub open spec fn is_str_var(v: (String, VarValue), name: Seq<char>, s: Seq<char>) -> bool {
    v.0@ == name && match v.1 {
        VarValue::Str(x) => x@ == s,
        VarValue::Int(_) => false,
    }
}

/// The variable named `name` holds the integer `n`.
pub open spec fn is_int_var(v: (String, VarValue), name: Seq<char>, n: int) -> bool {
    v.0@ == name && match v.1 {
        VarValue::Str(_) => false,
        VarValue::Int(x) => x as int == n,
    }
}

/// The operation name of each query kind.
pub open spec fn op_name_of(kind: QueryKind) -> Seq<char> {
    match kind {
        QueryKind::Address => "Address"@,
        QueryKind::AllStakePools => "AllStakePools"@,
        QueryKind::AllBlocks => "AllBlocks"@,
        QueryKind::LastBlock => "LastBlock"@,
        QueryKind::BlocksByChainLength => "BlocksByChainLength"@,
        QueryKind::Epoch => "Epoch"@,
        QueryKind::StakePool => "StakePool"@,
        QueryKind::Settings => "Settings"@,
        QueryKind::AllVotePlans => "AllVotePlans"@,
        QueryKind::TransactionById => "TransactionById"@,
    }
}

/// The operation name a request is sent under.
pub fn operation_name(kind: QueryKind) -> (r: &'static str)
    ensures
        r@ == op_name_of(kind),
{
    match kind {
        QueryKind::Address => "Address",
        QueryKind::AllStakePools => "AllStakePools",
        QueryKind::AllBlocks => "AllBlocks",
        QueryKind::LastBlock => "LastBlock",
        QueryKind::BlocksByChainLength => "BlocksByChainLength",
        QueryKind::Epoch => "Epoch",
        QueryKind::StakePool => "StakePool",
        QueryKind::Settings => "Settings",
        QueryKind::AllVotePlans => "AllVotePlans",
        QueryKind::TransactionById => "TransactionById",
    }
}

/// The JSON for one variable's value.
pub open spec fn value_json(v: VarValue) -> Seq<char> {
    match v {
        VarValue::Str(s) => quoted(s@),
        VarValue::Int(i) => int_dec_of(i as int),
    }
}

/// The JSON for one `name: value` member.
pub open spec fn var_json(v: (String, VarValue)) -> Seq<char> {
    quoted(v.0@) + seq![':'] + value_json(v.1)
}

/// The JSON members after the first, each preceded by a comma.
pub open spec fn vars_tail_json(vs: Seq<(String, VarValue)>) -> Seq<char>
    decreases vs.len(),
{
    if vs.len() == 0 {
        Seq::empty()
    } else {
        seq![','] + var_json(vs[0]) + vars_tail_json(vs.drop_first())
    }
}

/// The members of the `variables` object, comma separated.
pub open spec fn vars_json(vs: Seq<(String, VarValue)>) -> Seq<char> {
    if vs.len() == 0 {
        Seq::empty()
    } else {
        var_json(vs[0]) + vars_tail_json(vs.drop_first())
    }
}

/// The whole body sent over the wire for one request: its variables, the
/// supplied query document, and the operation name.
pub open spec fn query_body_json(doc: Seq<char>, op: Seq<char>, vs: Seq<(String, VarValue)>) -> Seq<
    char,
> {
    "{\"variables\":{"@ + vars_json(vs) + "},\"query\":"@ + quoted(doc) + ",\"operationName\":"@
        + quoted(op) + "}"@
}

fn append_var(out: &mut String, name: &String, v: &VarValue)
    ensures
        final(out)@ == old(out)@ + var_json((*name, *v)),
{
    append_quoted(out, name.as_str());
    proof {
        reveal_strlit(":");
        assert(":"@ =~= seq![':']);
    }
    out.append(":");
    match v {
        VarValue::Str(s) => {
            append_quoted(out, s.as_str());
        },
        VarValue::Int(i) => {
            let rendered = crate::text::i64_dec(*i);
            out.append(rendered.as_str());
        },
    }
    proof {
        assert(out@ =~= old(out)@ + var_json((*name, *v)));
    }
}

fn append_vars_tail(out: &mut String, vars: &Vec<(String, VarValue)>, i: usize)
    requires
        1 <= i <= vars.len(),
    ensures
        final(out)@ == old(out)@ + vars_tail_json(vars@.skip(i as int)),
    decreases vars.len() - i,
{
    if i < vars.len() {
        proof {
            reveal_strlit(",");
            assert(","@ =~= seq![',']);
        }
        out.append(",");
        let pair: &(String, VarValue) = &vars[i];
        append_var(out, &pair.0, &pair.1);
        append_vars_tail(out, vars, i + 1);
        proof {
            assert(vars@.skip(i as int).drop_first() =~= vars@.skip(i as int + 1));
            assert(vars@.skip(i as int)[0] == vars@[i as int]);
            assert(out@ =~= old(out)@ + vars_tail_json(vars@.skip(i as int)));
        }
    } else {
        proof {
            assert(vars@.skip(i as int).len() == 0);
        }
    }
}

fn append_vars(out: &mut String, vars: &Vec<(String, VarValue)>)
    ensures
        final(out)@ == old(out)@ + vars_json(vars@),
{
    if vars.len() == 0 {
    } else {
        let pair: &(String, VarValue) = &vars[0];
        append_var(out, &pair.0, &pair.1);
        append_vars_tail(out, vars, 1);
        proof {
            assert(vars@.skip(1) =~= vars@.drop_first());
            assert(out@ =~= old(out)@ + vars_json(vars@));
        }
    }
}

/// Renders the exact wire body for `request`, with `document` as the query
/// document text its kind stands for in the injected catalog.
pub fn render_query_body(document: &str, request: &QueryRequest) -> (r: String)
    ensures
        r@ == query_body_json(document@, op_name_of(request.kind), request.variables@),
{
    let mut out = String::new();
    out.append("{\"variables\":{");
    append_vars(&mut out, &request.variables);
    out.append("},\"query\":");
    append_quoted(&mut out, document);
    out.append(",\"operationName\":");
    append_quoted(&mut out, operation_name(request.kind));
    out.append("}");
    proof {
        assert(out@ =~= query_body_json(document@, op_name_of(request.kind), request.variables@));
    }
    out
}

} // verus!

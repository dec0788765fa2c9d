//! The tools: their parameters, the argv each hands to the CLI, and the reply each
//! makes of the CLI's result.
use vstd::prelude::*;

use crate::config::{opt_view, Profile};
use crate::error::{payload_for, payload_kind, ErrorPayload, FluteError};
use crate::runner::CliOutput;
use crate::text::{decimal, decimal_string, join, join_with, views};

verus! {

/// Parameters of a tool that takes none.
#[derive(Debug, Clone)]
pub struct Empty {}

/// Parameters naming one webhook endpoint.
#[derive(Debug, Clone)]
pub struct EndpointId {
    /// The webhook endpoint id (from `endpoints_list`).
    pub id: String,
}

/// Parameters of `endpoints_create`.
#[derive(Debug, Clone)]
pub struct EndpointCreate {
    /// Destination URL for the webhook.
    pub url: String,
    /// Event-type wire strings to subscribe to.
    pub events: Vec<String>,
    /// Human-readable name.
    pub name: Option<String>,
}

/// Parameters of `endpoints_update`; every field left out stays unchanged.
#[derive(Debug, Clone)]
pub struct EndpointUpdate {
    pub id: String,
    pub url: Option<String>,
    pub events: Option<Vec<String>>,
    pub name: Option<String>,
    /// One of `active` or `inactive`.
    pub status: Option<String>,
}

/// Parameters of `deliveries_list`.
#[derive(Debug, Clone)]
pub struct DeliveriesList {
    pub endpoint_id: Option<String>,
    /// `success` or `failed`.
    pub status: Option<String>,
    /// Page size; the CLI sends 50 when this is left out.
    pub limit: Option<u32>,
}

/// Parameters naming one delivery log entry.
#[derive(Debug, Clone)]
pub struct DeliveryId {
    pub id: String,
}

/// One call of one of the server's tools, with its parameters.
#[derive(Debug, Clone)]
pub enum ToolRequest {
    EndpointsList(Empty),
    EndpointsGet(EndpointId),
    EndpointsCreate(EndpointCreate),
    EndpointsUpdate(EndpointUpdate),
    EndpointsDelete(EndpointId),
    EndpointsPing(EndpointId),
    EventTypesList(Empty),
    DeliveriesList(DeliveriesList),
    DeliveriesGet(DeliveryId),
    DeliveriesRetry(DeliveryId),
    AuthStatus(Empty),
}

/// The global flags every call starts with: the pinned profile and JSON output.
pub open spec fn base_args_spec(profile: Profile) -> Seq<Seq<char>> {
    seq!["--profile"@, profile.spec_cli_str(), "--output"@, "json"@]
}

/// `flag value` when the value is given, nothing otherwise.
pub open spec fn opt_flag(flag: Seq<char>, value: Option<Seq<char>>) -> Seq<Seq<char>> {
    match value {
        Some(v) => seq![flag, v],
        None => Seq::empty(),
    }
}

/// A list of events as the CLI takes it: comma-separated.
pub open spec fn events_arg(events: Seq<String>) -> Seq<char> {
    join(views(events), ","@)
}

/// The subcommand and its arguments for each tool.
pub open spec fn command_spec(req: ToolRequest) -> Seq<Seq<char>> {
    match req {
        ToolRequest::EndpointsList(_) => seq!["webhooks"@, "endpoints"@, "list"@],
        ToolRequest::EndpointsGet(p) => seq!["webhooks"@, "endpoints"@, "get"@, p.id@],
        ToolRequest::EndpointsCreate(p) => seq![
            "webhooks"@,
            "endpoints"@,
            "create"@,
            "--url"@,
            p.url@,
            "--events"@,
            events_arg(p.events@),
        ] + opt_flag("--name"@, opt_view(p.name)),
        ToolRequest::EndpointsUpdate(p) => seq!["webhooks"@, "endpoints"@, "update"@, p.id@]
            + opt_flag("--url"@, opt_view(p.url)) + opt_flag(
            "--events"@,
            match p.events {
                Some(e) => Some(events_arg(e@)),
                None => None,
            },
        ) + opt_flag("--name"@, opt_view(p.name)) + opt_flag("--status"@, opt_view(p.status)),
        ToolRequest::EndpointsDelete(p) => seq![
            "webhooks"@,
            "endpoints"@,
            "delete"@,
            p.id@,
            "--yes"@,
        ],
        ToolRequest::EndpointsPing(p) => seq!["webhooks"@, "endpoints"@, "ping"@, p.id@],
        ToolRequest::EventTypesList(_) => seq!["webhooks"@, "event-types"@, "list"@],
        ToolRequest::DeliveriesList(p) => seq!["webhooks"@, "deliveries"@, "list"@] + opt_flag(
            "--endpoint-id"@,
            opt_view(p.endpoint_id),
        ) + opt_flag("--status"@, opt_view(p.status)) + opt_flag(
            "--limit"@,
            match p.limit {
                Some(n) => Some(decimal(n as nat)),
                None => None,
            },
        ),
        ToolRequest::DeliveriesGet(p) => seq!["webhooks"@, "deliveries"@, "get"@, p.id@],
        ToolRequest::DeliveriesRetry(p) => seq!["webhooks"@, "deliveries"@, "retry"@, p.id@],
        ToolRequest::AuthStatus(_) => seq!["auth"@, "keys"@],
    }
}

/// The full argv of a tool call under `profile`.
pub open spec fn argv_spec(req: ToolRequest, profile: Profile) -> Seq<Seq<char>> {
    base_args_spec(profile) + command_spec(req)
}

fn push_word(args: &mut Vec<String>, word: &str)
    ensures
        views(final(args)@) == views(old(args)@).push(word@),
{
    args.push(String::from_str(word));
    assert(views(args@) =~= views(old(args)@).push(word@));
}

fn push_string(args: &mut Vec<String>, word: String)
    ensures
        views(final(args)@) == views(old(args)@).push(word@),
{
    args.push(word);
    assert(views(args@) =~= views(old(args)@).push(word@));
}

fn push_flag(args: &mut Vec<String>, flag: &str, value: &Option<String>)
    ensures
        views(final(args)@) == views(old(args)@) + opt_flag(flag@, opt_view(*value)),
{
    match value {
        Some(v) => {
            push_word(args, flag);
            push_string(args, v.clone());
            assert(views(args@) =~= views(old(args)@) + opt_flag(flag@, opt_view(*value)));
        },
        None => {
            assert(views(args@) =~= views(old(args)@) + opt_flag(flag@, opt_view(*value)));
        },
    }
}

/// `--profile <profile> --output json`.
pub fn base_args(profile: Profile) -> (args: Vec<String>)
    ensures
        views(args@) == base_args_spec(profile),
{
    let mut args: Vec<String> = Vec::new();
    push_word(&mut args, "--profile");
    push_word(&mut args, profile.as_cli_str());
    push_word(&mut args, "--output");
    push_word(&mut args, "json");
    assert(views(args@) =~= base_args_spec(profile));
    args
}

impl ToolRequest {
    /// The argv this call hands to the CLI: the global flags, the subcommand, then
    /// only the optional flags whose values were given, in a fixed order.
    pub fn argv(&self, profile: Profile) -> (args: Vec<String>)
        ensures
            views(args@) == argv_spec(*self, profile),
    {
        let mut args = base_args(profile);
        let ghost base = views(args@);
        match self {
            ToolRequest::EndpointsList(_) => {
                push_word(&mut args, "webhooks");
                push_word(&mut args, "endpoints");
                push_word(&mut args, "list");
            },
            ToolRequest::EndpointsGet(p) => {
                push_word(&mut args, "webhooks");
                push_word(&mut args, "endpoints");
                push_word(&mut args, "get");
                push_string(&mut args, p.id.clone());
            },
            ToolRequest::EndpointsCreate(p) => {
                push_word(&mut args, "webhooks");
                push_word(&mut args, "endpoints");
                push_word(&mut args, "create");
                push_word(&mut args, "--url");
                push_string(&mut args, p.url.clone());
                push_word(&mut args, "--events");
                push_string(&mut args, join_with(&p.events, ","));
                let ghost mid = views(args@);
                push_flag(&mut args, "--name", &p.name);
                assert(mid =~= base + seq![
                    "webhooks"@,
                    "endpoints"@,
                    "create"@,
                    "--url"@,
                    p.url@,
                    "--events"@,
                    events_arg(p.events@),
                ]);
            },
            ToolRequest::EndpointsUpdate(p) => {
                push_word(&mut args, "webhooks");
                push_word(&mut args, "endpoints");
                push_word(&mut args, "update");
                push_string(&mut args, p.id.clone());
                let ghost a0 = views(args@);
                push_flag(&mut args, "--url", &p.url);
                let events = match &p.events {
                    Some(e) => Some(join_with(e, ",")),
                    None => None,
                };
                assert(opt_view(events) == match p.events {
                    Some(e) => Some(events_arg(e@)),
                    None => None,
                });
                push_flag(&mut args, "--events", &events);
                push_flag(&mut args, "--name", &p.name);
                push_flag(&mut args, "--status", &p.status);
                assert(a0 =~= base + seq!["webhooks"@, "endpoints"@, "update"@, p.id@]);
            },
            ToolRequest::EndpointsDelete(p) => {
                push_word(&mut args, "webhooks");
                push_word(&mut args, "endpoints");
                push_word(&mut args, "delete");
                push_string(&mut args, p.id.clone());
                push_word(&mut args, "--yes");
            },
            ToolRequest::EndpointsPing(p) => {
                push_word(&mut args, "webhooks");
                push_word(&mut args, "endpoints");
                push_word(&mut args, "ping");
                push_string(&mut args, p.id.clone());
            },
            ToolRequest::EventTypesList(_) => {
                push_word(&mut args, "webhooks");
                push_word(&mut args, "event-types");
                push_word(&mut args, "list");
            },
            ToolRequest::DeliveriesList(p) => {
                push_word(&mut args, "webhooks");
                push_word(&mut args, "deliveries");
                push_word(&mut args, "list");
                let ghost a0 = views(args@);
                push_flag(&mut args, "--endpoint-id", &p.endpoint_id);
                push_flag(&mut args, "--status", &p.status);
                let limit = match p.limit {
                    Some(n) => Some(decimal_string(n as u64)),
                    None => None,
                };
                push_flag(&mut args, "--limit", &limit);
                assert(a0 =~= base + seq!["webhooks"@, "deliveries"@, "list"@]);
            },
            ToolRequest::DeliveriesGet(p) => {
                push_word(&mut args, "webhooks");
                push_word(&mut args, "deliveries");
                push_word(&mut args, "get");
                push_string(&mut args, p.id.clone());
            },
            ToolRequest::DeliveriesRetry(p) => {
                push_word(&mut args, "webhooks");
                push_word(&mut args, "deliveries");
                push_word(&mut args, "retry");
                push_string(&mut args, p.id.clone());
            },
            ToolRequest::AuthStatus(_) => {
                push_word(&mut args, "auth");
                push_word(&mut args, "keys");
            },
        }
        assert(views(args@) =~= argv_spec(*self, profile));
        args
    }
}


/// Why `auth_status` found the profile not authenticated.
#[derive(Debug, Clone, Copy, PartialEq, Eq, Structural)]
pub enum AuthFailure {
    /// The CLI answered `kind:"client"`: no stored credentials, or the OAuth
    /// exchange failed.
    Client,
    /// The CLI answered `kind:"auth"`.
    Auth,
}

impl AuthFailure {
    pub open spec fn spec_reason(self) -> Seq<char> {
        match self {
            AuthFailure::Client => "client"@,
            AuthFailure::Auth => "auth"@,
        }
    }

    pub open spec fn spec_hint(self) -> Seq<char> {
        match self {
            AuthFailure::Client => "If this says no credentials, run `flute-webhooks auth login` (optionally with --profile). Otherwise the credentials exist but the OAuth exchange did not succeed."@,
            AuthFailure::Auth => "Run `flute-webhooks auth login` (optionally with --profile)"@,
        }
    }

    /// The `reason` word of the payload.
    pub fn reason(self) -> (s: &'static str)
        ensures
            s@ == self.spec_reason(),
    {
        match self {
            AuthFailure::Client => "client",
            AuthFailure::Auth => "auth",
        }
    }

    /// What the operator is told to do.
    pub fn hint(self) -> (s: &'static str)
        ensures
            s@ == self.spec_hint(),
    {
        match self {
            AuthFailure::Client => "If this says no credentials, run `flute-webhooks auth login` (optionally with --profile). Otherwise the credentials exist but the OAuth exchange did not succeed.",
            AuthFailure::Auth => "Run `flute-webhooks auth login` (optionally with --profile)",
        }
    }
}

/// What a tool answers.
#[derive(Debug)]
pub enum ToolReply {
    /// Success: the CLI's stdout, passed on unchanged.
    Output(CliOutput),
    /// `endpoints_delete` succeeded: `{"deleted": true, "id": id}`.
    Deleted { id: String },
    /// `auth_status`: the CLI could mint a token for the profile.
    Authenticated { profile: Profile },
    /// `auth_status`: the CLI could not mint a token; `message` is the CLI's own.
    NotAuthenticated { profile: Profile, reason: AuthFailure, message: String },
    /// A tool error carrying the structured payload.
    Failed(ErrorPayload),
}

impl ToolRequest {
    /// The reply to this call, given what the CLI call came to.
    ///
    /// Every tool passes a result through and turns an error into its payload,
    /// except two. `endpoints_delete` answers success with the id it deleted.
    /// `auth_status` reads a token (any success, or stdout that is not JSON, which
    /// a bare token is) as authenticated, a `client` or `auth` error as not
    /// authenticated, keeping the CLI's message, and any other error as a tool
    /// error rather than a verdict.
    pub fn reply(&self, profile: Profile, outcome: Result<CliOutput, FluteError>) -> (r: ToolReply)
        ensures
            match *self {
                ToolRequest::AuthStatus(_) => match outcome {
                    Ok(_) => r == ToolReply::Authenticated { profile },
                    Err(FluteError::Decode { .. }) => r == ToolReply::Authenticated { profile },
                    Err(FluteError::Client { message }) => r == ToolReply::NotAuthenticated {
                        profile,
                        reason: AuthFailure::Client,
                        message,
                    },
                    Err(FluteError::Auth { message }) => r == ToolReply::NotAuthenticated {
                        profile,
                        reason: AuthFailure::Auth,
                        message,
                    },
                    Err(e) => r matches ToolReply::Failed(p) && payload_for(p, e),
                },
                ToolRequest::EndpointsDelete(q) => match outcome {
                    Ok(_) => r matches ToolReply::Deleted { id } && id@ == q.id@,
                    Err(e) => r matches ToolReply::Failed(p) && payload_for(p, e),
                },
                _ => match outcome {
                    Ok(v) => r == ToolReply::Output(v),
                    Err(e) => r matches ToolReply::Failed(p) && payload_for(p, e),
                },
            },
    {
        match self {
            ToolRequest::AuthStatus(_) => match outcome {
                Ok(_) => ToolReply::Authenticated { profile },
                Err(FluteError::Decode { .. }) => ToolReply::Authenticated { profile },
                Err(FluteError::Client { message }) => ToolReply::NotAuthenticated {
                    profile,
                    reason: AuthFailure::Client,
                    message,
                },
                Err(FluteError::Auth { message }) => ToolReply::NotAuthenticated {
                    profile,
                    reason: AuthFailure::Auth,
                    message,
                },
                Err(e) => ToolReply::Failed(ErrorPayload::from_error(e)),
            },
            ToolRequest::EndpointsDelete(q) => match outcome {
                Ok(_) => ToolReply::Deleted { id: q.id.clone() },
                Err(e) => ToolReply::Failed(ErrorPayload::from_error(e)),
            },
            _ => match outcome {
                Ok(v) => ToolReply::Output(v),
                Err(e) => ToolReply::Failed(ErrorPayload::from_error(e)),
            },
        }
    }
}

/// Every call the server makes starts with `--profile <pinned profile> --output json`.
pub proof fn argv_starts_with_global_flags(req: ToolRequest, profile: Profile)
    ensures
        argv_spec(req, profile).len() >= 4,
        argv_spec(req, profile).take(4) == seq!["--profile"@, profile.spec_cli_str(), "--output"@, "json"@],
{
    assert(argv_spec(req, profile).take(4) =~= seq!["--profile"@, profile.spec_cli_str(), "--output"@, "json"@]);
}

/// Every tool error names its kind with one of the eight documented words, and it
/// is the kind of the error it reports.
pub proof fn tool_error_kinds(p: ErrorPayload, e: FluteError)
    requires
        payload_for(p, e),
    ensures
        payload_kind(p) == crate::error::error_kind(e),
        payload_kind(p) == "api"@ || payload_kind(p) == "transport"@ || payload_kind(p) == "auth"@
            || payload_kind(p) == "decode"@ || payload_kind(p) == "client"@ || payload_kind(p)
            == "spawn"@ || payload_kind(p) == "timeout"@ || payload_kind(p) == "bad_output"@,
{
}


/// `flag` stands at some position at or after `start`, with `value` right after it.
pub open spec fn flag_after(a: Seq<Seq<char>>, start: int, flag: Seq<char>, value: Seq<char>) -> bool {
    exists|i: int| start <= i && i + 1 < a.len() && #[trigger] a[i] == flag && a[i + 1] == value
}

/// The argv of `deliveries_list`: the global flags and `webhooks deliveries list`,
/// then one `flag value` pair for each filter that is given, and nothing else.
/// Each filter's pair is there whenever its own value is given, whatever the
/// other filters are.
pub proof fn deliveries_list_flags(p: DeliveriesList, profile: Profile)
    ensures
        ({
            let a = argv_spec(ToolRequest::DeliveriesList(p), profile);
            &&& a.len() == 7 + (if p.endpoint_id is Some { 2int } else { 0 }) + (if p.status is Some {
                2int
            } else {
                0
            }) + (if p.limit is Some { 2int } else { 0 })
            &&& a.take(7) == seq!["--profile"@, profile.spec_cli_str(), "--output"@, "json"@] + seq!["webhooks"@, "deliveries"@, "list"@]
            &&& (p.endpoint_id matches Some(e) ==> flag_after(a, 7, "--endpoint-id"@, e@))
            &&& (p.status matches Some(st) ==> flag_after(a, 7, "--status"@, st@))
            &&& (p.limit matches Some(n) ==> flag_after(a, 7, "--limit"@, decimal(n as nat)))
        }),
{
    let a = argv_spec(ToolRequest::DeliveriesList(p), profile);
    let e_len: int = if p.endpoint_id is Some { 2 } else { 0 };
    let s_len: int = if p.status is Some { 2 } else { 0 };
    assert(a.take(7) =~= seq!["--profile"@, profile.spec_cli_str(), "--output"@, "json"@] + seq!["webhooks"@, "deliveries"@, "list"@]);
    if let Some(e) = p.endpoint_id {
        assert(a[7] == "--endpoint-id"@ && a[8] == e@);
        assert(flag_after(a, 7, "--endpoint-id"@, e@));
    }
    if let Some(st) = p.status {
        let i = 7 + e_len;
        assert(a[i] == "--status"@ && a[i + 1] == st@);
        assert(flag_after(a, 7, "--status"@, st@));
    }
    if let Some(n) = p.limit {
        let i = 7 + e_len + s_len;
        assert(a[i] == "--limit"@ && a[i + 1] == decimal(n as nat));
        assert(flag_after(a, 7, "--limit"@, decimal(n as nat)));
    }
}

/// The argv of `endpoints_update`: the global flags, `webhooks endpoints update`
/// and the id, then one `flag value` pair for each field that is given, and
/// nothing else; a field that is left out sends nothing, so the server leaves it
/// unchanged.
pub proof fn endpoints_update_flags(p: EndpointUpdate, profile: Profile)
    ensures
        ({
            let a = argv_spec(ToolRequest::EndpointsUpdate(p), profile);
            &&& a.len() == 8 + (if p.url is Some { 2int } else { 0 }) + (if p.events is Some {
                2int
            } else {
                0
            }) + (if p.name is Some { 2int } else { 0 }) + (if p.status is Some { 2int } else { 0 })
            &&& a.take(8) == seq!["--profile"@, profile.spec_cli_str(), "--output"@, "json"@] + seq![
                "webhooks"@,
                "endpoints"@,
                "update"@,
                p.id@,
            ]
            &&& (p.url matches Some(u) ==> flag_after(a, 8, "--url"@, u@))
            &&& (p.events matches Some(ev) ==> flag_after(a, 8, "--events"@, events_arg(ev@)))
            &&& (p.name matches Some(n) ==> flag_after(a, 8, "--name"@, n@))
            &&& (p.status matches Some(st) ==> flag_after(a, 8, "--status"@, st@))
        }),
{
    let a = argv_spec(ToolRequest::EndpointsUpdate(p), profile);
    let u_len: int = if p.url is Some { 2 } else { 0 };
    let e_len: int = if p.events is Some { 2 } else { 0 };
    let n_len: int = if p.name is Some { 2 } else { 0 };
    assert(a.take(8) =~= seq!["--profile"@, profile.spec_cli_str(), "--output"@, "json"@] + seq![
        "webhooks"@,
        "endpoints"@,
        "update"@,
        p.id@,
    ]);
    if let Some(u) = p.url {
        assert(a[8] == "--url"@ && a[9] == u@);
        assert(flag_after(a, 8, "--url"@, u@));
    }
    if let Some(ev) = p.events {
        let i = 8 + u_len;
        assert(a[i] == "--events"@ && a[i + 1] == events_arg(ev@));
        assert(flag_after(a, 8, "--events"@, events_arg(ev@)));
    }
    if let Some(n) = p.name {
        let i = 8 + u_len + e_len;
        assert(a[i] == "--name"@ && a[i + 1] == n@);
        assert(flag_after(a, 8, "--name"@, n@));
    }
    if let Some(st) = p.status {
        let i = 8 + u_len + e_len + n_len;
        assert(a[i] == "--status"@ && a[i + 1] == st@);
        assert(flag_after(a, 8, "--status"@, st@));
    }
}

/// The argv of `endpoints_create` carries the URL after `--url`, the events
/// comma-joined after `--events`, and `--name` with the name exactly when one is
/// given.
pub proof fn endpoints_create_flags(p: EndpointCreate, profile: Profile)
    ensures
        ({
            let a = argv_spec(ToolRequest::EndpointsCreate(p), profile);
            &&& a.len() == 11 + (if p.name is Some { 2int } else { 0 })
            &&& a.take(7) == seq!["--profile"@, profile.spec_cli_str(), "--output"@, "json"@] + seq![
                "webhooks"@,
                "endpoints"@,
                "create"@,
            ]
            &&& a[7] == "--url"@ && a[8] == p.url@
            &&& a[9] == "--events"@ && a[10] == events_arg(p.events@)
            &&& (p.name matches Some(n) ==> a[11] == "--name"@ && a[12] == n@)
        }),
{
    let a = argv_spec(ToolRequest::EndpointsCreate(p), profile);
    assert(a.take(7) =~= seq!["--profile"@, profile.spec_cli_str(), "--output"@, "json"@] + seq!["webhooks"@, "endpoints"@, "create"@]);
}

/// The tools that name one endpoint or delivery put its id right after their
/// subcommand, and `endpoints_delete` confirms with `--yes`.
pub proof fn id_tools_carry_the_id(id: String, profile: Profile)
    ensures
        argv_spec(ToolRequest::EndpointsGet(EndpointId { id }), profile)[7] == id@,
        argv_spec(ToolRequest::EndpointsPing(EndpointId { id }), profile)[7] == id@,
        argv_spec(ToolRequest::EndpointsDelete(EndpointId { id }), profile)[7] == id@,
        argv_spec(ToolRequest::EndpointsDelete(EndpointId { id }), profile).last() == "--yes"@,
        argv_spec(ToolRequest::DeliveriesGet(DeliveryId { id }), profile)[7] == id@,
        argv_spec(ToolRequest::DeliveriesRetry(DeliveryId { id }), profile)[7] == id@,
        argv_spec(ToolRequest::EndpointsGet(EndpointId { id }), profile).len() == 8,
        argv_spec(ToolRequest::EndpointsPing(EndpointId { id }), profile).len() == 8,
        argv_spec(ToolRequest::DeliveriesGet(DeliveryId { id }), profile).len() == 8,
        argv_spec(ToolRequest::DeliveriesRetry(DeliveryId { id }), profile).len() == 8,
{
}

/// Each tool calls its own subcommand of the CLI, right after the global flags.
pub proof fn tool_subcommands(req: ToolRequest, profile: Profile)
    ensures
        ({
            let a = argv_spec(req, profile);
            match req {
                ToolRequest::EndpointsList(_) => a.subrange(4, 7) == seq![
                    "webhooks"@,
                    "endpoints"@,
                    "list"@,
                ] && a.len() == 7,
                ToolRequest::EndpointsGet(_) => a.subrange(4, 7) == seq![
                    "webhooks"@,
                    "endpoints"@,
                    "get"@,
                ],
                ToolRequest::EndpointsCreate(_) => a.subrange(4, 7) == seq![
                    "webhooks"@,
                    "endpoints"@,
                    "create"@,
                ],
                ToolRequest::EndpointsUpdate(_) => a.subrange(4, 7) == seq![
                    "webhooks"@,
                    "endpoints"@,
                    "update"@,
                ],
                ToolRequest::EndpointsDelete(_) => a.subrange(4, 7) == seq![
                    "webhooks"@,
                    "endpoints"@,
                    "delete"@,
                ],
                ToolRequest::EndpointsPing(_) => a.subrange(4, 7) == seq![
                    "webhooks"@,
                    "endpoints"@,
                    "ping"@,
                ],
                ToolRequest::EventTypesList(_) => a.subrange(4, 7) == seq![
                    "webhooks"@,
                    "event-types"@,
                    "list"@,
                ] && a.len() == 7,
                ToolRequest::DeliveriesList(_) => a.subrange(4, 7) == seq![
                    "webhooks"@,
                    "deliveries"@,
                    "list"@,
                ],
                ToolRequest::DeliveriesGet(_) => a.subrange(4, 7) == seq![
                    "webhooks"@,
                    "deliveries"@,
                    "get"@,
                ],
                ToolRequest::DeliveriesRetry(_) => a.subrange(4, 7) == seq![
                    "webhooks"@,
                    "deliveries"@,
                    "retry"@,
                ],
                ToolRequest::AuthStatus(_) => a.subrange(4, a.len() as int) == seq![
                    "auth"@,
                    "keys"@,
                ],
            }
        }),
{
    let a = argv_spec(req, profile);
    match req {
        ToolRequest::AuthStatus(_) => {
            assert(a.subrange(4, a.len() as int) =~= seq!["auth"@, "keys"@]);
        },
        _ => {
            assert(a.subrange(4, 7) =~= command_spec(req).take(3));
        },
    }
}

} // verus!

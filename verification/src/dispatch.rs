//! Command dispatch: what each lattice operation's outcome does to the
//! console — an output message on success, an error-level log record on
//! any failure — with every message pinned character for character.

use vstd::prelude::*;
use vstd::string::{StrSliceExecFns, StringExecFns};
use crate::ctl::{field_or_empty, ref_or_na, ActorDescription, CallCommand, Claims,
    ClaimsList, GetCommand, Host, HostInventory, LinkCommand, ProviderDescription, StartCommand,
    StopCommand};
use crate::command::ReplCommand;
use crate::logbuf::{LogBuffer, LogLevel, LogRecord};
use crate::output::{split_lines, OutputState};
use crate::text::{dec_rep, u64_to_string, utf8_lossy, bytes_to_text};

verus! {

/// The log target of console status lines.
pub fn wash_log_target() -> (t: &'static str)
    ensures
        t@ == "WASH_LOG"@,
{
    "WASH_LOG"
}

/// The log target of command handling.
pub fn wash_cmd_target() -> (t: &'static str)
    ensures
        t@ == "WASH_CMD"@,
{
    "WASH_CMD"
}

/// What one dispatched operation came back with: the operation's ack or
/// report on success, or the transport's error text.
pub enum CommandOutcome {
    Hosts(Vec<Host>),
    Inventory(HostInventory),
    ClaimsReport(ClaimsList),
    StartActorAck { actor_ref: String, actor_id: String },
    StartProviderAck { provider_ref: String, provider_id: String },
    StopActorAck { failure: Option<String> },
    StopProviderAck { failure: Option<String> },
    LinkAck,
    CallResponse { msg: Vec<u8>, invocation_id: String, error: Option<String> },
    Transport(String),
}

/// Each operation's transport hands back that operation's ack, or a
/// transport error; nothing comes back for `clear` or `quit`.
pub open spec fn outcome_fits(cmd: ReplCommand, o: CommandOutcome) -> bool {
    match cmd {
        ReplCommand::Get(GetCommand::Hosts(_)) => o is Hosts || o is Transport,
        ReplCommand::Get(GetCommand::HostInventory(_)) => o is Inventory || o is Transport,
        ReplCommand::Get(GetCommand::Claims(_)) => o is ClaimsReport || o is Transport,
        ReplCommand::Call(_) => o is CallResponse || o is Transport,
        ReplCommand::Link(_) => o is LinkAck || o is Transport,
        ReplCommand::Start(StartCommand::Actor(_)) => o is StartActorAck || o is Transport,
        ReplCommand::Start(StartCommand::Provider(_)) => o is StartProviderAck
            || o is Transport,
        ReplCommand::Stop(StopCommand::Actor(_)) => o is StopActorAck || o is Transport,
        ReplCommand::Stop(StopCommand::Provider(_)) => o is StopProviderAck || o is Transport,
        ReplCommand::Clear => false,
        ReplCommand::Quit => false,
    }
}

/// The runtime check of `outcome_fits`, for callers outside the library.
pub fn outcome_fits_check(cmd: &ReplCommand, o: &CommandOutcome) -> (b: bool)
    ensures
        b == outcome_fits(*cmd, *o),
{
    match cmd {
        ReplCommand::Get(GetCommand::Hosts(_)) => matches!(o, CommandOutcome::Hosts(_))
            || matches!(o, CommandOutcome::Transport(_)),
        ReplCommand::Get(GetCommand::HostInventory(_)) => matches!(
            o, CommandOutcome::Inventory(_)) || matches!(o, CommandOutcome::Transport(_)),
        ReplCommand::Get(GetCommand::Claims(_)) => matches!(o, CommandOutcome::ClaimsReport(_))
            || matches!(o, CommandOutcome::Transport(_)),
        ReplCommand::Call(_) => matches!(o, CommandOutcome::CallResponse { .. })
            || matches!(o, CommandOutcome::Transport(_)),
        ReplCommand::Link(_) => matches!(o, CommandOutcome::LinkAck)
            || matches!(o, CommandOutcome::Transport(_)),
        ReplCommand::Start(StartCommand::Actor(_)) => matches!(
            o, CommandOutcome::StartActorAck { .. }) || matches!(
            o, CommandOutcome::Transport(_)),
        ReplCommand::Start(StartCommand::Provider(_)) => matches!(
            o, CommandOutcome::StartProviderAck { .. }) || matches!(
            o, CommandOutcome::Transport(_)),
        ReplCommand::Stop(StopCommand::Actor(_)) => matches!(
            o, CommandOutcome::StopActorAck { .. }) || matches!(
            o, CommandOutcome::Transport(_)),
        ReplCommand::Stop(StopCommand::Provider(_)) => matches!(
            o, CommandOutcome::StopProviderAck { .. }) || matches!(
            o, CommandOutcome::Transport(_)),
        ReplCommand::Clear => false,
        ReplCommand::Quit => false,
    }
}

/// One record appended to a log feed, and nothing else changed.
pub open spec fn pushed_record(
    oldlog: Seq<LogRecord>,
    newlog: Seq<LogRecord>,
    level: LogLevel,
    target: Seq<char>,
    message: Seq<char>,
) -> bool {
    &&& newlog.len() == oldlog.len() + 1
    &&& newlog == oldlog.push(newlog.last())
    &&& newlog.last().level == level
    &&& newlog.last().target@ == target
    &&& newlog.last().message@ == message
}

/// One message appended to an output panel: its lines, one blank
/// separator, and the cursor back at the bottom.
pub open spec fn appended_output(o: OutputState, n: OutputState, text: Seq<char>) -> bool {
    &&& n.log() == o.log() + split_lines(text) + seq![Seq::<char>::empty()]
    &&& n.output_cursor == n.output.len()
    &&& n.output_width == o.output_width
    &&& n.wf()
}

/// One line of the hosts listing.
pub open spec fn host_line(h: Host) -> Seq<char> {
    " "@ + h.id@ + "   "@ + dec_rep(h.uptime_seconds as nat)
}

/// The host lines from position `i` on, joined with newlines.
pub open spec fn hosts_lines_from(hs: Seq<Host>, i: int) -> Seq<char>
    decreases hs.len() - i,
{
    if i >= hs.len() {
        Seq::empty()
    } else if i == hs.len() - 1 {
        host_line(hs[i])
    } else {
        host_line(hs[i]) + "\n"@ + hosts_lines_from(hs, i + 1)
    }
}

/// The hosts listing: a header line, then one line per host.
pub open spec fn hosts_text(hs: Seq<Host>) -> Seq<char> {
    " HOST_ID                                                    UPTIME(seconds) \n"@
        + hosts_lines_from(hs, 0)
}

/// Render the hosts listing.
pub fn hosts_output(hosts: &Vec<Host>) -> (r: String)
    ensures
        r@ == hosts_text(hosts@),
{
    let mut s = String::from_str(
        " HOST_ID                                                    UPTIME(seconds) \n");
    let mut i: usize = 0;
    while i < hosts.len()
        invariant
            i <= hosts.len(),
            i < hosts.len() ==> s@ + hosts_lines_from(hosts@, i as int) == hosts_text(hosts@),
            i == hosts.len() ==> s@ == hosts_text(hosts@),
        decreases hosts.len() - i,
    {
        s.append(" ");
        s.append(hosts[i].id.as_str());
        s.append("   ");
        let num = u64_to_string(hosts[i].uptime_seconds);
        s.append(num.as_str());
        if i + 1 < hosts.len() {
            s.append("\n");
        }
        proof {
            if i + 1 < hosts.len() {
                assert(s@ + hosts_lines_from(hosts@, i + 1) =~= hosts_text(hosts@));
            } else {
                assert(hosts_lines_from(hosts@, i as int)
                    =~= host_line(hosts@[i as int]));
                assert(s@ =~= hosts_text(hosts@));
            }
        }
        i = i + 1;
    }
    proof {
        if hosts.len() == 0 {
            assert(hosts_lines_from(hosts@, 0) =~= Seq::<char>::empty());
            assert(s@ =~= hosts_text(hosts@));
        }
    }
    s
}

/// The label block: two spaces, `key=value`, one line per label.
pub open spec fn labels_from(ls: Seq<(String, String)>, i: int) -> Seq<char>
    decreases ls.len() - i,
{
    if i >= ls.len() {
        Seq::empty()
    } else {
        "  "@ + ls[i].0@ + "="@ + ls[i].1@ + "\n"@ + labels_from(ls, i + 1)
    }
}

/// The actor block: id and image reference, one line per actor.
pub open spec fn actors_from(actors: Seq<ActorDescription>, i: int) -> Seq<char>
    decreases actors.len() - i,
{
    if i >= actors.len() {
        Seq::empty()
    } else {
        "  "@ + actors[i].id@ + "   "@ + ref_or_na(actors[i].image_ref) + "\n"@
            + actors_from(actors, i + 1)
    }
}

/// The provider block: id, link name and image reference per line.
pub open spec fn providers_from(ps: Seq<ProviderDescription>, i: int) -> Seq<char>
    decreases ps.len() - i,
{
    if i >= ps.len() {
        Seq::empty()
    } else {
        "  "@ + ps[i].id@ + "   "@ + ps[i].link_name@ + "   "@ + ref_or_na(ps[i].image_ref)
            + "\n"@ + providers_from(ps, i + 1)
    }
}

/// A host's whole inventory as one output message.
pub open spec fn inventory_text(inv: HostInventory) -> Seq<char> {
    "HOST INVENTORY ("@ + inv.host_id@ + ")\nLABELS\n"@ + labels_from(inv.labels@, 0)
        + "\nACTORS\n"@ + actors_from(inv.actors@, 0) + "\nPROVIDERS\n"@
        + providers_from(inv.providers@, 0)
}

/// Render a host inventory for the output panel.
pub fn format_inventory_for_output(inv: &HostInventory) -> (r: String)
    ensures
        r@ == inventory_text(*inv),
{
    let mut s = String::from_str("HOST INVENTORY (");
    s.append(inv.host_id.as_str());
    s.append(")\nLABELS\n");
    let ghost head = s@;
    let mut i: usize = 0;
    while i < inv.labels.len()
        invariant
            i <= inv.labels.len(),
            s@ + labels_from(inv.labels@, i as int) == head + labels_from(inv.labels@, 0),
        decreases inv.labels.len() - i,
    {
        s.append("  ");
        s.append(inv.labels[i].0.as_str());
        s.append("=");
        s.append(inv.labels[i].1.as_str());
        s.append("\n");
        i = i + 1;
    }
    proof {
        assert(labels_from(inv.labels@, inv.labels@.len() as int) =~= Seq::<char>::empty());
        assert(s@ =~= head + labels_from(inv.labels@, 0));
    }
    s.append("\nACTORS\n");
    let ghost head2 = s@;
    let mut i: usize = 0;
    while i < inv.actors.len()
        invariant
            i <= inv.actors.len(),
            s@ + actors_from(inv.actors@, i as int) == head2 + actors_from(inv.actors@, 0),
        decreases inv.actors.len() - i,
    {
        s.append("  ");
        s.append(inv.actors[i].id.as_str());
        s.append("   ");
        match &inv.actors[i].image_ref {
            Some(image) => s.append(image.as_str()),
            None => s.append("N/A"),
        }
        s.append("\n");
        i = i + 1;
    }
    proof {
        assert(actors_from(inv.actors@, inv.actors@.len() as int) =~= Seq::<char>::empty());
        assert(s@ =~= head2 + actors_from(inv.actors@, 0));
    }
    s.append("\nPROVIDERS\n");
    let ghost head3 = s@;
    let mut i: usize = 0;
    while i < inv.providers.len()
        invariant
            i <= inv.providers.len(),
            s@ + providers_from(inv.providers@, i as int) == head3
                + providers_from(inv.providers@, 0),
        decreases inv.providers.len() - i,
    {
        s.append("  ");
        s.append(inv.providers[i].id.as_str());
        s.append("   ");
        s.append(inv.providers[i].link_name.as_str());
        s.append("   ");
        match &inv.providers[i].image_ref {
            Some(image) => s.append(image.as_str()),
            None => s.append("N/A"),
        }
        s.append("\n");
        i = i + 1;
    }
    proof {
        assert(providers_from(inv.providers@, inv.providers@.len() as int)
            =~= Seq::<char>::empty());
        assert(s@ =~= head3 + providers_from(inv.providers@, 0));
        assert(s@ =~= inventory_text(*inv));
    }
    s
}

/// One claim as text: issuer, subject, capabilities, version and
/// revision, each on its own line, then a blank line.
pub open spec fn claim_text(c: Claims) -> Seq<char> {
    "Issuer: "@ + field_or_empty(c.issuer) + "\nSubject: "@ + field_or_empty(c.subject)
        + "\nCapabilities: "@ + field_or_empty(c.capabilities) + "\nVersion: "@
        + field_or_empty(c.version) + "\nRevision: "@ + field_or_empty(c.revision) + "\n\n"@
}

/// The claims report from position `i` on.
pub open spec fn claims_from(cs: Seq<Claims>, i: int) -> Seq<char>
    decreases cs.len() - i,
{
    if i >= cs.len() {
        Seq::empty()
    } else {
        claim_text(cs[i]) + claims_from(cs, i + 1)
    }
}

/// The whole claims report.
pub open spec fn claims_text(list: ClaimsList) -> Seq<char> {
    claims_from(list.claims@, 0)
}

fn append_claim_field(s: &mut String, o: &Option<String>)
    ensures
        final(s)@ == old(s)@ + field_or_empty(*o),
{
    match o {
        Some(v) => s.append(v.as_str()),
        None => {
            proof {
                assert(old(s)@ + field_or_empty(*o) =~= old(s)@);
            }
        },
    }
}

/// The outcome a `get` command admits.
pub open spec fn get_outcome_fits(cmd: GetCommand, o: CommandOutcome) -> bool {
    match cmd {
        GetCommand::Hosts(_) => o is Hosts || o is Transport,
        GetCommand::HostInventory(_) => o is Inventory || o is Transport,
        GetCommand::Claims(_) => o is ClaimsReport || o is Transport,
    }
}

/// The outcome a `start` command admits.
pub open spec fn start_outcome_fits(cmd: StartCommand, o: CommandOutcome) -> bool {
    match cmd {
        StartCommand::Actor(_) => o is StartActorAck || o is Transport,
        StartCommand::Provider(_) => o is StartProviderAck || o is Transport,
    }
}

/// The outcome a `stop` command admits.
pub open spec fn stop_outcome_fits(cmd: StopCommand, o: CommandOutcome) -> bool {
    match cmd {
        StopCommand::Actor(_) => o is StopActorAck || o is Transport,
        StopCommand::Provider(_) => o is StopProviderAck || o is Transport,
    }
}

/// The output message for a start ack.
pub open spec fn started_message(started_ref: Seq<char>, id: Seq<char>) -> Seq<char> {
    "Starting "@ + started_ref + " ("@ + id + ")"@
}

/// The output message after an actor stopped cleanly.
pub open spec fn stopped_actor_message(actor_ref: Seq<char>) -> Seq<char> {
    "Successfully stopped actor "@ + actor_ref
}

/// The output message after a provider stopped cleanly.
pub open spec fn stopped_provider_message(provider_ref: Seq<char>) -> Seq<char> {
    "Successfully stopped provider "@ + provider_ref
}

/// The output message after a link was published.
pub open spec fn linked_message(actor_id: Seq<char>, provider_id: Seq<char>) -> Seq<char> {
    "Linked "@ + actor_id + " <-> "@ + provider_id
}

/// The output message for a call's raw response bytes.
pub open spec fn call_response_message(msg: Seq<u8>) -> Seq<char> {
    "Call response (raw): "@ + utf8_lossy(msg)
}

/// The error-level message a transport failure leaves, by the command
/// that made the call.
pub open spec fn transport_message(cmd: ReplCommand, e: Seq<char>) -> Seq<char> {
    match cmd {
        ReplCommand::Link(_) => "Error publishing link "@ + e,
        ReplCommand::Call(_) => "unsuccessful call: "@ + e,
        _ => e,
    }
}

/// Everything one settled operation does to the console: what its
/// outcome puts on the output panel or into the log feed, tied to the
/// operation's own originating request.
pub open spec fn settled(
    cmd: ReplCommand,
    o: CommandOutcome,
    out0: OutputState,
    out1: OutputState,
    logs0: Seq<LogRecord>,
    logs1: Seq<LogRecord>,
) -> bool {
    match o {
        CommandOutcome::Hosts(hs) => appended_output(out0, out1, hosts_text(hs@))
            && logs1 == logs0,
        CommandOutcome::Inventory(inv) => appended_output(out0, out1, inventory_text(inv))
            && logs1 == logs0,
        CommandOutcome::ClaimsReport(list) => appended_output(out0, out1, claims_text(list))
            && logs1 == logs0,
        CommandOutcome::StartActorAck { actor_ref, actor_id } => appended_output(
            out0, out1, started_message(actor_ref@, actor_id@)) && logs1 == logs0,
        CommandOutcome::StartProviderAck { provider_ref, provider_id } => appended_output(
            out0, out1, started_message(provider_ref@, provider_id@)) && logs1 == logs0,
        CommandOutcome::StopActorAck { failure } => match failure {
            Some(f) => out1 == out0
                && pushed_record(logs0, logs1, LogLevel::Error, "WASH_CMD"@, f@),
            None => match cmd {
                ReplCommand::Stop(StopCommand::Actor(a)) => appended_output(
                    out0, out1, stopped_actor_message(a.actor_ref@)) && logs1 == logs0,
                _ => false,
            },
        },
        CommandOutcome::StopProviderAck { failure } => match failure {
            Some(f) => out1 == out0
                && pushed_record(logs0, logs1, LogLevel::Error, "WASH_CMD"@, f@),
            None => match cmd {
                ReplCommand::Stop(StopCommand::Provider(p)) => appended_output(
                    out0, out1, stopped_provider_message(p.provider_ref@)) && logs1 == logs0,
                _ => false,
            },
        },
        CommandOutcome::LinkAck => match cmd {
            ReplCommand::Link(l) => appended_output(
                out0, out1, linked_message(l.actor_id@, l.provider_id@))
                && pushed_record(logs0, logs1, LogLevel::Info, "WASH_CMD"@,
                    "Published link successfully"@),
            _ => false,
        },
        CommandOutcome::CallResponse { msg, error, .. } => match error {
            Some(e) => out1 == out0 && pushed_record(logs0, logs1, LogLevel::Error,
                "WASH_CMD"@, "Error invoking actor: "@ + e@),
            None => appended_output(out0, out1, call_response_message(msg@))
                && logs1 == logs0,
        },
        CommandOutcome::Transport(e) => out1 == out0
            && pushed_record(logs0, logs1, LogLevel::Error, "WASH_CMD"@,
                transport_message(cmd, e@)),
    }
}

/// Settle a `get` outcome: a successful report goes to the output
/// panel; a transport failure becomes one error-level record and
/// nothing more.
pub fn handle_get(cmd: &GetCommand, outcome: CommandOutcome, out: &mut OutputState,
    logs: &mut LogBuffer)
    requires
        old(out).wf(),
        get_outcome_fits(*cmd, outcome),
    ensures
        outcome matches CommandOutcome::Hosts(hs) ==> appended_output(
            *old(out), *final(out), hosts_text(hs@))
            && final(logs).log() == old(logs).log(),
        outcome matches CommandOutcome::Inventory(inv) ==> appended_output(
            *old(out), *final(out), inventory_text(inv))
            && final(logs).log() == old(logs).log(),
        outcome matches CommandOutcome::ClaimsReport(list) ==> appended_output(
            *old(out), *final(out), claims_text(list))
            && final(logs).log() == old(logs).log(),
        outcome matches CommandOutcome::Transport(e) ==> *final(out) == *old(out)
            && pushed_record(old(logs).log(), final(logs).log(), LogLevel::Error,
                "WASH_CMD"@, e@),
        final(out).wf(),
{
    match outcome {
        CommandOutcome::Hosts(hs) => {
            let msg = hosts_output(&hs);
            out.append(msg.as_str());
        },
        CommandOutcome::Inventory(inv) => {
            let msg = format_inventory_for_output(&inv);
            out.append(msg.as_str());
        },
        CommandOutcome::ClaimsReport(list) => {
            let msg = claims_output(&list);
            out.append(msg.as_str());
        },
        CommandOutcome::Transport(e) => {
            logs.append(LogLevel::Error, wash_cmd_target(), e);
        },
        _ => {
            proof {
                assert(false);
            }
        },
    }
}

/// Settle a `start` outcome: the ack's own references name what is
/// starting; a failure becomes one error-level record.
pub fn handle_start(cmd: &StartCommand, outcome: CommandOutcome, out: &mut OutputState,
    logs: &mut LogBuffer)
    requires
        old(out).wf(),
        start_outcome_fits(*cmd, outcome),
    ensures
        outcome matches CommandOutcome::StartActorAck { actor_ref, actor_id }
            ==> appended_output(*old(out), *final(out),
                started_message(actor_ref@, actor_id@))
            && final(logs).log() == old(logs).log(),
        outcome matches CommandOutcome::StartProviderAck { provider_ref, provider_id }
            ==> appended_output(*old(out), *final(out),
                started_message(provider_ref@, provider_id@))
            && final(logs).log() == old(logs).log(),
        outcome matches CommandOutcome::Transport(e) ==> *final(out) == *old(out)
            && pushed_record(old(logs).log(), final(logs).log(), LogLevel::Error,
                "WASH_CMD"@, e@),
        final(out).wf(),
{
    match outcome {
        CommandOutcome::StartActorAck { actor_ref, actor_id } => {
            let mut msg = String::from_str("Starting ");
            msg.append(actor_ref.as_str());
            msg.append(" (");
            msg.append(actor_id.as_str());
            msg.append(")");
            out.append(msg.as_str());
        },
        CommandOutcome::StartProviderAck { provider_ref, provider_id } => {
            let mut msg = String::from_str("Starting ");
            msg.append(provider_ref.as_str());
            msg.append(" (");
            msg.append(provider_id.as_str());
            msg.append(")");
            out.append(msg.as_str());
        },
        CommandOutcome::Transport(e) => {
            logs.append(LogLevel::Error, wash_cmd_target(), e);
        },
        _ => {
            proof {
                assert(false);
            }
        },
    }
}

/// Settle a `stop` outcome: a clean ack reports the stopped reference
/// from the originating request; an ack that carries a domain failure,
/// or a transport failure, becomes one error-level record.
pub fn handle_stop(cmd: &StopCommand, outcome: CommandOutcome, out: &mut OutputState,
    logs: &mut LogBuffer)
    requires
        old(out).wf(),
        stop_outcome_fits(*cmd, outcome),
    ensures
        outcome matches CommandOutcome::StopActorAck { failure: None }
            ==> (cmd matches StopCommand::Actor(a) ==> appended_output(
                *old(out), *final(out), stopped_actor_message(a.actor_ref@))
            && final(logs).log() == old(logs).log()),
        outcome matches CommandOutcome::StopProviderAck { failure: None }
            ==> (cmd matches StopCommand::Provider(p) ==> appended_output(
                *old(out), *final(out), stopped_provider_message(p.provider_ref@))
            && final(logs).log() == old(logs).log()),
        outcome matches CommandOutcome::StopActorAck { failure: Some(f) }
            ==> *final(out) == *old(out)
            && pushed_record(old(logs).log(), final(logs).log(), LogLevel::Error,
                "WASH_CMD"@, f@),
        outcome matches CommandOutcome::StopProviderAck { failure: Some(f) }
            ==> *final(out) == *old(out)
            && pushed_record(old(logs).log(), final(logs).log(), LogLevel::Error,
                "WASH_CMD"@, f@),
        outcome matches CommandOutcome::Transport(e) ==> *final(out) == *old(out)
            && pushed_record(old(logs).log(), final(logs).log(), LogLevel::Error,
                "WASH_CMD"@, e@),
        final(out).wf(),
{
    match outcome {
        CommandOutcome::StopActorAck { failure } => {
            match failure {
                Some(f) => {
                    logs.append(LogLevel::Error, wash_cmd_target(), f);
                },
                None => {
                    match cmd {
                        StopCommand::Actor(a) => {
                            let mut msg = String::from_str("Successfully stopped actor ");
                            msg.append(a.actor_ref.as_str());
                            out.append(msg.as_str());
                        },
                        StopCommand::Provider(_) => {
                            proof {
                                assert(false);
                            }
                        },
                    }
                },
            }
        },
        CommandOutcome::StopProviderAck { failure } => {
            match failure {
                Some(f) => {
                    logs.append(LogLevel::Error, wash_cmd_target(), f);
                },
                None => {
                    match cmd {
                        StopCommand::Provider(p) => {
                            let mut msg = String::from_str(
                                "Successfully stopped provider ");
                            msg.append(p.provider_ref.as_str());
                            out.append(msg.as_str());
                        },
                        StopCommand::Actor(_) => {
                            proof {
                                assert(false);
                            }
                        },
                    }
                },
            }
        },
        CommandOutcome::Transport(e) => {
            logs.append(LogLevel::Error, wash_cmd_target(), e);
        },
        _ => {
            proof {
                assert(false);
            }
        },
    }
}

/// Settle a `link` outcome: success is confirmed both in the log feed
/// and on the output panel; a failure becomes one error-level record.
pub fn handle_link(cmd: &LinkCommand, outcome: CommandOutcome, out: &mut OutputState,
    logs: &mut LogBuffer)
    requires
        old(out).wf(),
        outcome is LinkAck || outcome is Transport,
    ensures
        outcome is LinkAck ==> appended_output(*old(out), *final(out),
                linked_message(cmd.actor_id@, cmd.provider_id@))
            && pushed_record(old(logs).log(), final(logs).log(), LogLevel::Info,
                "WASH_CMD"@, "Published link successfully"@),
        outcome matches CommandOutcome::Transport(e) ==> *final(out) == *old(out)
            && pushed_record(old(logs).log(), final(logs).log(), LogLevel::Error,
                "WASH_CMD"@, "Error publishing link "@ + e@),
        final(out).wf(),
{
    match outcome {
        CommandOutcome::LinkAck => {
            logs.append(LogLevel::Info, wash_cmd_target(),
                String::from_str("Published link successfully"));
            let mut msg = String::from_str("Linked ");
            msg.append(cmd.actor_id.as_str());
            msg.append(" <-> ");
            msg.append(cmd.provider_id.as_str());
            out.append(msg.as_str());
        },
        CommandOutcome::Transport(e) => {
            let mut msg = String::from_str("Error publishing link ");
            msg.append(e.as_str());
            logs.append(LogLevel::Error, wash_cmd_target(), msg);
        },
        _ => {
            proof {
                assert(false);
            }
        },
    }
}

/// Settle a `call` outcome: a clean response's bytes are shown raw on
/// the output panel; a response that carries an error, or a transport
/// failure, becomes one error-level record.
pub fn handle_call(cmd: &CallCommand, outcome: CommandOutcome, out: &mut OutputState,
    logs: &mut LogBuffer)
    requires
        old(out).wf(),
        outcome is CallResponse || outcome is Transport,
    ensures
        outcome matches CommandOutcome::CallResponse { msg, error: None, .. }
            ==> appended_output(*old(out), *final(out), call_response_message(msg@))
            && final(logs).log() == old(logs).log(),
        outcome matches CommandOutcome::CallResponse { error: Some(e), .. }
            ==> *final(out) == *old(out)
            && pushed_record(old(logs).log(), final(logs).log(), LogLevel::Error,
                "WASH_CMD"@, "Error invoking actor: "@ + e@),
        outcome matches CommandOutcome::Transport(e) ==> *final(out) == *old(out)
            && pushed_record(old(logs).log(), final(logs).log(), LogLevel::Error,
                "WASH_CMD"@, "unsuccessful call: "@ + e@),
        final(out).wf(),
{
    match outcome {
        CommandOutcome::CallResponse { msg, invocation_id: _, error } => {
            match error {
                Some(e) => {
                    let mut text = String::from_str("Error invoking actor: ");
                    text.append(e.as_str());
                    logs.append(LogLevel::Error, wash_cmd_target(), text);
                },
                None => {
                    let decoded = bytes_to_text(&msg);
                    let mut text = String::from_str("Call response (raw): ");
                    text.append(decoded.as_str());
                    out.append(text.as_str());
                },
            }
        },
        CommandOutcome::Transport(e) => {
            let mut text = String::from_str("unsuccessful call: ");
            text.append(e.as_str());
            logs.append(LogLevel::Error, wash_cmd_target(), text);
        },
        _ => {
            proof {
                assert(false);
            }
        },
    }
}

/// Render the claims report.
pub fn claims_output(list: &ClaimsList) -> (r: String)
    ensures
        r@ == claims_text(*list),
{
    let mut s = String::new();
    let mut i: usize = 0;
    proof {
        assert(s@ + claims_from(list.claims@, 0) =~= claims_from(list.claims@, 0));
    }
    while i < list.claims.len()
        invariant
            i <= list.claims.len(),
            s@ + claims_from(list.claims@, i as int) == claims_text(*list),
        decreases list.claims.len() - i,
    {
        s.append("Issuer: ");
        append_claim_field(&mut s, &list.claims[i].issuer);
        s.append("\nSubject: ");
        append_claim_field(&mut s, &list.claims[i].subject);
        s.append("\nCapabilities: ");
        append_claim_field(&mut s, &list.claims[i].capabilities);
        s.append("\nVersion: ");
        append_claim_field(&mut s, &list.claims[i].version);
        s.append("\nRevision: ");
        append_claim_field(&mut s, &list.claims[i].revision);
        s.append("\n\n");
        i = i + 1;
    }
    proof {
        assert(claims_from(list.claims@, list.claims@.len() as int) =~= Seq::<char>::empty());
        assert(s@ =~= claims_text(*list));
    }
    s
}

} // verus!

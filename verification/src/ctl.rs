//! Typed commands of the control interface, and the lattice data each
//! query brings back, held as plain values.

use vstd::prelude::*;
use vstd::string::StringExecFns;
use crate::table::{align_code, rendered_table, row1, row2, row3, row_model, rows_model,
    rows_well_formed, CellAlign, TableRow};
use crate::text::{dec_rep, u64_to_string};

verus! {

/// How a control-plane connection is made: endpoint, namespace prefix
/// and timeout in seconds.
pub struct ConnectionOpts {
    pub rpc_host: String,
    pub rpc_port: String,
    pub ns_prefix: Option<String>,
    pub timeout: u64,
}

impl ConnectionOpts {
    /// The default connection: local loopback on the default port, no
    /// namespace prefix, a one-second timeout.
    pub open spec fn is_default_local(&self) -> bool {
        &&& self.rpc_host@ == "0.0.0.0"@
        &&& self.rpc_port@ == "4222"@
        &&& self.ns_prefix is None
        &&& self.timeout == 1
    }

    pub fn default_local() -> (o: Self)
        ensures
            o.is_default_local(),
    {
        ConnectionOpts {
            rpc_host: String::from_str("0.0.0.0"),
            rpc_port: String::from_str("4222"),
            ns_prefix: None,
            timeout: 1,
        }
    }
}

pub struct GetHostsCommand {
    pub opts: ConnectionOpts,
}

pub struct GetHostInventoryCommand {
    pub opts: ConnectionOpts,
    pub host_id: String,
}

pub struct GetClaimsCommand {
    pub opts: ConnectionOpts,
}

/// Starting or stopping an actor takes the host and the actor reference.
pub struct ActorCommand {
    pub opts: ConnectionOpts,
    pub host_id: String,
    pub actor_ref: String,
}

pub struct StartProviderCommand {
    pub opts: ConnectionOpts,
    pub host_id: String,
    pub provider_ref: String,
    pub link_name: Option<String>,
}

pub struct StopProviderCommand {
    pub opts: ConnectionOpts,
    pub host_id: String,
    pub provider_ref: String,
    pub link_name: String,
    pub contract_id: String,
}

/// Invoking an operation on an actor, with the payload given as the
/// remaining words of the line.
pub struct CallCommand {
    pub opts: ConnectionOpts,
    pub actor_id: String,
    pub operation: String,
    pub data: Vec<String>,
}

/// Linking an actor with a capability provider under a contract.
pub struct LinkCommand {
    pub opts: ConnectionOpts,
    pub actor_id: String,
    pub provider_id: String,
    pub contract_id: String,
}

pub enum GetCommand {
    Hosts(GetHostsCommand),
    HostInventory(GetHostInventoryCommand),
    Claims(GetClaimsCommand),
}

pub enum StartCommand {
    Actor(ActorCommand),
    Provider(StartProviderCommand),
}

pub enum StopCommand {
    Actor(ActorCommand),
    Provider(StopProviderCommand),
}

pub enum CtlCliCommand {
    Get(GetCommand),
    Start(StartCommand),
    Stop(StopCommand),
}

/// The one-shot command-line form of the control commands.
pub struct CtlCli {
    pub command: CtlCliCommand,
}

impl CtlCli {
    pub fn command(self) -> (c: CtlCliCommand)
        ensures
            c == self.command,
    {
        self.command
    }
}

/// One reachable host, as a lattice query reports it.
pub struct Host {
    pub id: String,
    pub uptime_seconds: u64,
}

/// One running actor of a host's inventory.
pub struct ActorDescription {
    pub id: String,
    pub image_ref: Option<String>,
}

/// One running capability provider of a host's inventory.
pub struct ProviderDescription {
    pub id: String,
    pub link_name: String,
    pub image_ref: Option<String>,
}

/// Everything one host reports about itself: labels, actors, providers.
pub struct HostInventory {
    pub host_id: String,
    pub labels: Vec<(String, String)>,
    pub actors: Vec<ActorDescription>,
    pub providers: Vec<ProviderDescription>,
}

/// The claims of one signed artifact, by the fields the console shows.
pub struct Claims {
    pub issuer: Option<String>,
    pub subject: Option<String>,
    pub capabilities: Option<String>,
    pub version: Option<String>,
    pub revision: Option<String>,
}

pub struct ClaimsList {
    pub claims: Vec<Claims>,
}

/// The namespace prefix shown in a table title, or nothing.
pub open spec fn ns_or_empty(ns: Option<String>) -> Seq<char> {
    match ns {
        Some(s) => s@,
        None => Seq::empty(),
    }
}

/// An image reference, or the placeholder where none is set.
pub open spec fn ref_or_na(o: Option<String>) -> Seq<char> {
    match o {
        Some(s) => s@,
        None => "N/A"@,
    }
}

/// A claims field, or nothing where the claim does not carry it.
pub open spec fn field_or_empty(o: Option<String>) -> Seq<char> {
    match o {
        Some(s) => s@,
        None => Seq::empty(),
    }
}

fn clone_or(o: &Option<String>, alt: &str) -> (r: String)
    ensures
        o is Some ==> r@ == o->0@,
        o is None ==> r@ == alt@,
{
    match o {
        Some(s) => s.clone(),
        None => String::from_str(alt),
    }
}

/// The two cells of one host's line in the hosts table.
pub open spec fn host_row(h: Host) -> Seq<(Seq<char>, int, int)> {
    seq![(h.id@, 1int, 0int), (dec_rep(h.uptime_seconds as nat), 1int, 2int)]
}

/// The hosts table: a spanning title with the namespace, a header, one
/// line per host.
pub open spec fn hosts_rows(hs: Seq<Host>, ns: Option<String>) -> Seq<
    Seq<(Seq<char>, int, int)>,
> {
    seq![
        seq![("Hosts - "@ + ns_or_empty(ns), 2int, 1int)],
        seq![("Host ID"@, 1int, 0int), ("Uptime (seconds)"@, 1int, 2int)],
    ] + hs.map_values(|h: Host| host_row(h))
}

/// Render the hosts table.
pub fn hosts_table(hosts: &Vec<Host>, ns_prefix: &Option<String>) -> (r: String)
    ensures
        r@ == rendered_table(hosts_rows(hosts@, *ns_prefix), 68),
{
    let mut rows: Vec<TableRow> = Vec::new();
    let mut title = String::from_str("Hosts - ");
    match ns_prefix {
        Some(ns) => title.append(ns.as_str()),
        None => {},
    }
    proof {
        assert(title@ =~= "Hosts - "@ + ns_or_empty(*ns_prefix));
    }
    rows.push(row1(title, 2, CellAlign::Center));
    rows.push(row2(
        String::from_str("Host ID"), 1, CellAlign::Left,
        String::from_str("Uptime (seconds)"), 1, CellAlign::Right,
    ));
    proof {
        assert(rows_model(rows@) =~= hosts_rows(hosts@, *ns_prefix).take(2));
        assert(hosts_rows(hosts@, *ns_prefix).take(2) + hosts@.take(0).map_values(
            |h: Host| host_row(h)) =~= rows_model(rows@));
    }
    let mut i: usize = 0;
    while i < hosts.len()
        invariant
            i <= hosts.len(),
            rows_well_formed(rows@),
            rows_model(rows@) == hosts_rows(hosts@, *ns_prefix).take(2)
                + hosts@.take(i as int).map_values(|h: Host| host_row(h)),
        decreases hosts.len() - i,
    {
        let ghost before = rows@;
        let line = row2(
            hosts[i].id.clone(), 1, CellAlign::Left,
            u64_to_string(hosts[i].uptime_seconds), 1, CellAlign::Right,
        );
        rows.push(line);
        proof {
            assert(rows_model(rows@) =~= rows_model(before).push(row_model(line)));
            assert(row_model(line) =~= host_row(hosts@[i as int]));
            assert(hosts@.take(i + 1).map_values(|h: Host| host_row(h))
                =~= hosts@.take(i as int).map_values(|h: Host| host_row(h)).push(
                    host_row(hosts@[i as int])));
            assert(rows_model(rows@) =~= hosts_rows(hosts@, *ns_prefix).take(2)
                + hosts@.take(i + 1).map_values(|h: Host| host_row(h)));
        }
        i = i + 1;
    }
    proof {
        assert(hosts@.take(hosts@.len() as int) =~= hosts@);
        assert(rows_model(rows@) =~= hosts_rows(hosts@, *ns_prefix));
        assert(rows_well_formed(rows@));
    }
    crate::table::render_table(&rows, 68)
}

/// The label block of the inventory table: a spanning section title and
/// one line per label, or one line saying none are present.
pub open spec fn labels_section(inv: HostInventory) -> Seq<Seq<(Seq<char>, int, int)>> {
    if inv.labels@.len() >= 1 {
        seq![seq![("Labels"@, 3int, 1int)]] + inv.labels@.map_values(
            |kv: (String, String)| seq![(kv.0@, 1int, 0int), (kv.1@, 2int, 2int)])
    } else {
        seq![seq![("No labels present"@, 3int, 1int)]]
    }
}

/// The actor block: section title and header, then one line per actor,
/// or one line saying none were found.
pub open spec fn actors_section(inv: HostInventory) -> Seq<Seq<(Seq<char>, int, int)>> {
    if inv.actors@.len() >= 1 {
        seq![
            seq![("Actors"@, 3int, 1int)],
            seq![("Actor ID"@, 1int, 0int), ("Image Reference"@, 2int, 2int)],
        ] + inv.actors@.map_values(
            |a: ActorDescription| seq![(a.id@, 1int, 0int), (ref_or_na(a.image_ref), 2int, 2int)])
    } else {
        seq![seq![("No actors found"@, 3int, 1int)]]
    }
}

/// The provider block: section title and header, then one line per
/// provider, or one line saying none were found.
pub open spec fn providers_section(inv: HostInventory) -> Seq<Seq<(Seq<char>, int, int)>> {
    if inv.providers@.len() >= 1 {
        seq![
            seq![("Providers"@, 3int, 1int)],
            seq![
                ("Provider ID"@, 1int, 0int),
                ("Link Name"@, 1int, 1int),
                ("Image Reference"@, 1int, 2int),
            ],
        ] + inv.providers@.map_values(|p: ProviderDescription| seq![
            (p.id@, 1int, 0int),
            (p.link_name@, 1int, 1int),
            (ref_or_na(p.image_ref), 1int, 2int),
        ])
    } else {
        seq![seq![("No providers found"@, 3int, 1int)]]
    }
}

/// The whole inventory table: a title naming the host, then the label,
/// actor and provider blocks.
pub open spec fn inventory_rows(inv: HostInventory) -> Seq<Seq<(Seq<char>, int, int)>> {
    seq![seq![("Host Inventory - "@ + inv.host_id@, 3int, 1int)]] + labels_section(inv)
        + actors_section(inv) + providers_section(inv)
}

/// Render the inventory table.
pub fn host_inventory_table(inv: &HostInventory) -> (r: String)
    ensures
        r@ == rendered_table(inventory_rows(*inv), 68),
{
    let mut rows: Vec<TableRow> = Vec::new();
    let mut title = String::from_str("Host Inventory - ");
    title.append(inv.host_id.as_str());
    rows.push(row1(title, 3, CellAlign::Center));
    let ghost with_title = rows_model(rows@);
    proof {
        assert(with_title =~= seq![seq![("Host Inventory - "@ + inv.host_id@, 3int, 1int)]]);
    }
    if inv.labels.len() >= 1 {
        rows.push(row1(String::from_str("Labels"), 3, CellAlign::Center));
        proof {
            assert(rows_model(rows@) =~= with_title + seq![seq![("Labels"@, 3int, 1int)]]
                + inv.labels@.take(0).map_values(
                    |kv: (String, String)| seq![(kv.0@, 1int, 0int), (kv.1@, 2int, 2int)]));
        }
        let mut i: usize = 0;
        while i < inv.labels.len()
            invariant
                i <= inv.labels.len(),
                rows_well_formed(rows@),
                with_title == seq![
                    seq![("Host Inventory - "@ + inv.host_id@, 3int, 1int)],
                ],
                rows_model(rows@) == with_title + seq![seq![("Labels"@, 3int, 1int)]]
                    + inv.labels@.take(i as int).map_values(
                        |kv: (String, String)| seq![(kv.0@, 1int, 0int), (kv.1@, 2int, 2int)]),
            decreases inv.labels.len() - i,
        {
            let ghost before = rows@;
            let line = row2(
                inv.labels[i].0.clone(), 1, CellAlign::Left,
                inv.labels[i].1.clone(), 2, CellAlign::Right,
            );
            rows.push(line);
            proof {
                assert(rows_model(rows@) =~= rows_model(before).push(row_model(line)));
                assert(row_model(line) =~= seq![
                    (inv.labels@[i as int].0@, 1int, 0int),
                    (inv.labels@[i as int].1@, 2int, 2int),
                ]);
                assert(inv.labels@.take(i + 1).map_values(
                    |kv: (String, String)| seq![(kv.0@, 1int, 0int), (kv.1@, 2int, 2int)])
                    =~= inv.labels@.take(i as int).map_values(
                        |kv: (String, String)| seq![(kv.0@, 1int, 0int), (kv.1@, 2int, 2int)])
                        .push(row_model(line)));
                assert(rows_model(rows@) =~= with_title + seq![seq![("Labels"@, 3int, 1int)]]
                    + inv.labels@.take(i + 1).map_values(
                        |kv: (String, String)| seq![(kv.0@, 1int, 0int), (kv.1@, 2int, 2int)]));
            }
            i = i + 1;
        }
        proof {
            assert(inv.labels@.take(inv.labels@.len() as int) =~= inv.labels@);
            assert(rows_model(rows@) =~= with_title + labels_section(*inv));
        }
    } else {
        rows.push(row1(String::from_str("No labels present"), 3, CellAlign::Center));
        proof {
            assert(rows_model(rows@) =~= with_title + labels_section(*inv));
        }
    }
    let ghost with_labels = rows_model(rows@);
    if inv.actors.len() >= 1 {
        rows.push(row1(String::from_str("Actors"), 3, CellAlign::Center));
        rows.push(row2(
            String::from_str("Actor ID"), 1, CellAlign::Left,
            String::from_str("Image Reference"), 2, CellAlign::Right,
        ));
        proof {
            assert(rows_model(rows@) =~= with_labels + seq![
                seq![("Actors"@, 3int, 1int)],
                seq![("Actor ID"@, 1int, 0int), ("Image Reference"@, 2int, 2int)],
            ] + inv.actors@.take(0).map_values(|a: ActorDescription| seq![
                (a.id@, 1int, 0int), (ref_or_na(a.image_ref), 2int, 2int)]));
        }
        let mut i: usize = 0;
        while i < inv.actors.len()
            invariant
                i <= inv.actors.len(),
                rows_well_formed(rows@),
                with_labels == rows_model(rows@).take(with_labels.len() as int),
                rows_model(rows@) == with_labels + seq![
                    seq![("Actors"@, 3int, 1int)],
                    seq![("Actor ID"@, 1int, 0int), ("Image Reference"@, 2int, 2int)],
                ] + inv.actors@.take(i as int).map_values(|a: ActorDescription| seq![
                    (a.id@, 1int, 0int), (ref_or_na(a.image_ref), 2int, 2int)]),
            decreases inv.actors.len() - i,
        {
            let ghost before = rows@;
            let line = row2(
                inv.actors[i].id.clone(), 1, CellAlign::Left,
                clone_or(&inv.actors[i].image_ref, "N/A"), 2, CellAlign::Right,
            );
            rows.push(line);
            proof {
                assert(rows_model(rows@) =~= rows_model(before).push(row_model(line)));
                assert(row_model(line) =~= seq![
                    (inv.actors@[i as int].id@, 1int, 0int),
                    (ref_or_na(inv.actors@[i as int].image_ref), 2int, 2int),
                ]);
                assert(inv.actors@.take(i + 1).map_values(|a: ActorDescription| seq![
                    (a.id@, 1int, 0int), (ref_or_na(a.image_ref), 2int, 2int)])
                    =~= inv.actors@.take(i as int).map_values(|a: ActorDescription| seq![
                        (a.id@, 1int, 0int), (ref_or_na(a.image_ref), 2int, 2int)])
                        .push(row_model(line)));
                assert(rows_model(rows@) =~= with_labels + seq![
                    seq![("Actors"@, 3int, 1int)],
                    seq![("Actor ID"@, 1int, 0int), ("Image Reference"@, 2int, 2int)],
                ] + inv.actors@.take(i + 1).map_values(|a: ActorDescription| seq![
                    (a.id@, 1int, 0int), (ref_or_na(a.image_ref), 2int, 2int)]));
            }
            i = i + 1;
        }
        proof {
            assert(inv.actors@.take(inv.actors@.len() as int) =~= inv.actors@);
            assert(rows_model(rows@) =~= with_labels + actors_section(*inv));
        }
    } else {
        rows.push(row1(String::from_str("No actors found"), 3, CellAlign::Center));
        proof {
            assert(rows_model(rows@) =~= with_labels + actors_section(*inv));
        }
    }
    let ghost with_actors = rows_model(rows@);
    if inv.providers.len() >= 1 {
        rows.push(row1(String::from_str("Providers"), 3, CellAlign::Center));
        rows.push(row3(
            String::from_str("Provider ID"), 1, CellAlign::Left,
            String::from_str("Link Name"), 1, CellAlign::Center,
            String::from_str("Image Reference"), 1, CellAlign::Right,
        ));
        proof {
            assert(rows_model(rows@) =~= with_actors + seq![
                seq![("Providers"@, 3int, 1int)],
                seq![
                    ("Provider ID"@, 1int, 0int),
                    ("Link Name"@, 1int, 1int),
                    ("Image Reference"@, 1int, 2int),
                ],
            ] + inv.providers@.take(0).map_values(|p: ProviderDescription| seq![
                (p.id@, 1int, 0int),
                (p.link_name@, 1int, 1int),
                (ref_or_na(p.image_ref), 1int, 2int),
            ]));
        }
        let mut i: usize = 0;
        while i < inv.providers.len()
            invariant
                i <= inv.providers.len(),
                rows_well_formed(rows@),
                rows_model(rows@) == with_actors + seq![
                    seq![("Providers"@, 3int, 1int)],
                    seq![
                        ("Provider ID"@, 1int, 0int),
                        ("Link Name"@, 1int, 1int),
                        ("Image Reference"@, 1int, 2int),
                    ],
                ] + inv.providers@.take(i as int).map_values(|p: ProviderDescription| seq![
                    (p.id@, 1int, 0int),
                    (p.link_name@, 1int, 1int),
                    (ref_or_na(p.image_ref), 1int, 2int),
                ]),
            decreases inv.providers.len() - i,
        {
            let ghost before = rows@;
            let line = row3(
                inv.providers[i].id.clone(), 1, CellAlign::Left,
                inv.providers[i].link_name.clone(), 1, CellAlign::Center,
                clone_or(&inv.providers[i].image_ref, "N/A"), 1, CellAlign::Right,
            );
            rows.push(line);
            proof {
                assert(rows_model(rows@) =~= rows_model(before).push(row_model(line)));
                assert(row_model(line) =~= seq![
                    (inv.providers@[i as int].id@, 1int, 0int),
                    (inv.providers@[i as int].link_name@, 1int, 1int),
                    (ref_or_na(inv.providers@[i as int].image_ref), 1int, 2int),
                ]);
                assert(inv.providers@.take(i + 1).map_values(|p: ProviderDescription| seq![
                    (p.id@, 1int, 0int),
                    (p.link_name@, 1int, 1int),
                    (ref_or_na(p.image_ref), 1int, 2int),
                ]) =~= inv.providers@.take(i as int).map_values(|p: ProviderDescription| seq![
                    (p.id@, 1int, 0int),
                    (p.link_name@, 1int, 1int),
                    (ref_or_na(p.image_ref), 1int, 2int),
                ]).push(row_model(line)));
                assert(rows_model(rows@) =~= with_actors + seq![
                    seq![("Providers"@, 3int, 1int)],
                    seq![
                        ("Provider ID"@, 1int, 0int),
                        ("Link Name"@, 1int, 1int),
                        ("Image Reference"@, 1int, 2int),
                    ],
                ] + inv.providers@.take(i + 1).map_values(|p: ProviderDescription| seq![
                    (p.id@, 1int, 0int),
                    (p.link_name@, 1int, 1int),
                    (ref_or_na(p.image_ref), 1int, 2int),
                ]));
            }
            i = i + 1;
        }
        proof {
            assert(inv.providers@.take(inv.providers@.len() as int) =~= inv.providers@);
            assert(rows_model(rows@) =~= with_actors + providers_section(*inv));
        }
    } else {
        rows.push(row1(String::from_str("No providers found"), 3, CellAlign::Center));
        proof {
            assert(rows_model(rows@) =~= with_actors + providers_section(*inv));
        }
    }
    proof {
        assert(rows_model(rows@) =~= inventory_rows(*inv));
        assert(rows_well_formed(rows@));
    }
    crate::table::render_table(&rows, 68)
}

/// The six rows one claim contributes: issuer, subject, capabilities,
/// version, revision, and a blank spacer.
pub open spec fn claim_rows(c: Claims) -> Seq<Seq<(Seq<char>, int, int)>> {
    seq![
        seq![("Issuer"@, 1int, 0int), (field_or_empty(c.issuer), 1int, 2int)],
        seq![("Subject"@, 1int, 0int), (field_or_empty(c.subject), 1int, 2int)],
        seq![("Capabilities"@, 1int, 0int), (field_or_empty(c.capabilities), 1int, 2int)],
        seq![("Version"@, 1int, 0int), (field_or_empty(c.version), 1int, 2int)],
        seq![("Revision"@, 1int, 0int), (field_or_empty(c.revision), 1int, 2int)],
        seq![(""@, 2int, 1int)],
    ]
}

/// The claim rows from position `i` on.
pub open spec fn claims_rows_from(cs: Seq<Claims>, i: int) -> Seq<Seq<(Seq<char>, int, int)>>
    decreases cs.len() - i,
{
    if i >= cs.len() {
        Seq::empty()
    } else {
        claim_rows(cs[i]) + claims_rows_from(cs, i + 1)
    }
}

/// The claims table: a spanning title with the namespace, then each
/// claim's rows.
pub open spec fn claims_rows(list: ClaimsList, ns: Option<String>) -> Seq<
    Seq<(Seq<char>, int, int)>,
> {
    seq![seq![("Claims - "@ + ns_or_empty(ns), 2int, 1int)]] + claims_rows_from(list.claims@, 0)
}

/// Render the claims table.
pub fn claims_table(list: &ClaimsList, ns_prefix: &Option<String>) -> (r: String)
    ensures
        r@ == rendered_table(claims_rows(*list, *ns_prefix), 68),
{
    let mut rows: Vec<TableRow> = Vec::new();
    let mut title = String::from_str("Claims - ");
    match ns_prefix {
        Some(ns) => title.append(ns.as_str()),
        None => {},
    }
    proof {
        assert(title@ =~= "Claims - "@ + ns_or_empty(*ns_prefix));
    }
    rows.push(row1(title, 2, CellAlign::Center));
    let ghost with_title = rows_model(rows@);
    proof {
        assert(with_title =~= seq![seq![("Claims - "@ + ns_or_empty(*ns_prefix), 2int, 1int)]]);
        assert(with_title + claims_rows_from(list.claims@, 0)
            =~= claims_rows(*list, *ns_prefix));
    }
    let mut i: usize = 0;
    while i < list.claims.len()
        invariant
            i <= list.claims.len(),
            rows_well_formed(rows@),
            rows_model(rows@) + claims_rows_from(list.claims@, i as int) == claims_rows(
                *list, *ns_prefix),
        decreases list.claims.len() - i,
    {
        let ghost before = rows_model(rows@);
        rows.push(row2(String::from_str("Issuer"), 1, CellAlign::Left,
            clone_or(&list.claims[i].issuer, ""), 1, CellAlign::Right));
        rows.push(row2(String::from_str("Subject"), 1, CellAlign::Left,
            clone_or(&list.claims[i].subject, ""), 1, CellAlign::Right));
        rows.push(row2(String::from_str("Capabilities"), 1, CellAlign::Left,
            clone_or(&list.claims[i].capabilities, ""), 1, CellAlign::Right));
        rows.push(row2(String::from_str("Version"), 1, CellAlign::Left,
            clone_or(&list.claims[i].version, ""), 1, CellAlign::Right));
        rows.push(row2(String::from_str("Revision"), 1, CellAlign::Left,
            clone_or(&list.claims[i].revision, ""), 1, CellAlign::Right));
        rows.push(row1(String::new(), 2, CellAlign::Center));
        proof {
            reveal_strlit("");
            assert(""@ =~= Seq::<char>::empty());
            assert(rows_model(rows@) =~= before + claim_rows(list.claims@[i as int]));
            assert(claims_rows_from(list.claims@, i as int)
                =~= claim_rows(list.claims@[i as int])
                    + claims_rows_from(list.claims@, i + 1));
            assert(rows_model(rows@) + claims_rows_from(list.claims@, i + 1)
                =~= claims_rows(*list, *ns_prefix));
        }
        i = i + 1;
    }
    proof {
        assert(claims_rows_from(list.claims@, list.claims@.len() as int)
            =~= Seq::<Seq<(Seq<char>, int, int)>>::empty());
        assert(rows_model(rows@) =~= claims_rows(*list, *ns_prefix));
        assert(rows_well_formed(rows@));
    }
    crate::table::render_table(&rows, 68)
}

} // verus!

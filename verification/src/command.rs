//! The console's command grammar: a submitted line is tokenized on
//! whitespace and parsed against a closed set of commands; a failure
//! yields a distinct parse-error value and nothing else.

use vstd::prelude::*;
use crate::ctl::{
    ActorCommand, CallCommand, ConnectionOpts, GetClaimsCommand, GetCommand,
    GetHostInventoryCommand, GetHostsCommand, LinkCommand, StartCommand, StartProviderCommand,
    StopCommand, StopProviderCommand,
};
use crate::text::{chars_to_string, string_is};

verus! {

/// ASCII whitespace, as the tokenizer sees it.
pub open spec fn is_blank(c: char) -> bool {
    c == ' ' || c == '\t' || c == '\n' || c == '\r' || c == '\u{000c}'
}

/// Index of the first blank character of `s`, or `s.len()` if none.
pub open spec fn first_blank(s: Seq<char>) -> int
    decreases s.len(),
{
    if s.len() == 0 {
        0
    } else if is_blank(s[0]) {
        0
    } else {
        1 + first_blank(s.skip(1))
    }
}

pub proof fn lemma_first_blank(s: Seq<char>)
    ensures
        0 <= first_blank(s) <= s.len(),
        forall|j: int| 0 <= j < first_blank(s) ==> !is_blank(s[j]),
        first_blank(s) < s.len() ==> is_blank(s[first_blank(s)]),
    decreases s.len(),
{
    if s.len() == 0 {
    } else if is_blank(s[0]) {
    } else {
        lemma_first_blank(s.skip(1));
        assert forall|j: int| 0 <= j < first_blank(s) implies !is_blank(s[j]) by {
            if j > 0 {
                assert(!is_blank(s.skip(1)[j - 1]));
            }
        }
        if first_blank(s) < s.len() {
            assert(s[first_blank(s)] == s.skip(1)[first_blank(s.skip(1))]);
        }
    }
}

/// The first blank sits at `k` exactly when everything before `k` is
/// non-blank and `k` is blank or the end.
pub proof fn lemma_first_blank_at(s: Seq<char>, k: int)
    requires
        0 <= k <= s.len(),
        forall|j: int| 0 <= j < k ==> !is_blank(s[j]),
        k < s.len() ==> is_blank(s[k]),
    ensures
        first_blank(s) == k,
    decreases s.len(),
{
    if k == 0 {
    } else {
        assert(!is_blank(s[0]));
        assert forall|j: int| 0 <= j < k - 1 implies !is_blank(s.skip(1)[j]) by {
            assert(s.skip(1)[j] == s[j + 1]);
        }
        if k - 1 < s.skip(1).len() {
            assert(s.skip(1)[k - 1] == s[k]);
        }
        lemma_first_blank_at(s.skip(1), k - 1);
    }
}

/// The whitespace-separated words of a line, in order, with no empty
/// words.
pub open spec fn spec_tokens(s: Seq<char>) -> Seq<Seq<char>>
    decreases s.len(),
    via spec_tokens_decreases
{
    if s.len() == 0 {
        Seq::empty()
    } else if is_blank(s[0]) {
        spec_tokens(s.skip(1))
    } else {
        let e = first_blank(s);
        seq![s.take(e)] + spec_tokens(s.skip(e))
    }
}

#[via_fn]
proof fn spec_tokens_decreases(s: Seq<char>) {
    if s.len() > 0 && !is_blank(s[0]) {
        lemma_first_blank(s.skip(1));
    }
}

/// Cut a line into its whitespace-separated words.
pub fn tokenize(line: &Vec<char>) -> (toks: Vec<String>)
    ensures
        toks.deep_view() == spec_tokens(line@),
{
    let mut toks: Vec<String> = Vec::new();
    proof {
        assert(toks.deep_view() =~= Seq::<Seq<char>>::empty());
        assert(line@.skip(0) =~= line@);
    }
    let mut i: usize = 0;
    while i < line.len()
        invariant
            i <= line.len(),
            spec_tokens(line@) == toks.deep_view() + spec_tokens(line@.skip(i as int)),
        decreases line.len() - i,
    {
        let c = line[i];
        if c == ' ' || c == '\t' || c == '\n' || c == '\r' || c == '\u{000c}' {
            proof {
                assert(line@.skip(i as int)[0] == line@[i as int]);
                assert(line@.skip(i as int).skip(1) =~= line@.skip(i + 1));
            }
            i = i + 1;
        } else {
            let mut j: usize = i;
            let mut tok: Vec<char> = Vec::new();
            while j < line.len() && line[j] != ' ' && line[j] != '\t' && line[j] != '\n'
                && line[j] != '\r' && line[j] != '\u{000c}'
                invariant
                    i <= j <= line.len(),
                    tok@ == line@.subrange(i as int, j as int),
                    forall|k: int| i <= k < j ==> !is_blank(line@[k]),
                decreases line.len() - j,
            {
                tok.push(line[j]);
                proof {
                    assert(tok@ =~= line@.subrange(i as int, j + 1));
                }
                j = j + 1;
            }
            proof {
                assert(j > i);
                let t = line@.skip(i as int);
                assert forall|k: int| 0 <= k < j - i implies !is_blank(t[k]) by {
                    assert(t[k] == line@[i + k]);
                }
                if j < line.len() {
                    assert(t[j - i] == line@[j as int]);
                }
                lemma_first_blank_at(t, j - i);
                assert(t.take(j - i) =~= line@.subrange(i as int, j as int));
                assert(t.skip(j - i) =~= line@.skip(j as int));
                assert(spec_tokens(t) == seq![tok@] + spec_tokens(line@.skip(j as int)));
            }
            let word = chars_to_string(&tok);
            let ghost dv0 = toks.deep_view();
            toks.push(word);
            proof {
                assert(toks.deep_view() =~= dv0.push(tok@));
                assert(dv0.push(tok@) + spec_tokens(line@.skip(j as int))
                    =~= dv0 + spec_tokens(line@.skip(i as int)));
            }
            i = j;
        }
    }
    proof {
        assert(line@.skip(i as int) =~= Seq::<char>::empty());
        assert(spec_tokens(Seq::<char>::empty()) =~= Seq::<Seq<char>>::empty());
        assert(toks.deep_view() =~= spec_tokens(line@));
    }
    toks
}

/// The closed command set of the console, with each argument as the
/// characters of its word.
#[allow(inconsistent_fields)]
pub enum CommandModel {
    GetHosts,
    GetInventory { host_id: Seq<char> },
    GetClaims,
    Call { actor_id: Seq<char>, operation: Seq<char>, data: Seq<Seq<char>> },
    Link { actor_id: Seq<char>, provider_id: Seq<char>, contract_id: Seq<char> },
    StartActor { host_id: Seq<char>, actor_ref: Seq<char> },
    StartProvider { host_id: Seq<char>, provider_ref: Seq<char>, link_name: Option<Seq<char>> },
    StopActor { host_id: Seq<char>, actor_ref: Seq<char> },
    StopProvider {
        host_id: Seq<char>,
        provider_ref: Seq<char>,
        link_name: Seq<char>,
        contract_id: Seq<char>,
    },
    Clear,
    Quit,
}

/// The ways a line can fail to parse.
pub enum ParseErrorModel {
    Empty,
    Unknown { word: Seq<char> },
    Usage { word: Seq<char> },
}

/// A parse failure: an empty line, an unknown command word, or a known
/// command with the wrong arguments.
pub enum ParseError {
    Empty,
    Unknown(String),
    Usage(String),
}

impl ParseError {
    pub open spec fn model(&self) -> ParseErrorModel {
        match self {
            ParseError::Empty => ParseErrorModel::Empty,
            ParseError::Unknown(w) => ParseErrorModel::Unknown { word: w@ },
            ParseError::Usage(w) => ParseErrorModel::Usage { word: w@ },
        }
    }

    /// The diagnostic line the console logs for this failure.
    pub fn diagnostic(&self) -> (d: String)
        ensures
            d@ == spec_diagnostic(self.model()),
    {
        match self {
            ParseError::Empty => String::from_str("empty command line"),
            ParseError::Unknown(w) => {
                let mut d = String::from_str("unknown command: ");
                d.append(w.as_str());
                d
            },
            ParseError::Usage(w) => {
                let mut d = String::from_str("wrong arguments for: ");
                d.append(w.as_str());
                d
            },
        }
    }
}

/// The diagnostic text for one parse failure.
pub open spec fn spec_diagnostic(e: ParseErrorModel) -> Seq<char> {
    match e {
        ParseErrorModel::Empty => "empty command line"@,
        ParseErrorModel::Unknown { word } => "unknown command: "@ + word,
        ParseErrorModel::Usage { word } => "wrong arguments for: "@ + word,
    }
}

/// The words that terminate the console.
pub open spec fn is_quit_word(t: Seq<char>) -> bool {
    t == "quit"@ || t == "exit"@ || t == "logout"@ || t == "q"@ || t == ":q!"@
}

/// What a token sequence parses to: each command form is matched
/// exactly, anything else is a distinct error.
pub open spec fn spec_parse(tokens: Seq<Seq<char>>) -> Result<CommandModel, ParseErrorModel> {
    if tokens.len() == 0 {
        Err(ParseErrorModel::Empty)
    } else {
        let t0 = tokens[0];
        if t0 == "get"@ {
            if tokens.len() == 2 && tokens[1] == "hosts"@ {
                Ok(CommandModel::GetHosts)
            } else if tokens.len() == 3 && tokens[1] == "inventory"@ {
                Ok(CommandModel::GetInventory { host_id: tokens[2] })
            } else if tokens.len() == 2 && tokens[1] == "claims"@ {
                Ok(CommandModel::GetClaims)
            } else {
                Err(ParseErrorModel::Usage { word: t0 })
            }
        } else if t0 == "call"@ {
            if tokens.len() >= 3 {
                Ok(CommandModel::Call {
                    actor_id: tokens[1],
                    operation: tokens[2],
                    data: tokens.skip(3),
                })
            } else {
                Err(ParseErrorModel::Usage { word: t0 })
            }
        } else if t0 == "link"@ {
            if tokens.len() == 4 {
                Ok(CommandModel::Link {
                    actor_id: tokens[1],
                    provider_id: tokens[2],
                    contract_id: tokens[3],
                })
            } else {
                Err(ParseErrorModel::Usage { word: t0 })
            }
        } else if t0 == "start"@ {
            if tokens.len() == 4 && tokens[1] == "actor"@ {
                Ok(CommandModel::StartActor { host_id: tokens[2], actor_ref: tokens[3] })
            } else if tokens.len() == 4 && tokens[1] == "provider"@ {
                Ok(CommandModel::StartProvider {
                    host_id: tokens[2],
                    provider_ref: tokens[3],
                    link_name: None,
                })
            } else if tokens.len() == 5 && tokens[1] == "provider"@ {
                Ok(CommandModel::StartProvider {
                    host_id: tokens[2],
                    provider_ref: tokens[3],
                    link_name: Some(tokens[4]),
                })
            } else {
                Err(ParseErrorModel::Usage { word: t0 })
            }
        } else if t0 == "stop"@ {
            if tokens.len() == 4 && tokens[1] == "actor"@ {
                Ok(CommandModel::StopActor { host_id: tokens[2], actor_ref: tokens[3] })
            } else if tokens.len() == 6 && tokens[1] == "provider"@ {
                Ok(CommandModel::StopProvider {
                    host_id: tokens[2],
                    provider_ref: tokens[3],
                    link_name: tokens[4],
                    contract_id: tokens[5],
                })
            } else {
                Err(ParseErrorModel::Usage { word: t0 })
            }
        } else if t0 == "clear"@ {
            if tokens.len() == 1 {
                Ok(CommandModel::Clear)
            } else {
                Err(ParseErrorModel::Usage { word: t0 })
            }
        } else if is_quit_word(t0) {
            if tokens.len() == 1 {
                Ok(CommandModel::Quit)
            } else {
                Err(ParseErrorModel::Usage { word: t0 })
            }
        } else {
            Err(ParseErrorModel::Unknown { word: t0 })
        }
    }
}

/// One parsed console command, carrying the typed command it maps to.
pub enum ReplCommand {
    Get(GetCommand),
    Call(CallCommand),
    Link(LinkCommand),
    Start(StartCommand),
    Stop(StopCommand),
    Clear,
    Quit,
}

impl ReplCommand {
    /// The command's place in the grammar's model.
    pub open spec fn model(&self) -> CommandModel {
        match self {
            ReplCommand::Get(GetCommand::Hosts(_)) => CommandModel::GetHosts,
            ReplCommand::Get(GetCommand::HostInventory(c)) => CommandModel::GetInventory {
                host_id: c.host_id@,
            },
            ReplCommand::Get(GetCommand::Claims(_)) => CommandModel::GetClaims,
            ReplCommand::Call(c) => CommandModel::Call {
                actor_id: c.actor_id@,
                operation: c.operation@,
                data: c.data.deep_view(),
            },
            ReplCommand::Link(c) => CommandModel::Link {
                actor_id: c.actor_id@,
                provider_id: c.provider_id@,
                contract_id: c.contract_id@,
            },
            ReplCommand::Start(StartCommand::Actor(c)) => CommandModel::StartActor {
                host_id: c.host_id@,
                actor_ref: c.actor_ref@,
            },
            ReplCommand::Start(StartCommand::Provider(c)) => CommandModel::StartProvider {
                host_id: c.host_id@,
                provider_ref: c.provider_ref@,
                link_name: match c.link_name {
                    Some(l) => Some(l@),
                    None => None,
                },
            },
            ReplCommand::Stop(StopCommand::Actor(c)) => CommandModel::StopActor {
                host_id: c.host_id@,
                actor_ref: c.actor_ref@,
            },
            ReplCommand::Stop(StopCommand::Provider(c)) => CommandModel::StopProvider {
                host_id: c.host_id@,
                provider_ref: c.provider_ref@,
                link_name: c.link_name@,
                contract_id: c.contract_id@,
            },
            ReplCommand::Clear => CommandModel::Clear,
            ReplCommand::Quit => CommandModel::Quit,
        }
    }

    /// Console commands connect with the default local options.
    pub open spec fn opts_are_default(&self) -> bool {
        match self {
            ReplCommand::Get(GetCommand::Hosts(c)) => c.opts.is_default_local(),
            ReplCommand::Get(GetCommand::HostInventory(c)) => c.opts.is_default_local(),
            ReplCommand::Get(GetCommand::Claims(c)) => c.opts.is_default_local(),
            ReplCommand::Call(c) => c.opts.is_default_local(),
            ReplCommand::Link(c) => c.opts.is_default_local(),
            ReplCommand::Start(StartCommand::Actor(c)) => c.opts.is_default_local(),
            ReplCommand::Start(StartCommand::Provider(c)) => c.opts.is_default_local(),
            ReplCommand::Stop(StopCommand::Actor(c)) => c.opts.is_default_local(),
            ReplCommand::Stop(StopCommand::Provider(c)) => c.opts.is_default_local(),
            ReplCommand::Clear => true,
            ReplCommand::Quit => true,
        }
    }
}

/// The model of a parse result.
pub open spec fn parse_result_model(
    r: Result<ReplCommand, ParseError>,
) -> Result<CommandModel, ParseErrorModel> {
    match r {
        Ok(c) => Ok(c.model()),
        Err(e) => Err(e.model()),
    }
}

/// Whether a parse result's command, if any, connects with the default
/// local options.
pub open spec fn parse_result_opts_default(r: Result<ReplCommand, ParseError>) -> bool {
    match r {
        Ok(c) => c.opts_are_default(),
        Err(_) => true,
    }
}

/// Parse one tokenized line against the grammar.
pub fn parse_tokens(tokens: &Vec<String>) -> (r: Result<ReplCommand, ParseError>)
    ensures
        parse_result_model(r) == spec_parse(tokens.deep_view()),
        parse_result_opts_default(r),
{
    let n = tokens.len();
    if n == 0 {
        return Err(ParseError::Empty);
    }
    let t0 = &tokens[0];
    if string_is(t0, "get") {
        if n == 2 && string_is(&tokens[1], "hosts") {
            Ok(ReplCommand::Get(GetCommand::Hosts(GetHostsCommand {
                opts: ConnectionOpts::default_local(),
            })))
        } else if n == 3 && string_is(&tokens[1], "inventory") {
            Ok(ReplCommand::Get(GetCommand::HostInventory(GetHostInventoryCommand {
                opts: ConnectionOpts::default_local(),
                host_id: tokens[2].clone(),
            })))
        } else if n == 2 && string_is(&tokens[1], "claims") {
            Ok(ReplCommand::Get(GetCommand::Claims(GetClaimsCommand {
                opts: ConnectionOpts::default_local(),
            })))
        } else {
            Err(ParseError::Usage(t0.clone()))
        }
    } else if string_is(t0, "call") {
        if n >= 3 {
            let mut data: Vec<String> = Vec::new();
            proof {
                assert(data.deep_view() =~= tokens.deep_view().subrange(3, 3));
            }
            let mut i: usize = 3;
            while i < n
                invariant
                    3 <= i <= n,
                    n == tokens.len(),
                    data.deep_view() == tokens.deep_view().subrange(3, i as int),
                decreases n - i,
            {
                let ghost dv0 = data.deep_view();
                data.push(tokens[i].clone());
                proof {
                    assert(data.deep_view() =~= dv0.push(tokens@[i as int]@));
                    assert(data.deep_view() =~= tokens.deep_view().subrange(3, i + 1));
                }
                i = i + 1;
            }
            proof {
                assert(data.deep_view() =~= tokens.deep_view().skip(3));
            }
            Ok(ReplCommand::Call(CallCommand {
                opts: ConnectionOpts::default_local(),
                actor_id: tokens[1].clone(),
                operation: tokens[2].clone(),
                data,
            }))
        } else {
            Err(ParseError::Usage(t0.clone()))
        }
    } else if string_is(t0, "link") {
        if n == 4 {
            Ok(ReplCommand::Link(LinkCommand {
                opts: ConnectionOpts::default_local(),
                actor_id: tokens[1].clone(),
                provider_id: tokens[2].clone(),
                contract_id: tokens[3].clone(),
            }))
        } else {
            Err(ParseError::Usage(t0.clone()))
        }
    } else if string_is(t0, "start") {
        if n == 4 && string_is(&tokens[1], "actor") {
            Ok(ReplCommand::Start(StartCommand::Actor(ActorCommand {
                opts: ConnectionOpts::default_local(),
                host_id: tokens[2].clone(),
                actor_ref: tokens[3].clone(),
            })))
        } else if n == 4 && string_is(&tokens[1], "provider") {
            Ok(ReplCommand::Start(StartCommand::Provider(StartProviderCommand {
                opts: ConnectionOpts::default_local(),
                host_id: tokens[2].clone(),
                provider_ref: tokens[3].clone(),
                link_name: None,
            })))
        } else if n == 5 && string_is(&tokens[1], "provider") {
            Ok(ReplCommand::Start(StartCommand::Provider(StartProviderCommand {
                opts: ConnectionOpts::default_local(),
                host_id: tokens[2].clone(),
                provider_ref: tokens[3].clone(),
                link_name: Some(tokens[4].clone()),
            })))
        } else {
            Err(ParseError::Usage(t0.clone()))
        }
    } else if string_is(t0, "stop") {
        if n == 4 && string_is(&tokens[1], "actor") {
            Ok(ReplCommand::Stop(StopCommand::Actor(ActorCommand {
                opts: ConnectionOpts::default_local(),
                host_id: tokens[2].clone(),
                actor_ref: tokens[3].clone(),
            })))
        } else if n == 6 && string_is(&tokens[1], "provider") {
            Ok(ReplCommand::Stop(StopCommand::Provider(StopProviderCommand {
                opts: ConnectionOpts::default_local(),
                host_id: tokens[2].clone(),
                provider_ref: tokens[3].clone(),
                link_name: tokens[4].clone(),
                contract_id: tokens[5].clone(),
            })))
        } else {
            Err(ParseError::Usage(t0.clone()))
        }
    } else if string_is(t0, "clear") {
        if n == 1 {
            Ok(ReplCommand::Clear)
        } else {
            Err(ParseError::Usage(t0.clone()))
        }
    } else if string_is(t0, "quit") || string_is(t0, "exit") || string_is(t0, "logout")
        || string_is(t0, "q") || string_is(t0, ":q!") {
        if n == 1 {
            Ok(ReplCommand::Quit)
        } else {
            Err(ParseError::Usage(t0.clone()))
        }
    } else {
        Err(ParseError::Unknown(t0.clone()))
    }
}

/// Tokenize and parse one submitted line.
pub fn parse_line(line: &Vec<char>) -> (r: Result<ReplCommand, ParseError>)
    ensures
        parse_result_model(r) == spec_parse(spec_tokens(line@)),
        parse_result_opts_default(r),
{
    let tokens = tokenize(line);
    parse_tokens(&tokens)
}

} // verus!

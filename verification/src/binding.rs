use vstd::prelude::*;
use crate::client::{PcscAction, PcscCmd, CmdView, cmd_uid_text, cmd_info_text};
use crate::error::{ScardError, ErrorView, error_view};

verus! {

/// The configuration the binding keeps: its identifier, the reader
/// configuration it hands to the reader library, and its verbosity.
pub struct BindingCfg<N> {
    pub uid: String,
    pub nfc: N,
    pub verbosity: i32,
}

/// What the binding sets up from its configuration: the configuration it
/// keeps, and the name, description and permission of the API it declares.
pub struct BindingPlan<N> {
    pub config: BindingCfg<N>,
    pub api: String,
    pub info: String,
    pub permission: String,
}

/// The binding identifier used where the configuration names none.
pub const DEFAULT_UID: &'static str = "nfc";

/// The permission asked for where the configuration names none.
pub const DEFAULT_PERMISSION: &'static str = "acl:nfc:client";

/// The error of a configuration without a reader configuration.
pub open spec fn nfc_config_error() -> ErrorView {
    error_view("nfc-config-fail"@, "mandatory nfc' config missing"@)
}

/// The value of an optional text, or a default.
pub open spec fn text_or(value: Option<String>, default: Seq<char>) -> Seq<char> {
    match value {
        Some(s) => s@,
        None => default,
    }
}

/// Derives what the binding sets up from the entries of its configuration
/// that are there and of the right type: the identifier defaults to "nfc";
/// the API name to the identifier; the description to nothing; the
/// permission to "acl:nfc:client"; the verbosity to zero; and a missing
/// reader configuration is an error.
pub fn binding_init<N>(
    uid: Option<String>,
    api: Option<String>,
    info: Option<String>,
    permission: Option<String>,
    nfc: Option<N>,
    verbosity: Option<i32>,
) -> (res: Result<BindingPlan<N>, ScardError>)
    ensures
        nfc is None ==> res is Err && res->Err_0@ == nfc_config_error(),
        nfc is Some ==> res is Ok && ({
            let plan = res->Ok_0;
            let uid_text = text_or(uid, DEFAULT_UID@);
            &&& plan.config.uid@ == uid_text
            &&& plan.config.nfc == nfc->0
            &&& plan.config.verbosity == (match verbosity { Some(v) => v, None => 0i32 })
            &&& plan.api@ == text_or(api, uid_text)
            &&& plan.info@ == text_or(info, Seq::empty())
            &&& plan.permission@ == text_or(permission, DEFAULT_PERMISSION@)
        }),
{
    let uid = match uid {
        Some(v) => v,
        None => String::from_str(DEFAULT_UID),
    };
    let api = match api {
        Some(v) => v,
        None => uid.clone(),
    };
    let info = match info {
        Some(v) => v,
        None => String::new(),
    };
    let permission = match permission {
        Some(v) => v,
        None => String::from_str(DEFAULT_PERMISSION),
    };
    let nfc = match nfc {
        Some(v) => v,
        None => {
            return Err(ScardError::new("nfc-config-fail", String::from_str("mandatory nfc' config missing")));
        },
    };
    let verbosity = match verbosity {
        Some(v) => v,
        None => 0,
    };
    Ok(BindingPlan { config: BindingCfg { uid, nfc, verbosity }, api, info, permission })
}

/// What a command verb runs when it is called.
#[derive(Debug, Copy, Clone, PartialEq, Eq, Structural)]
pub enum VerbKind {
    Read,
    Write,
    Uuid,
}

/// The verb declared for a reader command: named by the command's
/// identifier, described by its description, with its usage text, the kind
/// of verb, and the command itself.
pub struct VerbSpec {
    pub name: String,
    pub info: String,
    pub usage: String,
    pub kind: VerbKind,
    pub cmd: PcscCmd,
}

/// The kind of verb a command action gets: anything but a read or a write
/// only reads the card's UUID.
pub open spec fn verb_kind_of(action: PcscAction) -> VerbKind {
    match action {
        PcscAction::READ => VerbKind::Read,
        PcscAction::WRITE => VerbKind::Write,
        PcscAction::UUID => VerbKind::Uuid,
    }
}

/// The usage text of a verb: write verbs take a value, the others nothing.
pub open spec fn verb_usage_of(kind: VerbKind) -> Seq<char> {
    if kind == VerbKind::Write { "value"@ } else { "none"@ }
}

/// A read command gets a read verb, a write command a write verb taking a
/// value, and a UUID command a UUID verb; only write verbs take a value.
pub proof fn lemma_verb_of_action(action: PcscAction)
    ensures
        action == PcscAction::READ ==> verb_kind_of(action) == VerbKind::Read,
        action == PcscAction::WRITE ==> verb_kind_of(action) == VerbKind::Write,
        action == PcscAction::UUID ==> verb_kind_of(action) == VerbKind::Uuid,
        verb_usage_of(VerbKind::Write) == "value"@,
        verb_usage_of(VerbKind::Read) == "none"@,
        verb_usage_of(VerbKind::Uuid) == "none"@,
{
}

/// Entries present in the configuration are taken as they are; absent ones
/// take the default.
pub proof fn lemma_text_or(value: Option<String>, default: Seq<char>)
    ensures
        value is Some ==> text_or(value, default) == value->0@,
        value is None ==> text_or(value, default) == default,
{
}

/// The verb declared for a command, as mathematical values.
pub open spec fn verb_spec_matches(verb: VerbSpec, cmd: CmdView) -> bool {
    &&& verb.name@ == cmd_uid_text(cmd)
    &&& verb.info@ == cmd_info_text(cmd)
    &&& verb.kind == verb_kind_of(cmd.action)
    &&& verb.usage@ == verb_usage_of(verb.kind)
    &&& verb.cmd@ == cmd
}

impl VerbSpec {
    /// The verb declared for a reader command.
    pub fn for_command(cmd: PcscCmd) -> (res: VerbSpec)
        ensures
            verb_spec_matches(res, cmd@),
    {
        let info = cmd.get_info();
        let name = cmd.get_uid();
        let (kind, usage) = match cmd.get_action() {
            PcscAction::READ => (VerbKind::Read, "none"),
            PcscAction::WRITE => (VerbKind::Write, "value"),
            PcscAction::UUID => (VerbKind::Uuid, "none"),
        };
        VerbSpec { name, info, usage: String::from_str(usage), kind, cmd }
    }
}

/// Declares the verb of the next command of the reader configuration, from
/// what looking it up gave: a command found gets its verb appended; a failed
/// lookup ends the declaration with its error and appends nothing.
pub fn add_command_verb(verbs: &mut Vec<VerbSpec>, lookup: Result<PcscCmd, ScardError>) -> (res: Result<(), ScardError>)
    ensures
        lookup is Ok ==> res is Ok && final(verbs)@.len() == old(verbs)@.len() + 1
            && final(verbs)@.subrange(0, old(verbs)@.len() as int) == old(verbs)@
            && verb_spec_matches(final(verbs)@[old(verbs)@.len() as int], lookup->Ok_0@),
        lookup is Err ==> res is Err && res->Err_0@ == lookup->Err_0@ && final(verbs)@ == old(verbs)@,
{
    match lookup {
        Ok(cmd) => {
            verbs.push(VerbSpec::for_command(cmd));
            Ok(())
        },
        Err(e) => Err(e),
    }
}

/// The verbs declared for the commands of the reader configuration, in
/// their order, from what looking each of them up gave: verbs are declared
/// up to the first lookup that failed, which ends the declaration with its
/// error; the verbs declared before it stay declared.
pub fn command_verbs(lookups: Vec<Result<PcscCmd, ScardError>>) -> (res: (Vec<VerbSpec>, Option<ScardError>))
    ensures
        res.0@.len() <= lookups@.len(),
        forall|i: int| 0 <= i < res.0@.len() ==> #[trigger] lookups@[i] is Ok,
        forall|i: int| 0 <= i < res.0@.len() ==> verb_spec_matches(#[trigger] res.0@[i], lookups@[i]->Ok_0@),
        res.1 is None ==> res.0@.len() == lookups@.len(),
        res.1 is Some ==> res.0@.len() < lookups@.len() && lookups@[res.0@.len() as int] is Err
            && res.1->0@ == lookups@[res.0@.len() as int]->Err_0@,
{
    let ghost orig = lookups@;
    let mut verbs: Vec<VerbSpec> = Vec::new();
    let mut rest = lookups;
    while rest.len() > 0
        invariant
            orig == lookups@,
            rest@.len() + verbs@.len() == orig.len(),
            rest@ == orig.subrange(verbs@.len() as int, orig.len() as int),
            forall|i: int| 0 <= i < verbs@.len() ==> #[trigger] orig[i] is Ok,
            forall|i: int| 0 <= i < verbs@.len() ==> verb_spec_matches(#[trigger] verbs@[i], orig[i]->Ok_0@),
        decreases rest@.len(),
    {
        let ghost i = verbs@.len() as int;
        let next = rest.remove(0);
        assert(next == orig[i]);
        assert(rest@ == orig.subrange(i + 1, orig.len() as int));
        let ghost before = verbs@;
        match add_command_verb(&mut verbs, next) {
            Ok(()) => {
                assert(orig[i] is Ok);
                assert forall|j: int| 0 <= j < verbs@.len() implies verb_spec_matches(#[trigger] verbs@[j], orig[j]->Ok_0@) by {
                    if j < i {
                        assert(verbs@.subrange(0, i)[j] == verbs@[j]);
                        assert(verb_spec_matches(before[j], orig[j]->Ok_0@));
                    }
                }
            },
            Err(e) => {
                return (verbs, Some(e));
            },
        }
    }
    (verbs, None)
}

/// The verb through which clients subscribe to the reader's card events.
pub struct MonitoringVerb {
    pub name: String,
    pub info: String,
    pub actions: String,
}

/// The monitoring verb: "monitoring", with the actions START and STOP.
pub fn monitoring_verb() -> (res: MonitoringVerb)
    ensures
        res.name@ == "monitoring"@,
        res.info@ == "subscribe to scard transaction event"@,
        res.actions@ == "['START','STOP']"@,
{
    MonitoringVerb {
        name: String::from_str("monitoring"),
        info: String::from_str("subscribe to scard transaction event"),
        actions: String::from_str("['START','STOP']"),
    }
}

} // verus!

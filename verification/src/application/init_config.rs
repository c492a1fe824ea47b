//! Which configuration files to write, and what to write into them.
use crate::application::config::{
    system_config_toml_path, user_config_toml_path_for, InitScope,
};
use crate::text::{
    cat, cat3, cat4, decimal, decimal_text, lemma_kept, lowered, not_blank, opt_text, same, to_lower,
    trim, trimmed,
};
use crate::paths::{join_path, joined_path, parent, parent_of};
use vstd::prelude::*;

verus! {

broadcast use vstd::seq::group_seq_axioms;

/// Where configuration files stand.
#[derive(Debug)]
pub struct InitPaths {
    pub user_config_toml: Option<String>,
    pub system_config_toml: String,
}

impl InitPaths {
    /// The places of configuration files for a user with that home.
    pub fn from_environment(home: Option<&str>) -> (r: Self)
        ensures
            r.system_config_toml@ == "/etc/reclaw/config.toml"@,
            opt_text(r.user_config_toml) == match home {
                Some(h) => Some(joined_path(h@, ".reclaw/config.toml"@)),
                None => None,
            },
    {
        InitPaths {
            user_config_toml: user_config_toml_path_for(home),
            system_config_toml: system_config_toml_path(),
        }
    }
}

/// Whose configuration a file is.
#[derive(Debug, Clone, Copy, PartialEq, Eq, Structural)]
pub enum TargetScope {
    User,
    System,
}

impl TargetScope {
    pub open spec fn name(self) -> Seq<char> {
        match self {
            TargetScope::User => "user"@,
            TargetScope::System => "system"@,
        }
    }

    /// The name of the scope.
    pub fn label(self) -> (r: &'static str)
        ensures
            r@ == self.name(),
    {
        match self {
            TargetScope::User => "user",
            TargetScope::System => "system",
        }
    }
}

/// A configuration file to write.
#[derive(Debug)]
pub struct ConfigTarget {
    pub scope: TargetScope,
    pub path: String,
}

/// What came of a configuration file.
#[derive(Debug, Clone, Copy, PartialEq, Eq, Structural)]
pub enum WriteOutcome {
    Created,
    Overwritten,
    Skipped,
}

/// The files that a scope asks for: the system's before the user's. Nothing where the user's is
/// asked for and there is none.
pub open spec fn targets_for(scope: InitScope, user: Option<Seq<char>>, system: Seq<char>) -> Option<
    Seq<(TargetScope, Seq<char>)>,
> {
    match scope {
        InitScope::System => Some(seq![(TargetScope::System, system)]),
        InitScope::User => match user {
            Some(u) => Some(seq![(TargetScope::User, u)]),
            None => None,
        },
        InitScope::Both => match user {
            Some(u) => Some(seq![(TargetScope::System, system), (TargetScope::User, u)]),
            None => None,
        },
    }
}

/// What a list of files says.
pub open spec fn target_models(targets: Seq<ConfigTarget>) -> Seq<(TargetScope, Seq<char>)> {
    Seq::new(targets.len(), |i: int| (targets[i].scope, targets[i].path@))
}

/// The files that a scope asks for.
pub fn resolve_targets(scope: InitScope, paths: &InitPaths) -> (r: Result<
    Vec<ConfigTarget>,
    String,
>)
    ensures
        match targets_for(scope, opt_text(paths.user_config_toml), paths.system_config_toml@) {
            Some(targets) => r is Ok && target_models(r->Ok_0@) == targets,
            None => r is Err && r->Err_0@
                == "unable to resolve user home directory for config path"@,
        },
{
    let mut targets: Vec<ConfigTarget> = Vec::new();
    if !matches!(scope, InitScope::User) {
        targets.push(
            ConfigTarget { scope: TargetScope::System, path: paths.system_config_toml.clone() },
        );
    }
    if !matches!(scope, InitScope::System) {
        match &paths.user_config_toml {
            Some(user) => {
                targets.push(ConfigTarget { scope: TargetScope::User, path: user.clone() });
            },
            None => {
                return Err("unable to resolve user home directory for config path".to_owned());
            },
        }
    }
    proof {
        let expected = targets_for(
            scope,
            opt_text(paths.user_config_toml),
            paths.system_config_toml@,
        )->0;
        assert(target_models(targets@) =~= expected);
    }
    Ok(targets)
}

/// What to do about a configuration file: with it, and what to say then.
#[derive(Debug)]
pub enum ConfigStep {
    /// Leave the file and say so.
    Skip(String),
    /// Write the file, then say so.
    Write(WriteOutcome, String),
    /// Ask first.
    Ask(String),
}

/// The file is written anew, and that is said.
pub open spec fn creates(step: ConfigStep, target: ConfigTarget) -> bool {
    step matches ConfigStep::Write(WriteOutcome::Created, message) && message@ == target.scope.name()
        + " config created at "@ + target.path@
}

/// What to do about a configuration file: one that is there is left unless it is forced, and one
/// that is not is created, where someone can be asked after asking.
pub fn ensure_config_file(target: &ConfigTarget, present: bool, force: bool, interactive: bool) -> (r:
    ConfigStep)
    ensures
        if present && !force {
            r matches ConfigStep::Skip(message) && message@ == target.scope.name()
                + " config already exists at "@ + target.path@ + "; skipping"@
        } else if present {
            r matches ConfigStep::Write(WriteOutcome::Overwritten, message) && message@
                == target.scope.name() + " config overwritten at "@ + target.path@
        } else if interactive {
            r matches ConfigStep::Ask(question) && question@ == "Create "@ + target.scope.name()
                + " config at "@ + target.path@ + "? [Y/n]: "@
        } else {
            creates(r, *target)
        },
{
    let label = target.scope.label();
    let path = target.path.as_str();
    if present {
        if !force {
            return ConfigStep::Skip(cat4(label, " config already exists at ", path, "; skipping"));
        }
        return ConfigStep::Write(
            WriteOutcome::Overwritten,
            cat3(label, " config overwritten at ", path),
        );
    }
    if interactive {
        let head = cat4("Create ", label, " config at ", path);
        return ConfigStep::Ask(cat(head.as_str(), "? [Y/n]: "));
    }
    ConfigStep::Write(WriteOutcome::Created, cat3(label, " config created at ", path))
}

/// What to do about a configuration file after the question about it was answered.
pub fn after_answer(target: &ConfigTarget, approved: bool) -> (r: ConfigStep)
    ensures
        if approved {
            creates(r, *target)
        } else {
            r matches ConfigStep::Skip(message) && message@ == target.scope.name()
                + " config creation declined for "@ + target.path@
        },
{
    let label = target.scope.label();
    let path = target.path.as_str();
    if approved {
        ConfigStep::Write(WriteOutcome::Created, cat3(label, " config created at ", path))
    } else {
        ConfigStep::Skip(cat3(label, " config creation declined for ", path))
    }
}

/// What an answer means; nothing where it must be given again.
pub open spec fn answer_of(input: Seq<char>, default_yes: bool) -> Option<bool> {
    let a = lowered(trimmed(input));
    if a.len() == 0 {
        Some(default_yes)
    } else if a == "y"@ || a == "yes"@ {
        Some(true)
    } else if a == "n"@ || a == "no"@ {
        Some(false)
    } else {
        None
    }
}

/// What an answer to a question means; nothing where it must be asked again.
pub fn prompt_yes_no(input: &str, default_yes: bool) -> (r: Option<bool>)
    ensures
        r == answer_of(input@, default_yes),
{
    let normalized = to_lower(trim(input).as_str());
    let answer = normalized.as_str();
    if answer.is_empty() {
        Some(default_yes)
    } else if same(answer, "y") || same(answer, "yes") {
        Some(true)
    } else if same(answer, "n") || same(answer, "no") {
        Some(false)
    } else {
        None
    }
}

/// The number of outcomes of one sort.
pub open spec fn tally(outcomes: Seq<WriteOutcome>, outcome: WriteOutcome) -> nat
    decreases outcomes.len(),
{
    if outcomes.len() == 0 {
        0
    } else {
        tally(outcomes.drop_last(), outcome) + (if outcomes.last() == outcome {
            1nat
        } else {
            0
        })
    }
}

/// The report on what came of all files.
pub fn summary(outcomes: &Vec<WriteOutcome>) -> (r: String)
    ensures
        r@ == "init-config complete (created="@ + decimal(
            tally(outcomes@, WriteOutcome::Created),
        ) + ", overwritten="@ + decimal(tally(outcomes@, WriteOutcome::Overwritten))
            + ", skipped="@ + decimal(tally(outcomes@, WriteOutcome::Skipped)) + ")"@,
{
    let mut created: u64 = 0;
    let mut overwritten: u64 = 0;
    let mut skipped: u64 = 0;
    let n: usize = outcomes.len();
    let mut i: usize = 0;
    while i < n
        invariant
            i <= n,
            n == outcomes@.len(),
            created == tally(outcomes@.take(i as int), WriteOutcome::Created),
            overwritten == tally(outcomes@.take(i as int), WriteOutcome::Overwritten),
            skipped == tally(outcomes@.take(i as int), WriteOutcome::Skipped),
            created + overwritten + skipped <= i,
        decreases outcomes@.len() - i,
    {
        proof {
            let t = outcomes@.take(i + 1);
            assert(t.drop_last() =~= outcomes@.take(i as int));
            assert(t.last() == outcomes@[i as int]);
        }
        match outcomes[i] {
            WriteOutcome::Created => {
                created = created + 1;
            },
            WriteOutcome::Overwritten => {
                overwritten = overwritten + 1;
            },
            WriteOutcome::Skipped => {
                skipped = skipped + 1;
            },
        }
        i = i + 1;
    }
    assert(outcomes@.take(i as int) =~= outcomes@);
    let head = cat4(
        "init-config complete (created=",
        decimal_text(created).as_str(),
        ", overwritten=",
        decimal_text(overwritten).as_str(),
    );
    cat4(head.as_str(), ", skipped=", decimal_text(skipped).as_str(), ")")
}

/// What a base configuration file says before the path of the database.
pub const TEMPLATE_HEAD: &'static str =
    "# Reclaw Core static runtime configuration\n# Compatible with OpenClaw protocol semantics.\n# Precedence: defaults < static files < env/CLI.\n#\n# Supported static file search order:\n#   1. /etc/reclaw/config.toml\n#   2. /etc/reclaw/config.json\n#   3. ~/.reclaw/config.toml\n#   4. ~/.reclaw/config.json\n\nhost = \"127.0.0.1\"\nport = 18789\ncronEnabled = true\nlogFilter = \"info\"\njsonLogs = false\ndbPath = \"";

/// What a base configuration file says after the path of the database.
pub const TEMPLATE_TAIL: &'static str =
    "\"\n\n# Set only one of gatewayToken or gatewayPassword.\n# gatewayToken = \"replace-me\"\n# gatewayPassword = \"replace-me\"\n\n# Optional bearer token for /channels/inbound (recommended when exposed).\n# channelsInboundToken = \"replace-me\"\n\n# Telegram webhook integration (optional).\n# telegramWebhookSecret = \"replace-me\"\n# telegramBotToken = \"replace-me\"\n# telegramApiBaseUrl = \"https://api.telegram.org\"\n\n# Additional channel webhook tokens (Authorization: Bearer <token>).\n# discordWebhookToken = \"replace-me\"\n# slackWebhookToken = \"replace-me\"\n# signalWebhookToken = \"replace-me\"\n# whatsappWebhookToken = \"replace-me\"\n\n# HTTP compatibility endpoints (disabled by default).\n# openaiChatCompletionsEnabled = true\n# openresponsesEnabled = true\n";

/// The database that a base configuration file names.
pub open spec fn suggested_db(target: ConfigTarget) -> Seq<char> {
    match target.scope {
        TargetScope::System => "/var/lib/reclaw/reclaw.db"@,
        TargetScope::User => match parent_of(target.path@) {
            Some(dir) => joined_path(dir, "reclaw.db"@),
            None => "./.reclaw-core/reclaw.db"@,
        },
    }
}

/// What to write into a base configuration file.
pub fn base_config_template(target: &ConfigTarget) -> (r: String)
    ensures
        r@ == TEMPLATE_HEAD@ + suggested_db(*target) + TEMPLATE_TAIL@,
{
    cat3(TEMPLATE_HEAD, suggested_db_path(target).as_str(), TEMPLATE_TAIL)
}

/// The database that a base configuration file names.
pub fn suggested_db_path(target: &ConfigTarget) -> (r: String)
    ensures
        r@ == suggested_db(*target),
{
    match target.scope {
        TargetScope::System => "/var/lib/reclaw/reclaw.db".to_owned(),
        TargetScope::User => match parent(target.path.as_str()) {
            Some(dir) => join_path(dir.as_str(), "reclaw.db"),
            None => "./.reclaw-core/reclaw.db".to_owned(),
        },
    }
}

/// A file that is there is never written unless that is forced, and one that is not there is written
/// at once exactly where nobody is asked; where somebody is asked it is written exactly where they
/// agree.
pub proof fn law_files_are_not_overwritten(
    target: &ConfigTarget,
    present: bool,
    force: bool,
    interactive: bool,
    approved: bool,
    step: ConfigStep,
    then_step: ConfigStep,
)
    requires
        call_ensures(ensure_config_file, (target, present, force, interactive), step),
        call_ensures(after_answer, (target, approved), then_step),
    ensures
        step is Skip <==> present && !force,
        present && force ==> step matches ConfigStep::Write(WriteOutcome::Overwritten, _),
        step is Ask <==> !present && interactive,
        !present && !interactive ==> step matches ConfigStep::Write(WriteOutcome::Created, _),
        approved ==> then_step matches ConfigStep::Write(WriteOutcome::Created, _),
        !approved ==> then_step is Skip,
{
}

/// The system's file is written before the user's; the user's only where the user has a home.
pub proof fn law_files_to_write(scope: InitScope, paths: &InitPaths, r: Result<Vec<ConfigTarget>, String>)
    requires
        call_ensures(resolve_targets, (scope, paths), r),
    ensures
        r is Ok <==> scope == InitScope::System || paths.user_config_toml is Some,
        r is Ok && scope == InitScope::System ==> r->Ok_0@.len() == 1 && r->Ok_0@[0].scope
            == TargetScope::System && r->Ok_0@[0].path@ == paths.system_config_toml@,
        r is Ok && scope == InitScope::User ==> r->Ok_0@.len() == 1 && r->Ok_0@[0].scope
            == TargetScope::User && r->Ok_0@[0].path@ == paths.user_config_toml->0@,
        r is Ok && scope == InitScope::Both ==> r->Ok_0@.len() == 2 && r->Ok_0@[0].scope
            == TargetScope::System && r->Ok_0@[0].path@ == paths.system_config_toml@ && r->Ok_0@[1].scope
            == TargetScope::User && r->Ok_0@[1].path@ == paths.user_config_toml->0@,
{
    if r is Ok {
        let t = target_models(r->Ok_0@);
        assert(t.len() == r->Ok_0@.len());
        assert(forall|i: int| 0 <= i < t.len() ==> #[trigger] t[i] == (r->Ok_0@[i].scope, r->Ok_0@[i].path@));
        match scope {
            InitScope::Both => {
                assert(t[0] == (TargetScope::System, paths.system_config_toml@));
                assert(t[1] == (TargetScope::User, paths.user_config_toml->0@));
            },
            InitScope::System => {
                assert(t[0] == (TargetScope::System, paths.system_config_toml@));
            },
            InitScope::User => {
                assert(t[0] == (TargetScope::User, paths.user_config_toml->0@));
            },
        }
    }
}

/// An answer of `y` or `yes` agrees and one of `n` or `no` does not, in small or capital letters; a
/// blank one is the default, and any other must be given again.
pub proof fn law_answers(input: &str, default_yes: bool, r: Option<bool>)
    requires
        call_ensures(prompt_yes_no, (input, default_yes), r),
    ensures
        !not_blank(input@) <==> trimmed(input@).len() == 0,
        !not_blank(input@) ==> r == Some(default_yes),
        not_blank(input@) ==> {
            let word = lowered(trimmed(input@));
            &&& r == Some(true) <==> word == "y"@ || word == "yes"@
            &&& r == Some(false) <==> word == "n"@ || word == "no"@
        },
{
    lemma_kept(input@);
    reveal_strlit("y");
    reveal_strlit("yes");
    reveal_strlit("n");
    reveal_strlit("no");
    assert("y"@[0] == 'y' && "yes"@[0] == 'y' && "n"@[0] == 'n' && "no"@[0] == 'n');
}

/// Each outcome is counted once, under its own name.
pub proof fn law_outcomes_are_counted(outcomes: Seq<WriteOutcome>, next: WriteOutcome, sort: WriteOutcome)
    ensures
        tally(Seq::<WriteOutcome>::empty(), sort) == 0,
        tally(outcomes.push(next), sort) == tally(outcomes, sort) + (if next == sort {
            1nat
        } else {
            0
        }),
{
    assert(outcomes.push(next).drop_last() =~= outcomes);
}

/// The configuration of the system has its place, and that of a user stands under their home.
pub proof fn law_places_of_configurations(home: Option<&str>, name: &str, below: String, r: InitPaths)
    requires
        call_ensures(InitPaths::from_environment, (home,), r),
        name@ == ".reclaw/config.toml"@,
        home is Some ==> call_ensures(crate::paths::join_path, (home->0, name), below),
    ensures
        r.system_config_toml@ == "/etc/reclaw/config.toml"@,
        r.user_config_toml is Some <==> home is Some,
        home is Some ==> r.user_config_toml->0@ == below@,
{
}

} // verus!

//! The targets that the engines were run against, and what their own logs tell of failures.

pub mod disease_sh;
pub mod gitlab;

use crate::text::{
    after_first, before_first, lemma_split_at_first, occurs_in, same_text, split_once,
};
use vstd::prelude::*;
use vstd::string::*;

verus! {

/// The targets under test, each in one of two deployments.
#[derive(Debug, Clone, Copy, PartialEq, Eq, Structural)]
pub enum Target {
    AgeOfEmpires2Api(TargetKind),
    CcccatalogApi(TargetKind),
    Covid19JapanWebApi(TargetKind),
    DiseaseSh(TargetKind),
    GitLab(TargetKind),
    HttpBin(TargetKind),
    JupyterServer(TargetKind),
    JupyterHub(TargetKind),
    MailHog(TargetKind),
    OpenFec(TargetKind),
    OpenTopoData(TargetKind),
    OttoParser(TargetKind),
    PslabWebapp(TargetKind),
    Pulpcore(TargetKind),
    RequestBaskets(TargetKind),
    RestlerDemo(TargetKind),
    Worklog(TargetKind),
}

/// How a target is deployed.
#[derive(Debug, Clone, Copy, PartialEq, Eq, Structural)]
pub enum TargetKind {
    Default,
    Linked,
}

/// Why a text names no target.
#[derive(Debug, Clone, PartialEq, Eq)]
pub enum TargetError {
    UnknownTarget(String),
}

impl TargetError {
    /// The text that was not recognized.
    pub open spec fn token(self) -> Seq<char> {
        match self {
            TargetError::UnknownTarget(token) => token@,
        }
    }

    /// The error in words: that the target is unknown, and the text that was given.
    pub fn to_string(&self) -> (text: String)
        ensures
            text@ == "Unknown target: "@ + self.token(),
    {
        match self {
            TargetError::UnknownTarget(token) => "Unknown target: ".to_owned().concat(
                token.as_str(),
            ),
        }
    }
}

/// The deployment that a text names.
pub open spec fn kind_named(name: Seq<char>) -> Option<TargetKind> {
    if name == "Default"@ {
        Some(TargetKind::Default)
    } else if name == "Linked"@ {
        Some(TargetKind::Linked)
    } else {
        None
    }
}

/// The target of the given deployment that a text names.
pub open spec fn target_named(name: Seq<char>, kind: TargetKind) -> Option<Target> {
    if name == "age_of_empires_2_api"@ {
        Some(Target::AgeOfEmpires2Api(kind))
    } else if name == "cccatalog_api"@ {
        Some(Target::CcccatalogApi(kind))
    } else if name == "covid19_japan_web_api"@ {
        Some(Target::Covid19JapanWebApi(kind))
    } else if name == "disease_sh"@ {
        Some(Target::DiseaseSh(kind))
    } else if name == "gitlab"@ {
        Some(Target::GitLab(kind))
    } else if name == "httpbin"@ {
        Some(Target::HttpBin(kind))
    } else if name == "jupyter_server"@ {
        Some(Target::JupyterServer(kind))
    } else if name == "jupyterhub"@ {
        Some(Target::JupyterHub(kind))
    } else if name == "mailhog"@ {
        Some(Target::MailHog(kind))
    } else if name == "open_fec"@ {
        Some(Target::OpenFec(kind))
    } else if name == "opentopodata"@ {
        Some(Target::OpenTopoData(kind))
    } else if name == "otto_parser"@ {
        Some(Target::OttoParser(kind))
    } else if name == "pslab_webapp"@ {
        Some(Target::PslabWebapp(kind))
    } else if name == "pulpcore"@ {
        Some(Target::Pulpcore(kind))
    } else if name == "request_baskets"@ {
        Some(Target::RequestBaskets(kind))
    } else if name == "restler_demo"@ {
        Some(Target::RestlerDemo(kind))
    } else if name == "worklog"@ {
        Some(Target::Worklog(kind))
    } else {
        None
    }
}

/// What reading a token gives. A token is `name:deployment`, cut at its first colon. The
/// deployment is read first, and an unknown one is handed back in the error; for any other
/// fault the error holds the whole token.
pub open spec fn parsed(token: Seq<char>) -> Result<Target, Seq<char>> {
    if occurs_in(token, ":"@) {
        match kind_named(after_first(token, ":"@)) {
            Some(kind) => match target_named(before_first(token, ":"@), kind) {
                Some(target) => Ok(target),
                None => Err(token),
            },
            None => Err(after_first(token, ":"@)),
        }
    } else {
        Err(token)
    }
}

/// The result of reading a token, the error as the text it holds.
pub open spec fn parse_view<T>(result: Result<T, TargetError>) -> Result<T, Seq<char>> {
    match result {
        Ok(value) => Ok(value),
        Err(error) => Err(error.token()),
    }
}

impl TargetKind {
    /// The name of the deployment.
    pub open spec fn name(self) -> Seq<char> {
        match self {
            TargetKind::Default => "Default"@,
            TargetKind::Linked => "Linked"@,
        }
    }

    /// The name of the deployment.
    pub fn as_str(&self) -> (name: &'static str)
        ensures
            name@ == self.name(),
    {
        match self {
            TargetKind::Default => "Default",
            TargetKind::Linked => "Linked",
        }
    }

    /// The name of the deployment as a text of its own.
    pub fn to_string(&self) -> (name: String)
        ensures
            name@ == self.name(),
    {
        self.as_str().to_owned()
    }

    /// The deployment that a text names. A text that names none is handed back in the error.
    pub fn parse(name: &str) -> (result: Result<TargetKind, TargetError>)
        ensures
            parse_view(result) == match kind_named(name@) {
                Some(kind) => Ok::<TargetKind, Seq<char>>(kind),
                None => Err(name@),
            },
    {
        if same_text(name, "Default") {
            Ok(TargetKind::Default)
        } else if same_text(name, "Linked") {
            Ok(TargetKind::Linked)
        } else {
            Err(TargetError::UnknownTarget(name.to_owned()))
        }
    }
}

impl std::str::FromStr for TargetKind {
    type Err = TargetError;

    /// The deployment that a text names, as `TargetKind::parse` reads it.
    fn from_str(s: &str) -> (result: Result<TargetKind, TargetError>)
        ensures
            parse_view(result) == match kind_named(s@) {
                Some(kind) => Ok::<TargetKind, Seq<char>>(kind),
                None => Err(s@),
            },
    {
        TargetKind::parse(s)
    }
}

impl Target {
    /// The name of the target.
    pub open spec fn name(self) -> Seq<char> {
        match self {
            Target::AgeOfEmpires2Api(_) => "age_of_empires_2_api"@,
            Target::CcccatalogApi(_) => "cccatalog_api"@,
            Target::Covid19JapanWebApi(_) => "covid19_japan_web_api"@,
            Target::DiseaseSh(_) => "disease_sh"@,
            Target::GitLab(_) => "gitlab"@,
            Target::HttpBin(_) => "httpbin"@,
            Target::JupyterServer(_) => "jupyter_server"@,
            Target::JupyterHub(_) => "jupyterhub"@,
            Target::MailHog(_) => "mailhog"@,
            Target::OpenFec(_) => "open_fec"@,
            Target::OpenTopoData(_) => "opentopodata"@,
            Target::OttoParser(_) => "otto_parser"@,
            Target::PslabWebapp(_) => "pslab_webapp"@,
            Target::Pulpcore(_) => "pulpcore"@,
            Target::RequestBaskets(_) => "request_baskets"@,
            Target::RestlerDemo(_) => "restler_demo"@,
            Target::Worklog(_) => "worklog"@,
        }
    }

    /// The deployment of the target.
    pub open spec fn deployment(self) -> TargetKind {
        match self {
            Target::AgeOfEmpires2Api(kind) => kind,
            Target::CcccatalogApi(kind) => kind,
            Target::Covid19JapanWebApi(kind) => kind,
            Target::DiseaseSh(kind) => kind,
            Target::GitLab(kind) => kind,
            Target::HttpBin(kind) => kind,
            Target::JupyterServer(kind) => kind,
            Target::JupyterHub(kind) => kind,
            Target::MailHog(kind) => kind,
            Target::OpenFec(kind) => kind,
            Target::OpenTopoData(kind) => kind,
            Target::OttoParser(kind) => kind,
            Target::PslabWebapp(kind) => kind,
            Target::Pulpcore(kind) => kind,
            Target::RequestBaskets(kind) => kind,
            Target::RestlerDemo(kind) => kind,
            Target::Worklog(kind) => kind,
        }
    }

    /// The token that names the target in directory names and in the metadata of a run.
    pub open spec fn token(self) -> Seq<char> {
        self.name() + ":"@ + self.deployment().name()
    }

    /// The name of the target.
    pub fn as_str(&self) -> (name: &'static str)
        ensures
            name@ == self.name(),
    {
        match self {
            Target::AgeOfEmpires2Api(_) => "age_of_empires_2_api",
            Target::CcccatalogApi(_) => "cccatalog_api",
            Target::Covid19JapanWebApi(_) => "covid19_japan_web_api",
            Target::DiseaseSh(_) => "disease_sh",
            Target::GitLab(_) => "gitlab",
            Target::HttpBin(_) => "httpbin",
            Target::JupyterServer(_) => "jupyter_server",
            Target::JupyterHub(_) => "jupyterhub",
            Target::MailHog(_) => "mailhog",
            Target::OpenFec(_) => "open_fec",
            Target::OpenTopoData(_) => "opentopodata",
            Target::OttoParser(_) => "otto_parser",
            Target::PslabWebapp(_) => "pslab_webapp",
            Target::Pulpcore(_) => "pulpcore",
            Target::RequestBaskets(_) => "request_baskets",
            Target::RestlerDemo(_) => "restler_demo",
            Target::Worklog(_) => "worklog",
        }
    }

    /// The deployment of the target.
    pub fn kind(&self) -> (kind: TargetKind)
        ensures
            kind == self.deployment(),
    {
        match *self {
            Target::AgeOfEmpires2Api(kind) => kind,
            Target::CcccatalogApi(kind) => kind,
            Target::Covid19JapanWebApi(kind) => kind,
            Target::DiseaseSh(kind) => kind,
            Target::GitLab(kind) => kind,
            Target::HttpBin(kind) => kind,
            Target::JupyterServer(kind) => kind,
            Target::JupyterHub(kind) => kind,
            Target::MailHog(kind) => kind,
            Target::OpenFec(kind) => kind,
            Target::OpenTopoData(kind) => kind,
            Target::OttoParser(kind) => kind,
            Target::PslabWebapp(kind) => kind,
            Target::Pulpcore(kind) => kind,
            Target::RequestBaskets(kind) => kind,
            Target::RestlerDemo(kind) => kind,
            Target::Worklog(kind) => kind,
        }
    }

    /// The target of the given deployment that a text names.
    pub fn named(name: &str, kind: TargetKind) -> (target: Option<Target>)
        ensures
            target == target_named(name@, kind),
    {
        if same_text(name, "age_of_empires_2_api") {
            Some(Target::AgeOfEmpires2Api(kind))
        } else if same_text(name, "cccatalog_api") {
            Some(Target::CcccatalogApi(kind))
        } else if same_text(name, "covid19_japan_web_api") {
            Some(Target::Covid19JapanWebApi(kind))
        } else if same_text(name, "disease_sh") {
            Some(Target::DiseaseSh(kind))
        } else if same_text(name, "gitlab") {
            Some(Target::GitLab(kind))
        } else if same_text(name, "httpbin") {
            Some(Target::HttpBin(kind))
        } else if same_text(name, "jupyter_server") {
            Some(Target::JupyterServer(kind))
        } else if same_text(name, "jupyterhub") {
            Some(Target::JupyterHub(kind))
        } else if same_text(name, "mailhog") {
            Some(Target::MailHog(kind))
        } else if same_text(name, "open_fec") {
            Some(Target::OpenFec(kind))
        } else if same_text(name, "opentopodata") {
            Some(Target::OpenTopoData(kind))
        } else if same_text(name, "otto_parser") {
            Some(Target::OttoParser(kind))
        } else if same_text(name, "pslab_webapp") {
            Some(Target::PslabWebapp(kind))
        } else if same_text(name, "pulpcore") {
            Some(Target::Pulpcore(kind))
        } else if same_text(name, "request_baskets") {
            Some(Target::RequestBaskets(kind))
        } else if same_text(name, "restler_demo") {
            Some(Target::RestlerDemo(kind))
        } else if same_text(name, "worklog") {
            Some(Target::Worklog(kind))
        } else {
            None
        }
    }

    /// The target that a token names.
    pub fn parse(token: &str) -> (result: Result<Target, TargetError>)
        ensures
            parse_view(result) == parsed(token@),
    {
        match split_once(token, ":") {
            Some((name, kind)) => {
                let kind = TargetKind::parse(kind)?;
                match Target::named(name, kind) {
                    Some(target) => Ok(target),
                    None => Err(TargetError::UnknownTarget(token.to_owned())),
                }
            },
            None => Err(TargetError::UnknownTarget(token.to_owned())),
        }
    }

    /// The token that names the target.
    pub fn to_string(&self) -> (token: String)
        ensures
            token@ == self.token(),
    {
        self.as_str().to_owned().concat(":").concat(self.kind().as_str())
    }
}

impl std::str::FromStr for Target {
    type Err = TargetError;

    /// The target that a token names, as `Target::parse` reads it.
    fn from_str(s: &str) -> (result: Result<Target, TargetError>)
        ensures
            parse_view(result) == parsed(s@),
    {
        Target::parse(s)
    }
}

/// What the literals of the names hold.
pub proof fn lemma_names()
    ensures
        "age_of_empires_2_api"@.len() == 20 && "age_of_empires_2_api"@[0] == 'a',
        "cccatalog_api"@.len() == 13 && "cccatalog_api"@[0] == 'c',
        "covid19_japan_web_api"@.len() == 21 && "covid19_japan_web_api"@[0] == 'c',
        "disease_sh"@.len() == 10 && "disease_sh"@[0] == 'd',
        "gitlab"@.len() == 6 && "gitlab"@[0] == 'g',
        "httpbin"@.len() == 7 && "httpbin"@[0] == 'h',
        "jupyter_server"@.len() == 14 && "jupyter_server"@[0] == 'j',
        "jupyterhub"@.len() == 10 && "jupyterhub"@[0] == 'j',
        "mailhog"@.len() == 7 && "mailhog"@[0] == 'm',
        "open_fec"@.len() == 8 && "open_fec"@[0] == 'o',
        "opentopodata"@.len() == 12 && "opentopodata"@[0] == 'o',
        "otto_parser"@.len() == 11 && "otto_parser"@[0] == 'o',
        "pslab_webapp"@.len() == 12 && "pslab_webapp"@[0] == 'p',
        "pulpcore"@.len() == 8 && "pulpcore"@[0] == 'p',
        "request_baskets"@.len() == 15 && "request_baskets"@[0] == 'r',
        "restler_demo"@.len() == 12 && "restler_demo"@[0] == 'r',
        "worklog"@.len() == 7 && "worklog"@[0] == 'w',
        "Default"@.len() == 7,
        "Linked"@.len() == 6,
        ":"@.len() == 1 && ":"@[0] == ':',
{
    reveal_strlit("age_of_empires_2_api");
    reveal_strlit("cccatalog_api");
    reveal_strlit("covid19_japan_web_api");
    reveal_strlit("disease_sh");
    reveal_strlit("gitlab");
    reveal_strlit("httpbin");
    reveal_strlit("jupyter_server");
    reveal_strlit("jupyterhub");
    reveal_strlit("mailhog");
    reveal_strlit("open_fec");
    reveal_strlit("opentopodata");
    reveal_strlit("otto_parser");
    reveal_strlit("pslab_webapp");
    reveal_strlit("pulpcore");
    reveal_strlit("request_baskets");
    reveal_strlit("restler_demo");
    reveal_strlit("worklog");
    reveal_strlit("Default");
    reveal_strlit("Linked");
    reveal_strlit(":");
}

/// No name of a target holds a colon.
proof fn lemma_no_colon_in_name(target: Target, at: int)
    requires
        0 <= at < target.name().len(),
    ensures
        target.name()[at] != ':',
{
    reveal_strlit("age_of_empires_2_api");
    reveal_strlit("cccatalog_api");
    reveal_strlit("covid19_japan_web_api");
    reveal_strlit("disease_sh");
    reveal_strlit("gitlab");
    reveal_strlit("httpbin");
    reveal_strlit("jupyter_server");
    reveal_strlit("jupyterhub");
    reveal_strlit("mailhog");
    reveal_strlit("open_fec");
    reveal_strlit("opentopodata");
    reveal_strlit("otto_parser");
    reveal_strlit("pslab_webapp");
    reveal_strlit("pulpcore");
    reveal_strlit("request_baskets");
    reveal_strlit("restler_demo");
    reveal_strlit("worklog");
}

/// The token of a target names that target and no other: reading what was written gives
/// the target back.
pub proof fn lemma_target_round_trip(target: Target)
    ensures
        parsed(target.token()) == Ok::<Target, Seq<char>>(target),
{
    lemma_names();
    let token = target.token();
    let name = target.name();
    let kind = target.deployment().name();
    let at = name.len() as int;
    assert(token.subrange(at, at + 1) =~= ":"@);
    assert(crate::text::occurs_at(token, ":"@, at));
    assert forall|earlier: int| 0 <= earlier < at implies !crate::text::occurs_at(
        token,
        ":"@,
        earlier,
    ) by {
        lemma_no_colon_in_name(target, earlier);
        if crate::text::occurs_at(token, ":"@, earlier) {
            assert(token.subrange(earlier, earlier + 1)[0] == token[earlier]);
        }
    }
    assert(crate::text::is_first_occurrence(token, ":"@, at));
    crate::text::lemma_first_occurrence(token, ":"@);
    assert(before_first(token, ":"@) =~= name);
    assert(after_first(token, ":"@) =~= kind);
}

/// A token that names a target is the token of that target: writing the target that was
/// read gives the text that was read.
pub proof fn lemma_token_round_trip(token: Seq<char>)
    requires
        parsed(token) is Ok,
    ensures
        parsed(token)->Ok_0.token() == token,
{
    lemma_split_at_first(token, ":"@);
}

/// A failure that a target logged: the request that caused it, as far as the log tells, a
/// title and the traceback.
#[derive(Debug, Clone, PartialEq, Eq)]
pub struct Failure {
    pub method: Option<String>,
    pub path: Option<String>,
    pub title: String,
    pub traceback: String,
}

/// A logged failure as a plain value.
pub ghost struct FailureView {
    pub method: Option<Seq<char>>,
    pub path: Option<Seq<char>>,
    pub title: Seq<char>,
    pub traceback: Seq<char>,
}

impl View for Failure {
    type V = FailureView;

    open spec fn view(&self) -> FailureView {
        FailureView {
            method: crate::output::text_view(self.method),
            path: crate::output::text_view(self.path),
            title: self.title@,
            traceback: self.traceback@,
        }
    }
}

/// The views of failures, one for one.
pub open spec fn failure_views(failures: Seq<Failure>) -> Seq<FailureView> {
    failures.map_values(|failure: Failure| failure@)
}

/// A failure that may be missing, as a plain value.
pub open spec fn pending_view(failure: Option<Failure>) -> Option<FailureView> {
    match failure {
        Some(failure) => Some(failure@),
        None => None,
    }
}

/// What has been read of a log: the failures that are complete, and the one whose
/// traceback is still being read.
pub ghost struct Scan {
    pub failures: Seq<FailureView>,
    pub pending: Option<FailureView>,
}

impl Scan {
    /// Nothing read yet.
    pub open spec fn start() -> Scan {
        Scan { failures: Seq::empty(), pending: None }
    }

    /// All failures, the pending one last.
    pub open spec fn all(self) -> Seq<FailureView> {
        match self.pending {
            Some(failure) => self.failures.push(failure),
            None => self.failures,
        }
    }

    /// The scan with `line` added to the traceback of the pending failure.
    pub open spec fn with_frame(self, line: Seq<char>) -> Scan {
        match self.pending {
            Some(failure) => Scan {
                failures: self.failures,
                pending: Some(
                    FailureView {
                        method: failure.method,
                        path: failure.path,
                        title: failure.title,
                        traceback: failure.traceback + line + "\n"@,
                    },
                ),
            },
            None => self,
        }
    }

    /// The scan with the pending failure complete.
    pub open spec fn closed(self) -> Scan {
        Scan { failures: self.all(), pending: None }
    }

    /// The scan with a new pending failure.
    pub open spec fn opened(self, failure: FailureView) -> Scan {
        Scan { failures: self.all(), pending: Some(failure) }
    }
}

/// Whether the log of a target is read for failures.
pub open spec fn is_analyzed(target: Target) -> bool {
    target is DiseaseSh || target is GitLab
}

/// The failures that a target logged: those of its log where the target has an analyzer,
/// `None` for any other target.
pub open spec fn processed(target: Target, stdout: Seq<char>) -> Result<
    Option<Seq<FailureView>>,
    crate::error::Fault,
> {
    match target {
        Target::DiseaseSh(_) => match disease_sh::processed_stdout(stdout) {
            Ok(failures) => Ok(Some(failures)),
            Err(error) => Err(error),
        },
        Target::GitLab(_) => match gitlab::processed_stdout(stdout) {
            Ok(failures) => Ok(Some(failures)),
            Err(error) => Err(error),
        },
        _ => Ok(None),
    }
}

/// Whether the log of a target is read for failures.
pub fn has_analyzer(target: Target) -> (yes: bool)
    ensures
        yes == is_analyzed(target),
{
    match target {
        Target::DiseaseSh(_) => true,
        Target::GitLab(_) => true,
        _ => false,
    }
}

/// The failures that a target logged, from the text of its standard output.
pub fn process(target: Target, stdout: &str) -> (failures: Result<
    Option<Vec<Failure>>,
    crate::error::ProcessingError,
>)
    ensures
        failures is Ok == processed(target, stdout@) is Ok,
        failures matches Ok(Some(found)) ==> processed(target, stdout@) == Ok::<
            Option<Seq<FailureView>>,
            crate::error::Fault,
        >(Some(failure_views(found@))),
        failures matches Ok(None) ==> processed(target, stdout@) == Ok::<
            Option<Seq<FailureView>>,
            crate::error::Fault,
        >(None),
        failures matches Err(error) ==> processed(target, stdout@) == Err::<
            Option<Seq<FailureView>>,
            crate::error::Fault,
        >(error.fault()),
{
    match target {
        Target::DiseaseSh(_) => Ok(Some(disease_sh::process_stdout(stdout)?)),
        Target::GitLab(_) => Ok(Some(gitlab::process_stdout(stdout)?)),
        _ => Ok(None),
    }
}

} // verus!

//! Installing and removing Go: validated parameters, archive names, the
//! download endpoint, and the two state machines that decide each next step.
use crate::cli::go::{Action, Install, Uninstall};
use crate::config::go::{ARCHIVE_URL, STAGING_PATH};
use crate::semver::{
    parse_version, render_without_prefix, SemanticVersion, VersionParseError, VersionView,
};
use crate::text::{ascii_lowercase, same_text_lowered};
use crate::outside::{
    debug_rendering, debug_text, push_path_segment, url_with_segment, MAX_URL_INPUT,
};
use crate::Os;
use vstd::prelude::*;
use vstd::string::*;

verus! {

/// The processor architectures for which archives are installed.
#[derive(Debug, Clone, Copy, PartialEq, Eq, Structural)]
pub enum Arch {
    Amd64,
}

/// Why raw parameters are refused.
#[derive(Debug, Clone, Copy, PartialEq, Eq, Structural)]
pub enum ParamError {
    /// The version text is no version.
    Version(VersionParseError),
    /// The architecture is none of those supported.
    UnsupportedArchitecture,
}

/// Why an installation or a removal ended without success.
#[derive(Debug, Clone, Copy, PartialEq, Eq, Structural)]
pub enum OperationError {
    /// The running operating system is none of those supported.
    PlatformUndetected,
    /// No download location can be made of the archive location and the
    /// archive's name.
    EndpointInvalid,
    /// The download could not be made at all.
    Network,
    /// The server answered with a status other than success.
    DownloadFailed(u16),
    /// A file or directory could not be written, created or removed.
    Io,
    /// The archive could not be extracted.
    Extraction,
    /// No answer could be read from the user.
    Input,
}

/// The name of an architecture in an archive's name.
pub open spec fn arch_token(arch: Arch) -> Seq<char> {
    match arch {
        Arch::Amd64 => "amd64"@,
    }
}

/// The name of a platform in an archive's name.
pub open spec fn os_token(os: Os) -> Seq<char> {
    match os {
        Os::Darwin => "darwin"@,
        Os::Linux => "linux"@,
    }
}

/// The architecture that a token names, whatever the case of its letters.
pub open spec fn arch_of(token: Seq<char>) -> Option<Arch> {
    if ascii_lowercase(token) == arch_token(Arch::Amd64) {
        Some(Arch::Amd64)
    } else {
        None
    }
}

/// The name of the archive of a version for a platform and an architecture:
/// `go{version}.{platform}-{architecture}.tar.gz`.
pub open spec fn archive_name(version: VersionView, os: Os, arch: Arch) -> Seq<char> {
    "go"@ + render_without_prefix(version) + "."@ + os_token(os) + "-"@ + arch_token(arch)
        + ".tar.gz"@
}

impl Arch {
    /// Reads an architecture from its token, in any case of letters.
    pub fn parse(s: &str) -> (r: Result<Arch, ParamError>)
        ensures
            r == match arch_of(s@) {
                Some(arch) => Ok::<Arch, ParamError>(arch),
                None => Err::<Arch, ParamError>(ParamError::UnsupportedArchitecture),
            },
    {
        if same_text_lowered(s, "amd64") {
            Ok(Arch::Amd64)
        } else {
            Err(ParamError::UnsupportedArchitecture)
        }
    }

    /// The token of the architecture.
    pub fn token(&self) -> (r: &'static str)
        ensures
            r@ == arch_token(*self),
    {
        match self {
            Arch::Amd64 => "amd64",
        }
    }
}

impl core::str::FromStr for Arch {
    type Err = ParamError;

    fn from_str(s: &str) -> (r: Result<Self, Self::Err>)
        ensures
            r == match arch_of(s@) {
                Some(arch) => Ok::<Arch, ParamError>(arch),
                None => Err::<Arch, ParamError>(ParamError::UnsupportedArchitecture),
            },
    {
        Arch::parse(s)
    }
}

impl Os {
    /// The token of the platform.
    pub fn token(&self) -> (r: &'static str)
        ensures
            r@ == os_token(*self),
    {
        match self {
            Os::Darwin => "darwin",
            Os::Linux => "linux",
        }
    }
}

/// The last path segment of the location of an archive, such as
/// `go1.15.1.darwin-amd64.tar.gz`.
pub fn make_archive_segment(ver: &SemanticVersion, os: &Os, arch: &Arch) -> (r: String)
    ensures
        r@ == archive_name(ver@, *os, *arch),
{
    let mut out = String::new();
    out.append("go");
    let version = ver.format_without_prefix();
    out.append(version.as_str());
    out.append(".");
    out.append(os.token());
    out.append("-");
    out.append(arch.token());
    out.append(".tar.gz");
    assert(out@ =~= archive_name(ver@, *os, *arch));
    out
}

/// The validated parameters of an installation.
#[derive(Debug, Clone)]
pub struct InstallParam {
    version: SemanticVersion,
    arch: Arch,
    dest: String,
}

/// The content of the parameters of an installation.
pub struct InstallParamView {
    pub version: VersionView,
    pub arch: Arch,
    pub dest: Seq<char>,
}

impl View for InstallParam {
    type V = InstallParamView;

    closed spec fn view(&self) -> InstallParamView {
        InstallParamView { version: self.version@, arch: self.arch, dest: self.dest@ }
    }
}

/// What raw parameters of an installation are worth: the version is read
/// first, then the architecture; the destination is taken as it is.
pub open spec fn validate_install(
    version: Seq<char>,
    arch: Seq<char>,
    dest: Seq<char>,
) -> Result<InstallParamView, ParamError> {
    match parse_version(version) {
        Err(e) => Err(ParamError::Version(e)),
        Ok(v) => match arch_of(arch) {
            None => Err(ParamError::UnsupportedArchitecture),
            Some(a) => Ok(InstallParamView { version: v, arch: a, dest }),
        },
    }
}

impl InstallParam {
    /// Validates the raw parameters of an installation.
    pub fn try_from(v: Install) -> (r: Result<InstallParam, ParamError>)
        ensures
            r matches Ok(p) ==> validate_install(v.version@, v.arch@, v.dest@) == Ok::<
                InstallParamView,
                ParamError,
            >(p@),
            r matches Err(e) ==> validate_install(v.version@, v.arch@, v.dest@) == Err::<
                InstallParamView,
                ParamError,
            >(e),
    {
        let version = match SemanticVersion::parse(v.version.as_str()) {
            Ok(version) => version,
            Err(e) => {
                return Err(ParamError::Version(e));
            },
        };
        let arch = match Arch::parse(v.arch.as_str()) {
            Ok(arch) => arch,
            Err(e) => {
                return Err(e);
            },
        };
        Ok(InstallParam { version, arch, dest: v.dest })
    }

    /// The version to install.
    pub fn version(&self) -> (r: &SemanticVersion)
        ensures
            r@ == self@.version,
    {
        &self.version
    }

    /// The architecture to install for.
    pub fn arch(&self) -> (r: Arch)
        ensures
            r == self@.arch,
    {
        self.arch
    }

    /// The directory to install into.
    pub fn dest(&self) -> (r: &str)
        ensures
            r@ == self@.dest,
    {
        self.dest.as_str()
    }
}

/// The parameters of a removal.
#[derive(Debug, Clone)]
pub struct UninstallParam {
    go_root: String,
    skip_remove_prompt: bool,
}

/// The content of the parameters of a removal.
pub struct UninstallParamView {
    pub go_root: Seq<char>,
    pub skip_remove_prompt: bool,
}

impl View for UninstallParam {
    type V = UninstallParamView;

    closed spec fn view(&self) -> UninstallParamView {
        UninstallParamView { go_root: self.go_root@, skip_remove_prompt: self.skip_remove_prompt }
    }
}

impl UninstallParam {
    /// Takes the raw parameters of a removal over: none of them can be
    /// refused.
    pub fn try_from(v: Uninstall) -> (r: Result<UninstallParam, ParamError>)
        ensures
            r is Ok,
            r->Ok_0@ == (UninstallParamView {
                go_root: v.go_root@,
                skip_remove_prompt: v.skip_prompt,
            }),
    {
        Ok(UninstallParam { go_root: v.go_root, skip_remove_prompt: v.skip_prompt })
    }

    /// The root directory of the toolchain to remove.
    pub fn go_root(&self) -> (r: &str)
        ensures
            r@ == self@.go_root,
    {
        self.go_root.as_str()
    }

    /// Whether to remove without asking.
    pub fn skip_remove_prompt(&self) -> (r: bool)
        ensures
            r == self@.skip_remove_prompt,
    {
        self.skip_remove_prompt
    }
}


/// What a command asks for, with its parameters validated.
#[derive(Debug, Clone)]
pub enum Operation {
    Install(InstallParam),
    Uninstall(UninstallParam),
    /// Accepted, but without behaviour yet.
    Upgrade,
}

/// The content of an operation.
pub enum OperationView {
    Install(InstallParamView),
    Uninstall(UninstallParamView),
    Upgrade,
}

impl View for Operation {
    type V = OperationView;

    open spec fn view(&self) -> OperationView {
        match *self {
            Operation::Install(p) => OperationView::Install(p@),
            Operation::Uninstall(p) => OperationView::Uninstall(p@),
            Operation::Upgrade => OperationView::Upgrade,
        }
    }
}

/// What an action of the command line is worth: an installation only with
/// valid parameters, a removal and an upgrade always.
pub open spec fn validate_action(action: Action) -> Result<OperationView, ParamError> {
    match action {
        Action::Install(v) => match validate_install(v.version@, v.arch@, v.dest@) {
            Ok(p) => Ok(OperationView::Install(p)),
            Err(e) => Err(e),
        },
        Action::Uninstall(v) => Ok(
            OperationView::Uninstall(
                UninstallParamView { go_root: v.go_root@, skip_remove_prompt: v.skip_prompt },
            ),
        ),
        Action::Upgrade(_) => Ok(OperationView::Upgrade),
    }
}

impl Operation {
    /// Validates an action of the command line, so that nothing invalid
    /// reaches the network or the filesystem.
    pub fn try_from(action: Action) -> (r: Result<Operation, ParamError>)
        ensures
            r matches Ok(op) ==> validate_action(action) == Ok::<OperationView, ParamError>(op@),
            r matches Err(e) ==> validate_action(action) == Err::<OperationView, ParamError>(e),
    {
        match action {
            Action::Install(v) => match InstallParam::try_from(v) {
                Ok(p) => Ok(Operation::Install(p)),
                Err(e) => Err(e),
            },
            Action::Uninstall(v) => match UninstallParam::try_from(v) {
                Ok(p) => Ok(Operation::Uninstall(p)),
                Err(e) => Err(e),
            },
            Action::Upgrade(_) => Ok(Operation::Upgrade),
        }
    }
}

/// What the machines ask of their surroundings: one request at a time.
#[derive(Debug, PartialEq, Eq)]
pub enum Request {
    /// Find out the running operating system.
    DetectPlatform,
    /// Fetch the location.
    Fetch(String),
    /// Write the whole body of the response to the file at the path.
    Store(String),
    /// Create the directory and those above it, unless they exist.
    CreateDirectory(String),
    /// Extract the archive, first path, into the directory, second path.
    Extract(String, String),
    /// Remove the file.
    RemoveFile(String),
    /// Ask the user for a yes or a no, with the prompt.
    Confirm(String),
    /// Remove the directory and everything under it.
    RemoveDirectory(String),
    /// Nothing more to do: the operation has ended with this result.
    Report(Result<(), OperationError>),
}

/// The content of a request.
pub enum RequestView {
    DetectPlatform,
    Fetch(Seq<char>),
    Store(Seq<char>),
    CreateDirectory(Seq<char>),
    Extract(Seq<char>, Seq<char>),
    RemoveFile(Seq<char>),
    Confirm(Seq<char>),
    RemoveDirectory(Seq<char>),
    Report(Result<(), OperationError>),
}

impl View for Request {
    type V = RequestView;

    open spec fn view(&self) -> RequestView {
        match *self {
            Request::DetectPlatform => RequestView::DetectPlatform,
            Request::Fetch(url) => RequestView::Fetch(url@),
            Request::Store(path) => RequestView::Store(path@),
            Request::CreateDirectory(path) => RequestView::CreateDirectory(path@),
            Request::Extract(archive, dest) => RequestView::Extract(archive@, dest@),
            Request::RemoveFile(path) => RequestView::RemoveFile(path@),
            Request::Confirm(prompt) => RequestView::Confirm(prompt@),
            Request::RemoveDirectory(path) => RequestView::RemoveDirectory(path@),
            Request::Report(result) => RequestView::Report(result),
        }
    }
}

/// What came of the last request.
#[derive(Debug, Clone, Copy, PartialEq, Eq)]
pub enum Reply {
    /// The platform that was detected, if any.
    Platform(Option<Os>),
    /// The status that the server answered with.
    Status(u16),
    /// The user's answer.
    Answer(bool),
    /// The request was carried out.
    Done,
    /// The request could not be carried out.
    Failed,
}

/// How far an installation has come: the name says which request is
/// pending.
#[derive(Debug, Clone, Copy, PartialEq, Eq)]
pub enum InstallState {
    Starting,
    Resolving,
    Fetching,
    Storing,
    Preparing,
    Extracting,
    Cleaning,
    Finished(Result<(), OperationError>),
}

/// How far a removal has come.
#[derive(Debug, Clone, Copy, PartialEq, Eq)]
pub enum UninstallState {
    Starting,
    Confirming,
    Removing,
    Finished(Result<(), OperationError>),
}

/// Whether a status reports success: 200 to 299.
pub open spec fn is_success(status: u16) -> bool {
    200 <= status <= 299
}

/// The download location of an archive: the archive location with the
/// archive's name as one more path segment, as `url` joins them; `None`
/// where the two are too long together or `url` refuses the location.
pub open spec fn endpoint_of(base: Seq<char>, name: Seq<char>) -> Option<Seq<char>> {
    if base.len() + name.len() > MAX_URL_INPUT {
        None
    } else {
        url_with_segment(base, name)
    }
}

/// The end of an installation in failure.
pub open spec fn install_failed(e: OperationError) -> (InstallState, RequestView) {
    (InstallState::Finished(Err(e)), RequestView::Report(Err(e)))
}

/// The first request of the download, for the endpoint that was made.
pub open spec fn fetch_or_fail(endpoint: Option<Seq<char>>) -> (InstallState, RequestView) {
    match endpoint {
        Some(url) => (InstallState::Fetching, RequestView::Fetch(url)),
        None => install_failed(OperationError::EndpointInvalid),
    }
}

/// The step of an installation: the state that follows `state` on `reply`,
/// and the request that is then pending. Only the reply that reports the
/// success of the pending request leads on; any other ends the installation
/// with the error of the step that was pending. Once finished, the machine
/// stays finished and reports the same result.
pub open spec fn install_step(
    base: Seq<char>,
    staging: Seq<char>,
    param: InstallParamView,
    state: InstallState,
    reply: Reply,
) -> (InstallState, RequestView) {
    match state {
        InstallState::Starting => (InstallState::Resolving, RequestView::DetectPlatform),
        InstallState::Resolving => match reply {
            Reply::Platform(Some(os)) => fetch_or_fail(
                endpoint_of(base, archive_name(param.version, os, param.arch)),
            ),
            _ => install_failed(OperationError::PlatformUndetected),
        },
        InstallState::Fetching => match reply {
            Reply::Status(status) => if is_success(status) {
                (InstallState::Storing, RequestView::Store(staging))
            } else {
                install_failed(OperationError::DownloadFailed(status))
            },
            _ => install_failed(OperationError::Network),
        },
        InstallState::Storing => match reply {
            Reply::Done => (InstallState::Preparing, RequestView::CreateDirectory(param.dest)),
            _ => install_failed(OperationError::Io),
        },
        InstallState::Preparing => match reply {
            Reply::Done => (InstallState::Extracting, RequestView::Extract(staging, param.dest)),
            _ => install_failed(OperationError::Io),
        },
        InstallState::Extracting => match reply {
            Reply::Done => (InstallState::Cleaning, RequestView::RemoveFile(staging)),
            _ => install_failed(OperationError::Extraction),
        },
        InstallState::Cleaning => match reply {
            Reply::Done => (InstallState::Finished(Ok(())), RequestView::Report(Ok(()))),
            _ => install_failed(OperationError::Io),
        },
        InstallState::Finished(result) => (
            InstallState::Finished(result),
            RequestView::Report(result),
        ),
    }
}

/// The question put to the user before a directory is removed, for the
/// quoted form of its path.
pub open spec fn removal_prompt(quoted_root: Seq<char>) -> Seq<char> {
    "delete "@ + quoted_root + " recursively"@
}

/// The end of a removal with `result`.
pub open spec fn uninstall_finished(result: Result<(), OperationError>) -> (
    UninstallState,
    RequestView,
) {
    (UninstallState::Finished(result), RequestView::Report(result))
}

/// The step of a removal. At the start the user is asked, unless the
/// parameters say to skip that; a no ends the removal in success with
/// nothing removed; a yes, or the skipping, leads to the one request to
/// remove the root directory.
pub open spec fn uninstall_step(param: UninstallParamView, state: UninstallState, reply: Reply) -> (
    UninstallState,
    RequestView,
) {
    let remove = (UninstallState::Removing, RequestView::RemoveDirectory(param.go_root));
    match state {
        UninstallState::Starting => if param.skip_remove_prompt {
            remove
        } else {
            (
                UninstallState::Confirming,
                RequestView::Confirm(removal_prompt(debug_rendering(param.go_root))),
            )
        },
        UninstallState::Confirming => match reply {
            Reply::Answer(true) => remove,
            Reply::Answer(false) => uninstall_finished(Ok(())),
            _ => uninstall_finished(Err(OperationError::Input)),
        },
        UninstallState::Removing => match reply {
            Reply::Done => uninstall_finished(Ok(())),
            _ => uninstall_finished(Err(OperationError::Io)),
        },
        UninstallState::Finished(result) => uninstall_finished(result),
    }
}

/// Whether a status reports success.
pub fn status_is_success(status: u16) -> (r: bool)
    ensures
        r == is_success(status),
{
    200 <= status && status <= 299
}

/// The state and the request that open the download, for the endpoint that
/// was made: the fetch of that location, or the end in `EndpointInvalid`
/// where there is none.
pub fn begin_fetch(endpoint: Option<String>) -> (r: (InstallState, Request))
    ensures
        (r.0, r.1@) == fetch_or_fail(
            match endpoint {
                Some(url) => Some(url@),
                None => None,
            },
        ),
{
    match endpoint {
        Some(url) => (InstallState::Fetching, Request::Fetch(url)),
        None => (
            InstallState::Finished(Err(OperationError::EndpointInvalid)),
            Request::Report(Err(OperationError::EndpointInvalid)),
        ),
    }
}

/// The question put to the user before a directory is removed, for the
/// quoted form of its path: `delete {quoted} recursively`.
pub fn make_removal_prompt(quoted_root: &str) -> (r: String)
    ensures
        r@ == removal_prompt(quoted_root@),
{
    let mut out = String::new();
    out.append("delete ");
    out.append(quoted_root);
    out.append(" recursively");
    assert(out@ =~= removal_prompt(quoted_root@));
    out
}

/// Installs and removes Go. It keeps nothing between calls but the
/// location under which archives are published.
#[derive(Debug, Clone)]
pub struct Operator {
    archive_url: String,
}

impl Default for Operator {
    /// An operator for the usual archive location.
    fn default() -> (r: Self)
        ensures
            r.archive_url() == ARCHIVE_URL@,
    {
        Operator { archive_url: ARCHIVE_URL.to_owned() }
    }
}

impl Operator {
    /// The location under which this operator looks for archives.
    pub closed spec fn archive_url(&self) -> Seq<char> {
        self.archive_url@
    }

    /// An operator for the usual archive location.
    pub fn new() -> (r: Self)
        ensures
            r.archive_url() == ARCHIVE_URL@,
    {
        Operator::default()
    }

    /// An operator for archives published under `archive_url`.
    pub fn with_archive_url(archive_url: String) -> (r: Self)
        ensures
            r.archive_url() == archive_url@,
    {
        Operator { archive_url }
    }

    /// The download location of the archive of a version for a platform
    /// and an architecture.
    pub fn endpoint(&self, version: &SemanticVersion, os: Os, arch: Arch) -> (r: Option<String>)
        ensures
            r matches Some(url) ==> endpoint_of(
                self.archive_url(),
                archive_name(version@, os, arch),
            ) == Some(url@),
            r is None ==> endpoint_of(self.archive_url(), archive_name(version@, os, arch))
                is None,
    {
        let name = make_archive_segment(version, &os, &arch);
        let base_len = self.archive_url.as_str().unicode_len();
        let name_len = name.as_str().unicode_len();
        if base_len > MAX_URL_INPUT || name_len > MAX_URL_INPUT - base_len {
            None
        } else {
            push_path_segment(self.archive_url.as_str(), name.as_str())
        }
    }

    /// One step of an installation: takes the state and the reply to the
    /// request that was pending, and gives the next state with the next
    /// request. An installation starts in `Starting`, where the reply is
    /// not looked at, and has ended when the request is `Report`.
    pub fn install(&self, param: &InstallParam, state: InstallState, reply: Reply) -> (r: (
        InstallState,
        Request,
    ))
        ensures
            (r.0, r.1@) == install_step(self.archive_url(), STAGING_PATH@, param@, state, reply),
    {
        match state {
            InstallState::Starting => (InstallState::Resolving, Request::DetectPlatform),
            InstallState::Resolving => match reply {
                Reply::Platform(Some(os)) => begin_fetch(
                    self.endpoint(&param.version, os, param.arch),
                ),
                _ => Self::install_abort(OperationError::PlatformUndetected),
            },
            InstallState::Fetching => match reply {
                Reply::Status(status) => if status_is_success(status) {
                    (InstallState::Storing, Request::Store(STAGING_PATH.to_owned()))
                } else {
                    Self::install_abort(OperationError::DownloadFailed(status))
                },
                _ => Self::install_abort(OperationError::Network),
            },
            InstallState::Storing => match reply {
                Reply::Done => (
                    InstallState::Preparing,
                    Request::CreateDirectory(param.dest.clone()),
                ),
                _ => Self::install_abort(OperationError::Io),
            },
            InstallState::Preparing => match reply {
                Reply::Done => (
                    InstallState::Extracting,
                    Request::Extract(STAGING_PATH.to_owned(), param.dest.clone()),
                ),
                _ => Self::install_abort(OperationError::Io),
            },
            InstallState::Extracting => match reply {
                Reply::Done => (
                    InstallState::Cleaning,
                    Request::RemoveFile(STAGING_PATH.to_owned()),
                ),
                _ => Self::install_abort(OperationError::Extraction),
            },
            InstallState::Cleaning => match reply {
                Reply::Done => (InstallState::Finished(Ok(())), Request::Report(Ok(()))),
                _ => Self::install_abort(OperationError::Io),
            },
            InstallState::Finished(result) => (
                InstallState::Finished(result),
                Request::Report(result),
            ),
        }
    }

    /// The end of an installation in the failure `e`.
    fn install_abort(e: OperationError) -> (r: (InstallState, Request))
        ensures
            (r.0, r.1@) == install_failed(e),
    {
        (InstallState::Finished(Err(e)), Request::Report(Err(e)))
    }

    /// The end of a removal with `result`.
    fn uninstall_end(result: Result<(), OperationError>) -> (r: (UninstallState, Request))
        ensures
            (r.0, r.1@) == uninstall_finished(result),
    {
        (UninstallState::Finished(result), Request::Report(result))
    }

    /// One step of a removal: takes the state and the reply to the request
    /// that was pending, and gives the next state with the next request. A
    /// removal starts in `Starting`, where the reply is not looked at, and
    /// has ended when the request is `Report`.
    pub fn uninstall(&self, param: &UninstallParam, state: UninstallState, reply: Reply) -> (r: (
        UninstallState,
        Request,
    ))
        ensures
            (r.0, r.1@) == uninstall_step(param@, state, reply),
    {
        match state {
            UninstallState::Starting => if param.skip_remove_prompt {
                (UninstallState::Removing, Request::RemoveDirectory(param.go_root.clone()))
            } else {
                let quoted = debug_text(param.go_root.as_str());
                (UninstallState::Confirming, Request::Confirm(make_removal_prompt(quoted.as_str())))
            },
            UninstallState::Confirming => match reply {
                Reply::Answer(true) => (
                    UninstallState::Removing,
                    Request::RemoveDirectory(param.go_root.clone()),
                ),
                Reply::Answer(false) => Self::uninstall_end(Ok(())),
                _ => Self::uninstall_end(Err(OperationError::Input)),
            },
            UninstallState::Removing => match reply {
                Reply::Done => Self::uninstall_end(Ok(())),
                _ => Self::uninstall_end(Err(OperationError::Io)),
            },
            UninstallState::Finished(result) => Self::uninstall_end(result),
        }
    }
}

} // verus!

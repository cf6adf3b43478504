//! The service handle, the templates its fields default to, and its builder.

use vstd::prelude::*;
use vstd::string::StringExecFns;

verus! {

/// The user id that is assumed when none is given: the first account of a Mac.
pub open spec fn spec_default_uid() -> Seq<char> {
    "501"@
}

/// The domain of a user's GUI session: `gui/<uid>`.
pub open spec fn spec_domain_target(uid: Seq<char>) -> Seq<char> {
    "gui/"@ + uid
}

/// A service within a domain: `<domain>/<name>`.
pub open spec fn spec_service_target(domain_target: Seq<char>, name: Seq<char>) -> Seq<char> {
    domain_target + "/"@ + name
}

/// Where the service's property list is kept: `~/Library/LaunchAgents/<name>.plist`.
pub open spec fn spec_plist_path(name: Seq<char>) -> Seq<char> {
    "~/Library/LaunchAgents/"@ + name + ".plist"@
}

/// Where the service's standard error goes: `/tmp/<name>_<uid>.err.log`.
pub open spec fn spec_error_log_path(name: Seq<char>, uid: Seq<char>) -> Seq<char> {
    "/tmp/"@ + name + "_"@ + uid + ".err.log"@
}

/// Where the service's standard output goes: `/tmp/<name>_<uid>.out.log`.
pub open spec fn spec_out_log_path(name: Seq<char>, uid: Seq<char>) -> Seq<char> {
    "/tmp/"@ + name + "_"@ + uid + ".out.log"@
}

/// The user id that is assumed when none is given.
pub fn default_uid() -> (uid: String)
    ensures
        uid@ == spec_default_uid(),
{
    String::from_str("501")
}

/// The domain of the GUI session of user `uid`.
pub fn domain_target_for(uid: &str) -> (target: String)
    ensures
        target@ == spec_domain_target(uid@),
{
    String::from_str("gui/").concat(uid)
}

/// The target of the service `name` within `domain_target`.
pub fn service_target_for(domain_target: &str, name: &str) -> (target: String)
    ensures
        target@ == spec_service_target(domain_target@, name@),
{
    String::from_str(domain_target).concat("/").concat(name)
}

/// The path of the property list of the service `name`.
pub fn plist_path_for(name: &str) -> (path: String)
    ensures
        path@ == spec_plist_path(name@),
{
    String::from_str("~/Library/LaunchAgents/").concat(name).concat(".plist")
}

/// The path of the error log of the service `name` run for user `uid`.
pub fn error_log_path_for(name: &str, uid: &str) -> (path: String)
    ensures
        path@ == spec_error_log_path(name@, uid@),
{
    String::from_str("/tmp/").concat(name).concat("_").concat(uid).concat(".err.log")
}

/// The path of the output log of the service `name` run for user `uid`.
pub fn out_log_path_for(name: &str, uid: &str) -> (path: String)
    ensures
        path@ == spec_out_log_path(name@, uid@),
{
    String::from_str("/tmp/").concat(name).concat("_").concat(uid).concat(".out.log")
}

/// A launchd service, with the identifiers and paths that `launchctl` is given
/// for it. The fields are fixed when the value is made and never derived again.
#[derive(Debug, Clone, PartialEq, Eq)]
pub struct Service {
    /// Name of the service, typically `com.<owner>.<binary>`.
    pub name: String,
    /// Id of the logged-in user, typically `501`.
    pub uid: String,
    /// The domain the service is registered in: `gui/<uid>`.
    pub domain_target: String,
    /// The service within its domain: `gui/<uid>/<name>`.
    pub service_target: String,
    /// Path of the property list that describes the service.
    pub plist_path: String,
    /// Path of the file that takes the service's standard error.
    pub error_log_path: String,
    /// Path of the file that takes the service's standard output.
    pub out_log_path: String,
}

/// What a [`Service`] holds, as text.
pub struct ServiceView {
    pub name: Seq<char>,
    pub uid: Seq<char>,
    pub domain_target: Seq<char>,
    pub service_target: Seq<char>,
    pub plist_path: Seq<char>,
    pub error_log_path: Seq<char>,
    pub out_log_path: Seq<char>,
}

impl View for Service {
    type V = ServiceView;

    open spec fn view(&self) -> ServiceView {
        ServiceView {
            name: self.name@,
            uid: self.uid@,
            domain_target: self.domain_target@,
            service_target: self.service_target@,
            plist_path: self.plist_path@,
            error_log_path: self.error_log_path@,
            out_log_path: self.out_log_path@,
        }
    }
}

/// What has been asked of a builder so far: the name, once given, and each
/// field that was set by hand.
pub struct Choices {
    pub name: Seq<char>,
    pub uid: Option<Seq<char>>,
    pub domain_target: Option<Seq<char>>,
    pub service_target: Option<Seq<char>>,
    pub plist_path: Option<Seq<char>>,
    pub error_log_path: Option<Seq<char>>,
    pub out_log_path: Option<Seq<char>>,
}

/// The choice where there is one, else the default.
pub open spec fn spec_resolve(choice: Option<Seq<char>>, default: Seq<char>) -> Seq<char> {
    match choice {
        Some(text) => text,
        None => default,
    }
}

impl Choices {
    /// Nothing chosen but the name.
    pub open spec fn named(name: Seq<char>) -> Choices {
        Choices {
            name,
            uid: None,
            domain_target: None,
            service_target: None,
            plist_path: None,
            error_log_path: None,
            out_log_path: None,
        }
    }

    /// The user id these choices lead to.
    pub open spec fn uid_resolved(self) -> Seq<char> {
        spec_resolve(self.uid, spec_default_uid())
    }

    /// The domain target these choices lead to: by default the one of the
    /// user id as resolved.
    pub open spec fn domain_target_resolved(self) -> Seq<char> {
        spec_resolve(self.domain_target, spec_domain_target(self.uid_resolved()))
    }

    /// The service these choices describe. Fields are resolved in the order
    /// in which they are declared, and a default is taken from the values
    /// already resolved: a user id or a domain target set by hand shows in
    /// every default that is made from it.
    pub open spec fn resolve(self) -> ServiceView {
        ServiceView {
            name: self.name,
            uid: self.uid_resolved(),
            domain_target: self.domain_target_resolved(),
            service_target: spec_resolve(
                self.service_target,
                spec_service_target(self.domain_target_resolved(), self.name),
            ),
            plist_path: spec_resolve(self.plist_path, spec_plist_path(self.name)),
            error_log_path: spec_resolve(
                self.error_log_path,
                spec_error_log_path(self.name, self.uid_resolved()),
            ),
            out_log_path: spec_resolve(
                self.out_log_path,
                spec_out_log_path(self.name, self.uid_resolved()),
            ),
        }
    }
}

/// Collects the name of a service and the fields that are to differ from
/// their defaults. `NAMED` records whether the name has been given: only a
/// named builder can [`build`](ServiceBuilder::build).
pub struct ServiceBuilder<const NAMED: bool> {
    name: String,
    uid: Option<String>,
    domain_target: Option<String>,
    service_target: Option<String>,
    plist_path: Option<String>,
    error_log_path: Option<String>,
    out_log_path: Option<String>,
}

/// The text of an optional string.
pub open spec fn spec_text(field: Option<String>) -> Option<Seq<char>> {
    match field {
        Some(text) => Some(text@),
        None => None,
    }
}

impl<const NAMED: bool> View for ServiceBuilder<NAMED> {
    type V = Choices;

    closed spec fn view(&self) -> Choices {
        Choices {
            name: self.name@,
            uid: spec_text(self.uid),
            domain_target: spec_text(self.domain_target),
            service_target: spec_text(self.service_target),
            plist_path: spec_text(self.plist_path),
            error_log_path: spec_text(self.error_log_path),
            out_log_path: spec_text(self.out_log_path),
        }
    }
}

impl Service {
    /// A builder with nothing chosen yet.
    pub fn builder() -> (builder: ServiceBuilder<false>)
        ensures
            builder@ == Choices::named(Seq::empty()),
    {
        ServiceBuilder {
            name: String::new(),
            uid: None,
            domain_target: None,
            service_target: None,
            plist_path: None,
            error_log_path: None,
            out_log_path: None,
        }
    }
}

impl ServiceBuilder<false> {
    /// Gives the service its name.
    pub fn name(self, name: &str) -> (builder: ServiceBuilder<true>)
        ensures
            builder@ == (Choices { name: name@, ..self@ }),
    {
        ServiceBuilder {
            name: String::from_str(name),
            uid: self.uid,
            domain_target: self.domain_target,
            service_target: self.service_target,
            plist_path: self.plist_path,
            error_log_path: self.error_log_path,
            out_log_path: self.out_log_path,
        }
    }
}

impl<const NAMED: bool> ServiceBuilder<NAMED> {
    /// Sets the user id in place of `501`.
    pub fn uid(self, uid: &str) -> (builder: Self)
        ensures
            builder@ == (Choices { uid: Some(uid@), ..self@ }),
    {
        ServiceBuilder { uid: Some(String::from_str(uid)), ..self }
    }

    /// Sets the domain target in place of the one made from the user id.
    pub fn domain_target(self, domain_target: &str) -> (builder: Self)
        ensures
            builder@ == (Choices { domain_target: Some(domain_target@), ..self@ }),
    {
        ServiceBuilder { domain_target: Some(String::from_str(domain_target)), ..self }
    }

    /// Sets the service target in place of the one made from the domain
    /// target and the name.
    pub fn service_target(self, service_target: &str) -> (builder: Self)
        ensures
            builder@ == (Choices { service_target: Some(service_target@), ..self@ }),
    {
        ServiceBuilder { service_target: Some(String::from_str(service_target)), ..self }
    }

    /// Sets the path of the property list in place of the one made from the name.
    pub fn plist_path(self, plist_path: &str) -> (builder: Self)
        ensures
            builder@ == (Choices { plist_path: Some(plist_path@), ..self@ }),
    {
        ServiceBuilder { plist_path: Some(String::from_str(plist_path)), ..self }
    }

    /// Sets the path of the error log in place of the one made from the name
    /// and the user id.
    pub fn error_log_path(self, error_log_path: &str) -> (builder: Self)
        ensures
            builder@ == (Choices { error_log_path: Some(error_log_path@), ..self@ }),
    {
        ServiceBuilder { error_log_path: Some(String::from_str(error_log_path)), ..self }
    }

    /// Sets the path of the output log in place of the one made from the name
    /// and the user id.
    pub fn out_log_path(self, out_log_path: &str) -> (builder: Self)
        ensures
            builder@ == (Choices { out_log_path: Some(out_log_path@), ..self@ }),
    {
        ServiceBuilder { out_log_path: Some(String::from_str(out_log_path)), ..self }
    }
}

impl ServiceBuilder<true> {
    /// Makes the service: each field as it was set, or else its default,
    /// taken from the fields resolved before it.
    pub fn build(self) -> (service: Service)
        ensures
            service@ == self@.resolve(),
    {
        let name = self.name;
        let uid = match self.uid {
            Some(uid) => uid,
            None => default_uid(),
        };
        let domain_target = match self.domain_target {
            Some(target) => target,
            None => domain_target_for(uid.as_str()),
        };
        let service_target = match self.service_target {
            Some(target) => target,
            None => service_target_for(domain_target.as_str(), name.as_str()),
        };
        let plist_path = match self.plist_path {
            Some(path) => path,
            None => plist_path_for(name.as_str()),
        };
        let error_log_path = match self.error_log_path {
            Some(path) => path,
            None => error_log_path_for(name.as_str(), uid.as_str()),
        };
        let out_log_path = match self.out_log_path {
            Some(path) => path,
            None => out_log_path_for(name.as_str(), uid.as_str()),
        };
        Service {
            name,
            uid,
            domain_target,
            service_target,
            plist_path,
            error_log_path,
            out_log_path,
        }
    }
}

} // verus!

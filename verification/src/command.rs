//! The `launchctl` command lines that act on a service.

use crate::exchange::spec_texts;
use crate::exchange::Request;
use crate::exchange::RequestView;
use crate::exchange::Subcommand;
use crate::service::Service;
use vstd::prelude::*;
use vstd::string::StringExecFns;

verus! {

/// Where `launchctl` is installed on every Mac.
pub open spec fn spec_launchctl() -> Seq<char> {
    "/bin/launchctl"@
}

/// Where `launchctl` is installed on every Mac.
pub fn launchctl() -> (program: String)
    ensures
        program@ == spec_launchctl(),
{
    String::from_str("/bin/launchctl")
}

/// An argument list of a verb and one operand.
fn verb_with_one(verb: &str, operand: &str) -> (args: Vec<String>)
    ensures
        spec_texts(args@) == seq![verb@, operand@],
{
    let mut args: Vec<String> = Vec::new();
    args.push(String::from_str(verb));
    args.push(String::from_str(operand));
    assert(spec_texts(args@) =~= seq![verb@, operand@]);
    args
}

/// An argument list of a verb and two operands.
fn verb_with_two(verb: &str, first: &str, second: &str) -> (args: Vec<String>)
    ensures
        spec_texts(args@) == seq![verb@, first@, second@],
{
    let mut args: Vec<String> = Vec::new();
    args.push(String::from_str(verb));
    args.push(String::from_str(first));
    args.push(String::from_str(second));
    assert(spec_texts(args@) =~= seq![verb@, first@, second@]);
    args
}

impl Service {
    /// The arguments that `launchctl` takes for a subcommand on this service.
    /// A service that is not loaded is addressed by its target; loading and
    /// unloading name the domain and the property list; a loaded service is
    /// kickstarted by its property list.
    pub open spec fn spec_args(&self, subcommand: Subcommand) -> Seq<Seq<char>> {
        match subcommand {
            Subcommand::Print => seq!["print"@, self.service_target@],
            Subcommand::Enable => seq!["enable"@, self.service_target@],
            Subcommand::Bootstrap => seq!["bootstrap"@, self.domain_target@, self.plist_path@],
            Subcommand::Kickstart => seq!["kickstart"@, self.plist_path@],
            Subcommand::Bootout => seq!["bootout"@, self.domain_target@, self.plist_path@],
            Subcommand::Kill => seq!["kill"@, "SIGTERM"@, self.service_target@],
        }
    }

    /// The request to run a subcommand of `launchctl` on this service.
    pub open spec fn spec_cmd(&self, subcommand: Subcommand) -> RequestView {
        RequestView::Run { program: spec_launchctl(), args: self.spec_args(subcommand) }
    }

    /// The arguments that `launchctl` takes for a subcommand on this service.
    pub fn args(&self, subcommand: Subcommand) -> (args: Vec<String>)
        ensures
            spec_texts(args@) == self.spec_args(subcommand),
    {
        match subcommand {
            Subcommand::Print => verb_with_one("print", self.service_target.as_str()),
            Subcommand::Enable => verb_with_one("enable", self.service_target.as_str()),
            Subcommand::Bootstrap => verb_with_two(
                "bootstrap",
                self.domain_target.as_str(),
                self.plist_path.as_str(),
            ),
            Subcommand::Kickstart => verb_with_one("kickstart", self.plist_path.as_str()),
            Subcommand::Bootout => verb_with_two(
                "bootout",
                self.domain_target.as_str(),
                self.plist_path.as_str(),
            ),
            Subcommand::Kill => verb_with_two("kill", "SIGTERM", self.service_target.as_str()),
        }
    }

    /// The request to run a subcommand of `launchctl` on this service: the
    /// program at its fixed path, with the subcommand's arguments.
    pub fn cmd(&self, subcommand: Subcommand) -> (request: Request)
        ensures
            request@ == self.spec_cmd(subcommand),
    {
        Request::Run { program: launchctl(), args: self.args(subcommand) }
    }
}

} // verus!

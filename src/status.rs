use vstd::prelude::*;
use crate::text::{chars_of, contains_whole, decimal, decimal_chars, occurs_whole_at};

verus! {

/// The transparent-proxy port that the privileged helper redirects traffic
/// to. It must agree with the helper's own configuration.
pub const TRANSPARENT_PROXY_PORT: u16 = 9040;

/// Whether anonymized routing is in force, as read from the live NAT table.
#[derive(Clone, Copy, Debug, PartialEq, Eq, Structural)]
pub enum AnonymizationState {
    Active,
    Inactive,
}

impl AnonymizationState {
    /// Whether the state is `Active`.
    pub fn is_active(&self) -> (r: bool)
        ensures
            r == (*self == AnonymizationState::Active),
    {
        match self {
            AnonymizationState::Active => true,
            AnonymizationState::Inactive => false,
        }
    }
}

/// What a privileged command was asked to do.
#[derive(Clone, Copy, Debug, PartialEq, Eq, Structural)]
pub enum Directive {
    /// List the live NAT table.
    Probe,
    /// Flip anonymized routing on or off.
    Toggle,
}

/// One privileged command that ran to its end.
#[derive(Debug)]
pub struct HelperInvocation {
    pub directive: Directive,
    pub exit_success: bool,
    pub stdout: String,
    pub stderr: String,
}

/// Why a privileged command could not be run at all.
#[derive(Debug)]
pub enum LaunchError {
    /// The helper artifact is not available.
    Staging(String),
    /// The process could not be started, or the privilege prompt was refused.
    Execution(String),
}

/// The text by which a NAT rule names its redirect target port.
pub open spec fn redirect_marker(port: u16) -> Seq<char> {
    "--to-ports "@ + decimal(port as nat)
}

/// The NAT table listing `table` holds a rule that redirects to `port`.
pub open spec fn has_redirect_rule(table: Seq<char>, port: u16) -> bool {
    exists|i: int| occurs_whole_at(table, redirect_marker(port), i)
}

/// The state that a NAT table listing shows: active only where the listing
/// command ran, succeeded and printed a rule redirecting to `port`.
pub open spec fn listing_state(port: u16, listing: Result<HelperInvocation, LaunchError>) -> AnonymizationState {
    match listing {
        Ok(inv) => if inv.exit_success && has_redirect_rule(inv.stdout@, port) {
            AnonymizationState::Active
        } else {
            AnonymizationState::Inactive
        },
        Err(_) => AnonymizationState::Inactive,
    }
}

/// The characters of `redirect_marker(port)`.
pub fn redirect_marker_chars(port: u16) -> (r: Vec<char>)
    ensures
        r@ == redirect_marker(port),
{
    let mut r = chars_of("--to-ports ");
    let mut digits = decimal_chars(port);
    r.append(&mut digits);
    r
}

/// Whether the NAT table listing `table` holds a rule redirecting to `port`.
pub fn table_redirects_to(table: &str, port: u16) -> (r: bool)
    ensures
        r == has_redirect_rule(table@, port),
{
    let t = chars_of(table);
    let m = redirect_marker_chars(port);
    contains_whole(&t, &m)
}

/// The anonymization state that a NAT table listing shows. Any failure to
/// read the table gives `Inactive`, never `Active`.
pub fn state_of_listing(port: u16, listing: &Result<HelperInvocation, LaunchError>) -> (r: AnonymizationState)
    ensures
        r == listing_state(port, *listing),
{
    match listing {
        Ok(inv) => {
            if inv.exit_success && table_redirects_to(inv.stdout.as_str(), port) {
                AnonymizationState::Active
            } else {
                AnonymizationState::Inactive
            }
        },
        Err(_) => AnonymizationState::Inactive,
    }
}

} // verus!

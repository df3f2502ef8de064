//! Session personalization: the captured machine and user facts, and the
//! session-scoped toggles around them. The facts themselves come from the
//! platform through trusted lookups; every field that cannot be determined
//! is replaced by a literal `Unknown` placeholder rather than failing the
//! snapshot.

use vstd::prelude::*;

use crate::error::AppError;

verus! {

/// Captured local system and user facts used to personalize the system
/// preamble. Immutable once captured; captured at most once per
/// enablement.
#[derive(Debug, Clone)]
pub struct UserContext {
    /// Login name of the user.
    pub username: String,
    /// Operating system name.
    pub os_name: String,
    /// Operating system version.
    pub os_version: String,
    /// Kernel version.
    pub kernel_version: String,
    /// Host name of the machine.
    pub hostname: String,
}

/// The multi-line rendering of a context, as shown by the `context`
/// session command.
pub open spec fn user_context_text(c: UserContext) -> Seq<char> {
    "User Context:\n  Username: "@ + c.username@ + "\n  OS: "@ + c.os_name@ + " "@
        + c.os_version@ + "\n  Kernel: "@ + c.kernel_version@ + "\n  Hostname: "@ + c.hostname@
}

impl UserContext {
    /// Renders the context for display.
    pub fn display_string(&self) -> (r: String)
        ensures
            r@ == user_context_text(*self),
    {
        let mut out = String::new();
        out.append("User Context:\n  Username: ");
        out.append(self.username.as_str());
        out.append("\n  OS: ");
        out.append(self.os_name.as_str());
        out.append(" ");
        out.append(self.os_version.as_str());
        out.append("\n  Kernel: ");
        out.append(self.kernel_version.as_str());
        out.append("\n  Hostname: ");
        out.append(self.hostname.as_str());
        proof {
            assert(out@ =~= user_context_text(*self));
        }
        out
    }
}

/// Relies on `whoami::username`: the login name of the current user, when
/// the platform can determine it. The value depends on the machine, so
/// nothing is promised about it.
#[verifier::external_body]
fn fetch_username() -> (r: Option<String>) {
    whoami::username().ok()
}

/// Relies on `sysinfo::System::name`: the operating system's name, when
/// the platform reports one.
#[verifier::external_body]
fn fetch_os_name() -> (r: Option<String>) {
    sysinfo::System::name()
}

/// Relies on `sysinfo::System::os_version`: the operating system's
/// version, when the platform reports one.
#[verifier::external_body]
fn fetch_os_version() -> (r: Option<String>) {
    sysinfo::System::os_version()
}

/// Relies on `sysinfo::System::kernel_version`: the kernel's version,
/// when the platform reports one.
#[verifier::external_body]
fn fetch_kernel_version() -> (r: Option<String>) {
    sysinfo::System::kernel_version()
}

/// Relies on `sysinfo::System::host_name`: the machine's host name, when
/// the platform reports one.
#[verifier::external_body]
fn fetch_hostname() -> (r: Option<String>) {
    sysinfo::System::host_name()
}

/// A context field: the looked-up value, or the `Unknown` placeholder
/// when the lookup found nothing.
pub fn field_or_unknown(v: Option<String>) -> (r: String)
    ensures
        v matches Some(s) ==> r@ == s@,
        v is None ==> r@ == "Unknown"@,
{
    match v {
        Some(s) => s,
        None => "Unknown".to_owned(),
    }
}

/// Session-scoped personalization state: the enablement and debug
/// toggles, and the lazily captured context.
#[derive(Debug)]
pub struct Personalization {
    /// Whether personalization is enabled.
    pub enabled: bool,
    /// Whether debug mode is enabled.
    pub debug: bool,
    /// The captured context, once taken.
    pub user_context: Option<UserContext>,
}

/// The debug rendering of the personalization state, as printed by the
/// debug context dump.
pub open spec fn debug_context_text(p: Personalization) -> Seq<char> {
    "=== Debug Context ===\n"@ + "Personalization enabled: "@ + (if p.enabled {
        "true"@
    } else {
        "false"@
    }) + "\n"@ + (match p.user_context {
        Some(c) => "\nUser Context:\n"@ + "  Username: "@ + c.username@ + "\n"@ + "  OS: "@
            + c.os_name@ + " "@ + c.os_version@ + "\n"@ + "  Kernel: "@ + c.kernel_version@
            + "\n"@ + "  Hostname: "@ + c.hostname@ + "\n"@,
        None => "\nNo user context available\n"@,
    }) + "==================\n"@
}

impl Default for Personalization {
    /// Personalization starts disabled, with no context captured.
    fn default() -> (p: Personalization)
        ensures
            !p.enabled,
            !p.debug,
            p.user_context is None,
    {
        Personalization { enabled: false, debug: false, user_context: None }
    }
}

impl Personalization {
    /// A fresh personalization state with the given enablement, debug
    /// off, and no context captured yet.
    pub fn new(enabled: bool) -> (p: Personalization)
        ensures
            p.enabled == enabled,
            !p.debug,
            p.user_context is None,
    {
        Personalization { enabled, debug: false, user_context: None }
    }

    /// Captures the user context when personalization is enabled; a no-op
    /// otherwise. Never fails: fields the platform cannot determine hold
    /// the `Unknown` placeholder.
    pub fn initialize(&mut self) -> (r: Result<(), AppError>)
        ensures
            r is Ok,
            final(self).enabled == old(self).enabled,
            final(self).debug == old(self).debug,
            !old(self).enabled ==> final(self).user_context == old(self).user_context,
            old(self).enabled ==> final(self).user_context is Some,
    {
        if !self.enabled {
            return Ok(());
        }
        let username = field_or_unknown(fetch_username());
        let os_name = field_or_unknown(fetch_os_name());
        let os_version = field_or_unknown(fetch_os_version());
        let kernel_version = field_or_unknown(fetch_kernel_version());
        let hostname = field_or_unknown(fetch_hostname());
        self.user_context = Some(
            UserContext { username, os_name, os_version, kernel_version, hostname },
        );
        Ok(())
    }

    /// The captured context, if any.
    pub fn get_user_context(&self) -> (r: Option<&UserContext>)
        ensures
            r is Some <==> self.user_context is Some,
            r matches Some(c) ==> *c == self.user_context->0,
    {
        self.user_context.as_ref()
    }

    /// Whether personalization is enabled.
    pub fn is_enabled(&self) -> (r: bool)
        ensures
            r == self.enabled,
    {
        self.enabled
    }

    /// Whether debug mode is enabled.
    pub fn is_debug(&self) -> (r: bool)
        ensures
            r == self.debug,
    {
        self.debug
    }

    /// Sets the enablement; enabling with no context captured yet
    /// captures it once. Never fails.
    pub fn set_enabled(&mut self, enabled: bool) -> (r: Result<(), AppError>)
        ensures
            r is Ok,
            final(self).enabled == enabled,
            final(self).debug == old(self).debug,
            enabled && old(self).user_context is None ==> final(self).user_context is Some,
            !(enabled && old(self).user_context is None) ==> final(self).user_context == old(
                self,
            ).user_context,
    {
        self.enabled = enabled;
        if enabled && self.user_context.is_none() {
            let r = self.initialize();
            proof {
                assert(r is Ok);
            }
        }
        Ok(())
    }

    /// Sets the debug toggle.
    pub fn set_debug(&mut self, debug: bool)
        ensures
            final(self).debug == debug,
            final(self).enabled == old(self).enabled,
            final(self).user_context == old(self).user_context,
    {
        self.debug = debug;
    }

    /// Renders the debug context dump: the fixed envelope, the enablement
    /// flag, and the captured context or a placeholder notice.
    pub fn debug_context(&self) -> (r: String)
        ensures
            r@ == debug_context_text(*self),
    {
        let mut out = String::new();
        out.append("=== Debug Context ===\n");
        out.append("Personalization enabled: ");
        if self.enabled {
            out.append("true");
        } else {
            out.append("false");
        }
        out.append("\n");
        match &self.user_context {
            Some(ctx) => {
                out.append("\nUser Context:\n");
                out.append("  Username: ");
                out.append(ctx.username.as_str());
                out.append("\n");
                out.append("  OS: ");
                out.append(ctx.os_name.as_str());
                out.append(" ");
                out.append(ctx.os_version.as_str());
                out.append("\n");
                out.append("  Kernel: ");
                out.append(ctx.kernel_version.as_str());
                out.append("\n");
                out.append("  Hostname: ");
                out.append(ctx.hostname.as_str());
                out.append("\n");
            },
            None => {
                out.append("\nNo user context available\n");
            },
        }
        out.append("==================\n");
        proof {
            assert(out@ =~= debug_context_text(*self));
        }
        out
    }
}

} // verus!

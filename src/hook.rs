use crate::handler::Handler;
use vstd::prelude::*;

verus! {

/// The environment variable that overrides capture for this kind of library
/// alone; it is consulted first.
pub const LIBRARY_OVERRIDE_VAR: &'static str = "RUST_LIB_BACKTRACE";

/// The environment variable that overrides capture in general; it is
/// consulted when the library override is absent.
pub const GENERAL_OVERRIDE_VAR: &'static str = "RUST_BACKTRACE";

/// An override value that turns capture off: the text `0`.
pub open spec fn is_off(v: Seq<char>) -> bool {
    v == seq!['0']
}

/// Whether a stack is captured: the library override decides when present,
/// else the general override, else the configured default. A present override
/// enables capture unless it is `0`.
pub open spec fn capture_policy(by_default: bool, library: Option<Seq<char>>, general: Option<Seq<char>>) -> bool {
    match library {
        Some(v) => !is_off(v),
        None => match general {
            Some(v) => !is_off(v),
            None => by_default,
        },
    }
}

/// The text of an optional override value.
pub open spec fn override_text(v: Option<&str>) -> Option<Seq<char>> {
    match v {
        None => None,
        Some(s) => Some(s@),
    }
}

/// Whether an override value turns capture off.
fn is_off_value(v: &str) -> (r: bool)
    ensures
        r == is_off(v@),
{
    if v.unicode_len() == 1 {
        let c = v.get_char(0);
        assert(c == '0' ==> v@ =~= seq!['0']);
        c == '0'
    } else {
        false
    }
}

/// The failure of an installation.
#[derive(Debug, Clone, Copy, PartialEq, Eq, Structural)]
pub enum InstallError {
    /// A factory was installed before; the first one stays active.
    AlreadyInstalled,
}

/// Configuration of the factory that makes a `Handler` for every new error.
#[derive(Debug, Clone, Copy)]
pub struct HookBuilder {
    capture_backtrace_by_default: bool,
}

/// The active factory after installing `b` where `active` was active: the
/// first installed factory stays.
pub open spec fn slot_after(active: Option<HookBuilder>, b: HookBuilder) -> Option<HookBuilder> {
    match active {
        None => Some(b),
        Some(a) => Some(a),
    }
}

/// What installing returns where `active` was active.
pub open spec fn install_result(active: Option<HookBuilder>) -> Result<(), InstallError> {
    match active {
        None => Ok(()),
        Some(_) => Err(InstallError::AlreadyInstalled),
    }
}

/// The write-once place that holds the active factory of a process.
#[derive(Debug)]
pub struct HookSlot {
    active: Option<HookBuilder>,
}

impl HookSlot {
    /// The factory installed here, if any.
    pub closed spec fn active(&self) -> Option<HookBuilder> {
        self.active
    }

    /// An empty slot.
    pub fn new() -> (r: HookSlot)
        ensures
            r.active().is_none(),
    {
        HookSlot { active: None }
    }

    /// The factory installed here, if any.
    pub fn active_factory(&self) -> (r: Option<HookBuilder>)
        ensures
            r == self.active(),
    {
        self.active
    }
}

impl HookBuilder {
    /// Whether capture is on when no override is set.
    pub closed spec fn by_default(&self) -> bool {
        self.capture_backtrace_by_default
    }

    /// Configures the default capture mode for stacks in error reports.
    pub fn capture_backtrace_by_default(self, cond: bool) -> (r: Self)
        ensures
            r.by_default() == cond,
    {
        let mut b = self;
        b.capture_backtrace_by_default = cond;
        b
    }

    /// Decides whether to capture a stack, given the values of the library
    /// override and the general override, absent where the variable is unset.
    pub fn capture_enabled(&self, library: Option<&str>, general: Option<&str>) -> (r: bool)
        ensures
            r == capture_policy(self.by_default(), override_text(library), override_text(general)),
            library matches Some(v) ==> r == !is_off(v@),
            library.is_none() && general.is_none() ==> r == self.by_default(),
    {
        match library {
            Some(v) => !is_off_value(v),
            None => match general {
                Some(v) => !is_off_value(v),
                None => self.capture_backtrace_by_default,
            },
        }
    }

    /// Makes the state for a new error, given the override values read at
    /// the moment the error is made: the stack is captured exactly when the
    /// policy enables it.
    pub fn make_handler(&self, library: Option<&str>, general: Option<&str>) -> (r: Handler)
        ensures
            r.stack().is_some() == capture_policy(
                self.by_default(),
                override_text(library),
                override_text(general),
            ),
    {
        Handler::new(self.capture_enabled(library, general))
    }

    /// Installs this configuration as the active factory in `slot`. Only the
    /// first installation succeeds; a later one fails and changes nothing.
    pub fn install(self, slot: &mut HookSlot) -> (r: Result<(), InstallError>)
        ensures
            r == install_result(old(slot).active()),
            final(slot).active() == slot_after(old(slot).active(), self),
    {
        match slot.active {
            Some(_) => Err(InstallError::AlreadyInstalled),
            None => {
                slot.active = Some(self);
                Ok(())
            },
        }
    }
}

impl Default for HookBuilder {
    /// A configuration that does not capture unless an override asks for it.
    fn default() -> (r: Self)
        ensures
            !r.by_default(),
    {
        HookBuilder { capture_backtrace_by_default: false }
    }
}

/// Installs the default configuration as the active factory in `slot`.
pub fn install(slot: &mut HookSlot) -> (r: Result<(), InstallError>)
    ensures
        r == install_result(old(slot).active()),
        old(slot).active().is_some() ==> final(slot).active() == old(slot).active(),
        old(slot).active().is_none() ==> (final(slot).active() matches Some(b) && !b.by_default()),
{
    HookBuilder::default().install(slot)
}

/// Once any factory has been installed, installing any factory again fails
/// with `AlreadyInstalled` and leaves the first one active.
pub proof fn lemma_second_install_refused(active: Option<HookBuilder>, first: HookBuilder, second: HookBuilder)
    ensures
        install_result(slot_after(active, first)) == Err::<(), InstallError>(InstallError::AlreadyInstalled),
        slot_after(slot_after(active, first), second) == slot_after(active, first),
        active.is_none() ==> slot_after(active, first) == Some(first),
{
}

/// With no override set, a stack is captured exactly when the configured
/// default asks for it.
pub proof fn lemma_default_decides_without_overrides(b: HookBuilder)
    ensures
        capture_policy(b.by_default(), None, None) == b.by_default(),
{
}

/// A library override of `0` turns capture off and any other value turns it
/// on, whatever the general override and the default say.
pub proof fn lemma_library_override_wins(by_default: bool, library: Seq<char>, general: Option<Seq<char>>)
    ensures
        capture_policy(by_default, Some(library), general) == !is_off(library),
        is_off(library) ==> !capture_policy(by_default, Some(library), general),
{
}

} // verus!

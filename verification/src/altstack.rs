//! Per-thread alternate-stack state.
//!
//! A thread may register an alternate stack for handlers whose action
//! carries the on-stack flag. The state tracks the registered
//! configuration and whether a handler is running on the stack; with the
//! autodisarm flag the configuration is taken out of service for the
//! duration of the handler and restored on return.

use vstd::prelude::*;

use crate::errors::SignalError;

verus! {

/// Reported while a handler runs on the stack.
pub const SS_ONSTACK: u32 = 1;
/// Marks a configuration as out of service.
pub const SS_DISABLE: u32 = 2;
/// Disarm the stack automatically while a handler runs on it.
pub const SS_AUTODISARM: u32 = 2147483648;

/// The smallest stack size a configuration may name.
pub const MINSIGSTKSZ: u64 = 2048;

/// One alternate-stack configuration: base address, flag bits and size.
#[derive(Clone, Copy, PartialEq, Eq, Structural, Debug)]
pub struct StackConfig {
    pub sp: u64,
    pub flags: u32,
    pub size: u64,
}

impl StackConfig {
    /// Whether this configuration is out of service.
    pub open spec fn disabled(self) -> bool {
        self.flags & SS_DISABLE != 0
    }

    /// Whether this configuration asks to be disarmed while in use.
    pub open spec fn autodisarm(self) -> bool {
        self.flags & SS_AUTODISARM != 0
    }

    /// How the kernel reports a stack that is out of service: null
    /// pointer, the disable flag, zero size.
    pub fn disabled_config() -> (r: StackConfig)
        ensures
            r == (StackConfig { sp: 0, flags: SS_DISABLE, size: 0 }),
            r.disabled(),
    {
        let r = StackConfig { sp: 0, flags: SS_DISABLE, size: 0 };
        proof {
            assert(SS_DISABLE & SS_DISABLE != 0) by (bit_vector);
        }
        r
    }

    /// Executable form of [`StackConfig::disabled`].
    pub fn is_disabled(&self) -> (r: bool)
        ensures
            r == self.disabled(),
    {
        self.flags & SS_DISABLE != 0
    }

    /// Executable form of [`StackConfig::autodisarm`].
    pub fn is_autodisarm(&self) -> (r: bool)
        ensures
            r == self.autodisarm(),
    {
        self.flags & SS_AUTODISARM != 0
    }
}

/// Which stack a handler is invoked on.
#[derive(Clone, Copy, PartialEq, Eq, Structural, Debug)]
pub enum StackSelection {
    /// The thread's ordinary stack.
    Normal,
    /// The registered alternate stack.
    Alternate,
}

/// The alternate-stack state of one thread.
#[derive(Clone, Copy, PartialEq, Eq, Structural, Debug)]
pub struct AltStackState {
    /// The registered configuration; disabled when none is in service.
    pub config: StackConfig,
    /// Whether a handler is running on the stack right now (autodisarm
    /// use is tracked by the handler frame instead).
    pub in_use: bool,
}

impl AltStackState {
    /// A thread starts with no alternate stack in service.
    pub fn new() -> (r: AltStackState)
        ensures
            r.config == (StackConfig { sp: 0, flags: SS_DISABLE, size: 0 }),
            r.config.disabled(),
            !r.in_use,
    {
        AltStackState { config: StackConfig::disabled_config(), in_use: false }
    }

    /// What a query reports: a disabled stack always reads as null, the
    /// disable flag and zero size; while a handler runs on the stack the
    /// on-stack bit is set in the reported flags.
    pub open spec fn reported(self) -> StackConfig {
        if self.config.disabled() {
            StackConfig { sp: 0, flags: SS_DISABLE, size: 0 }
        } else if self.in_use {
            StackConfig { sp: self.config.sp, flags: self.config.flags | SS_ONSTACK, size: self.config.size }
        } else {
            self.config
        }
    }

    /// Query the configuration as the kernel would report it.
    pub fn query(&self) -> (r: StackConfig)
        ensures
            r == self.reported(),
    {
        if self.config.is_disabled() {
            StackConfig::disabled_config()
        } else if self.in_use {
            StackConfig {
                sp: self.config.sp,
                flags: self.config.flags | SS_ONSTACK,
                size: self.config.size,
            }
        } else {
            self.config
        }
    }

    /// Install a new configuration (or just query with `None`), returning
    /// the previous one as reported.
    ///
    /// Fails with `Busy` while a handler runs on the stack, and with
    /// `InvalidArgument` when an enabled configuration names a stack
    /// smaller than [`MINSIGSTKSZ`].
    pub fn configure(&mut self, new: Option<StackConfig>) -> (r: Result<StackConfig, SignalError>)
        ensures
            r is Err <==> ((old(self).in_use && new is Some) || (!old(self).in_use && new is Some
                && !new->Some_0.disabled() && new->Some_0.size < MINSIGSTKSZ)),
            r == Result::<StackConfig, SignalError>::Err(SignalError::Busy) <==> (old(self).in_use
                && new is Some),
            r == Result::<StackConfig, SignalError>::Err(SignalError::InvalidArgument) <==> (!old(
                self,
            ).in_use && new is Some && !new->Some_0.disabled() && new->Some_0.size < MINSIGSTKSZ),
            r is Ok ==> r->Ok_0 == old(self).reported(),
            r is Err ==> *final(self) == *old(self),
            (r is Ok && new is Some) ==> *final(self) == (AltStackState {
                config: new->Some_0,
                in_use: old(self).in_use,
            }),
            (r is Ok && new is None) ==> *final(self) == *old(self),
    {
        match new {
            Option::None => Result::Ok(self.query()),
            Option::Some(c) => {
                if self.in_use {
                    return Result::Err(SignalError::Busy);
                }
                if !c.is_disabled() && c.size < MINSIGSTKSZ {
                    return Result::Err(SignalError::InvalidArgument);
                }
                let prev = self.query();
                self.config = c;
                Result::Ok(prev)
            },
        }
    }

    /// Decide the stack for a handler about to run and update the state.
    ///
    /// Alternate is selected exactly when the action asks for it, a
    /// configuration is in service, and no handler is already on the
    /// stack. With autodisarm the configuration is taken out of service
    /// instead of being marked in use; the second half of the result is
    /// what [`AltStackState::leave_handler`] must restore on return.
    pub fn enter_handler(&mut self, wants_onstack: bool) -> (r: (StackSelection, Option<
        StackConfig,
    >))
        ensures
            r.0 == StackSelection::Alternate <==> (wants_onstack && !old(self).config.disabled()
                && !old(self).in_use),
            r.0 == StackSelection::Normal ==> *final(self) == *old(self) && r.1 is None,
            (r.0 == StackSelection::Alternate && old(self).config.autodisarm()) ==> *final(self)
                == (AltStackState {
                config: StackConfig { sp: 0, flags: SS_DISABLE, size: 0 },
                in_use: false,
            }) && r.1 == Option::Some(old(self).config),
            (r.0 == StackSelection::Alternate && !old(self).config.autodisarm()) ==> *final(self)
                == (AltStackState { config: old(self).config, in_use: true }) && r.1 is None,
    {
        if wants_onstack && !self.config.is_disabled() && !self.in_use {
            if self.config.is_autodisarm() {
                let saved = self.config;
                self.config = StackConfig::disabled_config();
                self.in_use = false;
                (StackSelection::Alternate, Option::Some(saved))
            } else {
                self.in_use = true;
                (StackSelection::Alternate, Option::None)
            }
        } else {
            (StackSelection::Normal, Option::None)
        }
    }

    /// Undo [`AltStackState::enter_handler`] on handler return: clear the
    /// in-use mark and restore an autodisarmed configuration.
    pub fn leave_handler(&mut self, restore: Option<StackConfig>)
        ensures
            !final(self).in_use,
            restore is Some ==> final(self).config == restore->Some_0,
            restore is None ==> final(self).config == old(self).config,
    {
        self.in_use = false;
        match restore {
            Option::Some(c) => {
                self.config = c;
            },
            Option::None => {},
        }
    }
}

} // verus!

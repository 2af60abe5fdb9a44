use vstd::prelude::*;

use crate::config::{
    admits, check_deadline, config_error, decimal_u64, test_config_error, test_deadline, CallConfigRequest,
    ConfigError, FuncConfig,
};
use crate::runwasm::{CallError, RegisterError, Registry};

verus! {

/// Why a request to the server was turned down.
#[derive(Clone, Copy, Debug, PartialEq, Eq, Structural)]
pub enum RouteError {
    /// The call description is malformed.
    Config(ConfigError),
    /// No module of that name is registered.
    InvalidWasmName,
    /// The calibrated time exceeds the call's relative deadline.
    DeadlineInfeasible,
    /// The module has no configured call to repeat.
    NotConfigured,
}

/// The execution time that a calibration publishes for a run measured at
/// `elapsed_ms` whole milliseconds: one more, so that a run shorter than a
/// millisecond still counts.
pub open spec fn calibrated_time(elapsed_ms: u64) -> u64 {
    if elapsed_ms == u64::MAX {
        u64::MAX
    } else {
        (elapsed_ms + 1) as u64
    }
}

/// The request-handling decisions over the module registry.
pub struct Server {
    registry: Registry,
}

impl Server {
    pub closed spec fn registry(&self) -> Registry {
        self.registry
    }

    pub open spec fn wf(&self) -> bool {
        self.registry().wf()
    }

    pub fn new() -> (r: Server)
        ensures
            r.wf(),
            r.registry().envs().len() == 0,
    {
        Server { registry: Registry::new() }
    }

    pub fn get_registry(&self) -> (r: &Registry)
        ensures
            *r == self.registry(),
    {
        &self.registry
    }

    /// Registers module `name`; a second registration of a name is refused
    /// and leaves the first untouched.
    pub fn register(&mut self, name: String, path: String) -> (r: Result<usize, RegisterError>)
        requires
            old(self).wf(),
        ensures
            final(self).wf(),
            old(self).registry().has(name@) ==> r == Err::<usize, RegisterError>(
                RegisterError::DuplicateName,
            ) && *final(self) == *old(self),
            !old(self).registry().has(name@) ==> {
                &&& r == Ok::<usize, RegisterError>(old(self).registry().envs().len() as usize)
                &&& final(self).registry().envs().drop_last() == old(self).registry().envs()
                &&& final(self).registry().envs().len() == old(self).registry().envs().len() + 1
                &&& final(self).registry().envs().last().wasm_name@ == name@
                &&& final(self).registry().envs().last().test_time is None
            },
    {
        self.registry.register(name, path)
    }

    /// Starts a calibration: validates `req` (its deadline is optional, see
    /// `FuncConfig::for_test`), makes it the configured call of its
    /// module, and returns the module's position for the measuring run. A
    /// malformed request or an unknown module changes nothing.
    pub fn prepare_test(&mut self, req: CallConfigRequest) -> (r: Result<usize, RouteError>)
        requires
            old(self).wf(),
        ensures
            final(self).wf(),
            test_config_error(req) matches Some(e) ==> r == Err::<usize, RouteError>(
                RouteError::Config(e),
            ) && *final(self) == *old(self),
            test_config_error(req) is None && !old(self).registry().has(req.wasm_name@) ==> r
                == Err::<usize, RouteError>(RouteError::InvalidWasmName) && *final(self) == *old(
                self,
            ),
            test_config_error(req) is None && old(self).registry().has(req.wasm_name@) ==> {
                &&& r matches Ok(i)
                &&& i < old(self).registry().envs().len()
                &&& old(self).registry().envs()[i as int].wasm_name@ == req.wasm_name@
                &&& final(self).registry().same_but(&old(self).registry(), i as int)
                &&& final(self).registry().envs()[i as int].test_time == old(
                    self,
                ).registry().envs()[i as int].test_time
                &&& final(self).registry().envs()[i as int].func_config matches Some(c)
                &&& c.from_request(req)
                &&& c.relative_deadline == test_deadline(req.expected_deadline@)
            },
    {
        let name = req.wasm_name.clone();
        let config = match FuncConfig::for_test(req) {
            Ok(c) => c,
            Err(e) => return Err(RouteError::Config(e)),
        };
        match self.registry.find(&name) {
            None => Err(RouteError::InvalidWasmName),
            Some(i) => {
                self.registry.set_func_config(i, config);
                Ok(i)
            },
        }
    }

    /// Ends a calibration of module `i` whose run took `elapsed_ms`: the
    /// module's test time becomes the calibrated time, which is returned.
    pub fn finish_test(&mut self, i: usize, elapsed_ms: u64) -> (r: u64)
        requires
            old(self).wf(),
            i < old(self).registry().envs().len(),
        ensures
            final(self).wf(),
            r == calibrated_time(elapsed_ms),
            final(self).registry().same_but(&old(self).registry(), i as int),
            final(self).registry().envs()[i as int].test_time == Some(r),
            final(self).registry().envs()[i as int].func_config == old(self).registry().envs()[i as int].func_config,
    {
        let t: u64 = if elapsed_ms == u64::MAX {
            u64::MAX
        } else {
            elapsed_ms + 1
        };
        self.registry.set_test_time(i, t);
        t
    }

    /// Decides a call: validates `req` and applies the deadline gate to its
    /// module. On success, the module's position and the validated call,
    /// ready to be dispatched.
    pub fn call_func(&self, req: CallConfigRequest) -> (r: Result<(usize, FuncConfig), RouteError>)
        requires
            self.wf(),
        ensures
            config_error(req) matches Some(e) ==> r == Err::<(usize, FuncConfig), RouteError>(
                RouteError::Config(e),
            ),
            config_error(req) is None && !self.registry().has(req.wasm_name@) ==> r == Err::<
                (usize, FuncConfig),
                RouteError,
            >(RouteError::InvalidWasmName),
            config_error(req) is None && self.registry().has(req.wasm_name@) ==> match r {
                Ok((i, c)) => i < self.registry().envs().len()
                    && self.registry().envs()[i as int].wasm_name@ == req.wasm_name@
                    && admits(self.registry().envs()[i as int].test_time, c.relative_deadline)
                    && c.from_request(req) && Some(c.relative_deadline) == decimal_u64(
                    req.expected_deadline@,
                ),
                Err(e) => e == RouteError::DeadlineInfeasible && exists|i: int|
                    0 <= i < self.registry().envs().len()
                        && #[trigger] self.registry().envs()[i].wasm_name@ == req.wasm_name@
                        && !admits(
                        self.registry().envs()[i].test_time,
                        decimal_u64(req.expected_deadline@)->Some_0,
                    ),
            },
    {
        let name = req.wasm_name.clone();
        let config = match FuncConfig::new(req) {
            Ok(c) => c,
            Err(e) => return Err(RouteError::Config(e)),
        };
        match self.registry.admit_call(&name, config.relative_deadline) {
            Ok(i) => Ok((i, config)),
            Err(CallError::InvalidWasmName) => Err(RouteError::InvalidWasmName),
            Err(CallError::DeadlineInfeasible) => Err(RouteError::DeadlineInfeasible),
        }
    }

    /// Decides a repeat of module `name`'s configured call: its position
    /// when it is registered, configured, and its calibrated time admits the
    /// configured call's relative deadline.
    pub fn call_with_name(&self, name: &String) -> (r: Result<usize, RouteError>)
        requires
            self.wf(),
        ensures
            !self.registry().has(name@) ==> r == Err::<usize, RouteError>(RouteError::InvalidWasmName),
            self.registry().has(name@) ==> match r {
                Ok(i) => i < self.registry().envs().len() && self.registry().envs()[i as int].wasm_name@
                    == name@ && (self.registry().envs()[i as int].func_config matches Some(c) && admits(
                    self.registry().envs()[i as int].test_time,
                    c.relative_deadline,
                )),
                Err(RouteError::NotConfigured) => exists|i: int|
                    0 <= i < self.registry().envs().len()
                        && #[trigger] self.registry().envs()[i].wasm_name@ == name@
                        && self.registry().envs()[i].func_config is None,
                Err(RouteError::DeadlineInfeasible) => exists|i: int|
                    0 <= i < self.registry().envs().len()
                        && #[trigger] self.registry().envs()[i].wasm_name@ == name@ && (self.registry().envs()[i].func_config matches Some(
                        c,
                    ) && !admits(self.registry().envs()[i].test_time, c.relative_deadline)),
                Err(_) => false,
            },
    {
        match self.registry.find(name) {
            None => Err(RouteError::InvalidWasmName),
            Some(i) => {
                match self.registry.get_func_config(i) {
                    None => Err(RouteError::NotConfigured),
                    Some(c) => {
                        if check_deadline(self.registry.get_test_time(i), c.relative_deadline) {
                            Ok(i)
                        } else {
                            Err(RouteError::DeadlineInfeasible)
                        }
                    },
                }
            },
        }
    }
}

} // verus!

use vstd::prelude::*;

use crate::config::{admits, FuncConfig, check_deadline};

verus! {

/// A registered module: its name, where its bytes are, the call it was last
/// configured for, and the execution time its calibration measured.
pub struct Environment {
    pub wasm_name: String,
    pub path: String,
    pub func_config: Option<FuncConfig>,
    pub test_time: Option<u64>,
}

/// Why a registration was refused.
#[derive(Clone, Copy, Debug, PartialEq, Eq, Structural)]
pub enum RegisterError {
    /// A module of that name is registered already.
    DuplicateName,
}

/// Why a call was not dispatched.
#[derive(Clone, Copy, Debug, PartialEq, Eq, Structural)]
pub enum CallError {
    /// No module of that name is registered.
    InvalidWasmName,
    /// The calibrated time exceeds the call's relative deadline.
    DeadlineInfeasible,
}

/// The registered modules, names unique.
pub struct Registry {
    envs: Vec<Environment>,
}

impl Registry {
    pub closed spec fn envs(&self) -> Seq<Environment> {
        self.envs@
    }

    pub open spec fn wf(&self) -> bool {
        forall|i: int, j: int|
            0 <= i < j < self.envs().len() ==> #[trigger] self.envs()[i].wasm_name@
                != #[trigger] self.envs()[j].wasm_name@
    }

    pub open spec fn has(&self, name: Seq<char>) -> bool {
        exists|i: int| 0 <= i < self.envs().len() && #[trigger] self.envs()[i].wasm_name@ == name
    }

    /// Every entry but `i` is the same in `self` and `o`, and entry `i`
    /// keeps its name and path (its configured call and test time may differ).
    pub open spec fn same_but(&self, o: &Registry, i: int) -> bool {
        &&& self.envs().len() == o.envs().len()
        &&& forall|k: int| 0 <= k < self.envs().len() && k != i ==> #[trigger] self.envs()[k] == o.envs()[k]
        &&& self.envs()[i].wasm_name == o.envs()[i].wasm_name
        &&& self.envs()[i].path == o.envs()[i].path
    }

    pub fn new() -> (r: Registry)
        ensures
            r.wf(),
            r.envs().len() == 0,
    {
        Registry { envs: Vec::new() }
    }

    pub fn len(&self) -> (r: usize)
        ensures
            r == self.envs().len(),
    {
        self.envs.len()
    }

    /// The position of the module named `name`.
    pub fn find(&self, name: &String) -> (r: Option<usize>)
        requires
            self.wf(),
        ensures
            r is None <==> !self.has(name@),
            r matches Some(i) ==> i < self.envs().len() && self.envs()[i as int].wasm_name@ == name@,
    {
        let mut i: usize = 0;
        while i < self.envs.len()
            invariant
                0 <= i <= self.envs@.len(),
                forall|k: int| 0 <= k < i ==> #[trigger] self.envs@[k].wasm_name@ != name@,
            decreases self.envs@.len() - i,
        {
            if self.envs[i].wasm_name == *name {
                return Some(i);
            }
            i = i + 1;
        }
        None
    }

    /// Registers module `name` stored at `path`, not yet configured or
    /// calibrated. A name already registered is refused and the registry,
    /// the first registration included, is left unchanged.
    pub fn register(&mut self, name: String, path: String) -> (r: Result<usize, RegisterError>)
        requires
            old(self).wf(),
        ensures
            final(self).wf(),
            old(self).has(name@) ==> r == Err::<usize, RegisterError>(RegisterError::DuplicateName)
                && *final(self) == *old(self),
            !old(self).has(name@) ==> {
                &&& r == Ok::<usize, RegisterError>(old(self).envs().len() as usize)
                &&& final(self).envs().len() == old(self).envs().len() + 1
                &&& final(self).envs().drop_last() == old(self).envs()
                &&& final(self).envs().last().wasm_name@ == name@
                &&& final(self).envs().last().path@ == path@
                &&& final(self).envs().last().func_config is None
                &&& final(self).envs().last().test_time is None
            },
    {
        if self.find(&name).is_some() {
            return Err(RegisterError::DuplicateName);
        }
        let ghost before = self.envs@;
        self.envs.push(Environment { wasm_name: name, path, func_config: None, test_time: None });
        proof {
            assert(self.envs@.drop_last() =~= before);
            assert forall|i: int, j: int| 0 <= i < j < self.envs@.len() implies
                #[trigger] self.envs@[i].wasm_name@ != #[trigger] self.envs@[j].wasm_name@ by {
                if j == before.len() {
                    assert(self.envs@[i] == before[i]);
                }
            }
        }
        Ok(self.envs.len() - 1)
    }

    /// The module at position `i`, if there is one.
    pub fn environment(&self, i: usize) -> (r: Option<&Environment>)
        ensures
            i < self.envs().len() ==> r == Some(&self.envs()[i as int]),
            i >= self.envs().len() ==> r is None,
    {
        if i < self.envs.len() {
            Some(&self.envs[i])
        } else {
            None
        }
    }

    /// The calibrated time of entry `i`.
    pub fn get_test_time(&self, i: usize) -> (r: Option<u64>)
        requires
            i < self.envs().len(),
        ensures
            r == self.envs()[i as int].test_time,
    {
        self.envs[i].test_time
    }

    /// Publishes a calibration: entry `i` now has `time` as its measured time.
    pub fn set_test_time(&mut self, i: usize, time: u64)
        requires
            old(self).wf(),
            i < old(self).envs().len(),
        ensures
            final(self).wf(),
            final(self).same_but(old(self), i as int),
            final(self).envs()[i as int].func_config == old(self).envs()[i as int].func_config,
            final(self).envs()[i as int].test_time == Some(time),
    {
        let ghost before = self.envs@;
        let mut env = self.envs.remove(i);
        env.test_time = Some(time);
        self.envs.insert(i, env);
        proof {
            assert forall|k: int| 0 <= k < self.envs@.len() && k != i implies #[trigger] self.envs@[k]
                == before[k] by {}
            assert forall|a: int, b: int| 0 <= a < b < self.envs@.len() implies
                #[trigger] self.envs@[a].wasm_name@ != #[trigger] self.envs@[b].wasm_name@ by {
                assert(self.envs@[a].wasm_name == before[a].wasm_name);
                assert(self.envs@[b].wasm_name == before[b].wasm_name);
            }
        }
    }

    /// Records `config` as the call that module `i` is configured for.
    pub fn set_func_config(&mut self, i: usize, config: FuncConfig)
        requires
            old(self).wf(),
            i < old(self).envs().len(),
        ensures
            final(self).wf(),
            final(self).same_but(old(self), i as int),
            final(self).envs()[i as int].func_config == Some(config),
            final(self).envs()[i as int].test_time == old(self).envs()[i as int].test_time,
    {
        let ghost before = self.envs@;
        let mut env = self.envs.remove(i);
        env.func_config = Some(config);
        self.envs.insert(i, env);
        proof {
            assert forall|k: int| 0 <= k < self.envs@.len() && k != i implies #[trigger] self.envs@[k]
                == before[k] by {}
            assert forall|a: int, b: int| 0 <= a < b < self.envs@.len() implies
                #[trigger] self.envs@[a].wasm_name@ != #[trigger] self.envs@[b].wasm_name@ by {
                assert(self.envs@[a].wasm_name == before[a].wasm_name);
                assert(self.envs@[b].wasm_name == before[b].wasm_name);
            }
        }
    }

    /// The call that module `i` is configured for, if any.
    pub fn get_func_config(&self, i: usize) -> (r: &Option<FuncConfig>)
        requires
            i < self.envs().len(),
        ensures
            *r == self.envs()[i as int].func_config,
    {
        &self.envs[i].func_config
    }

    /// The decision on a call of module `name` with relative deadline
    /// `deadline`: the module's position when it is registered and its
    /// calibrated time admits the deadline.
    pub fn admit_call(&self, name: &String, deadline: u64) -> (r: Result<usize, CallError>)
        requires
            self.wf(),
        ensures
            !self.has(name@) ==> r == Err::<usize, CallError>(CallError::InvalidWasmName),
            self.has(name@) ==> match r {
                Ok(i) => i < self.envs().len() && self.envs()[i as int].wasm_name@ == name@
                    && admits(self.envs()[i as int].test_time, deadline),
                Err(e) => e == CallError::DeadlineInfeasible && exists|i: int|
                    0 <= i < self.envs().len() && #[trigger] self.envs()[i].wasm_name@ == name@
                    && !admits(self.envs()[i].test_time, deadline),
            },
    {
        match self.find(name) {
            None => Err(CallError::InvalidWasmName),
            Some(i) => {
                if check_deadline(self.envs[i].test_time, deadline) {
                    Ok(i)
                } else {
                    Err(CallError::DeadlineInfeasible)
                }
            },
        }
    }
}

} // verus!

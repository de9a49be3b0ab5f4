#![allow(non_camel_case_types)]

use vstd::prelude::*;

verus! {

/// The POSIX threads object `pthread_attr_t`, as raw storage.
#[derive(Clone, Copy, Debug)]
pub struct pthread_attr_t {
    pub _bindgen_data_: [u64; 7],
}

/// The POSIX threads object `pthread_mutex_t`, as raw storage.
#[derive(Clone, Copy, Debug)]
pub struct pthread_mutex_t {
    pub _bindgen_data_: [u64; 5],
}

/// The POSIX threads object `pthread_mutexattr_t`, as raw storage.
#[derive(Clone, Copy, Debug)]
pub struct pthread_mutexattr_t {
    pub _bindgen_data_: [u32; 1],
}

/// The POSIX threads object `pthread_cond_t`, as raw storage.
#[derive(Clone, Copy, Debug)]
pub struct pthread_cond_t {
    pub _bindgen_data_: [u64; 6],
}

/// The POSIX threads object `pthread_condattr_t`, as raw storage.
#[derive(Clone, Copy, Debug)]
pub struct pthread_condattr_t {
    pub _bindgen_data_: [u32; 1],
}

/// The POSIX threads object `pthread_rwlock_t`, as raw storage.
#[derive(Clone, Copy, Debug)]
pub struct pthread_rwlock_t {
    pub _bindgen_data_: [u64; 7],
}

/// The POSIX threads object `pthread_rwlockattr_t`, as raw storage.
#[derive(Clone, Copy, Debug)]
pub struct pthread_rwlockattr_t {
    pub _bindgen_data_: [u64; 1],
}

/// The POSIX threads object `pthread_barrier_t`, as raw storage.
#[derive(Clone, Copy, Debug)]
pub struct pthread_barrier_t {
    pub _bindgen_data_: [u64; 4],
}

/// The POSIX threads object `pthread_barrierattr_t`, as raw storage.
#[derive(Clone, Copy, Debug)]
pub struct pthread_barrierattr_t {
    pub _bindgen_data_: [u32; 1],
}

/// The C enumeration `Enum_Unnamed3`.
#[derive(PartialEq, Eq, Structural, Clone, Copy, Debug)]
pub enum Enum_Unnamed3 {
    PTHREAD_CREATE_JOINABLE,
    PTHREAD_CREATE_DETACHED,
}

impl Enum_Unnamed3 {
    /// The value of the variant in the C enumeration.
    pub open spec fn spec_value(self) -> u32 {
        match self {
            Enum_Unnamed3::PTHREAD_CREATE_JOINABLE => 0,
            Enum_Unnamed3::PTHREAD_CREATE_DETACHED => 1,
        }
    }

    /// The value of the variant in the C enumeration.
    pub fn value(&self) -> (v: u32)
        ensures
            v == self.spec_value(),
    {
        match self {
            Enum_Unnamed3::PTHREAD_CREATE_JOINABLE => 0,
            Enum_Unnamed3::PTHREAD_CREATE_DETACHED => 1,
        }
    }
}

/// The C enumeration `Enum_Unnamed4`.
#[derive(PartialEq, Eq, Structural, Clone, Copy, Debug)]
pub enum Enum_Unnamed4 {
    PTHREAD_MUTEX_TIMED_NP,
    PTHREAD_MUTEX_RECURSIVE_NP,
    PTHREAD_MUTEX_ERRORCHECK_NP,
    PTHREAD_MUTEX_ADAPTIVE_NP,
}

impl Enum_Unnamed4 {
    /// The value of the variant in the C enumeration.
    pub open spec fn spec_value(self) -> u32 {
        match self {
            Enum_Unnamed4::PTHREAD_MUTEX_TIMED_NP => 0,
            Enum_Unnamed4::PTHREAD_MUTEX_RECURSIVE_NP => 1,
            Enum_Unnamed4::PTHREAD_MUTEX_ERRORCHECK_NP => 2,
            Enum_Unnamed4::PTHREAD_MUTEX_ADAPTIVE_NP => 3,
        }
    }

    /// The value of the variant in the C enumeration.
    pub fn value(&self) -> (v: u32)
        ensures
            v == self.spec_value(),
    {
        match self {
            Enum_Unnamed4::PTHREAD_MUTEX_TIMED_NP => 0,
            Enum_Unnamed4::PTHREAD_MUTEX_RECURSIVE_NP => 1,
            Enum_Unnamed4::PTHREAD_MUTEX_ERRORCHECK_NP => 2,
            Enum_Unnamed4::PTHREAD_MUTEX_ADAPTIVE_NP => 3,
        }
    }
}

/// The C enumeration `Enum_Unnamed5`.
#[derive(PartialEq, Eq, Structural, Clone, Copy, Debug)]
pub enum Enum_Unnamed5 {
    PTHREAD_MUTEX_STALLED,
    PTHREAD_MUTEX_ROBUST,
}

impl Enum_Unnamed5 {
    /// The value of the variant in the C enumeration.
    pub open spec fn spec_value(self) -> u32 {
        match self {
            Enum_Unnamed5::PTHREAD_MUTEX_STALLED => 0,
            Enum_Unnamed5::PTHREAD_MUTEX_ROBUST => 1,
        }
    }

    /// The value of the variant in the C enumeration.
    pub fn value(&self) -> (v: u32)
        ensures
            v == self.spec_value(),
    {
        match self {
            Enum_Unnamed5::PTHREAD_MUTEX_STALLED => 0,
            Enum_Unnamed5::PTHREAD_MUTEX_ROBUST => 1,
        }
    }
}

/// The C enumeration `Enum_Unnamed6`.
#[derive(PartialEq, Eq, Structural, Clone, Copy, Debug)]
pub enum Enum_Unnamed6 {
    PTHREAD_PRIO_NONE,
    PTHREAD_PRIO_INHERIT,
    PTHREAD_PRIO_PROTECT,
}

impl Enum_Unnamed6 {
    /// The value of the variant in the C enumeration.
    pub open spec fn spec_value(self) -> u32 {
        match self {
            Enum_Unnamed6::PTHREAD_PRIO_NONE => 0,
            Enum_Unnamed6::PTHREAD_PRIO_INHERIT => 1,
            Enum_Unnamed6::PTHREAD_PRIO_PROTECT => 2,
        }
    }

    /// The value of the variant in the C enumeration.
    pub fn value(&self) -> (v: u32)
        ensures
            v == self.spec_value(),
    {
        match self {
            Enum_Unnamed6::PTHREAD_PRIO_NONE => 0,
            Enum_Unnamed6::PTHREAD_PRIO_INHERIT => 1,
            Enum_Unnamed6::PTHREAD_PRIO_PROTECT => 2,
        }
    }
}

/// The C enumeration `Enum_Unnamed7`.
#[derive(PartialEq, Eq, Structural, Clone, Copy, Debug)]
pub enum Enum_Unnamed7 {
    PTHREAD_RWLOCK_PREFER_READER_NP,
    PTHREAD_RWLOCK_PREFER_WRITER_NP,
    PTHREAD_RWLOCK_PREFER_WRITER_NONRECURSIVE_NP,
}

impl Enum_Unnamed7 {
    /// The value of the variant in the C enumeration.
    pub open spec fn spec_value(self) -> u32 {
        match self {
            Enum_Unnamed7::PTHREAD_RWLOCK_PREFER_READER_NP => 0,
            Enum_Unnamed7::PTHREAD_RWLOCK_PREFER_WRITER_NP => 1,
            Enum_Unnamed7::PTHREAD_RWLOCK_PREFER_WRITER_NONRECURSIVE_NP => 2,
        }
    }

    /// The value of the variant in the C enumeration.
    pub fn value(&self) -> (v: u32)
        ensures
            v == self.spec_value(),
    {
        match self {
            Enum_Unnamed7::PTHREAD_RWLOCK_PREFER_READER_NP => 0,
            Enum_Unnamed7::PTHREAD_RWLOCK_PREFER_WRITER_NP => 1,
            Enum_Unnamed7::PTHREAD_RWLOCK_PREFER_WRITER_NONRECURSIVE_NP => 2,
        }
    }
}

/// The C enumeration `Enum_Unnamed8`.
#[derive(PartialEq, Eq, Structural, Clone, Copy, Debug)]
pub enum Enum_Unnamed8 {
    PTHREAD_INHERIT_SCHED,
    PTHREAD_EXPLICIT_SCHED,
}

impl Enum_Unnamed8 {
    /// The value of the variant in the C enumeration.
    pub open spec fn spec_value(self) -> u32 {
        match self {
            Enum_Unnamed8::PTHREAD_INHERIT_SCHED => 0,
            Enum_Unnamed8::PTHREAD_EXPLICIT_SCHED => 1,
        }
    }

    /// The value of the variant in the C enumeration.
    pub fn value(&self) -> (v: u32)
        ensures
            v == self.spec_value(),
    {
        match self {
            Enum_Unnamed8::PTHREAD_INHERIT_SCHED => 0,
            Enum_Unnamed8::PTHREAD_EXPLICIT_SCHED => 1,
        }
    }
}

/// The C enumeration `Enum_Unnamed9`.
#[derive(PartialEq, Eq, Structural, Clone, Copy, Debug)]
pub enum Enum_Unnamed9 {
    PTHREAD_SCOPE_SYSTEM,
    PTHREAD_SCOPE_PROCESS,
}

impl Enum_Unnamed9 {
    /// The value of the variant in the C enumeration.
    pub open spec fn spec_value(self) -> u32 {
        match self {
            Enum_Unnamed9::PTHREAD_SCOPE_SYSTEM => 0,
            Enum_Unnamed9::PTHREAD_SCOPE_PROCESS => 1,
        }
    }

    /// The value of the variant in the C enumeration.
    pub fn value(&self) -> (v: u32)
        ensures
            v == self.spec_value(),
    {
        match self {
            Enum_Unnamed9::PTHREAD_SCOPE_SYSTEM => 0,
            Enum_Unnamed9::PTHREAD_SCOPE_PROCESS => 1,
        }
    }
}

/// The C enumeration `Enum_Unnamed10`.
#[derive(PartialEq, Eq, Structural, Clone, Copy, Debug)]
pub enum Enum_Unnamed10 {
    PTHREAD_PROCESS_PRIVATE,
    PTHREAD_PROCESS_SHARED,
}

impl Enum_Unnamed10 {
    /// The value of the variant in the C enumeration.
    pub open spec fn spec_value(self) -> u32 {
        match self {
            Enum_Unnamed10::PTHREAD_PROCESS_PRIVATE => 0,
            Enum_Unnamed10::PTHREAD_PROCESS_SHARED => 1,
        }
    }

    /// The value of the variant in the C enumeration.
    pub fn value(&self) -> (v: u32)
        ensures
            v == self.spec_value(),
    {
        match self {
            Enum_Unnamed10::PTHREAD_PROCESS_PRIVATE => 0,
            Enum_Unnamed10::PTHREAD_PROCESS_SHARED => 1,
        }
    }
}

/// The C enumeration `Enum_Unnamed11`.
#[derive(PartialEq, Eq, Structural, Clone, Copy, Debug)]
pub enum Enum_Unnamed11 {
    PTHREAD_CANCEL_ENABLE,
    PTHREAD_CANCEL_DISABLE,
}

impl Enum_Unnamed11 {
    /// The value of the variant in the C enumeration.
    pub open spec fn spec_value(self) -> u32 {
        match self {
            Enum_Unnamed11::PTHREAD_CANCEL_ENABLE => 0,
            Enum_Unnamed11::PTHREAD_CANCEL_DISABLE => 1,
        }
    }

    /// The value of the variant in the C enumeration.
    pub fn value(&self) -> (v: u32)
        ensures
            v == self.spec_value(),
    {
        match self {
            Enum_Unnamed11::PTHREAD_CANCEL_ENABLE => 0,
            Enum_Unnamed11::PTHREAD_CANCEL_DISABLE => 1,
        }
    }
}

/// The C enumeration `Enum_Unnamed12`.
#[derive(PartialEq, Eq, Structural, Clone, Copy, Debug)]
pub enum Enum_Unnamed12 {
    PTHREAD_CANCEL_DEFERRED,
    PTHREAD_CANCEL_ASYNCHRONOUS,
}

impl Enum_Unnamed12 {
    /// The value of the variant in the C enumeration.
    pub open spec fn spec_value(self) -> u32 {
        match self {
            Enum_Unnamed12::PTHREAD_CANCEL_DEFERRED => 0,
            Enum_Unnamed12::PTHREAD_CANCEL_ASYNCHRONOUS => 1,
        }
    }

    /// The value of the variant in the C enumeration.
    pub fn value(&self) -> (v: u32)
        ensures
            v == self.spec_value(),
    {
        match self {
            Enum_Unnamed12::PTHREAD_CANCEL_DEFERRED => 0,
            Enum_Unnamed12::PTHREAD_CANCEL_ASYNCHRONOUS => 1,
        }
    }
}

} // verus!

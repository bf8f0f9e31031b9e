//! The registry of native kernels: one write-once slot per kernel identity, and
//! the write-once choice of how complex scalars are returned.
//!
//! A kernel is known to the registry by a handle, the address of its entry
//! point. The registry never calls a kernel and never looks at a handle; it
//! keeps what it was given and hands it back unchanged.

use vstd::prelude::*;
use crate::kernel::{Domain, KernelId, Operation, Precision, SLOT_COUNT};
use crate::types::ComplexReturnStyle;

verus! {

/// Why the registry refused a request.
#[derive(Debug, Clone, Copy, PartialEq, Eq, Structural)]
pub enum RegistryError {
    /// The slot of this kernel already holds a handle.
    AlreadyRegistered(KernelId),
    /// The slot of this kernel holds no handle.
    NotRegistered(KernelId),
    /// The complex return style was chosen before.
    StyleAlreadySet,
}

/// What a registry holds, as a mathematical value.
pub struct RegistryState {
    /// The handle of each registered kernel.
    pub kernels: Map<KernelId, usize>,
    /// The complex return style, once chosen.
    pub style: Option<ComplexReturnStyle>,
}

impl RegistryState {
    /// The state in which nothing is registered and no style is chosen.
    pub open spec fn empty() -> RegistryState {
        RegistryState { kernels: Map::empty(), style: None }
    }

    /// Whether the slot of `kernel` holds a handle.
    pub open spec fn is_registered(self, kernel: KernelId) -> bool {
        self.kernels.contains_key(kernel)
    }

    /// The state after `handle` was written into the slot of `kernel`.
    pub open spec fn with_kernel(self, kernel: KernelId, handle: usize) -> RegistryState {
        RegistryState { kernels: self.kernels.insert(kernel, handle), style: self.style }
    }

    /// The state after `style` was chosen.
    pub open spec fn with_style(self, style: ComplexReturnStyle) -> RegistryState {
        RegistryState { kernels: self.kernels, style: Some(style) }
    }

    /// The answer to a request to register `handle` for `kernel`, and the state
    /// after it: a full slot refuses and keeps what it holds.
    pub open spec fn register(self, kernel: KernelId, handle: usize) -> (
        Result<(), RegistryError>,
        RegistryState,
    ) {
        if self.is_registered(kernel) {
            (Err(RegistryError::AlreadyRegistered(kernel)), self)
        } else {
            (Ok(()), self.with_kernel(kernel, handle))
        }
    }

    /// The answer to a query for the handle of `kernel`.
    pub open spec fn lookup(self, kernel: KernelId) -> Result<usize, RegistryError> {
        if self.is_registered(kernel) {
            Ok(self.kernels[kernel])
        } else {
            Err(RegistryError::NotRegistered(kernel))
        }
    }

    /// The answer to a request to choose `style`, and the state after it: a
    /// style once chosen stays.
    pub open spec fn set_style(self, style: ComplexReturnStyle) -> (
        Result<(), RegistryError>,
        RegistryState,
    ) {
        if self.style is Some {
            (Err(RegistryError::StyleAlreadySet), self)
        } else {
            (Ok(()), self.with_style(style))
        }
    }

    /// The style in force: the chosen one, or `ReturnValue` while none is chosen.
    pub open spec fn effective_style(self) -> ComplexReturnStyle {
        match self.style {
            Some(style) => style,
            None => ComplexReturnStyle::ReturnValue,
        }
    }
}

/// The kernel slots and the complex return style of one process.
pub struct Registry {
    slots: Vec<Option<usize>>,
    style: Option<ComplexReturnStyle>,
}

impl View for Registry {
    type V = RegistryState;

    closed spec fn view(&self) -> RegistryState {
        RegistryState {
            kernels: Map::new(
                |k: KernelId| self.slots@[k.slot_of()] is Some,
                |k: KernelId| self.slots@[k.slot_of()]->Some_0,
            ),
            style: self.style,
        }
    }
}

impl Registry {
    #[verifier::type_invariant]
    spec fn well_formed(&self) -> bool {
        self.slots@.len() == SLOT_COUNT
    }

    /// A registry in which nothing is registered and no style is chosen.
    pub fn new() -> (reg: Registry)
        ensures
            reg@ == RegistryState::empty(),
    {
        let mut slots: Vec<Option<usize>> = Vec::new();
        let mut i: usize = 0;
        while i < SLOT_COUNT
            invariant
                i <= SLOT_COUNT,
                slots@.len() == i,
                forall|j: int| 0 <= j < i ==> slots@[j] is None,
            decreases SLOT_COUNT - i,
        {
            slots.push(None);
            i = i + 1;
        }
        let reg = Registry { slots, style: None };
        proof {
            assert forall|k: KernelId| !(#[trigger] reg@.kernels.contains_key(k)) by {
                KernelId::slot_is_one_to_one(k, k);
            }
            assert(reg@.kernels =~= Map::empty());
        }
        reg
    }

    /// Whether the slot of `kernel` holds a handle. Never fails.
    pub fn is_registered(&self, kernel: KernelId) -> (yes: bool)
        ensures
            yes == self@.is_registered(kernel),
    {
        proof {
            use_type_invariant(self);
        }
        self.slots[kernel.slot()].is_some()
    }

    /// Registers `handle` as the kernel `kernel`, unless the slot is full: then
    /// the request is refused and the registry stays as it was.
    pub fn try_register(&mut self, kernel: KernelId, handle: usize) -> (res: Result<
        (),
        RegistryError,
    >)
        ensures
            (res, final(self)@) == old(self)@.register(kernel, handle),
    {
        proof {
            use_type_invariant(&*self);
        }
        let i = kernel.slot();
        if self.slots[i].is_some() {
            Err(RegistryError::AlreadyRegistered(kernel))
        } else {
            self.slots[i] = Some(handle);
            proof {
                assert forall|k: KernelId|
                    #[trigger] self@.kernels.contains_key(k) == old(self)@.with_kernel(
                        kernel,
                        handle,
                    ).kernels.contains_key(k) by {
                    KernelId::slot_is_one_to_one(k, kernel);
                }
                assert forall|k: KernelId| #[trigger]
                    self@.kernels.contains_key(k) implies self@.kernels[k] == old(
                    self,
                )@.with_kernel(kernel, handle).kernels[k] by {
                    KernelId::slot_is_one_to_one(k, kernel);
                }
                assert(self@.kernels =~= old(self)@.with_kernel(kernel, handle).kernels);
            }
            Ok(())
        }
    }

    /// Registers `handle` as the kernel `kernel`. The slot must be empty: a
    /// kernel is registered once.
    pub fn register(&mut self, kernel: KernelId, handle: usize)
        requires
            !old(self)@.is_registered(kernel),
        ensures
            final(self)@ == old(self)@.with_kernel(kernel, handle),
    {
        let _ = self.try_register(kernel, handle);
    }

    /// The handle of `kernel`, or the refusal `NotRegistered` while its slot is
    /// empty.
    pub fn lookup(&self, kernel: KernelId) -> (res: Result<usize, RegistryError>)
        ensures
            res == self@.lookup(kernel),
    {
        proof {
            use_type_invariant(self);
        }
        match self.slots[kernel.slot()] {
            Some(handle) => Ok(handle),
            None => Err(RegistryError::NotRegistered(kernel)),
        }
    }

    /// The handle of `kernel`, which must be registered.
    pub fn get(&self, kernel: KernelId) -> (handle: usize)
        requires
            self@.is_registered(kernel),
        ensures
            handle == self@.kernels[kernel],
    {
        proof {
            use_type_invariant(self);
        }
        self.slots[kernel.slot()].unwrap()
    }

    /// Chooses the complex return style, unless one was chosen before: then the
    /// request is refused and the registry stays as it was.
    pub fn try_set_complex_return_style(&mut self, style: ComplexReturnStyle) -> (res: Result<
        (),
        RegistryError,
    >)
        ensures
            (res, final(self)@) == old(self)@.set_style(style),
    {
        proof {
            use_type_invariant(&*self);
        }
        if self.style.is_some() {
            Err(RegistryError::StyleAlreadySet)
        } else {
            self.style = Some(style);
            proof {
                assert(self@.kernels =~= old(self)@.kernels);
            }
            Ok(())
        }
    }

}

/// Chooses, once for the process, how the complex dot-product kernels return
/// their result. It must be called before any of those kernels is registered or
/// called, and no style may have been chosen before.
pub fn set_complex_return_style(reg: &mut Registry, style: ComplexReturnStyle)
    requires
        old(reg)@.style is None,
    ensures
        final(reg)@ == old(reg)@.with_style(style),
{
    let _ = reg.try_set_complex_return_style(style);
}

/// The complex return style in force: the chosen one, or `ReturnValue` while
/// none is chosen.
pub fn get_complex_return_style(reg: &Registry) -> (style: ComplexReturnStyle)
    ensures
        style == reg@.effective_style(),
{
    match reg.style {
        Some(style) => style,
        None => ComplexReturnStyle::ReturnValue,
    }
}

/// The identity of the general matrix product at double precision over the reals.
pub open spec fn dgemm_id() -> KernelId {
    KernelId { op: Operation::Gemm, precision: Precision::Double, domain: Domain::Real }
}

/// The identity of the general matrix product at single precision over the reals.
pub open spec fn sgemm_id() -> KernelId {
    KernelId { op: Operation::Gemm, precision: Precision::Single, domain: Domain::Real }
}

/// The identity of the general matrix product at double precision over the
/// complex numbers.
pub open spec fn zgemm_id() -> KernelId {
    KernelId { op: Operation::Gemm, precision: Precision::Double, domain: Domain::Complex }
}

/// The identity of the general matrix product at single precision over the
/// complex numbers.
pub open spec fn cgemm_id() -> KernelId {
    KernelId { op: Operation::Gemm, precision: Precision::Single, domain: Domain::Complex }
}

/// Whether `dgemm` is registered.
pub fn is_dgemm_registered(reg: &Registry) -> (yes: bool)
    ensures
        yes == reg@.is_registered(dgemm_id()),
{
    reg.is_registered(KernelId::d(Operation::Gemm))
}

/// Whether `sgemm` is registered.
pub fn is_sgemm_registered(reg: &Registry) -> (yes: bool)
    ensures
        yes == reg@.is_registered(sgemm_id()),
{
    reg.is_registered(KernelId::s(Operation::Gemm))
}

/// Whether `zgemm` is registered.
pub fn is_zgemm_registered(reg: &Registry) -> (yes: bool)
    ensures
        yes == reg@.is_registered(zgemm_id()),
{
    reg.is_registered(KernelId::z(Operation::Gemm))
}

/// Whether `cgemm` is registered.
pub fn is_cgemm_registered(reg: &Registry) -> (yes: bool)
    ensures
        yes == reg@.is_registered(cgemm_id()),
{
    reg.is_registered(KernelId::c(Operation::Gemm))
}

/// A slot is written at most once: after any request to register a kernel, a
/// further request for the same kernel is refused and changes nothing, and the
/// slot still holds the handle it held after the first request.
pub proof fn registering_twice_fails(
    state: RegistryState,
    kernel: KernelId,
    first: usize,
    second: usize,
)
    ensures
        ({
            let after_first = state.register(kernel, first).1;
            let (answer, after_second) = after_first.register(kernel, second);
            &&& answer == Err::<(), RegistryError>(RegistryError::AlreadyRegistered(kernel))
            &&& after_second == after_first
            &&& after_first.lookup(kernel) == Ok::<usize, RegistryError>(
                if state.is_registered(kernel) {
                    state.kernels[kernel]
                } else {
                    first
                },
            )
        }),
{
}

/// A query for a kernel that was never registered is refused: nothing is
/// registered at the start, and registering one kernel fills no other slot.
pub proof fn unregistered_lookup_fails(
    state: RegistryState,
    kernel: KernelId,
    other: KernelId,
    handle: usize,
)
    ensures
        RegistryState::empty().lookup(kernel) == Err::<usize, RegistryError>(
            RegistryError::NotRegistered(kernel),
        ),
        !state.is_registered(kernel) && other != kernel ==> state.register(other, handle).1.lookup(
            kernel,
        ) == Err::<usize, RegistryError>(RegistryError::NotRegistered(kernel)),
        state.lookup(kernel) is Ok <==> state.is_registered(kernel),
        state.set_style(ComplexReturnStyle::HiddenArgument).1.lookup(kernel) == state.lookup(
            kernel,
        ),
{
}

/// The complex return style, once chosen, stays: a further choice is refused
/// and changes nothing, registering a kernel does not touch it, and the style in
/// force is the chosen one from then on.
pub proof fn chosen_style_is_permanent(
    state: RegistryState,
    chosen: ComplexReturnStyle,
    later: ComplexReturnStyle,
    kernel: KernelId,
    handle: usize,
)
    requires
        state.style == Some(chosen),
    ensures
        state.set_style(later) == (
            Err::<(), RegistryError>(RegistryError::StyleAlreadySet),
            state,
        ),
        state.register(kernel, handle).1.style == Some(chosen),
        state.effective_style() == chosen,
        state.register(kernel, handle).1.effective_style() == chosen,
{
}

} // verus!

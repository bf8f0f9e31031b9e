//! Decisions taken next to a kernel call that do not depend on the storage
//! order: under which of its two signatures a complex dot-product kernel is
//! called, and how the index that a kernel returns is handed to a C caller.
//!
//! A Fortran function that returns a complex number does so in one of two
//! ways that cannot be told apart from outside: as its result, or through an
//! extra leading pointer argument. The registry holds the one style that the
//! process uses. Calling a kernel under the other one is undefined: whoever
//! registers one of the four kernels vouches that it follows the style in force.

use vstd::prelude::*;
use crate::kernel::{Domain, KernelId, Operation, Precision};
use crate::registry::{get_complex_return_style, Registry, RegistryError, RegistryState};
use crate::types::{blasint, ComplexReturnStyle, CBLAS_INDEX};

verus! {

/// The four kernels that return a complex scalar.
#[derive(Debug, Clone, Copy, PartialEq, Eq, Structural)]
pub enum ComplexDot {
    /// Single precision, neither vector conjugated.
    Cdotu,
    /// Double precision, neither vector conjugated.
    Zdotu,
    /// Single precision, the first vector conjugated.
    Cdotc,
    /// Double precision, the first vector conjugated.
    Zdotc,
}

/// What is needed to call a complex dot-product kernel: its handle, and the
/// signature under which to call it.
#[derive(Debug, Clone, Copy, PartialEq, Eq, Structural)]
pub struct DotCall {
    pub handle: usize,
    pub style: ComplexReturnStyle,
}

impl ComplexDot {
    /// The identity under which the kernel is registered.
    pub open spec fn id_of(self) -> KernelId {
        match self {
            ComplexDot::Cdotu => KernelId {
                op: Operation::Dotu,
                precision: Precision::Single,
                domain: Domain::Complex,
            },
            ComplexDot::Zdotu => KernelId {
                op: Operation::Dotu,
                precision: Precision::Double,
                domain: Domain::Complex,
            },
            ComplexDot::Cdotc => KernelId {
                op: Operation::Dotc,
                precision: Precision::Single,
                domain: Domain::Complex,
            },
            ComplexDot::Zdotc => KernelId {
                op: Operation::Dotc,
                precision: Precision::Double,
                domain: Domain::Complex,
            },
        }
    }

    /// The identity under which the kernel is registered.
    pub fn id(self) -> (id: KernelId)
        ensures
            id == self.id_of(),
    {
        match self {
            ComplexDot::Cdotu => KernelId::c(Operation::Dotu),
            ComplexDot::Zdotu => KernelId::z(Operation::Dotu),
            ComplexDot::Cdotc => KernelId::c(Operation::Dotc),
            ComplexDot::Zdotc => KernelId::z(Operation::Dotc),
        }
    }
}

/// How a complex dot-product kernel is to be called in a given state of the
/// registry: its handle under the style in force, or the refusal
/// `NotRegistered`.
pub open spec fn dot_call_of(state: RegistryState, which: ComplexDot) -> Result<
    DotCall,
    RegistryError,
> {
    match state.lookup(which.id_of()) {
        Ok(handle) => Ok(DotCall { handle, style: state.effective_style() }),
        Err(e) => Err(e),
    }
}

/// Decides how to call a complex dot-product kernel: fetches its handle and
/// pairs it with the style in force. An unregistered kernel is refused before
/// anything is called.
pub fn dispatch_complex_dot(reg: &Registry, which: ComplexDot) -> (res: Result<
    DotCall,
    RegistryError,
>)
    ensures
        res == dot_call_of(reg@, which),
{
    match reg.lookup(which.id()) {
        Ok(handle) => Ok(DotCall { handle, style: get_complex_return_style(reg) }),
        Err(e) => Err(e),
    }
}

/// The handle of `cdotu`, which must be registered.
pub fn get_cdotu_ptr(reg: &Registry) -> (handle: usize)
    requires
        reg@.is_registered(ComplexDot::Cdotu.id_of()),
    ensures
        handle == reg@.kernels[ComplexDot::Cdotu.id_of()],
{
    reg.get(ComplexDot::Cdotu.id())
}

/// The handle of `zdotu`, which must be registered.
pub fn get_zdotu_ptr(reg: &Registry) -> (handle: usize)
    requires
        reg@.is_registered(ComplexDot::Zdotu.id_of()),
    ensures
        handle == reg@.kernels[ComplexDot::Zdotu.id_of()],
{
    reg.get(ComplexDot::Zdotu.id())
}

/// The handle of `cdotc`, which must be registered.
pub fn get_cdotc_ptr(reg: &Registry) -> (handle: usize)
    requires
        reg@.is_registered(ComplexDot::Cdotc.id_of()),
    ensures
        handle == reg@.kernels[ComplexDot::Cdotc.id_of()],
{
    reg.get(ComplexDot::Cdotc.id())
}

/// The handle of `zdotc`, which must be registered.
pub fn get_zdotc_ptr(reg: &Registry) -> (handle: usize)
    requires
        reg@.is_registered(ComplexDot::Zdotc.id_of()),
    ensures
        handle == reg@.kernels[ComplexDot::Zdotc.id_of()],
{
    reg.get(ComplexDot::Zdotc.id())
}

/// The index that a C caller receives for the index a Fortran kernel returns.
pub open spec fn zero_based(one_based: int) -> int {
    if one_based > 0 {
        one_based - 1
    } else {
        0
    }
}

/// Converts the one-based index that an index-of-maximum kernel returns to the
/// zero-based index of the C convention. A kernel returns zero for an empty
/// vector; that, and anything below, becomes zero.
pub fn zero_based_index(one_based: blasint) -> (index: CBLAS_INDEX)
    ensures
        index == zero_based(one_based as int),
{
    if one_based > 0 {
        one_based - 1
    } else {
        0
    }
}

/// One style governs all four kernels: in any state each of them, if
/// registered, is called under the style in force; once a style is chosen that
/// style is the one in force, and neither a further choice nor a registration
/// changes under which style any of them is called.
pub proof fn one_style_governs_all_dots(
    state: RegistryState,
    which: ComplexDot,
    chosen: ComplexReturnStyle,
    later: ComplexReturnStyle,
    kernel: KernelId,
    handle: usize,
)
    ensures
        dot_call_of(state, which) is Ok <==> state.is_registered(which.id_of()),
        dot_call_of(state, which) matches Ok(call) ==> call.style == state.effective_style()
            && call.handle == state.kernels[which.id_of()],
        state.style is None ==> (dot_call_of(state.set_style(chosen).1, which) matches Ok(call)
            ==> call.style == chosen),
        state.style == Some(chosen) ==> (dot_call_of(state.set_style(later).1, which) matches Ok(
            call,
        ) ==> call.style == chosen),
        state.style == Some(chosen) ==> (dot_call_of(
            state.register(kernel, handle).1,
            which,
        ) matches Ok(call) ==> call.style == chosen),
{
}

} // verus!

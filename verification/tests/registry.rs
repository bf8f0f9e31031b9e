use cblas_inject::{
    dispatch_complex_dot, get_cdotc_ptr, get_cdotu_ptr, get_complex_return_style, get_zdotc_ptr,
    get_zdotu_ptr, is_cgemm_registered, is_dgemm_registered, is_sgemm_registered,
    is_zgemm_registered, set_complex_return_style, zero_based_index, ComplexDot,
    ComplexReturnStyle, DotCall, Domain, KernelId, Operation, Precision, Registry, RegistryError,
};

#[test]
fn nothing_is_registered_at_first() {
    let reg = Registry::new();
    assert!(!is_dgemm_registered(&reg));
    assert!(!is_sgemm_registered(&reg));
    assert!(!is_zgemm_registered(&reg));
    assert!(!is_cgemm_registered(&reg));
    assert!(!reg.is_registered(KernelId::s(Operation::Swap)));
    assert!(!reg.is_registered(KernelId::z(Operation::Trsm)));
}

#[test]
fn getter_before_registration_fails() {
    let reg = Registry::new();
    let dgemv = KernelId::d(Operation::Gemv);
    assert_eq!(reg.lookup(dgemv), Err(RegistryError::NotRegistered(dgemv)));
    assert_eq!(
        dispatch_complex_dot(&reg, ComplexDot::Zdotc),
        Err(RegistryError::NotRegistered(KernelId::z(Operation::Dotc)))
    );
}

#[test]
fn registered_handle_comes_back() {
    let mut reg = Registry::new();
    let dgemm = KernelId::d(Operation::Gemm);
    assert_eq!(reg.try_register(dgemm, 0x1000), Ok(()));
    assert!(is_dgemm_registered(&reg));
    assert!(!is_sgemm_registered(&reg));
    assert!(!is_zgemm_registered(&reg));
    assert!(!is_cgemm_registered(&reg));
    assert_eq!(reg.lookup(dgemm), Ok(0x1000));
    assert_eq!(reg.get(dgemm), 0x1000);
}

#[test]
fn registering_twice_is_refused_and_keeps_the_first() {
    let mut reg = Registry::new();
    let sgemm = KernelId::s(Operation::Gemm);
    reg.register(sgemm, 11);
    assert_eq!(reg.try_register(sgemm, 22), Err(RegistryError::AlreadyRegistered(sgemm)));
    assert_eq!(reg.get(sgemm), 11);
    assert_eq!(reg.try_register(sgemm, 11), Err(RegistryError::AlreadyRegistered(sgemm)));
    assert_eq!(reg.lookup(sgemm), Ok(11));
}

#[test]
fn every_kernel_has_a_slot_of_its_own() {
    let ops = [
        Operation::Swap, Operation::Copy, Operation::Axpy, Operation::Scal, Operation::RealScal,
        Operation::Rot, Operation::Rotg, Operation::Rotm, Operation::Rotmg, Operation::Cabs1,
        Operation::Dot, Operation::Dotu, Operation::Dotc, Operation::Sdsdot, Operation::Dsdot,
        Operation::Nrm2, Operation::Asum, Operation::Iamax, Operation::Gemv, Operation::Gbmv,
        Operation::Symv, Operation::Hemv, Operation::Sbmv, Operation::Hbmv, Operation::Spmv,
        Operation::Hpmv, Operation::Trmv, Operation::Trsv, Operation::Tbmv, Operation::Tbsv,
        Operation::Tpmv, Operation::Tpsv, Operation::Ger, Operation::Geru, Operation::Gerc,
        Operation::Syr, Operation::Her, Operation::Syr2, Operation::Her2, Operation::Spr,
        Operation::Hpr, Operation::Spr2, Operation::Hpr2, Operation::Gemm, Operation::Symm,
        Operation::Hemm, Operation::Syrk, Operation::Herk, Operation::Syr2k, Operation::Her2k,
        Operation::Trmm, Operation::Trsm,
    ];
    let mut reg = Registry::new();
    let mut ids = Vec::new();
    for op in ops {
        for precision in [Precision::Single, Precision::Double] {
            for domain in [Domain::Real, Domain::Complex] {
                ids.push(KernelId::new(op, precision, domain));
            }
        }
    }
    assert_eq!(ids.len(), 208);
    for (i, id) in ids.iter().enumerate() {
        assert_eq!(id.slot(), i);
        assert!(!reg.is_registered(*id));
        assert_eq!(reg.try_register(*id, 1000 + i), Ok(()));
    }
    for (i, id) in ids.iter().enumerate() {
        assert_eq!(reg.lookup(*id), Ok(1000 + i));
    }
}

#[test]
fn kernel_letters_name_precision_and_domain() {
    assert_eq!(
        KernelId::s(Operation::Dot),
        KernelId { op: Operation::Dot, precision: Precision::Single, domain: Domain::Real }
    );
    assert_eq!(
        KernelId::d(Operation::Dot),
        KernelId { op: Operation::Dot, precision: Precision::Double, domain: Domain::Real }
    );
    assert_eq!(
        KernelId::c(Operation::Dotu),
        KernelId { op: Operation::Dotu, precision: Precision::Single, domain: Domain::Complex }
    );
    assert_eq!(
        KernelId::z(Operation::Dotu),
        KernelId { op: Operation::Dotu, precision: Precision::Double, domain: Domain::Complex }
    );
    assert_eq!(ComplexDot::Cdotu.id(), KernelId::c(Operation::Dotu));
    assert_eq!(ComplexDot::Zdotu.id(), KernelId::z(Operation::Dotu));
    assert_eq!(ComplexDot::Cdotc.id(), KernelId::c(Operation::Dotc));
    assert_eq!(ComplexDot::Zdotc.id(), KernelId::z(Operation::Dotc));
}

#[test]
fn style_defaults_to_return_value() {
    let reg = Registry::new();
    assert_eq!(get_complex_return_style(&reg), ComplexReturnStyle::ReturnValue);
}

#[test]
fn style_is_set_once() {
    let mut reg = Registry::new();
    set_complex_return_style(&mut reg, ComplexReturnStyle::HiddenArgument);
    assert_eq!(get_complex_return_style(&reg), ComplexReturnStyle::HiddenArgument);
    assert_eq!(
        reg.try_set_complex_return_style(ComplexReturnStyle::ReturnValue),
        Err(RegistryError::StyleAlreadySet)
    );
    assert_eq!(get_complex_return_style(&reg), ComplexReturnStyle::HiddenArgument);
    assert_eq!(
        reg.try_set_complex_return_style(ComplexReturnStyle::HiddenArgument),
        Err(RegistryError::StyleAlreadySet)
    );
}

#[test]
fn explicit_return_value_style_cannot_be_changed_either() {
    let mut reg = Registry::new();
    assert_eq!(reg.try_set_complex_return_style(ComplexReturnStyle::ReturnValue), Ok(()));
    assert_eq!(
        reg.try_set_complex_return_style(ComplexReturnStyle::HiddenArgument),
        Err(RegistryError::StyleAlreadySet)
    );
    assert_eq!(get_complex_return_style(&reg), ComplexReturnStyle::ReturnValue);
}

#[test]
fn the_style_governs_all_four_dot_kernels() {
    let mut reg = Registry::new();
    set_complex_return_style(&mut reg, ComplexReturnStyle::HiddenArgument);
    reg.register(ComplexDot::Cdotu.id(), 1);
    reg.register(ComplexDot::Zdotu.id(), 2);
    reg.register(ComplexDot::Cdotc.id(), 3);
    reg.register(ComplexDot::Zdotc.id(), 4);
    let hidden = ComplexReturnStyle::HiddenArgument;
    assert_eq!(
        dispatch_complex_dot(&reg, ComplexDot::Cdotu),
        Ok(DotCall { handle: 1, style: hidden })
    );
    assert_eq!(
        dispatch_complex_dot(&reg, ComplexDot::Zdotu),
        Ok(DotCall { handle: 2, style: hidden })
    );
    assert_eq!(
        dispatch_complex_dot(&reg, ComplexDot::Cdotc),
        Ok(DotCall { handle: 3, style: hidden })
    );
    assert_eq!(
        dispatch_complex_dot(&reg, ComplexDot::Zdotc),
        Ok(DotCall { handle: 4, style: hidden })
    );
    assert_eq!(get_cdotu_ptr(&reg), 1);
    assert_eq!(get_zdotu_ptr(&reg), 2);
    assert_eq!(get_cdotc_ptr(&reg), 3);
    assert_eq!(get_zdotc_ptr(&reg), 4);
}

#[test]
fn dots_use_return_value_while_no_style_is_chosen() {
    let mut reg = Registry::new();
    reg.register(ComplexDot::Zdotc.id(), 77);
    assert_eq!(
        dispatch_complex_dot(&reg, ComplexDot::Zdotc),
        Ok(DotCall { handle: 77, style: ComplexReturnStyle::ReturnValue })
    );
    assert_eq!(
        dispatch_complex_dot(&reg, ComplexDot::Cdotc),
        Err(RegistryError::NotRegistered(KernelId::c(Operation::Dotc)))
    );
}

#[test]
fn kernel_index_becomes_zero_based() {
    assert_eq!(zero_based_index(1), 0);
    assert_eq!(zero_based_index(5), 4);
    assert_eq!(zero_based_index(0), 0);
    assert_eq!(zero_based_index(-3), 0);
    assert_eq!(zero_based_index(i32::MAX), i32::MAX - 1);
    assert_eq!(zero_based_index(i32::MIN), 0);
}

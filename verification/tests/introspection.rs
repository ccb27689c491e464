use guga_ura::symbols::{
    c_string, class_found, get_assembly_image, AssemblyImage, LookupError, RuntimeApi, API_SYMBOLS,
};
use guga_ura::types::{Il2CppClass, Il2CppDomain, Il2CppImage};

fn api() -> RuntimeApi {
    RuntimeApi {
        domain_get: 0x100,
        domain_get_assemblies: 0x200,
        assembly_get_image: 0x300,
        image_get_name: 0x400,
        class_from_name: 0x500,
        class_get_method_from_name: 0x600,
        resolve_icall: 0x700,
    }
}

fn assembly(image: usize, name: Option<&str>) -> AssemblyImage {
    AssemblyImage { image, name: name.map(|n| n.to_string()) }
}

#[test]
fn handles_are_never_null() {
    assert!(Il2CppDomain::from_addr(0).is_none());
    assert!(Il2CppImage::from_addr(0).is_none());
    assert!(Il2CppClass::from_addr(0).is_none());
    assert_eq!(Il2CppDomain::from_addr(0x10).map(|h| h.addr()), Some(0x10));
    assert_eq!(Il2CppImage::from_addr(0x20).map(|h| h.addr()), Some(0x20));
    assert_eq!(Il2CppClass::from_addr(usize::MAX).map(|h| h.addr()), Some(usize::MAX));
}

#[test]
fn api_symbols_name_the_entry_points_in_field_order() {
    assert_eq!(
        API_SYMBOLS,
        [
            "il2cpp_domain_get",
            "il2cpp_domain_get_assemblies",
            "il2cpp_assembly_get_image",
            "il2cpp_image_get_name",
            "il2cpp_class_from_name",
            "il2cpp_class_get_method_from_name",
            "il2cpp_resolve_icall",
        ]
    );
}

#[test]
fn init_needs_the_domain_accessor() {
    let mut missing = api();
    missing.domain_get = 0;
    assert!(guga_ura::symbols::init(missing).is_none());
    let layer = guga_ura::symbols::init(api()).expect("layer");
    assert_eq!(layer.domain_accessor(), 0x100);
}

#[test]
fn null_domain_means_not_ready() {
    let mut layer = guga_ura::symbols::init(api()).expect("layer");
    assert_eq!(layer.enumeration(), Err(LookupError::NotReady));
    assert!(!layer.set_domain(0));
    assert_eq!(layer.enumeration(), Err(LookupError::NotReady));
    assert!(layer.set_domain(0xd000));
    assert_eq!(layer.enumeration(), Ok((0xd000, 0x200, 0x300, 0x400)));
}

#[test]
fn enumeration_needs_its_three_entry_points() {
    for field in 0..3 {
        let mut partial = api();
        match field {
            0 => partial.domain_get_assemblies = 0,
            1 => partial.assembly_get_image = 0,
            _ => partial.image_get_name = 0,
        }
        let mut layer = guga_ura::symbols::init(partial).expect("layer");
        layer.set_domain(0xd000);
        assert_eq!(layer.enumeration(), Err(LookupError::Unresolved));
    }
}

#[test]
fn first_assembly_of_the_name_is_picked() {
    let assemblies = vec![
        assembly(0x10, Some("mscorlib.dll")),
        assembly(0x20, None),
        assembly(0x30, Some("umamusume.dll")),
        assembly(0x40, Some("umamusume.dll")),
    ];
    let image = get_assembly_image(&assemblies, "umamusume.dll").expect("image");
    assert_eq!(image.addr(), 0x30);
    let image = get_assembly_image(&assemblies, "mscorlib.dll").expect("image");
    assert_eq!(image.addr(), 0x10);
}

#[test]
fn assembly_names_are_matched_exactly() {
    let assemblies = vec![assembly(0x10, Some("Umamusume.dll")), assembly(0x20, Some("umamusume.dll.bak"))];
    assert!(matches!(get_assembly_image(&assemblies, "umamusume.dll"), Err(LookupError::NotFound)));
    assert!(matches!(get_assembly_image(&assemblies, "umamusume"), Err(LookupError::NotFound)));
    assert!(get_assembly_image(&assemblies, "Umamusume.dll").is_ok());
}

#[test]
fn no_assemblies_means_not_ready_rather_than_absent() {
    assert!(matches!(get_assembly_image(&[], "umamusume.dll"), Err(LookupError::NotReady)));
    let assemblies = vec![assembly(0x10, Some("mscorlib.dll"))];
    assert!(matches!(get_assembly_image(&assemblies, "umamusume.dll"), Err(LookupError::NotFound)));
}

#[test]
fn assembly_without_an_image_is_passed_over() {
    let assemblies = vec![assembly(0, Some("umamusume.dll")), assembly(0x50, Some("umamusume.dll"))];
    let image = get_assembly_image(&assemblies, "umamusume.dll").expect("image");
    assert_eq!(image.addr(), 0x50);
    let only_null = vec![assembly(0, Some("umamusume.dll"))];
    assert!(matches!(get_assembly_image(&only_null, "umamusume.dll"), Err(LookupError::NotFound)));
}

#[test]
fn c_string_appends_the_terminator() {
    assert_eq!(c_string("Gallop"), Some(b"Gallop\0".to_vec()));
    assert_eq!(c_string(""), Some(vec![0]));
    assert_eq!(c_string("é"), Some(vec![0xc3, 0xa9, 0]));
}

#[test]
fn c_string_refuses_an_inner_zero() {
    assert_eq!(c_string("Gal\0lop"), None);
    assert_eq!(c_string("\0"), None);
    assert_eq!(c_string("Gallop\0"), None);
}

#[test]
fn class_lookup_is_prepared_with_terminated_names() {
    let layer = guga_ura::symbols::init(api()).expect("layer");
    let image = Il2CppImage::from_addr(0x30).expect("image");
    let query = layer.get_class(&image, "Gallop", "HttpHelper").expect("query");
    assert_eq!(query.entry, 0x500);
    assert_eq!(query.image, 0x30);
    assert_eq!(query.namespace, b"Gallop\0".to_vec());
    assert_eq!(query.name, b"HttpHelper\0".to_vec());
    assert!(matches!(layer.get_class(&image, "Gal\0lop", "HttpHelper"), Err(LookupError::BadName)));
    assert!(matches!(layer.get_class(&image, "Gallop", "Http\0"), Err(LookupError::BadName)));
    let mut partial = api();
    partial.class_from_name = 0;
    let layer = guga_ura::symbols::init(partial).expect("layer");
    assert!(matches!(layer.get_class(&image, "Gallop", "HttpHelper"), Err(LookupError::Unresolved)));
}

#[test]
fn method_lookup_is_prepared_with_name_and_arity() {
    let layer = guga_ura::symbols::init(api()).expect("layer");
    let class = Il2CppClass::from_addr(0x40).expect("class");
    let query = layer.get_method_addr(&class, "CompressRequest", 1).expect("query");
    assert_eq!(query.entry, 0x600);
    assert_eq!(query.class, 0x40);
    assert_eq!(query.name, b"CompressRequest\0".to_vec());
    assert_eq!(query.args_count, 1);
    assert!(matches!(layer.get_method_addr(&class, "a\0b", 1), Err(LookupError::BadName)));
    let mut partial = api();
    partial.class_get_method_from_name = 0;
    let layer = guga_ura::symbols::init(partial).expect("layer");
    assert!(matches!(layer.get_method_addr(&class, "CompressRequest", 1), Err(LookupError::Unresolved)));
}

#[test]
fn icall_resolution_is_prepared_with_the_signature() {
    let layer = guga_ura::symbols::init(api()).expect("layer");
    let query = layer
        .resolve_icall("UnityEngine.Application::set_targetFrameRate(System.Int32)")
        .expect("query");
    assert_eq!(query.entry, 0x700);
    assert_eq!(
        query.signature,
        b"UnityEngine.Application::set_targetFrameRate(System.Int32)\0".to_vec()
    );
    let mut partial = api();
    partial.resolve_icall = 0;
    let layer = guga_ura::symbols::init(partial).expect("layer");
    assert!(matches!(layer.resolve_icall("x"), Err(LookupError::Unresolved)));
}

#[test]
fn null_class_means_not_found() {
    assert!(matches!(class_found(0), Err(LookupError::NotFound)));
    assert_eq!(class_found(0x40).map(|c| c.addr()).ok(), Some(0x40));
}
